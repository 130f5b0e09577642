//! Decimal and hexadecimal renderings of numbers, and the parsing of the
//! decimal index that the demo selector hands back.
use vstd::prelude::*;
use crate::text::push_char;

verus! {

/// The ASCII code of digit `d` (0 to 15) in upper-case hexadecimal.
pub open spec fn digit_code(d: nat) -> u8 {
    if d < 10 {
        (48 + d) as u8
    } else {
        (55 + d) as u8
    }
}

/// Digit `d` (0 to 15) as a character: `0`-`9`, then `A`-`F`.
pub open spec fn digit_char(d: nat) -> char {
    digit_code(d) as char
}

/// The digits of `n` in base `b` (2 to 16), most significant first, with no
/// leading zeros (and `0` for zero).
pub open spec fn digits(n: nat, b: nat) -> Seq<char>
    recommends
        2 <= b <= 16,
    decreases n,
{
    if n < b || b < 2 {
        seq![digit_char(n % 16)]
    } else {
        proof {
            assert(n / b < n) by (nonlinear_arith)
                requires
                    n >= b,
                    b >= 2,
            ;
        }
        digits(n / b, b).push(digit_char(n % b))
    }
}

/// `n` in decimal, as `{}` renders an unsigned integer.
pub open spec fn decimal(n: nat) -> Seq<char> {
    digits(n, 10)
}

/// `n` in upper-case hexadecimal, padded on the left with `0` to at least
/// `width` digits, as `{:0width$X}` renders it.
pub open spec fn hex_padded(n: nat, width: nat) -> Seq<char> {
    let h = digits(n, 16);
    if h.len() < width {
        Seq::new((width - h.len()) as nat, |i: int| '0') + h
    } else {
        h
    }
}

fn digit(d: u64) -> (c: char)
    requires
        d < 16,
    ensures
        c == digit_char(d as nat),
{
    let b: u8 = if d < 10 {
        48 + d as u8
    } else {
        55 + d as u8
    };
    b as char
}

/// Appends the digits of `n` in base `b` to `s`.
fn push_digits(s: &mut String, n: u64, b: u64)
    requires
        2 <= b <= 16,
    ensures
        final(s)@ == old(s)@ + digits(n as nat, b as nat),
    decreases n,
{
    if n >= b {
        assert(n / b < n) by (nonlinear_arith)
            requires
                n >= b,
                b >= 2,
        ;
        push_digits(s, n / b, b);
    }
    push_char(s, digit(n % b));
    proof {
        if n < b {
            assert(n % b == n && n as nat % 16 == n as nat) by (nonlinear_arith)
                requires
                    n < b,
                    b <= 16,
            ;
            assert(old(s)@ + seq![digit_char(n as nat % 16)] =~= old(s)@.push(
                digit_char(n as nat % b as nat),
            ));
        } else {
            assert(old(s)@ + digits(n as nat / b as nat, b as nat).push(digit_char(
                n as nat % b as nat,
            )) =~= (old(s)@ + digits(n as nat / b as nat, b as nat)).push(digit_char(
                n as nat % b as nat,
            )));
        }
    }
}

/// Appends `n` in decimal to `s`.
pub fn push_decimal(s: &mut String, n: u64)
    ensures
        final(s)@ == old(s)@ + decimal(n as nat),
{
    push_digits(s, n, 10);
}

/// `n` in decimal.
pub fn decimal_string(n: u64) -> (r: String)
    ensures
        r@ == decimal(n as nat),
{
    let mut r = String::new();
    push_decimal(&mut r, n);
    assert(Seq::<char>::empty() + decimal(n as nat) =~= decimal(n as nat));
    r
}

proof fn lemma_digits_len(n: nat, b: nat)
    ensures
        1 <= digits(n, b).len() <= n + 1,
    decreases n,
{
    if !(n < b || b < 2) {
        assert(n / b < n && n / b + 1 <= n) by (nonlinear_arith)
            requires
                n >= b,
                b >= 2,
        ;
        lemma_digits_len(n / b, b);
    }
}

fn hex_len(n: u64) -> (r: u64)
    ensures
        r == digits(n as nat, 16).len(),
    decreases n,
{
    if n < 16 {
        1
    } else {
        let k = hex_len(n / 16);
        proof {
            lemma_digits_len(n as nat / 16, 16);
        }
        k + 1
    }
}

/// Appends `n` in upper-case hexadecimal, zero-padded to `width` digits.
pub fn push_hex_padded(s: &mut String, n: u64, width: u64)
    ensures
        final(s)@ == old(s)@ + hex_padded(n as nat, width as nat),
{
    let h = hex_len(n);
    let ghost start = s@;
    if h < width {
        let mut i: u64 = 0;
        while i < width - h
            invariant
                i <= width - h,
                h < width,
                s@ == start + Seq::new(i as nat, |j: int| '0'),
            decreases width - h - i,
        {
            push_char(s, '0');
            assert(start + Seq::new((i + 1) as nat, |j: int| '0') =~= (start + Seq::new(
                i as nat,
                |j: int| '0',
            )).push('0'));
            i += 1;
        }
    }
    let ghost mid = s@;
    push_digits(s, n, 16);
    proof {
        if h < width {
            assert(s@ =~= start + hex_padded(n as nat, width as nat));
        } else {
            assert(mid =~= start);
        }
    }
}

// ---------------------------------------------------------------------------
// Parsing a decimal index
// ---------------------------------------------------------------------------

/// Whether `c` is an ASCII decimal digit.
pub open spec fn is_digit(c: char) -> bool {
    48 <= (c as u32) <= 57
}

/// The value of a run of decimal digits.
pub open spec fn digits_value(s: Seq<char>) -> nat
    decreases s.len(),
{
    if s.len() == 0 {
        0
    } else {
        digits_value(s.drop_last()) * 10 + ((s.last() as u32) - 48) as nat
    }
}

/// What `str::parse::<usize>()` accepts: an optional `+`, then one or more
/// decimal digits whose value fits in a `usize`.
pub open spec fn parses_as_usize(s: Seq<char>) -> bool {
    let d = unsigned_digits(s);
    &&& d.len() > 0
    &&& forall|i: int| 0 <= i < d.len() ==> #[trigger] is_digit(d[i])
    &&& digits_value(d) <= usize::MAX
}

/// `s` without a leading `+`.
pub open spec fn unsigned_digits(s: Seq<char>) -> Seq<char> {
    if s.len() > 0 && s[0] == '+' {
        s.drop_first()
    } else {
        s
    }
}

/// The index a demo selector value names: the parsed number, or
/// `usize::MAX` where the text is no `usize` (as `parse().unwrap_or(usize::MAX)`).
pub open spec fn demo_index_of(s: Seq<char>) -> usize {
    if parses_as_usize(s) {
        digits_value(unsigned_digits(s)) as usize
    } else {
        usize::MAX
    }
}

proof fn lemma_digits_value_grows(s: Seq<char>, k: int)
    requires
        0 <= k <= s.len(),
        forall|i: int| 0 <= i < s.len() ==> #[trigger] is_digit(s[i]),
    ensures
        digits_value(s.take(k)) <= digits_value(s),
    decreases s.len() - k,
{
    if k < s.len() {
        assert(s.drop_last().take(k) =~= s.take(k));
        assert forall|i: int| 0 <= i < s.drop_last().len() implies #[trigger] is_digit(
            s.drop_last()[i],
        ) by {
            assert(is_digit(s[i]));
        }
        lemma_digits_value_grows(s.drop_last(), k);
    } else {
        assert(s.take(k) =~= s);
    }
}

/// The demo index named by a selector value (see [`demo_index_of`]).
pub fn parse_demo_index(s: &str) -> (r: usize)
    ensures
        r == demo_index_of(s@),
{
    let cs = crate::text::chars_of(s);
    let start: usize = if cs.len() > 0 && cs[0] == '+' {
        1
    } else {
        0
    };
    let ghost d = unsigned_digits(s@);
    assert(d =~= cs@.skip(start as int));
    if start >= cs.len() {
        return usize::MAX;
    }
    let mut v: usize = 0;
    let mut i: usize = start;
    while i < cs.len()
        invariant
            start <= i <= cs.len(),
            cs@ == s@,
            d == unsigned_digits(s@),
            d =~= cs@.skip(start as int),
            forall|j: int| 0 <= j < i - start ==> #[trigger] is_digit(d[j]),
            v == digits_value(d.take(i - start)),
        decreases cs.len() - i,
    {
        let c = cs[i];
        if !(48 <= (c as u32) && (c as u32) <= 57) {
            assert(!is_digit(d[i - start]));
            assert(!parses_as_usize(s@));
            return usize::MAX;
        }
        let dv = (c as u32 - 48) as usize;
        assert(d.take(i - start + 1).drop_last() =~= d.take(i - start));
        if v > (usize::MAX - dv) / 10 {
            proof {
                let p = d.take(i - start + 1);
                assert(digits_value(p) > usize::MAX) by (nonlinear_arith)
                    requires
                        digits_value(p) == v * 10 + dv,
                        v > (usize::MAX - dv) / 10,
                        dv <= 9,
                ;
                if parses_as_usize(s@) {
                    assert forall|j: int| 0 <= j < d.len() implies #[trigger] is_digit(d[j]) by {}
                    lemma_digits_value_grows(d, i - start + 1);
                }
            }
            return usize::MAX;
        }
        assert(v * 10 + dv <= usize::MAX) by (nonlinear_arith)
            requires
                v <= (usize::MAX - dv) / 10,
                dv <= 9,
        ;
        v = v * 10 + dv;
        i += 1;
    }
    assert(d.take(d.len() as int) =~= d);
    v
}

/// A decimal rendering reads back as the number it renders.
pub proof fn lemma_decimal_digits(n: nat)
    ensures
        decimal(n).len() > 0,
        forall|i: int| 0 <= i < decimal(n).len() ==> #[trigger] is_digit(decimal(n)[i]),
        digits_value(decimal(n)) == n,
        decimal(n)[0] != '+',
    decreases n,
{
    if n < 10 {
        assert(n % 16 == n);
        assert(decimal(n) =~= seq![digit_char(n)]);
        assert(decimal(n).drop_last() =~= Seq::<char>::empty());
        assert(decimal(n).last() == digit_char(n));
        assert(digit_code(n) == 48 + n);
        assert((digit_char(n) as u32) == 48 + n);
        assert(digits_value(Seq::<char>::empty()) == 0);
        assert(digits_value(decimal(n)) == digits_value(decimal(n).drop_last()) * 10 + ((
        decimal(n).last() as u32) - 48) as nat);
    } else {
        lemma_decimal_digits(n / 10);
        let p = decimal(n / 10);
        assert(decimal(n) =~= p.push(digit_char(n % 10)));
        assert(decimal(n).drop_last() =~= p);
        assert(decimal(n)[0] == p[0]);
        assert(n == (n / 10) * 10 + n % 10);
        let c = digit_char(n % 10);
        assert(n % 10 < 10);
        assert(digit_code(n % 10) == 48 + n % 10);
        assert((c as u32) == 48 + n % 10);
        assert(decimal(n).last() == c);
        assert(digits_value(decimal(n)) == digits_value(p) * 10 + ((c as u32) - 48) as nat);
    }
}

} // verus!
