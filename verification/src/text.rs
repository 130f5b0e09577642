//! Text handling of the REPL front end: splitting user input into lines,
//! telling blank lines apart, trimming, UTF-8 encoding, and the number
//! formats used in status messages.
use vstd::prelude::*;
use vstd::string::StringExecFns;
use vstd::utf8::*;

verus! {

// ---------------------------------------------------------------------------
// Whitespace, blank lines, trimming
// ---------------------------------------------------------------------------

/// The Unicode `White_Space` property, as `char::is_whitespace` uses it.
pub open spec fn is_white_space(c: char) -> bool {
    let u = c as u32;
    ||| 0x09 <= u <= 0x0D
    ||| u == 0x20
    ||| u == 0x85
    ||| u == 0xA0
    ||| u == 0x1680
    ||| 0x2000 <= u <= 0x200A
    ||| u == 0x2028
    ||| u == 0x2029
    ||| u == 0x202F
    ||| u == 0x205F
    ||| u == 0x3000
}

/// A line is blank when trimming leaves nothing of it.
pub open spec fn is_blank(s: Seq<char>) -> bool {
    forall|i: int| 0 <= i < s.len() ==> #[trigger] is_white_space(s[i])
}

/// `s` without its leading whitespace.
pub open spec fn trim_start(s: Seq<char>) -> Seq<char>
    decreases s.len(),
{
    if s.len() > 0 && is_white_space(s[0]) {
        trim_start(s.drop_first())
    } else {
        s
    }
}

/// `s` without its trailing whitespace.
pub open spec fn trim_end(s: Seq<char>) -> Seq<char>
    decreases s.len(),
{
    if s.len() > 0 && is_white_space(s.last()) {
        trim_end(s.drop_last())
    } else {
        s
    }
}

/// `s` without leading and trailing whitespace (`str::trim`).
pub open spec fn trim(s: Seq<char>) -> Seq<char> {
    trim_end(trim_start(s))
}

/// Whether `c` has the Unicode `White_Space` property.
pub fn is_whitespace(c: char) -> (r: bool)
    ensures
        r == is_white_space(c),
{
    let u = c as u32;
    (0x09 <= u && u <= 0x0D) || u == 0x20 || u == 0x85 || u == 0xA0 || u == 0x1680 || (0x2000
        <= u && u <= 0x200A) || u == 0x2028 || u == 0x2029 || u == 0x202F || u == 0x205F || u
        == 0x3000
}

/// Whether every character of `s` is whitespace.
pub fn blank(s: &Vec<char>) -> (r: bool)
    ensures
        r == is_blank(s@),
{
    let mut i: usize = 0;
    while i < s.len()
        invariant
            i <= s.len(),
            forall|j: int| 0 <= j < i ==> #[trigger] is_white_space(s@[j]),
        decreases s.len() - i,
    {
        if !is_whitespace(s[i]) {
            return false;
        }
        i += 1;
    }
    true
}

proof fn lemma_trim_start_skip(s: Seq<char>, i: int)
    requires
        0 <= i <= s.len(),
        forall|j: int| 0 <= j < i ==> #[trigger] is_white_space(s[j]),
    ensures
        trim_start(s) == trim_start(s.skip(i)),
    decreases i,
{
    if i > 0 {
        assert(is_white_space(s[0]));
        assert(s.drop_first().skip(i - 1) =~= s.skip(i));
        assert forall|j: int| 0 <= j < i - 1 implies #[trigger] is_white_space(
            s.drop_first()[j],
        ) by {
            assert(is_white_space(s[j + 1]));
        }
        lemma_trim_start_skip(s.drop_first(), i - 1);
    } else {
        assert(s.skip(0) =~= s);
    }
}

proof fn lemma_trim_end_take(s: Seq<char>, k: int)
    requires
        0 <= k <= s.len(),
        forall|j: int| k <= j < s.len() ==> #[trigger] is_white_space(s[j]),
    ensures
        trim_end(s) == trim_end(s.take(k)),
    decreases s.len() - k,
{
    if k < s.len() {
        assert(is_white_space(s[s.len() - 1]));
        assert(s.drop_last().take(k) =~= s.take(k));
        assert forall|j: int| k <= j < s.len() - 1 implies #[trigger] is_white_space(
            s.drop_last()[j],
        ) by {
            assert(is_white_space(s[j]));
        }
        lemma_trim_end_take(s.drop_last(), k);
    } else {
        assert(s.take(k) =~= s);
    }
}

/// The characters of `s[lo..hi]` as a new `String`.
pub fn string_from_range(s: &Vec<char>, lo: usize, hi: usize) -> (r: String)
    requires
        lo <= hi <= s.len(),
    ensures
        r@ == s@.subrange(lo as int, hi as int),
{
    let mut r = String::new();
    let mut i = lo;
    while i < hi
        invariant
            lo <= i <= hi <= s.len(),
            r@ == s@.subrange(lo as int, i as int),
        decreases hi - i,
    {
        push_char(&mut r, s[i]);
        assert(s@.subrange(lo as int, i + 1) =~= s@.subrange(lo as int, i as int).push(s@[i as int]));
        i += 1;
    }
    r
}

/// `s` without leading and trailing whitespace, as `str::trim` gives it.
pub fn trimmed(s: &str) -> (r: String)
    ensures
        r@ == trim(s@),
{
    let cs = chars_of(s);
    let mut lo: usize = 0;
    while lo < cs.len() && is_whitespace(cs[lo])
        invariant
            lo <= cs.len(),
            forall|j: int| 0 <= j < lo ==> #[trigger] is_white_space(cs@[j]),
        decreases cs.len() - lo,
    {
        lo += 1;
    }
    proof {
        lemma_trim_start_skip(cs@, lo as int);
        let t = cs@.skip(lo as int);
        if t.len() > 0 {
            assert(t[0] == cs@[lo as int]);
        }
        assert(trim_start(t) == t);
    }
    let mut hi: usize = cs.len();
    while hi > lo && is_whitespace(cs[hi - 1])
        invariant
            lo <= hi <= cs.len(),
            forall|j: int| hi <= j < cs.len() ==> #[trigger] is_white_space(cs@[j]),
        decreases hi,
    {
        hi -= 1;
    }
    proof {
        let t = cs@.skip(lo as int);
        let k = hi - lo;
        assert forall|j: int| k <= j < t.len() implies #[trigger] is_white_space(t[j]) by {
            assert(t[j] == cs@[j + lo]);
        }
        lemma_trim_end_take(t, k);
        let u = t.take(k);
        assert(u =~= cs@.subrange(lo as int, hi as int));
        if u.len() > 0 {
            assert(u.last() == cs@[hi - 1]);
        }
        assert(trim_end(u) == u);
    }
    string_from_range(&cs, lo, hi)
}

// ---------------------------------------------------------------------------
// Demo sources: the comment header
// ---------------------------------------------------------------------------

/// `s` past its first line ending (empty when `s` holds no `\n`).
pub open spec fn skip_line(s: Seq<char>) -> Seq<char>
    decreases s.len(),
{
    if s.len() == 0 {
        s
    } else if s[0] == '\n' {
        s.drop_first()
    } else {
        skip_line(s.drop_first())
    }
}

/// Skipping a line of a non-empty text leaves less of it.
pub proof fn lemma_skip_line_shorter(s: Seq<char>)
    requires
        s.len() > 0,
    ensures
        skip_line(s).len() < s.len(),
    decreases s.len(),
{
    if s[0] != '\n' {
        if s.len() > 1 {
            lemma_skip_line_shorter(s.drop_first());
        } else {
            assert(s.drop_first().len() == 0);
            assert(skip_line(s.drop_first()) == s.drop_first());
        }
    }
}

/// Whether `s` starts with a `;;` comment line.
pub open spec fn starts_with_comment(s: Seq<char>) -> bool {
    s.len() >= 2 && s[0] == ';' && s[1] == ';'
}

/// `s` without the `;;` comment lines at its start.
pub open spec fn strip_comment_header(s: Seq<char>) -> Seq<char>
    decreases s.len(),
{
    if starts_with_comment(s) {
        proof {
            lemma_skip_line_shorter(s);
        }
        strip_comment_header(skip_line(s))
    } else {
        s
    }
}

/// The input a demo source gives: its `;;` comment header stripped, then
/// leading and trailing whitespace.
pub open spec fn demo_input(source: Seq<char>) -> Seq<char> {
    trim(strip_comment_header(source))
}

/// The input a demo source gives (see [`demo_input`]).
pub fn demo_input_of(source: &str) -> (r: String)
    ensures
        r@ == demo_input(source@),
{
    let cs = chars_of(source);
    let mut i: usize = 0;
    assert(cs@.skip(0) =~= cs@);
    while i < cs.len() && i + 1 < cs.len() && cs[i] == ';' && cs[i + 1] == ';'
        invariant
            i <= cs.len(),
            cs@ == source@,
            strip_comment_header(cs@.skip(i as int)) == strip_comment_header(source@),
        decreases cs.len() - i,
    {
        let ghost start = i;
        proof {
            let t = cs@.skip(i as int);
            assert(t[0] == cs@[i as int] && t[1] == cs@[i + 1]);
            assert(starts_with_comment(t));
        }
        while i < cs.len() && cs[i] != '\n'
            invariant
                start <= i <= cs.len(),
                skip_line(cs@.skip(start as int)) == skip_line(cs@.skip(i as int)),
            decreases cs.len() - i,
        {
            assert(cs@.skip(i as int).drop_first() =~= cs@.skip(i + 1));
            i += 1;
        }
        if i < cs.len() {
            assert(cs@.skip(i as int).drop_first() =~= cs@.skip(i + 1));
            i += 1;
        } else {
            assert(cs@.skip(i as int) =~= Seq::<char>::empty());
        }
    }
    proof {
        let t = cs@.skip(i as int);
        if i < cs.len() && i + 1 < cs.len() {
            assert(t[0] == cs@[i as int] && t[1] == cs@[i + 1]);
        }
        assert(!starts_with_comment(t));
    }
    let rest = string_from_range(&cs, i, cs.len());
    assert(rest@ =~= cs@.skip(i as int));
    trimmed(rest.as_str())
}

// ---------------------------------------------------------------------------
// Lines of input, and what of them is echoed and sent
// ---------------------------------------------------------------------------

/// A line that ended in `\n` loses a trailing `\r` as well.
pub open spec fn strip_cr(line: Seq<char>) -> Seq<char> {
    if line.len() > 0 && line.last() == '\r' {
        line.drop_last()
    } else {
        line
    }
}

/// Scanning `s` from the left: the lines already ended by `\n` (without
/// their line ending) and the characters of the line still open.
pub open spec fn split_lines(s: Seq<char>) -> (Seq<Seq<char>>, Seq<char>)
    decreases s.len(),
{
    if s.len() == 0 {
        (seq![], seq![])
    } else {
        let (done, open) = split_lines(s.drop_last());
        if s.last() == '\n' {
            (done.push(strip_cr(open)), seq![])
        } else {
            (done, open.push(s.last()))
        }
    }
}

/// The lines of `s` as `str::lines` yields them: split at `\n` or `\r\n`,
/// line endings removed, and no empty line after a final line ending.
pub open spec fn lines(s: Seq<char>) -> Seq<Seq<char>> {
    let (done, open) = split_lines(s);
    if open.len() == 0 {
        done
    } else {
        done.push(open)
    }
}

/// What one line contributes when input is evaluated: nothing when it is
/// blank, else the line and a newline.
pub open spec fn echo_line(line: Seq<char>) -> Seq<char> {
    if is_blank(line) {
        seq![]
    } else {
        line.push('\n')
    }
}

/// The contributions of a sequence of lines, in order.
pub open spec fn echo_lines(ls: Seq<Seq<char>>) -> Seq<char>
    decreases ls.len(),
{
    if ls.len() == 0 {
        seq![]
    } else {
        echo_lines(ls.drop_last()) + echo_line(ls.last())
    }
}

/// The text that evaluating `input` submits: each non-blank line of it,
/// each followed by a newline.
pub open spec fn submitted_text(input: Seq<char>) -> Seq<char> {
    echo_lines(lines(input))
}

/// The characters of a string slice, in order.
pub fn chars_of(s: &str) -> (v: Vec<char>)
    ensures
        v@ == s@,
{
    let mut v: Vec<char> = Vec::new();
    for c in it: s.chars()
        invariant
            v@ == it.seq().take(it.index() as int),
    {
        v.push(c);
    }
    v
}

fn append_chars(out: &mut Vec<char>, line: &Vec<char>)
    ensures
        final(out)@ == old(out)@ + line@,
{
    let mut i: usize = 0;
    while i < line.len()
        invariant
            i <= line.len(),
            out@ == old(out)@ + line@.take(i as int),
        decreases line.len() - i,
    {
        out.push(line[i]);
        assert(line@.take(i + 1) =~= line@.take(i as int).push(line@[i as int]));
        i += 1;
    }
    assert(line@.take(line.len() as int) =~= line@);
}

fn append_echo_line(out: &mut Vec<char>, line: &Vec<char>)
    ensures
        final(out)@ == old(out)@ + echo_line(line@),
{
    if !blank(line) {
        append_chars(out, line);
        out.push('\n');
        assert(old(out)@ + line@.push('\n') =~= (old(out)@ + line@).push('\n'));
    } else {
        assert(old(out)@ + seq![] =~= old(out)@);
    }
}

/// The text that evaluating `input` submits (see [`submitted_text`]).
pub fn submitted_chars(input: &str) -> (r: Vec<char>)
    ensures
        r@ == submitted_text(input@),
{
    let cs = chars_of(input);
    let mut out: Vec<char> = Vec::new();
    let mut open: Vec<char> = Vec::new();
    let ghost mut done: Seq<Seq<char>> = seq![];
    let mut k: usize = 0;
    assert(cs@.take(0) =~= Seq::<char>::empty());
    while k < cs.len()
        invariant
            k <= cs.len(),
            cs@ == input@,
            split_lines(cs@.take(k as int)) == (done, open@),
            out@ == echo_lines(done),
        decreases cs.len() - k,
    {
        let c = cs[k];
        assert(cs@.take(k + 1).drop_last() =~= cs@.take(k as int));
        if c == '\n' {
            if open.len() > 0 && open[open.len() - 1] == '\r' {
                open.pop();
            }
            proof {
                assert(done.push(open@).drop_last() =~= done);
            }
            append_echo_line(&mut out, &open);
            proof {
                done = done.push(open@);
            }
            open = Vec::new();
        } else {
            open.push(c);
        }
        k += 1;
    }
    assert(cs@.take(cs.len() as int) =~= cs@);
    proof {
        assert(done.push(open@).drop_last() =~= done);
        if open@.len() == 0 {
            assert(is_blank(open@));
            assert(echo_line(open@) =~= seq![]);
        }
    }
    append_echo_line(&mut out, &open);
    proof {
        if open@.len() == 0 {
            assert(out@ =~= echo_lines(done));
        }
    }
    out
}

// ---------------------------------------------------------------------------
// UTF-8
// ---------------------------------------------------------------------------

/// The UTF-8 encoding of `s + t` is that of `s` followed by that of `t`.
pub proof fn lemma_encode_utf8_concat(s: Seq<char>, t: Seq<char>)
    ensures
        encode_utf8(s + t) == encode_utf8(s) + encode_utf8(t),
    decreases s.len(),
{
    if s.len() == 0 {
        assert(s + t =~= t);
        assert(encode_utf8(s) =~= seq![]);
        assert(seq![] + encode_utf8(t) =~= encode_utf8(t));
    } else {
        assert((s + t).drop_first() =~= s.drop_first() + t);
        assert((s + t)[0] == s[0]);
        lemma_encode_utf8_concat(s.drop_first(), t);
        assert(encode_scalar(s[0] as u32) + (encode_utf8(s.drop_first()) + encode_utf8(t))
            =~= (encode_scalar(s[0] as u32) + encode_utf8(s.drop_first())) + encode_utf8(t));
    }
}

/// The UTF-8 encoding of `s` followed by `c`.
pub proof fn lemma_encode_utf8_push(s: Seq<char>, c: char)
    ensures
        encode_utf8(s.push(c)) == encode_utf8(s) + encode_scalar(c as u32),
{
    lemma_encode_utf8_concat(s, seq![c]);
    assert(s + seq![c] =~= s.push(c));
    assert(seq![c].drop_first() =~= Seq::<char>::empty());
    assert(encode_utf8(Seq::<char>::empty()) =~= Seq::<u8>::empty());
    assert(encode_utf8(seq![c]) =~= encode_scalar(c as u32));
}

/// Appends the UTF-8 encoding of `c` to a byte queue.
pub fn push_utf8(q: &mut std::collections::VecDeque<u8>, c: char)
    ensures
        final(q)@ == old(q)@ + encode_scalar(c as u32),
{
    let u = c as u32;
    if u <= 0x7F {
        q.push_back((u & 0x7F) as u8);
    } else if u <= 0x7FF {
        q.push_back(0xC0 | ((u >> 6) & 0x1F) as u8);
        q.push_back(0x80 | (u & 0x3F) as u8);
    } else if u <= 0xFFFF {
        proof {
            vstd::utf8::char_is_scalar(c);
        }
        q.push_back(0xE0 | ((u >> 12) & 0x0F) as u8);
        q.push_back(0x80 | ((u >> 6) & 0x3F) as u8);
        q.push_back(0x80 | (u & 0x3F) as u8);
    } else {
        proof {
            vstd::utf8::char_is_scalar(c);
        }
        q.push_back(0xF0 | ((u >> 18) & 0x7) as u8);
        q.push_back(0x80 | ((u >> 12) & 0x3F) as u8);
        q.push_back(0x80 | ((u >> 6) & 0x3F) as u8);
        q.push_back(0x80 | (u & 0x3F) as u8);
    }
    assert(q@ =~= old(q)@ + encode_scalar(c as u32));
}

/// Appends the UTF-8 encoding of `s` to a byte queue.
pub fn push_utf8_all(q: &mut std::collections::VecDeque<u8>, s: &Vec<char>)
    ensures
        final(q)@ == old(q)@ + encode_utf8(s@),
{
    let mut i: usize = 0;
    assert(encode_utf8(s@.take(0)) =~= Seq::<u8>::empty());
    assert(old(q)@ + Seq::<u8>::empty() =~= old(q)@);
    while i < s.len()
        invariant
            i <= s.len(),
            q@ == old(q)@ + encode_utf8(s@.take(i as int)),
        decreases s.len() - i,
    {
        push_utf8(q, s[i]);
        proof {
            assert(s@.take(i + 1) =~= s@.take(i as int).push(s@[i as int]));
            lemma_encode_utf8_push(s@.take(i as int), s@[i as int]);
        }
        i += 1;
    }
    assert(s@.take(s.len() as int) =~= s@);
}

/// Appends `s` to a string.
pub fn push_chars(t: &mut String, s: &Vec<char>)
    ensures
        final(t)@ == old(t)@ + s@,
{
    let mut i: usize = 0;
    while i < s.len()
        invariant
            i <= s.len(),
            t@ == old(t)@ + s@.take(i as int),
        decreases s.len() - i,
    {
        push_char(t, s[i]);
        assert(s@.take(i + 1) =~= s@.take(i as int).push(s@[i as int]));
        i += 1;
    }
    assert(s@.take(s.len() as int) =~= s@);
}

/// Appends one character to a string by std's `String::push`. Trusted: the
/// contract claims, as `String::push` documents, that the string afterwards
/// holds its old characters followed by `c`.
#[verifier::external_body]
pub(crate) fn push_char(s: &mut String, c: char)
    ensures
        final(s)@ == old(s)@.push(c),
{
    s.push(c);
}

/// Appends a string slice to a string.
pub fn push_str(t: &mut String, s: &str)
    ensures
        final(t)@ == old(t)@ + s@,
{
    t.append(s);
}

/// Whether two string slices hold the same characters.
pub fn str_eq(a: &str, b: &str) -> (r: bool)
    ensures
        r == (a@ == b@),
{
    let x = chars_of(a);
    let y = chars_of(b);
    if x.len() != y.len() {
        return false;
    }
    let mut i: usize = 0;
    while i < x.len()
        invariant
            i <= x.len() == y.len(),
            x@ == a@,
            y@ == b@,
            forall|j: int| 0 <= j < i ==> x@[j] == y@[j],
        decreases x.len() - i,
    {
        if x[i] != y[i] {
            assert(a@[i as int] != b@[i as int]);
            return false;
        }
        i += 1;
    }
    assert(x@ =~= y@);
    true
}

} // verus!
