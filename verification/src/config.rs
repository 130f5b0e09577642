//! The two settings the REPL is run with: which prelude the interpreter
//! image carries, and how much stack it gets.
use vstd::prelude::*;
use crate::text::str_eq;

verus! {

/// The prelude compiled into the Lisp interpreter image.
#[derive(Clone, Copy, Debug, PartialEq, Eq, Structural)]
pub enum PreludeTier {
    Bare,
    Minimal,
    Standard,
    Full,
    Scheme,
}

/// The stack the interpreter runs with.
#[derive(Clone, Copy, Debug, PartialEq, Eq, Structural)]
pub enum StackSize {
    ThreeKb,
    EightKb,
}

/// All prelude tiers, in the order the selector lists them.
pub open spec fn all_tiers() -> Seq<PreludeTier> {
    seq![
        PreludeTier::Bare,
        PreludeTier::Minimal,
        PreludeTier::Standard,
        PreludeTier::Full,
        PreludeTier::Scheme,
    ]
}

/// Both stack sizes, in the order the selector lists them.
pub open spec fn all_stack_sizes() -> Seq<StackSize> {
    seq![StackSize::ThreeKb, StackSize::EightKb]
}

impl PreludeTier {
    pub open spec fn spec_label(self) -> Seq<char> {
        match self {
            PreludeTier::Bare => "Bare"@,
            PreludeTier::Minimal => "Minimal"@,
            PreludeTier::Standard => "Standard"@,
            PreludeTier::Full => "Full"@,
            PreludeTier::Scheme => "Scheme"@,
        }
    }

    pub open spec fn spec_select_value(self) -> Seq<char> {
        match self {
            PreludeTier::Bare => "bare"@,
            PreludeTier::Minimal => "minimal"@,
            PreludeTier::Standard => "standard"@,
            PreludeTier::Full => "full"@,
            PreludeTier::Scheme => "scheme"@,
        }
    }

    /// The tier a selector value names; anything unknown means `Standard`.
    pub open spec fn spec_from_select_value(v: Seq<char>) -> PreludeTier {
        if v == "bare"@ {
            PreludeTier::Bare
        } else if v == "minimal"@ {
            PreludeTier::Minimal
        } else if v == "full"@ {
            PreludeTier::Full
        } else if v == "scheme"@ {
            PreludeTier::Scheme
        } else {
            PreludeTier::Standard
        }
    }

    pub open spec fn spec_description(self) -> Seq<char> {
        match self {
            PreludeTier::Bare => "Built-in primitives and special forms only"@,
            PreludeTier::Minimal => "Adds comparison helpers: >, >=, <=, zero?, positive?, negative?"@,
            PreludeTier::Standard => "Adds list, control and string functions: map, filter, reduce, let, cond, ->"@,
            PreludeTier::Full => "Adds lazy sequences, trampoline, threading and anaphoric macros"@,
            PreludeTier::Scheme => "Scheme-flavored names and conventions"@,
        }
    }

    /// The name shown for the tier.
    pub fn label(self) -> (r: &'static str)
        ensures
            r@ == self.spec_label(),
    {
        match self {
            PreludeTier::Bare => "Bare",
            PreludeTier::Minimal => "Minimal",
            PreludeTier::Standard => "Standard",
            PreludeTier::Full => "Full",
            PreludeTier::Scheme => "Scheme",
        }
    }

    /// A one-line account of what the tier's prelude adds.
    pub fn description(self) -> (r: &'static str)
        ensures
            r@ == self.spec_description(),
    {
        match self {
            PreludeTier::Bare => "Built-in primitives and special forms only",
            PreludeTier::Minimal => "Adds comparison helpers: >, >=, <=, zero?, positive?, negative?",
            PreludeTier::Standard => "Adds list, control and string functions: map, filter, reduce, let, cond, ->",
            PreludeTier::Full => "Adds lazy sequences, trampoline, threading and anaphoric macros",
            PreludeTier::Scheme => "Scheme-flavored names and conventions",
        }
    }

    /// The value that stands for the tier in the prelude selector.
    pub fn select_value(self) -> (r: &'static str)
        ensures
            r@ == self.spec_select_value(),
    {
        match self {
            PreludeTier::Bare => "bare",
            PreludeTier::Minimal => "minimal",
            PreludeTier::Standard => "standard",
            PreludeTier::Full => "full",
            PreludeTier::Scheme => "scheme",
        }
    }

    /// The tier that a value of the prelude selector names.
    pub fn from_select_value(v: &str) -> (r: PreludeTier)
        ensures
            r == PreludeTier::spec_from_select_value(v@),
    {
        if str_eq(v, "bare") {
            PreludeTier::Bare
        } else if str_eq(v, "minimal") {
            PreludeTier::Minimal
        } else if str_eq(v, "full") {
            PreludeTier::Full
        } else if str_eq(v, "scheme") {
            PreludeTier::Scheme
        } else {
            PreludeTier::Standard
        }
    }

    /// All tiers, in selector order.
    pub fn all() -> (r: Vec<PreludeTier>)
        ensures
            r@ == all_tiers(),
    {
        let r = vec![
            PreludeTier::Bare,
            PreludeTier::Minimal,
            PreludeTier::Standard,
            PreludeTier::Full,
            PreludeTier::Scheme,
        ];
        assert(r@ =~= all_tiers());
        r
    }
}

impl StackSize {
    /// The stack pointer the interpreter starts with: the top of its stack.
    pub open spec fn spec_initial_sp(self) -> u32 {
        match self {
            StackSize::ThreeKb => 0xFEEC00,
            StackSize::EightKb => 0xFF0000,
        }
    }

    /// The size of the stack in bytes.
    pub open spec fn spec_bytes(self) -> u32 {
        match self {
            StackSize::ThreeKb => 3072,
            StackSize::EightKb => 8192,
        }
    }

    pub open spec fn spec_label(self) -> Seq<char> {
        match self {
            StackSize::ThreeKb => "3 KB"@,
            StackSize::EightKb => "8 KB"@,
        }
    }

    pub open spec fn spec_select_value(self) -> Seq<char> {
        match self {
            StackSize::ThreeKb => "3"@,
            StackSize::EightKb => "8"@,
        }
    }

    /// The size a selector value names; anything but `8` means three kilobytes.
    pub open spec fn spec_from_select_value(v: Seq<char>) -> StackSize {
        if v == "8"@ {
            StackSize::EightKb
        } else {
            StackSize::ThreeKb
        }
    }

    /// The stack pointer the interpreter starts with.
    pub fn initial_sp(self) -> (r: u32)
        ensures
            r == self.spec_initial_sp(),
    {
        match self {
            StackSize::ThreeKb => 0xFEEC00,
            StackSize::EightKb => 0xFF0000,
        }
    }

    /// The size of the stack in bytes.
    pub fn bytes(self) -> (r: u32)
        ensures
            r == self.spec_bytes(),
    {
        match self {
            StackSize::ThreeKb => 3072,
            StackSize::EightKb => 8192,
        }
    }

    /// The name shown for the size.
    pub fn label(self) -> (r: &'static str)
        ensures
            r@ == self.spec_label(),
    {
        match self {
            StackSize::ThreeKb => "3 KB",
            StackSize::EightKb => "8 KB",
        }
    }

    /// The value that stands for the size in the stack selector.
    pub fn select_value(self) -> (r: &'static str)
        ensures
            r@ == self.spec_select_value(),
    {
        match self {
            StackSize::ThreeKb => "3",
            StackSize::EightKb => "8",
        }
    }

    /// The size that a value of the stack selector names.
    pub fn from_select_value(v: &str) -> (r: StackSize)
        ensures
            r == StackSize::spec_from_select_value(v@),
    {
        if str_eq(v, "8") {
            StackSize::EightKb
        } else {
            StackSize::ThreeKb
        }
    }

    /// Both sizes, in selector order.
    pub fn all() -> (r: Vec<StackSize>)
        ensures
            r@ == all_stack_sizes(),
    {
        let r = vec![StackSize::ThreeKb, StackSize::EightKb];
        assert(r@ =~= all_stack_sizes());
        r
    }
}

} // verus!
