//! The boolean traits of an argument, kept as a bit-set.

use vstd::prelude::*;

verus! {

/// One independent boolean trait of an argument.
#[derive(Clone, Copy, Debug, PartialEq, Eq, Structural)]
pub enum ArgSettings {
    /// The argument must be present.
    Required,
    /// The argument may occur, or take a value, more than once.
    Multiple,
    /// The argument accepts an empty value.
    EmptyValues,
    /// The argument is handed down to every subcommand.
    Global,
    /// The argument is left out of help output.
    Hidden,
    /// The argument consumes a value.
    TakesValue,
    /// One token may hold several values, split at the delimiter.
    UseValueDelimiter,
    /// The help text starts on the line after the argument.
    NextLineHelp,
    /// Several values are accepted only when delimited.
    RequireDelimiter,
}

impl ArgSettings {
    /// The position of this setting's bit.
    pub open spec fn index(self) -> u16 {
        match self {
            ArgSettings::Required => 0,
            ArgSettings::Multiple => 1,
            ArgSettings::EmptyValues => 2,
            ArgSettings::Global => 3,
            ArgSettings::Hidden => 4,
            ArgSettings::TakesValue => 5,
            ArgSettings::UseValueDelimiter => 6,
            ArgSettings::NextLineHelp => 7,
            ArgSettings::RequireDelimiter => 8,
        }
    }

    /// The word with only this setting's bit raised.
    pub open spec fn mask(self) -> u16 {
        1u16 << self.index()
    }

    fn bit(self) -> (m: u16)
        ensures
            m == self.mask(),
    {
        let i: u16 = match self {
            ArgSettings::Required => 0,
            ArgSettings::Multiple => 1,
            ArgSettings::EmptyValues => 2,
            ArgSettings::Global => 3,
            ArgSettings::Hidden => 4,
            ArgSettings::TakesValue => 5,
            ArgSettings::UseValueDelimiter => 6,
            ArgSettings::NextLineHelp => 7,
            ArgSettings::RequireDelimiter => 8,
        };
        1u16 << i
    }
}

/// A set of [`ArgSettings`], one bit each.
#[derive(Clone, Copy, Debug)]
pub struct ArgFlags {
    bits: u16,
}

impl View for ArgFlags {
    type V = Set<ArgSettings>;

    /// The settings whose bit is raised.
    closed spec fn view(&self) -> Set<ArgSettings> {
        Set::new(|s: ArgSettings| self.bits & s.mask() != 0)
    }
}

proof fn lemma_raise(bits: u16, i: u16, j: u16)
    requires
        i < 16,
        j < 16,
    ensures
        ((bits | (1u16 << i)) & (1u16 << j) != 0) <==> (i == j || bits & (1u16 << j) != 0),
{
    assert(((bits | (1u16 << i)) & (1u16 << j) != 0) <==> (i == j || bits & (1u16 << j) != 0))
        by (bit_vector)
        requires
            i < 16,
            j < 16,
    ;
}

proof fn lemma_lower(bits: u16, i: u16, j: u16)
    requires
        i < 16,
        j < 16,
    ensures
        ((bits & !(1u16 << i)) & (1u16 << j) != 0) <==> (i != j && bits & (1u16 << j) != 0),
{
    assert(((bits & !(1u16 << i)) & (1u16 << j) != 0) <==> (i != j && bits & (1u16 << j) != 0))
        by (bit_vector)
        requires
            i < 16,
            j < 16,
    ;
}

impl ArgFlags {
    /// The empty set.
    pub fn new() -> (flags: Self)
        ensures
            flags@ == Set::<ArgSettings>::empty(),
    {
        let flags = ArgFlags { bits: 0 };
        proof {
            assert forall|s: ArgSettings| !flags@.contains(s) by {
                let m = s.mask();
                assert(0u16 & m == 0) by (bit_vector);
            }
            assert(flags@ =~= Set::<ArgSettings>::empty());
        }
        flags
    }

    /// Adds `s` to the set.
    pub fn set(&mut self, s: ArgSettings)
        ensures
            final(self)@ == old(self)@.insert(s),
    {
        let m = s.bit();
        let ghost before = self.bits;
        self.bits = self.bits | m;
        proof {
            assert forall|t: ArgSettings| self@.contains(t) <==> old(self)@.insert(s).contains(t) by {
                lemma_raise(before, s.index(), t.index());
            }
            assert(self@ =~= old(self)@.insert(s));
        }
    }

    /// Takes `s` out of the set.
    pub fn unset(&mut self, s: ArgSettings)
        ensures
            final(self)@ == old(self)@.remove(s),
    {
        let m = s.bit();
        let ghost before = self.bits;
        self.bits = self.bits & !m;
        proof {
            assert forall|t: ArgSettings| self@.contains(t) <==> old(self)@.remove(s).contains(t) by {
                lemma_lower(before, s.index(), t.index());
            }
            assert(self@ =~= old(self)@.remove(s));
        }
    }

    /// Whether `s` is in the set.
    pub fn is_set(&self, s: ArgSettings) -> (yes: bool)
        ensures
            yes == self@.contains(s),
    {
        self.bits & s.bit() != 0
    }
}

} // verus!
