//! The three kinds of fractions and the answers a user can give.

use vstd::prelude::*;

verus! {

/// The kind a fraction belongs to.
#[derive(Debug, Clone, Copy, PartialEq, Eq, Structural)]
pub enum Ftype {
    /// The numerator is smaller than the denominator.
    Proper,
    /// The numerator is larger than the denominator and no multiple of it.
    Improper,
    /// The numerator is a multiple of the denominator.
    Apparent,
}

impl Ftype {
    /// The kind that stands at place `index` among the three: `Proper` at 0,
    /// `Improper` at 1, `Apparent` at every other place.
    pub open spec fn at(index: nat) -> Ftype {
        if index == 0 {
            Ftype::Proper
        } else if index == 1 {
            Ftype::Improper
        } else {
            Ftype::Apparent
        }
    }

    /// Turns a number drawn from `0..=2` into a kind.
    pub fn from_index(index: u32) -> (kind: Ftype)
        ensures
            kind == Ftype::at(index as nat),
    {
        match index {
            0 => Ftype::Proper,
            1 => Ftype::Improper,
            _ => Ftype::Apparent,
        }
    }

    /// The name of the kind, as text.
    pub open spec fn label_text(self) -> Seq<char> {
        match self {
            Ftype::Proper => "Proper"@,
            Ftype::Improper => "Improper"@,
            Ftype::Apparent => "Apparent"@,
        }
    }

    /// The name of the kind.
    pub fn label(&self) -> (text: &'static str)
        ensures
            text@ == self.label_text(),
    {
        match self {
            Ftype::Proper => "Proper",
            Ftype::Improper => "Improper",
            Ftype::Apparent => "Apparent",
        }
    }
}

impl Default for Ftype {
    fn default() -> (kind: Ftype)
        ensures
            kind == Ftype::Proper,
    {
        Ftype::Proper
    }
}

/// The answer a user has picked for the fraction on display.
#[derive(Debug, Clone, Copy, PartialEq, Eq, PartialOrd, Ord, Structural)]
pub enum Choice {
    /// The user says the fraction is proper.
    Proper,
    /// The user says the fraction is improper.
    Improper,
    /// The user says the fraction is apparent.
    Apparent,
    /// Nothing has been picked yet. This is never a valid answer.
    Unselected,
}

impl Choice {
    /// The kind the answer names, if it names one.
    pub open spec fn kind(self) -> Option<Ftype> {
        match self {
            Choice::Proper => Some(Ftype::Proper),
            Choice::Improper => Some(Ftype::Improper),
            Choice::Apparent => Some(Ftype::Apparent),
            Choice::Unselected => None,
        }
    }

    /// Tells whether the answer names the given kind.
    pub fn names(&self, kind: Ftype) -> (yes: bool)
        ensures
            yes == (self.kind() == Some(kind)),
    {
        match self {
            Choice::Proper => kind == Ftype::Proper,
            Choice::Improper => kind == Ftype::Improper,
            Choice::Apparent => kind == Ftype::Apparent,
            Choice::Unselected => false,
        }
    }

    /// The name of the answer, as text.
    pub open spec fn label_text(self) -> Seq<char> {
        match self {
            Choice::Proper => "Proper"@,
            Choice::Improper => "Improper"@,
            Choice::Apparent => "Apparent"@,
            Choice::Unselected => "Unselected"@,
        }
    }

    /// The name of the answer.
    pub fn label(&self) -> (text: &'static str)
        ensures
            text@ == self.label_text(),
    {
        match self {
            Choice::Proper => "Proper",
            Choice::Improper => "Improper",
            Choice::Apparent => "Apparent",
            Choice::Unselected => "Unselected",
        }
    }
}

impl Default for Choice {
    fn default() -> (choice: Choice)
        ensures
            choice == Choice::Unselected,
    {
        Choice::Unselected
    }
}

} // verus!
