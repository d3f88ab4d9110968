//! The genders a character can have.

use crate::resolver::{resolve_choice, Choosable};
use vstd::prelude::*;

verus! {

/// A character's gender, a flat enumeration with no sub-structure.
#[derive(Debug, Clone, Copy, PartialEq, Eq, Structural)]
pub enum Gender {
    Male,
    Female,
    NonBinary,
}

impl Choosable for Gender {
    open spec fn option_count() -> nat {
        3
    }

    open spec fn variant_at(i: int) -> Gender {
        if i == 0 {
            Gender::Male
        } else if i == 1 {
            Gender::Female
        } else {
            Gender::NonBinary
        }
    }

    open spec fn spec_name(self) -> Seq<char> {
        match self {
            Gender::Male => "Male"@,
            Gender::Female => "Female"@,
            Gender::NonBinary => "None"@,
        }
    }

    fn variant_count() -> usize {
        3
    }

    fn from_index(i: usize) -> (r: Gender) {
        if i == 0 {
            Gender::Male
        } else if i == 1 {
            Gender::Female
        } else {
            Gender::NonBinary
        }
    }

    fn name(&self) -> (r: &'static str) {
        match *self {
            Gender::Male => "Male",
            Gender::Female => "Female",
            Gender::NonBinary => "None",
        }
    }

    fn pick(selection: Option<usize>, random_index: usize) -> (r: Gender) {
        let i = resolve_choice(Self::variant_count(), selection, random_index);
        Self::from_index(i)
    }
}

impl Gender {
    /// The declaration-order position of this variant.
    pub open spec fn spec_index(self) -> int {
        match self {
            Gender::Male => 0,
            Gender::Female => 1,
            Gender::NonBinary => 2,
        }
    }

    /// Returns this variant's position in declaration order.
    pub fn index_of(&self) -> (r: usize)
        ensures
            r as int == self.spec_index(),
            0 <= self.spec_index() < Self::option_count(),
    {
        match *self {
            Gender::Male => 0,
            Gender::Female => 1,
            Gender::NonBinary => 2,
        }
    }
}

/// A position looked back up yields the same variant.
pub proof fn lemma_gender_index_round(v: Gender)
    ensures
        Gender::variant_at(v.spec_index()) == v,
{
}

} // verus!
