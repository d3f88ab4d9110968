//! The character backgrounds the game offers.

use crate::resolver::{resolve_choice, Choosable};
use vstd::prelude::*;

verus! {

/// A character's background, a flat enumeration with no sub-structure.
#[derive(Debug, Clone, Copy, PartialEq, Eq, Structural)]
pub enum Background {
    Acolyte,
    Charlatan,
    Criminal,
    Entertainer,
    FolkHero,
    GuildArtisan,
    Hermit,
    Noble,
    Outlander,
    Sailor,
    Soldier,
    Urchin,
}

impl Choosable for Background {
    open spec fn option_count() -> nat {
        12
    }

    open spec fn variant_at(i: int) -> Background {
        if i == 0 {
            Background::Acolyte
        } else if i == 1 {
            Background::Charlatan
        } else if i == 2 {
            Background::Criminal
        } else if i == 3 {
            Background::Entertainer
        } else if i == 4 {
            Background::FolkHero
        } else if i == 5 {
            Background::GuildArtisan
        } else if i == 6 {
            Background::Hermit
        } else if i == 7 {
            Background::Noble
        } else if i == 8 {
            Background::Outlander
        } else if i == 9 {
            Background::Sailor
        } else if i == 10 {
            Background::Soldier
        } else {
            Background::Urchin
        }
    }

    open spec fn spec_name(self) -> Seq<char> {
        match self {
            Background::Acolyte => "Acolyte"@,
            Background::Charlatan => "Charlatan"@,
            Background::Criminal => "Criminal"@,
            Background::Entertainer => "Entertainer"@,
            Background::FolkHero => "Folk Hero"@,
            Background::GuildArtisan => "Guild Artisan"@,
            Background::Hermit => "Hermit"@,
            Background::Noble => "Noble"@,
            Background::Outlander => "Outlander"@,
            Background::Sailor => "Sailor"@,
            Background::Soldier => "Soldier"@,
            Background::Urchin => "Urchin"@,
        }
    }

    fn variant_count() -> usize {
        12
    }

    fn from_index(i: usize) -> (r: Background) {
        if i == 0 {
            Background::Acolyte
        } else if i == 1 {
            Background::Charlatan
        } else if i == 2 {
            Background::Criminal
        } else if i == 3 {
            Background::Entertainer
        } else if i == 4 {
            Background::FolkHero
        } else if i == 5 {
            Background::GuildArtisan
        } else if i == 6 {
            Background::Hermit
        } else if i == 7 {
            Background::Noble
        } else if i == 8 {
            Background::Outlander
        } else if i == 9 {
            Background::Sailor
        } else if i == 10 {
            Background::Soldier
        } else {
            Background::Urchin
        }
    }

    fn name(&self) -> (r: &'static str) {
        match *self {
            Background::Acolyte => "Acolyte",
            Background::Charlatan => "Charlatan",
            Background::Criminal => "Criminal",
            Background::Entertainer => "Entertainer",
            Background::FolkHero => "Folk Hero",
            Background::GuildArtisan => "Guild Artisan",
            Background::Hermit => "Hermit",
            Background::Noble => "Noble",
            Background::Outlander => "Outlander",
            Background::Sailor => "Sailor",
            Background::Soldier => "Soldier",
            Background::Urchin => "Urchin",
        }
    }

    fn pick(selection: Option<usize>, random_index: usize) -> (r: Background) {
        let i = resolve_choice(Self::variant_count(), selection, random_index);
        Self::from_index(i)
    }
}

impl Background {
    /// The declaration-order position of this variant.
    pub open spec fn spec_index(self) -> int {
        match self {
            Background::Acolyte => 0,
            Background::Charlatan => 1,
            Background::Criminal => 2,
            Background::Entertainer => 3,
            Background::FolkHero => 4,
            Background::GuildArtisan => 5,
            Background::Hermit => 6,
            Background::Noble => 7,
            Background::Outlander => 8,
            Background::Sailor => 9,
            Background::Soldier => 10,
            Background::Urchin => 11,
        }
    }

    /// Returns this variant's position in declaration order.
    pub fn index_of(&self) -> (r: usize)
        ensures
            r as int == self.spec_index(),
            0 <= self.spec_index() < Self::option_count(),
    {
        match *self {
            Background::Acolyte => 0,
            Background::Charlatan => 1,
            Background::Criminal => 2,
            Background::Entertainer => 3,
            Background::FolkHero => 4,
            Background::GuildArtisan => 5,
            Background::Hermit => 6,
            Background::Noble => 7,
            Background::Outlander => 8,
            Background::Sailor => 9,
            Background::Soldier => 10,
            Background::Urchin => 11,
        }
    }
}

/// A position looked back up yields the same variant.
pub proof fn lemma_background_index_round(v: Background)
    ensures
        Background::variant_at(v.spec_index()) == v,
{
}

} // verus!
