//! Name generation's rule half: which pool a random name is drawn
//! from, and when a typed name wins over a generated one.  The word
//! lists themselves live with the caller; the key into them is rules.

use crate::gender::Gender;
use crate::races::Race;
use vstd::prelude::*;
use vstd::string::StrSliceExecFns;

verus! {

/// One pool of given names, keyed by race and gender.
#[derive(Debug, Clone, Copy, PartialEq, Eq, Structural)]
pub enum NamePool {
    DragonbornMale,
    DragonbornFemale,
    DwarfMale,
    DwarfFemale,
    ElfMale,
    ElfFemale,
    HalflingMale,
    HalflingFemale,
    HalfOrcMale,
    HalfOrcFemale,
    HumanMale,
    HumanFemale,
    TieflingMale,
    TieflingFemale,
}

/// The pool a character draws a random name from: Halflings and
/// Gnomes share the halfling lists, Humans and Half-Elves the human
/// lists, and the female pool also serves an unspecified gender.
pub open spec fn spec_name_pool(race: Race, gender: Gender) -> NamePool {
    match race {
        Race::Dragonborn => if gender == Gender::Male {
            NamePool::DragonbornMale
        } else {
            NamePool::DragonbornFemale
        },
        Race::Dwarf(_) => if gender == Gender::Male {
            NamePool::DwarfMale
        } else {
            NamePool::DwarfFemale
        },
        Race::Elf(_) => if gender == Gender::Male {
            NamePool::ElfMale
        } else {
            NamePool::ElfFemale
        },
        Race::Halfling(_) => if gender == Gender::Male {
            NamePool::HalflingMale
        } else {
            NamePool::HalflingFemale
        },
        Race::Gnome(_) => if gender == Gender::Male {
            NamePool::HalflingMale
        } else {
            NamePool::HalflingFemale
        },
        Race::HalfOrc => if gender == Gender::Male {
            NamePool::HalfOrcMale
        } else {
            NamePool::HalfOrcFemale
        },
        Race::Human(_) => if gender == Gender::Male {
            NamePool::HumanMale
        } else {
            NamePool::HumanFemale
        },
        Race::HalfElf => if gender == Gender::Male {
            NamePool::HumanMale
        } else {
            NamePool::HumanFemale
        },
        Race::Tiefling => if gender == Gender::Male {
            NamePool::TieflingMale
        } else {
            NamePool::TieflingFemale
        },
    }
}

/// Keys the name pool for a race and gender.
pub fn name_pool(race: &Race, gender: &Gender) -> (r: NamePool)
    ensures
        r == spec_name_pool(*race, *gender),
{
    let male = match gender {
        Gender::Male => true,
        _ => false,
    };
    match race {
        Race::Dragonborn => if male {
            NamePool::DragonbornMale
        } else {
            NamePool::DragonbornFemale
        },
        Race::Dwarf(_) => if male {
            NamePool::DwarfMale
        } else {
            NamePool::DwarfFemale
        },
        Race::Elf(_) => if male {
            NamePool::ElfMale
        } else {
            NamePool::ElfFemale
        },
        Race::Halfling(_) | Race::Gnome(_) => if male {
            NamePool::HalflingMale
        } else {
            NamePool::HalflingFemale
        },
        Race::HalfOrc => if male {
            NamePool::HalfOrcMale
        } else {
            NamePool::HalfOrcFemale
        },
        Race::Human(_) | Race::HalfElf => if male {
            NamePool::HumanMale
        } else {
            NamePool::HumanFemale
        },
        Race::Tiefling => if male {
            NamePool::TieflingMale
        } else {
            NamePool::TieflingFemale
        },
    }
}

/// A typed name wins; an empty line falls back to the generated one.
pub fn resolve_name(typed: &str, generated: String) -> (r: String)
    ensures
        typed@.len() > 0 ==> r@ == typed@,
        typed@.len() == 0 ==> r@ == generated@,
{
    if typed.unicode_len() == 0 {
        generated
    } else {
        typed.to_owned()
    }
}

} // verus!
