//! The character record and its derived combat statistics: armor class,
//! initiative, speed, hit dice and hit points.

use crate::background::Background;
use crate::classes::Class;
use crate::gender::Gender;
use crate::races::{Elf, Race};
use crate::resolver::random_below;
use crate::stats::{spec_modifier, Stat};
use vstd::prelude::*;

verus! {

/// A status condition on the character; the catalog is still nearly empty.
#[derive(Debug, Clone, Copy, PartialEq, Eq, Structural)]
pub enum Condition {
    Normal,
    Poisoned,
}

/// The dice the game rolls.
#[derive(Debug, Clone, Copy, PartialEq, Eq, Structural)]
pub enum Dice {
    D4,
    D6,
    D8,
    D10,
    D12,
    D20,
    D100,
}

/// Whether a die may serve as a class's hit die: only d6, d8, d10 and
/// d12 ever do.
pub open spec fn spec_is_hit_die(d: Dice) -> bool {
    d == Dice::D6 || d == Dice::D8 || d == Dice::D10 || d == Dice::D12
}

/// The largest face of a hit die; first-level hit points always take it
/// whole.
pub open spec fn spec_max_face(d: Dice) -> int {
    match d {
        Dice::D6 => 6,
        Dice::D8 => 8,
        Dice::D10 => 10,
        Dice::D12 => 12,
        _ => 0,
    }
}

/// The fixed per-level gain of a hit die under the average-dice policy.
pub open spec fn spec_average_face(d: Dice) -> int {
    match d {
        Dice::D6 => 4,
        Dice::D8 => 5,
        Dice::D10 => 6,
        Dice::D12 => 7,
        _ => 0,
    }
}

/// The hit die each class uses; a fixed, total lookup.
pub open spec fn spec_hit_dice(c: Class) -> Dice {
    match c {
        Class::Artificer(_) => Dice::D8,
        Class::Barbarian(_) => Dice::D12,
        Class::Bard(_) => Dice::D8,
        Class::Cleric(_) => Dice::D8,
        Class::Druid(_) => Dice::D8,
        Class::Fighter(_) => Dice::D10,
        Class::Monk(_) => Dice::D8,
        Class::Paladin(_) => Dice::D10,
        Class::Ranger(_) => Dice::D10,
        Class::Rogue(_) => Dice::D8,
        Class::Sorcerer(_) => Dice::D6,
        Class::Warlock(_) => Dice::D8,
        Class::Wizard(_) => Dice::D6,
    }
}

/// Every class has a hit die, and it is one of d6, d8, d10 or d12 --
/// the lookup is total and never leaves that set.
pub proof fn lemma_hit_dice_total(c: Class)
    ensures
        spec_is_hit_die(spec_hit_dice(c)),
{
}

/// The class-specific armor bonus: a Barbarian adds the Constitution
/// modifier, a Monk the Wisdom modifier, anyone else nothing.
pub open spec fn spec_class_ac_bonus(stats: Seq<Stat>, class: Class) -> int {
    match class {
        Class::Barbarian(_) => spec_modifier(stats[2].spec_value() as int),
        Class::Monk(_) => spec_modifier(stats[4].spec_value() as int),
        _ => 0,
    }
}

/// Armor class: a base of 10, the Dexterity modifier, and the
/// class-specific bonus.
pub open spec fn spec_armor_class(stats: Seq<Stat>, class: Class) -> int {
    10 + spec_modifier(stats[1].spec_value() as int) + spec_class_ac_bonus(stats, class)
}

/// Armor class law: a Barbarian adds the Constitution modifier on top
/// of 10 plus the Dexterity modifier, a Monk the Wisdom modifier, and
/// every other class gets exactly 10 plus the Dexterity modifier.
pub proof fn lemma_armor_class_breakdown(stats: Seq<Stat>, class: Class)
    requires
        stats.len() == 6,
    ensures
        class is Barbarian ==> spec_armor_class(stats, class) == 10 + spec_modifier(
            stats[1].spec_value() as int,
        ) + spec_modifier(stats[2].spec_value() as int),
        class is Monk ==> spec_armor_class(stats, class) == 10 + spec_modifier(
            stats[1].spec_value() as int,
        ) + spec_modifier(stats[4].spec_value() as int),
        !(class is Barbarian) && !(class is Monk) ==> spec_armor_class(stats, class) == 10
            + spec_modifier(stats[1].spec_value() as int),
{
}

/// Computes the armor class from the six ability scores (in their fixed
/// order) and the class.
pub fn calculate_ac(stats: &[Stat], class: &Class) -> (r: i8)
    requires
        stats@.len() == 6,
    ensures
        r as int == spec_armor_class(stats@, *class),
        0 <= r <= 30,
{
    let additional_ac: i8 = match class {
        Class::Barbarian(_) => stats[2].get_modifier(),
        Class::Monk(_) => stats[4].get_modifier(),
        _ => 0,
    };
    10 + stats[1].get_modifier() + additional_ac
}

/// Walking speed by race: 25 for the short races, 35 for a Wood Elf,
/// 30 for everyone else.
pub open spec fn spec_speed(race: Race) -> int {
    match race {
        Race::Dwarf(_) => 25,
        Race::Gnome(_) => 25,
        Race::Halfling(_) => 25,
        Race::Elf(v) => if v == Elf::WoodElf {
            35
        } else {
            30
        },
        _ => 30,
    }
}

/// Computes the fixed walking speed of a race.
pub fn calculate_speed(race: &Race) -> (r: u16)
    ensures
        r as int == spec_speed(*race),
{
    match race {
        Race::Dwarf(_) | Race::Gnome(_) | Race::Halfling(_) => 25,
        Race::Dragonborn | Race::HalfElf | Race::HalfOrc | Race::Human(_) | Race::Tiefling => 30,
        Race::Elf(v) => match v {
            Elf::WoodElf => 35,
            _ => 30,
        },
    }
}

/// First-level hit points: the hit die's largest face plus the
/// Constitution modifier, never averaged or rolled.
pub open spec fn spec_first_level_hp(con: int, d: Dice) -> int {
    con + spec_max_face(d)
}

/// Total hit points under the average-dice policy: first-level hit
/// points plus a fixed per-level increment for each level past the
/// first.
pub open spec fn spec_average_hp(level: int, con: int, d: Dice) -> int {
    spec_first_level_hp(con, d) + (con + spec_average_face(d)) * (level - 1)
}

/// At first level the two progression policies agree: the rolled
/// policy's bounds (here with their zero levels-past-one term)
/// collapse to first-level hit points, and the average policy gives
/// the same value.  First level is always the largest face plus the
/// modifier, never averaged or rolled.
pub proof fn lemma_first_level_hp_policy_free(con: int, d: Dice, rolled_total: int)
    requires
        spec_first_level_hp(con, d) + 0 * (con + 1) <= rolled_total,
        rolled_total <= spec_first_level_hp(con, d) + 0 * (con + spec_max_face(d)),
    ensures
        rolled_total == spec_first_level_hp(con, d),
        spec_average_hp(1, con, d) == spec_first_level_hp(con, d),
{
}

/// The derived combat block of a character.  Everything here is
/// computed from the ability scores, race, class, level and the hit
/// point progression policy; nothing is entered directly.
#[derive(Debug, Clone, Copy, PartialEq, Eq, Structural)]
pub struct Status {
    pub armor_class: i8,
    pub conditions: Condition,
    pub blessed: bool,
    pub initiative: i8,
    pub hit_dice: Dice,
    pub current_hp: i16,
    pub maximum_hp: i16,
    pub speed: u16,
}

impl Status {
    /// Builds the full derived block for a fresh character and computes
    /// its hit points under the chosen progression policy.
    pub fn new(stats: &[Stat], race: &Race, class: &Class, level: &u8, use_average_dice: bool) -> (r:
        Status)
        requires
            stats@.len() == 6,
            1 <= *level <= 20,
        ensures
            r.armor_class as int == spec_armor_class(stats@, *class),
            r.conditions == Condition::Normal,
            r.blessed == false,
            r.initiative as int == spec_modifier(stats@[1].spec_value() as int),
            r.hit_dice == spec_hit_dice(*class),
            r.speed as int == spec_speed(*race),
            r.current_hp == r.maximum_hp,
            use_average_dice ==> r.maximum_hp as int == spec_average_hp(
                *level as int,
                spec_modifier(stats@[2].spec_value() as int),
                spec_hit_dice(*class),
            ),
            !use_average_dice ==> {
                let con = spec_modifier(stats@[2].spec_value() as int);
                let d = spec_hit_dice(*class);
                spec_first_level_hp(con, d) + (*level - 1) * (con + 1) <= r.maximum_hp as int
                    <= spec_first_level_hp(con, d) + (*level - 1) * (con + spec_max_face(d))
            },
    {
        let hit_dice = match class {
            Class::Artificer(_) => Dice::D8,
            Class::Barbarian(_) => Dice::D12,
            Class::Bard(_) => Dice::D8,
            Class::Cleric(_) => Dice::D8,
            Class::Druid(_) => Dice::D8,
            Class::Fighter(_) => Dice::D10,
            Class::Monk(_) => Dice::D8,
            Class::Paladin(_) => Dice::D10,
            Class::Ranger(_) => Dice::D10,
            Class::Rogue(_) => Dice::D8,
            Class::Sorcerer(_) => Dice::D6,
            Class::Warlock(_) => Dice::D8,
            Class::Wizard(_) => Dice::D6,
        };
        let status = Status {
            armor_class: calculate_ac(stats, class),
            conditions: Condition::Normal,
            blessed: false,
            initiative: stats[1].get_modifier(),
            hit_dice,
            current_hp: 10,
            maximum_hp: 10,
            speed: calculate_speed(race),
        };
        status.calculate_hp(level, stats[2].get_modifier(), use_average_dice)
    }

    /// Recomputes current and maximum hit points from the level, the
    /// Constitution modifier and this block's hit die, leaving every
    /// other field as it was.  Under the average policy the total is
    /// exact; under the rolled policy each level past the first adds
    /// one uniform roll of the hit die plus the modifier, so only its
    /// bounds can be promised.
    pub fn calculate_hp(self, level: &u8, con_modifier: i8, use_average_dice: bool) -> (r: Status)
        requires
            spec_is_hit_die(self.hit_dice),
            1 <= *level <= 20,
            -5 <= con_modifier <= 10,
        ensures
            r == (Status { current_hp: r.current_hp, maximum_hp: r.maximum_hp, ..self }),
            r.current_hp == r.maximum_hp,
            use_average_dice ==> r.maximum_hp as int == spec_average_hp(
                *level as int,
                con_modifier as int,
                self.hit_dice,
            ),
            !use_average_dice ==> spec_first_level_hp(con_modifier as int, self.hit_dice) + (*level
                - 1) * (con_modifier as int + 1) <= r.maximum_hp as int <= spec_first_level_hp(
                con_modifier as int,
                self.hit_dice,
            ) + (*level - 1) * (con_modifier as int + spec_max_face(self.hit_dice)),
    {
        let dice_max: i16 = match self.hit_dice {
            Dice::D6 => 6,
            Dice::D8 => 8,
            Dice::D10 => 10,
            Dice::D12 => 12,
            _ => 6,
        };
        let con: i16 = con_modifier as i16;
        let lvl: u8 = *level;
        let hp_first_level: i16 = con + dice_max;

        let maximum_hp: i16 = if use_average_dice {
            let hp_per_level: i16 = match self.hit_dice {
                Dice::D6 => 4,
                Dice::D8 => 5,
                Dice::D10 => 6,
                Dice::D12 => 7,
                _ => 4,
            };
            proof {
                assert((con + hp_per_level) * ((lvl - 1) as int) <= 17 * 19 && (con + hp_per_level)
                    * ((lvl - 1) as int) >= -1 * 19) by (nonlinear_arith)
                    requires
                        -1 <= con + hp_per_level <= 17,
                        0 <= lvl - 1 <= 19,
                ;
            }
            hp_first_level + (con + hp_per_level) * ((lvl - 1) as i16)
        } else {
            let mut hp_to_add: i16 = 0;
            let mut i: u8 = 1;
            while i < lvl
                invariant
                    1 <= i <= lvl,
                    lvl <= 20,
                    -5 <= con <= 10,
                    6 <= dice_max <= 12,
                    dice_max == spec_max_face(self.hit_dice),
                    (i - 1) * (con + 1) <= hp_to_add as int <= (i - 1) * (con + dice_max),
                    -100 <= hp_to_add <= 440,
                decreases lvl - i,
            {
                let inc: i16 = (random_below(dice_max as usize) + 1) as i16;
                proof {
                    assert((i - 1) * (con + 1) + (con + 1) == i as int * (con + 1) && (i - 1) * (con
                        + dice_max) + (con + dice_max) == i as int * (con + dice_max))
                        by (nonlinear_arith);
                    assert(i as int * (con + 1) >= -100 && i as int * (con + dice_max) <= 440)
                        by (nonlinear_arith)
                        requires
                            1 <= i <= 20,
                            -5 <= con <= 10,
                            6 <= dice_max <= 12,
                    ;
                }
                hp_to_add = hp_to_add + inc + con;
                i = i + 1;
            }
            hp_first_level + hp_to_add
        };

        Status { current_hp: maximum_hp, maximum_hp, ..self }
    }
}

/// The finished character record: choices, raw scores and the derived
/// combat block.  Immutable once built except through the explicit turn
/// operations.
#[derive(Debug, Clone, PartialEq, Eq)]
pub struct Character {
    pub name: String,
    pub level: u8,
    pub background: Background,
    pub race: Race,
    pub class: Class,
    pub stats: [Stat; 6],
    pub status: Status,
    pub gender: Gender,
}

impl Character {
    /// The Strength score.
    pub fn get_str(&self) -> (r: &Stat)
        ensures
            *r == self.stats@[0],
    {
        &self.stats[0]
    }

    /// The Dexterity score.
    pub fn get_dex(&self) -> (r: &Stat)
        ensures
            *r == self.stats@[1],
    {
        &self.stats[1]
    }

    /// The Constitution score.
    pub fn get_con(&self) -> (r: &Stat)
        ensures
            *r == self.stats@[2],
    {
        &self.stats[2]
    }

    /// The Intelligence score.
    pub fn get_int(&self) -> (r: &Stat)
        ensures
            *r == self.stats@[3],
    {
        &self.stats[3]
    }

    /// The Wisdom score.
    pub fn get_wis(&self) -> (r: &Stat)
        ensures
            *r == self.stats@[4],
    {
        &self.stats[4]
    }

    /// The Charisma score.
    pub fn get_chr(&self) -> (r: &Stat)
        ensures
            *r == self.stats@[5],
    {
        &self.stats[5]
    }
}

impl Dice {
    /// The declaration-order position of this die.
    pub open spec fn spec_index(self) -> int {
        match self {
            Dice::D4 => 0,
            Dice::D6 => 1,
            Dice::D8 => 2,
            Dice::D10 => 3,
            Dice::D12 => 4,
            Dice::D20 => 5,
            Dice::D100 => 6,
        }
    }

    /// The die at a declaration-order position.
    pub open spec fn from_index_spec(i: int) -> Dice {
        if i == 0 {
            Dice::D4
        } else if i == 1 {
            Dice::D6
        } else if i == 2 {
            Dice::D8
        } else if i == 3 {
            Dice::D10
        } else if i == 4 {
            Dice::D12
        } else if i == 5 {
            Dice::D20
        } else {
            Dice::D100
        }
    }

    /// Returns this die's position in declaration order.
    pub fn index_of(&self) -> (r: usize)
        ensures
            r as int == self.spec_index(),
            r < 7,
    {
        match *self {
            Dice::D4 => 0,
            Dice::D6 => 1,
            Dice::D8 => 2,
            Dice::D10 => 3,
            Dice::D12 => 4,
            Dice::D20 => 5,
            Dice::D100 => 6,
        }
    }

    /// Returns the die at a declaration-order position.
    pub fn from_index(i: usize) -> (r: Dice)
        requires
            i < 7,
        ensures
            r == Dice::from_index_spec(i as int),
    {
        if i == 0 {
            Dice::D4
        } else if i == 1 {
            Dice::D6
        } else if i == 2 {
            Dice::D8
        } else if i == 3 {
            Dice::D10
        } else if i == 4 {
            Dice::D12
        } else if i == 5 {
            Dice::D20
        } else {
            Dice::D100
        }
    }
}

/// A position looked back up yields the same die.
pub proof fn lemma_dice_index_round(d: Dice)
    ensures
        Dice::from_index_spec(d.spec_index()) == d,
{
}

impl Condition {
    /// The declaration-order position of this condition.
    pub open spec fn spec_index(self) -> int {
        match self {
            Condition::Normal => 0,
            Condition::Poisoned => 1,
        }
    }

    /// The condition at a declaration-order position.
    pub open spec fn from_index_spec(i: int) -> Condition {
        if i == 0 {
            Condition::Normal
        } else {
            Condition::Poisoned
        }
    }

    /// Returns this condition's position in declaration order.
    pub fn index_of(&self) -> (r: usize)
        ensures
            r as int == self.spec_index(),
            r < 2,
    {
        match *self {
            Condition::Normal => 0,
            Condition::Poisoned => 1,
        }
    }

    /// Returns the condition at a declaration-order position.
    pub fn from_index(i: usize) -> (r: Condition)
        requires
            i < 2,
        ensures
            r == Condition::from_index_spec(i as int),
    {
        if i == 0 {
            Condition::Normal
        } else {
            Condition::Poisoned
        }
    }
}

/// A position looked back up yields the same condition.
pub proof fn lemma_condition_index_round(c: Condition)
    ensures
        Condition::from_index_spec(c.spec_index()) == c,
{
}

} // verus!
