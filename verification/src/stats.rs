//! The six ability scores and the stepped modifier table derived from them.

use vstd::prelude::*;

verus! {

/// One ability score, tagged with which of the six abilities it is.
/// A character always carries exactly six, in the fixed order
/// Str, Dex, Con, Int, Wis, Chr.
#[derive(Debug, Clone, Copy, PartialEq, Eq, Structural)]
pub enum Stat {
    Str(u8),
    Dex(u8),
    Con(u8),
    Int(u8),
    Wis(u8),
    Chr(u8),
}

/// The stepped modifier table: a score in [1, 30] maps to (score - 10) / 2
/// rounded down, which walks the documented steps 1 -> -5, 2..3 -> -4, ...,
/// 30 -> +10.  Scores outside [1, 30] map to 0.
pub open spec fn spec_modifier(v: int) -> int {
    if 1 <= v <= 30 {
        (v - 10) / 2
    } else {
        0
    }
}

/// The modifier is non-decreasing over the whole score range [1, 30].
pub proof fn lemma_modifier_monotonic(a: int, b: int)
    requires
        1 <= a <= b <= 30,
    ensures
        spec_modifier(a) <= spec_modifier(b),
{
    vstd::arithmetic::div_mod::lemma_div_is_ordered(a - 10, b - 10, 2);
}

/// The modifier never leaves [-5, 10], whatever the score.
pub proof fn lemma_modifier_bounds(v: int)
    ensures
        -5 <= spec_modifier(v) <= 10,
{
    if 1 <= v <= 30 {
        lemma_modifier_monotonic(1, v);
        lemma_modifier_monotonic(v, 30);
    }
}

impl Stat {
    /// The raw score held by the tag.
    pub open spec fn spec_value(self) -> u8 {
        match self {
            Stat::Str(v) => v,
            Stat::Dex(v) => v,
            Stat::Con(v) => v,
            Stat::Int(v) => v,
            Stat::Wis(v) => v,
            Stat::Chr(v) => v,
        }
    }

    /// The same ability tag carrying `v` instead of the current score.
    pub open spec fn spec_with_value(self, v: u8) -> Stat {
        match self {
            Stat::Str(_) => Stat::Str(v),
            Stat::Dex(_) => Stat::Dex(v),
            Stat::Con(_) => Stat::Con(v),
            Stat::Int(_) => Stat::Int(v),
            Stat::Wis(_) => Stat::Wis(v),
            Stat::Chr(_) => Stat::Chr(v),
        }
    }

    /// Extracts the raw score.
    pub fn value(&self) -> (v: u8)
        ensures
            v == self.spec_value(),
    {
        match *self {
            Stat::Str(v) => v,
            Stat::Dex(v) => v,
            Stat::Con(v) => v,
            Stat::Int(v) => v,
            Stat::Wis(v) => v,
            Stat::Chr(v) => v,
        }
    }

    /// The ability modifier for this score, straight from the stepped table.
    pub fn get_modifier(&self) -> (m: i8)
        ensures
            m as int == spec_modifier(self.spec_value() as int),
            -5 <= m <= 10,
    {
        let stat_val = self.value();
        match stat_val {
            1 => -5,
            2 | 3 => -4,
            4 | 5 => -3,
            6 | 7 => -2,
            8 | 9 => -1,
            10 | 11 => 0,
            12 | 13 => 1,
            14 | 15 => 2,
            16 | 17 => 3,
            18 | 19 => 4,
            20 | 21 => 5,
            22 | 23 => 6,
            24 | 25 => 7,
            26 | 27 => 8,
            28 | 29 => 9,
            30 => 10,
            _ => 0,
        }
    }

    /// The modifier rendered with an explicit sign for positive values,
    /// as it appears on the character sheet.
    pub open spec fn spec_display(self) -> Seq<char> {
        let m = spec_modifier(self.spec_value() as int);
        if m == -5 {
            "-5"@
        } else if m == -4 {
            "-4"@
        } else if m == -3 {
            "-3"@
        } else if m == -2 {
            "-2"@
        } else if m == -1 {
            "-1"@
        } else if m == 0 {
            "0"@
        } else if m == 1 {
            "+1"@
        } else if m == 2 {
            "+2"@
        } else if m == 3 {
            "+3"@
        } else if m == 4 {
            "+4"@
        } else if m == 5 {
            "+5"@
        } else if m == 6 {
            "+6"@
        } else if m == 7 {
            "+7"@
        } else if m == 8 {
            "+8"@
        } else if m == 9 {
            "+9"@
        } else {
            "+10"@
        }
    }

    /// Renders the modifier, prefixing "+" when it is positive.
    pub fn display(&self) -> (s: String)
        ensures
            s@ == self.spec_display(),
    {
        let m = self.get_modifier();
        let lit: &str = match m {
            -5 => "-5",
            -4 => "-4",
            -3 => "-3",
            -2 => "-2",
            -1 => "-1",
            0 => "0",
            1 => "+1",
            2 => "+2",
            3 => "+3",
            4 => "+4",
            5 => "+5",
            6 => "+6",
            7 => "+7",
            8 => "+8",
            9 => "+9",
            _ => "+10",
        };
        lit.to_owned()
    }

    /// The full ability name shown beside an entry prompt.
    pub open spec fn spec_show_name(self) -> Seq<char> {
        match self {
            Stat::Str(_) => "Strength"@,
            Stat::Dex(_) => "Dexterity"@,
            Stat::Con(_) => "Constitution"@,
            Stat::Int(_) => "Intelligence"@,
            Stat::Wis(_) => "Wisdom"@,
            Stat::Chr(_) => "Charisma"@,
        }
    }

    /// The full name of the ability this score belongs to.
    pub fn show_name(&self) -> (r: &str)
        ensures
            r@ == self.spec_show_name(),
    {
        match *self {
            Stat::Str(_) => "Strength",
            Stat::Dex(_) => "Dexterity",
            Stat::Con(_) => "Constitution",
            Stat::Int(_) => "Intelligence",
            Stat::Wis(_) => "Wisdom",
            Stat::Chr(_) => "Charisma",
        }
    }

    /// The six ability tags joined in display order.
    pub fn list() -> (r: String)
        ensures
            r@ == "Str, Dex, Con, Int, Wis, Chr"@,
    {
        "Str, Dex, Con, Int, Wis, Chr".to_owned()
    }
}

/// The fixed layout of a character's six scores: exactly one of each
/// ability, in the order Str, Dex, Con, Int, Wis, Chr.
pub open spec fn spec_stats_ordered(s: Seq<Stat>) -> bool {
    &&& s.len() == 6
    &&& s[0] is Str
    &&& s[1] is Dex
    &&& s[2] is Con
    &&& s[3] is Int
    &&& s[4] is Wis
    &&& s[5] is Chr
}

/// Replaces the score inside `stat` with `new_value`, keeping the tag.
pub fn match_stat(stat: &Stat, new_value: u8) -> (r: Stat)
    ensures
        r == stat.spec_with_value(new_value),
{
    match *stat {
        Stat::Str(_) => Stat::Str(new_value),
        Stat::Dex(_) => Stat::Dex(new_value),
        Stat::Con(_) => Stat::Con(new_value),
        Stat::Int(_) => Stat::Int(new_value),
        Stat::Wis(_) => Stat::Wis(new_value),
        Stat::Chr(_) => Stat::Chr(new_value),
    }
}

} // verus!
