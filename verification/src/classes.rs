//! Classes and their subclasses, with the second-phase subclass resolution.

use crate::resolver::{collect_names, resolve_choice, spec_resolve, Choosable};
use vstd::prelude::*;

verus! {

/// A character's class.  Every class carries a subclass slot, filled in
/// by a second choice phase once the character's level passes the
/// subclass threshold; until then it holds the class's first subclass.
#[derive(Debug, Clone, Copy, PartialEq, Eq, Structural)]
pub enum Class {
    Artificer(ArtificerSubclass),
    Barbarian(BarbarianSubclass),
    Bard(BardSubclass),
    Cleric(ClericSubclass),
    Druid(DruidSubclass),
    Fighter(FighterSubclass),
    Monk(MonkSubclass),
    Paladin(PaladinSubclass),
    Ranger(RangerSubclass),
    Rogue(RogueSubclass),
    Sorcerer(SorcererSubclass),
    Warlock(WarlockSubclass),
    Wizard(WizardSubclass),
}

impl Choosable for Class {
    open spec fn option_count() -> nat {
        13
    }

    open spec fn variant_at(i: int) -> Class {
        if i == 0 {
            Class::Artificer(ArtificerSubclass::Alchemist)
        } else if i == 1 {
            Class::Barbarian(BarbarianSubclass::Berserker)
        } else if i == 2 {
            Class::Bard(BardSubclass::Lore)
        } else if i == 3 {
            Class::Cleric(ClericSubclass::Knowledge)
        } else if i == 4 {
            Class::Druid(DruidSubclass::Land)
        } else if i == 5 {
            Class::Fighter(FighterSubclass::Champion)
        } else if i == 6 {
            Class::Monk(MonkSubclass::OpenHand)
        } else if i == 7 {
            Class::Paladin(PaladinSubclass::Devotion)
        } else if i == 8 {
            Class::Ranger(RangerSubclass::Hunter)
        } else if i == 9 {
            Class::Rogue(RogueSubclass::Thief)
        } else if i == 10 {
            Class::Sorcerer(SorcererSubclass::Draconic)
        } else if i == 11 {
            Class::Warlock(WarlockSubclass::Archfey)
        } else {
            Class::Wizard(WizardSubclass::Abjuration)
        }
    }

    open spec fn spec_name(self) -> Seq<char> {
        match self {
            Class::Artificer(_) => "Artificer"@,
            Class::Barbarian(_) => "Barbarian"@,
            Class::Bard(_) => "Bard"@,
            Class::Cleric(_) => "Cleric"@,
            Class::Druid(_) => "Druid"@,
            Class::Fighter(_) => "Fighter"@,
            Class::Monk(_) => "Monk"@,
            Class::Paladin(_) => "Paladin"@,
            Class::Ranger(_) => "Ranger"@,
            Class::Rogue(_) => "Rogue"@,
            Class::Sorcerer(_) => "Sorcerer"@,
            Class::Warlock(_) => "Warlock"@,
            Class::Wizard(_) => "Wizard"@,
        }
    }

    fn variant_count() -> usize {
        13
    }

    fn from_index(i: usize) -> (r: Class) {
        if i == 0 {
            Class::Artificer(ArtificerSubclass::Alchemist)
        } else if i == 1 {
            Class::Barbarian(BarbarianSubclass::Berserker)
        } else if i == 2 {
            Class::Bard(BardSubclass::Lore)
        } else if i == 3 {
            Class::Cleric(ClericSubclass::Knowledge)
        } else if i == 4 {
            Class::Druid(DruidSubclass::Land)
        } else if i == 5 {
            Class::Fighter(FighterSubclass::Champion)
        } else if i == 6 {
            Class::Monk(MonkSubclass::OpenHand)
        } else if i == 7 {
            Class::Paladin(PaladinSubclass::Devotion)
        } else if i == 8 {
            Class::Ranger(RangerSubclass::Hunter)
        } else if i == 9 {
            Class::Rogue(RogueSubclass::Thief)
        } else if i == 10 {
            Class::Sorcerer(SorcererSubclass::Draconic)
        } else if i == 11 {
            Class::Warlock(WarlockSubclass::Archfey)
        } else {
            Class::Wizard(WizardSubclass::Abjuration)
        }
    }

    fn name(&self) -> (r: &'static str) {
        match *self {
            Class::Artificer(_) => "Artificer",
            Class::Barbarian(_) => "Barbarian",
            Class::Bard(_) => "Bard",
            Class::Cleric(_) => "Cleric",
            Class::Druid(_) => "Druid",
            Class::Fighter(_) => "Fighter",
            Class::Monk(_) => "Monk",
            Class::Paladin(_) => "Paladin",
            Class::Ranger(_) => "Ranger",
            Class::Rogue(_) => "Rogue",
            Class::Sorcerer(_) => "Sorcerer",
            Class::Warlock(_) => "Warlock",
            Class::Wizard(_) => "Wizard",
        }
    }

    fn pick(selection: Option<usize>, random_index: usize) -> (r: Class) {
        let i = resolve_choice(Self::variant_count(), selection, random_index);
        Self::from_index(i)
    }
}

/// The thirteen subclass families, one per class.
#[derive(Debug, Clone, Copy, PartialEq, Eq, Structural)]
pub enum Subclass {
    ArtificerSubclass,
    BarbarianSubclass,
    BardSubclass,
    ClericSubclass,
    DruidSubclass,
    FighterSubclass,
    MonkSubclass,
    PaladinSubclass,
    RangerSubclass,
    RogueSubclass,
    SorcererSubclass,
    WarlockSubclass,
    WizardSubclass,
}

impl Choosable for Subclass {
    open spec fn option_count() -> nat {
        13
    }

    open spec fn variant_at(i: int) -> Subclass {
        if i == 0 {
            Subclass::ArtificerSubclass
        } else if i == 1 {
            Subclass::BarbarianSubclass
        } else if i == 2 {
            Subclass::BardSubclass
        } else if i == 3 {
            Subclass::ClericSubclass
        } else if i == 4 {
            Subclass::DruidSubclass
        } else if i == 5 {
            Subclass::FighterSubclass
        } else if i == 6 {
            Subclass::MonkSubclass
        } else if i == 7 {
            Subclass::PaladinSubclass
        } else if i == 8 {
            Subclass::RangerSubclass
        } else if i == 9 {
            Subclass::RogueSubclass
        } else if i == 10 {
            Subclass::SorcererSubclass
        } else if i == 11 {
            Subclass::WarlockSubclass
        } else {
            Subclass::WizardSubclass
        }
    }

    open spec fn spec_name(self) -> Seq<char> {
        match self {
            Subclass::ArtificerSubclass => "ArtificerSubclass"@,
            Subclass::BarbarianSubclass => "BarbarianSubclass"@,
            Subclass::BardSubclass => "BardSubclass"@,
            Subclass::ClericSubclass => "ClericSubclass"@,
            Subclass::DruidSubclass => "DruidSubclass"@,
            Subclass::FighterSubclass => "FighterSubclass"@,
            Subclass::MonkSubclass => "MonkSubclass"@,
            Subclass::PaladinSubclass => "PaladinSubclass"@,
            Subclass::RangerSubclass => "RangerSubclass"@,
            Subclass::RogueSubclass => "RogueSubclass"@,
            Subclass::SorcererSubclass => "SorcererSubclass"@,
            Subclass::WarlockSubclass => "WarlockSubclass"@,
            Subclass::WizardSubclass => "WizardSubclass"@,
        }
    }

    fn variant_count() -> usize {
        13
    }

    fn from_index(i: usize) -> (r: Subclass) {
        if i == 0 {
            Subclass::ArtificerSubclass
        } else if i == 1 {
            Subclass::BarbarianSubclass
        } else if i == 2 {
            Subclass::BardSubclass
        } else if i == 3 {
            Subclass::ClericSubclass
        } else if i == 4 {
            Subclass::DruidSubclass
        } else if i == 5 {
            Subclass::FighterSubclass
        } else if i == 6 {
            Subclass::MonkSubclass
        } else if i == 7 {
            Subclass::PaladinSubclass
        } else if i == 8 {
            Subclass::RangerSubclass
        } else if i == 9 {
            Subclass::RogueSubclass
        } else if i == 10 {
            Subclass::SorcererSubclass
        } else if i == 11 {
            Subclass::WarlockSubclass
        } else {
            Subclass::WizardSubclass
        }
    }

    fn name(&self) -> (r: &'static str) {
        match *self {
            Subclass::ArtificerSubclass => "ArtificerSubclass",
            Subclass::BarbarianSubclass => "BarbarianSubclass",
            Subclass::BardSubclass => "BardSubclass",
            Subclass::ClericSubclass => "ClericSubclass",
            Subclass::DruidSubclass => "DruidSubclass",
            Subclass::FighterSubclass => "FighterSubclass",
            Subclass::MonkSubclass => "MonkSubclass",
            Subclass::PaladinSubclass => "PaladinSubclass",
            Subclass::RangerSubclass => "RangerSubclass",
            Subclass::RogueSubclass => "RogueSubclass",
            Subclass::SorcererSubclass => "SorcererSubclass",
            Subclass::WarlockSubclass => "WarlockSubclass",
            Subclass::WizardSubclass => "WizardSubclass",
        }
    }

    fn pick(selection: Option<usize>, random_index: usize) -> (r: Subclass) {
        let i = resolve_choice(Self::variant_count(), selection, random_index);
        Self::from_index(i)
    }
}

/// The subclasses an Artificer can take.
#[derive(Debug, Clone, Copy, PartialEq, Eq, Structural)]
pub enum ArtificerSubclass {
    Alchemist,
    Artillerist,
    BattleSmith,
    Armorer,
}

impl Choosable for ArtificerSubclass {
    open spec fn option_count() -> nat {
        4
    }

    open spec fn variant_at(i: int) -> ArtificerSubclass {
        if i == 0 {
            ArtificerSubclass::Alchemist
        } else if i == 1 {
            ArtificerSubclass::Artillerist
        } else if i == 2 {
            ArtificerSubclass::BattleSmith
        } else {
            ArtificerSubclass::Armorer
        }
    }

    open spec fn spec_name(self) -> Seq<char> {
        match self {
            ArtificerSubclass::Alchemist => "Alchemist"@,
            ArtificerSubclass::Artillerist => "Artillerist"@,
            ArtificerSubclass::BattleSmith => "Battle Smith"@,
            ArtificerSubclass::Armorer => "Armorer"@,
        }
    }

    fn variant_count() -> usize {
        4
    }

    fn from_index(i: usize) -> (r: ArtificerSubclass) {
        if i == 0 {
            ArtificerSubclass::Alchemist
        } else if i == 1 {
            ArtificerSubclass::Artillerist
        } else if i == 2 {
            ArtificerSubclass::BattleSmith
        } else {
            ArtificerSubclass::Armorer
        }
    }

    fn name(&self) -> (r: &'static str) {
        match *self {
            ArtificerSubclass::Alchemist => "Alchemist",
            ArtificerSubclass::Artillerist => "Artillerist",
            ArtificerSubclass::BattleSmith => "Battle Smith",
            ArtificerSubclass::Armorer => "Armorer",
        }
    }

    fn pick(selection: Option<usize>, random_index: usize) -> (r: ArtificerSubclass) {
        let i = resolve_choice(Self::variant_count(), selection, random_index);
        Self::from_index(i)
    }
}

/// The subclasses a Barbarian can take.
#[derive(Debug, Clone, Copy, PartialEq, Eq, Structural)]
pub enum BarbarianSubclass {
    Berserker,
    Totem,
    AncestralGuardian,
    StormHerald,
    Zealot,
    Beast,
    WildMagic,
}

impl Choosable for BarbarianSubclass {
    open spec fn option_count() -> nat {
        7
    }

    open spec fn variant_at(i: int) -> BarbarianSubclass {
        if i == 0 {
            BarbarianSubclass::Berserker
        } else if i == 1 {
            BarbarianSubclass::Totem
        } else if i == 2 {
            BarbarianSubclass::AncestralGuardian
        } else if i == 3 {
            BarbarianSubclass::StormHerald
        } else if i == 4 {
            BarbarianSubclass::Zealot
        } else if i == 5 {
            BarbarianSubclass::Beast
        } else {
            BarbarianSubclass::WildMagic
        }
    }

    open spec fn spec_name(self) -> Seq<char> {
        match self {
            BarbarianSubclass::Berserker => "Berserker"@,
            BarbarianSubclass::Totem => "Totem"@,
            BarbarianSubclass::AncestralGuardian => "Ancestral Guardian"@,
            BarbarianSubclass::StormHerald => "Storm Herald"@,
            BarbarianSubclass::Zealot => "Zealot"@,
            BarbarianSubclass::Beast => "Beast"@,
            BarbarianSubclass::WildMagic => "Wild Magic"@,
        }
    }

    fn variant_count() -> usize {
        7
    }

    fn from_index(i: usize) -> (r: BarbarianSubclass) {
        if i == 0 {
            BarbarianSubclass::Berserker
        } else if i == 1 {
            BarbarianSubclass::Totem
        } else if i == 2 {
            BarbarianSubclass::AncestralGuardian
        } else if i == 3 {
            BarbarianSubclass::StormHerald
        } else if i == 4 {
            BarbarianSubclass::Zealot
        } else if i == 5 {
            BarbarianSubclass::Beast
        } else {
            BarbarianSubclass::WildMagic
        }
    }

    fn name(&self) -> (r: &'static str) {
        match *self {
            BarbarianSubclass::Berserker => "Berserker",
            BarbarianSubclass::Totem => "Totem",
            BarbarianSubclass::AncestralGuardian => "Ancestral Guardian",
            BarbarianSubclass::StormHerald => "Storm Herald",
            BarbarianSubclass::Zealot => "Zealot",
            BarbarianSubclass::Beast => "Beast",
            BarbarianSubclass::WildMagic => "Wild Magic",
        }
    }

    fn pick(selection: Option<usize>, random_index: usize) -> (r: BarbarianSubclass) {
        let i = resolve_choice(Self::variant_count(), selection, random_index);
        Self::from_index(i)
    }
}

/// The subclasses a Bard can take.
#[derive(Debug, Clone, Copy, PartialEq, Eq, Structural)]
pub enum BardSubclass {
    Lore,
    Valor,
    Glamour,
    Swords,
    Whispers,
    Eloquence,
    Creation,
}

impl Choosable for BardSubclass {
    open spec fn option_count() -> nat {
        7
    }

    open spec fn variant_at(i: int) -> BardSubclass {
        if i == 0 {
            BardSubclass::Lore
        } else if i == 1 {
            BardSubclass::Valor
        } else if i == 2 {
            BardSubclass::Glamour
        } else if i == 3 {
            BardSubclass::Swords
        } else if i == 4 {
            BardSubclass::Whispers
        } else if i == 5 {
            BardSubclass::Eloquence
        } else {
            BardSubclass::Creation
        }
    }

    open spec fn spec_name(self) -> Seq<char> {
        match self {
            BardSubclass::Lore => "Lore"@,
            BardSubclass::Valor => "Valor"@,
            BardSubclass::Glamour => "Glamour"@,
            BardSubclass::Swords => "Swords"@,
            BardSubclass::Whispers => "Whispers"@,
            BardSubclass::Eloquence => "Eloquence"@,
            BardSubclass::Creation => "Creation"@,
        }
    }

    fn variant_count() -> usize {
        7
    }

    fn from_index(i: usize) -> (r: BardSubclass) {
        if i == 0 {
            BardSubclass::Lore
        } else if i == 1 {
            BardSubclass::Valor
        } else if i == 2 {
            BardSubclass::Glamour
        } else if i == 3 {
            BardSubclass::Swords
        } else if i == 4 {
            BardSubclass::Whispers
        } else if i == 5 {
            BardSubclass::Eloquence
        } else {
            BardSubclass::Creation
        }
    }

    fn name(&self) -> (r: &'static str) {
        match *self {
            BardSubclass::Lore => "Lore",
            BardSubclass::Valor => "Valor",
            BardSubclass::Glamour => "Glamour",
            BardSubclass::Swords => "Swords",
            BardSubclass::Whispers => "Whispers",
            BardSubclass::Eloquence => "Eloquence",
            BardSubclass::Creation => "Creation",
        }
    }

    fn pick(selection: Option<usize>, random_index: usize) -> (r: BardSubclass) {
        let i = resolve_choice(Self::variant_count(), selection, random_index);
        Self::from_index(i)
    }
}

/// The subclasses a Cleric can take.
#[derive(Debug, Clone, Copy, PartialEq, Eq, Structural)]
pub enum ClericSubclass {
    Knowledge,
    Life,
    Light,
    Nature,
    Tempest,
    Trickery,
    War,
    Forge,
    Grave,
    Order,
    Peace,
    Twilight,
}

impl Choosable for ClericSubclass {
    open spec fn option_count() -> nat {
        12
    }

    open spec fn variant_at(i: int) -> ClericSubclass {
        if i == 0 {
            ClericSubclass::Knowledge
        } else if i == 1 {
            ClericSubclass::Life
        } else if i == 2 {
            ClericSubclass::Light
        } else if i == 3 {
            ClericSubclass::Nature
        } else if i == 4 {
            ClericSubclass::Tempest
        } else if i == 5 {
            ClericSubclass::Trickery
        } else if i == 6 {
            ClericSubclass::War
        } else if i == 7 {
            ClericSubclass::Forge
        } else if i == 8 {
            ClericSubclass::Grave
        } else if i == 9 {
            ClericSubclass::Order
        } else if i == 10 {
            ClericSubclass::Peace
        } else {
            ClericSubclass::Twilight
        }
    }

    open spec fn spec_name(self) -> Seq<char> {
        match self {
            ClericSubclass::Knowledge => "Knowledge"@,
            ClericSubclass::Life => "Life"@,
            ClericSubclass::Light => "Light"@,
            ClericSubclass::Nature => "Nature"@,
            ClericSubclass::Tempest => "Tempest"@,
            ClericSubclass::Trickery => "Trickery"@,
            ClericSubclass::War => "War"@,
            ClericSubclass::Forge => "Forge"@,
            ClericSubclass::Grave => "Grave"@,
            ClericSubclass::Order => "Order"@,
            ClericSubclass::Peace => "Peace"@,
            ClericSubclass::Twilight => "Twilight"@,
        }
    }

    fn variant_count() -> usize {
        12
    }

    fn from_index(i: usize) -> (r: ClericSubclass) {
        if i == 0 {
            ClericSubclass::Knowledge
        } else if i == 1 {
            ClericSubclass::Life
        } else if i == 2 {
            ClericSubclass::Light
        } else if i == 3 {
            ClericSubclass::Nature
        } else if i == 4 {
            ClericSubclass::Tempest
        } else if i == 5 {
            ClericSubclass::Trickery
        } else if i == 6 {
            ClericSubclass::War
        } else if i == 7 {
            ClericSubclass::Forge
        } else if i == 8 {
            ClericSubclass::Grave
        } else if i == 9 {
            ClericSubclass::Order
        } else if i == 10 {
            ClericSubclass::Peace
        } else {
            ClericSubclass::Twilight
        }
    }

    fn name(&self) -> (r: &'static str) {
        match *self {
            ClericSubclass::Knowledge => "Knowledge",
            ClericSubclass::Life => "Life",
            ClericSubclass::Light => "Light",
            ClericSubclass::Nature => "Nature",
            ClericSubclass::Tempest => "Tempest",
            ClericSubclass::Trickery => "Trickery",
            ClericSubclass::War => "War",
            ClericSubclass::Forge => "Forge",
            ClericSubclass::Grave => "Grave",
            ClericSubclass::Order => "Order",
            ClericSubclass::Peace => "Peace",
            ClericSubclass::Twilight => "Twilight",
        }
    }

    fn pick(selection: Option<usize>, random_index: usize) -> (r: ClericSubclass) {
        let i = resolve_choice(Self::variant_count(), selection, random_index);
        Self::from_index(i)
    }
}

/// The subclasses a Druid can take.
#[derive(Debug, Clone, Copy, PartialEq, Eq, Structural)]
pub enum DruidSubclass {
    Land,
    Moon,
    Dreams,
    Shepherd,
    Spores,
    Stars,
    Wildfire,
}

impl Choosable for DruidSubclass {
    open spec fn option_count() -> nat {
        7
    }

    open spec fn variant_at(i: int) -> DruidSubclass {
        if i == 0 {
            DruidSubclass::Land
        } else if i == 1 {
            DruidSubclass::Moon
        } else if i == 2 {
            DruidSubclass::Dreams
        } else if i == 3 {
            DruidSubclass::Shepherd
        } else if i == 4 {
            DruidSubclass::Spores
        } else if i == 5 {
            DruidSubclass::Stars
        } else {
            DruidSubclass::Wildfire
        }
    }

    open spec fn spec_name(self) -> Seq<char> {
        match self {
            DruidSubclass::Land => "Land"@,
            DruidSubclass::Moon => "Moon"@,
            DruidSubclass::Dreams => "Dreams"@,
            DruidSubclass::Shepherd => "Shepherd"@,
            DruidSubclass::Spores => "Spores"@,
            DruidSubclass::Stars => "Stars"@,
            DruidSubclass::Wildfire => "Wildfire"@,
        }
    }

    fn variant_count() -> usize {
        7
    }

    fn from_index(i: usize) -> (r: DruidSubclass) {
        if i == 0 {
            DruidSubclass::Land
        } else if i == 1 {
            DruidSubclass::Moon
        } else if i == 2 {
            DruidSubclass::Dreams
        } else if i == 3 {
            DruidSubclass::Shepherd
        } else if i == 4 {
            DruidSubclass::Spores
        } else if i == 5 {
            DruidSubclass::Stars
        } else {
            DruidSubclass::Wildfire
        }
    }

    fn name(&self) -> (r: &'static str) {
        match *self {
            DruidSubclass::Land => "Land",
            DruidSubclass::Moon => "Moon",
            DruidSubclass::Dreams => "Dreams",
            DruidSubclass::Shepherd => "Shepherd",
            DruidSubclass::Spores => "Spores",
            DruidSubclass::Stars => "Stars",
            DruidSubclass::Wildfire => "Wildfire",
        }
    }

    fn pick(selection: Option<usize>, random_index: usize) -> (r: DruidSubclass) {
        let i = resolve_choice(Self::variant_count(), selection, random_index);
        Self::from_index(i)
    }
}

/// The subclasses a Fighter can take.
#[derive(Debug, Clone, Copy, PartialEq, Eq, Structural)]
pub enum FighterSubclass {
    Champion,
    BattleMaster,
    EldritchKnight,
    ArcaneArcher,
    Cavalier,
    PsiWarrior,
    RuneKnight,
}

impl Choosable for FighterSubclass {
    open spec fn option_count() -> nat {
        7
    }

    open spec fn variant_at(i: int) -> FighterSubclass {
        if i == 0 {
            FighterSubclass::Champion
        } else if i == 1 {
            FighterSubclass::BattleMaster
        } else if i == 2 {
            FighterSubclass::EldritchKnight
        } else if i == 3 {
            FighterSubclass::ArcaneArcher
        } else if i == 4 {
            FighterSubclass::Cavalier
        } else if i == 5 {
            FighterSubclass::PsiWarrior
        } else {
            FighterSubclass::RuneKnight
        }
    }

    open spec fn spec_name(self) -> Seq<char> {
        match self {
            FighterSubclass::Champion => "Champion"@,
            FighterSubclass::BattleMaster => "Battle Master"@,
            FighterSubclass::EldritchKnight => "Eldritch Knight"@,
            FighterSubclass::ArcaneArcher => "Arcane Archer"@,
            FighterSubclass::Cavalier => "Cavalier"@,
            FighterSubclass::PsiWarrior => "Psi Warrior"@,
            FighterSubclass::RuneKnight => "Rune Knight"@,
        }
    }

    fn variant_count() -> usize {
        7
    }

    fn from_index(i: usize) -> (r: FighterSubclass) {
        if i == 0 {
            FighterSubclass::Champion
        } else if i == 1 {
            FighterSubclass::BattleMaster
        } else if i == 2 {
            FighterSubclass::EldritchKnight
        } else if i == 3 {
            FighterSubclass::ArcaneArcher
        } else if i == 4 {
            FighterSubclass::Cavalier
        } else if i == 5 {
            FighterSubclass::PsiWarrior
        } else {
            FighterSubclass::RuneKnight
        }
    }

    fn name(&self) -> (r: &'static str) {
        match *self {
            FighterSubclass::Champion => "Champion",
            FighterSubclass::BattleMaster => "Battle Master",
            FighterSubclass::EldritchKnight => "Eldritch Knight",
            FighterSubclass::ArcaneArcher => "Arcane Archer",
            FighterSubclass::Cavalier => "Cavalier",
            FighterSubclass::PsiWarrior => "Psi Warrior",
            FighterSubclass::RuneKnight => "Rune Knight",
        }
    }

    fn pick(selection: Option<usize>, random_index: usize) -> (r: FighterSubclass) {
        let i = resolve_choice(Self::variant_count(), selection, random_index);
        Self::from_index(i)
    }
}

/// The subclasses a Monk can take.
#[derive(Debug, Clone, Copy, PartialEq, Eq, Structural)]
pub enum MonkSubclass {
    OpenHand,
    Shadow,
    FourElements,
    SunSoul,
    Drunken,
    Kensei,
    Mercy,
    AstralSelf,
}

impl Choosable for MonkSubclass {
    open spec fn option_count() -> nat {
        8
    }

    open spec fn variant_at(i: int) -> MonkSubclass {
        if i == 0 {
            MonkSubclass::OpenHand
        } else if i == 1 {
            MonkSubclass::Shadow
        } else if i == 2 {
            MonkSubclass::FourElements
        } else if i == 3 {
            MonkSubclass::SunSoul
        } else if i == 4 {
            MonkSubclass::Drunken
        } else if i == 5 {
            MonkSubclass::Kensei
        } else if i == 6 {
            MonkSubclass::Mercy
        } else {
            MonkSubclass::AstralSelf
        }
    }

    open spec fn spec_name(self) -> Seq<char> {
        match self {
            MonkSubclass::OpenHand => "Open Hand"@,
            MonkSubclass::Shadow => "Shadow"@,
            MonkSubclass::FourElements => "Four Elements"@,
            MonkSubclass::SunSoul => "Sun Soul"@,
            MonkSubclass::Drunken => "Drunken"@,
            MonkSubclass::Kensei => "Kensei"@,
            MonkSubclass::Mercy => "Mercy"@,
            MonkSubclass::AstralSelf => "Astral Self"@,
        }
    }

    fn variant_count() -> usize {
        8
    }

    fn from_index(i: usize) -> (r: MonkSubclass) {
        if i == 0 {
            MonkSubclass::OpenHand
        } else if i == 1 {
            MonkSubclass::Shadow
        } else if i == 2 {
            MonkSubclass::FourElements
        } else if i == 3 {
            MonkSubclass::SunSoul
        } else if i == 4 {
            MonkSubclass::Drunken
        } else if i == 5 {
            MonkSubclass::Kensei
        } else if i == 6 {
            MonkSubclass::Mercy
        } else {
            MonkSubclass::AstralSelf
        }
    }

    fn name(&self) -> (r: &'static str) {
        match *self {
            MonkSubclass::OpenHand => "Open Hand",
            MonkSubclass::Shadow => "Shadow",
            MonkSubclass::FourElements => "Four Elements",
            MonkSubclass::SunSoul => "Sun Soul",
            MonkSubclass::Drunken => "Drunken",
            MonkSubclass::Kensei => "Kensei",
            MonkSubclass::Mercy => "Mercy",
            MonkSubclass::AstralSelf => "Astral Self",
        }
    }

    fn pick(selection: Option<usize>, random_index: usize) -> (r: MonkSubclass) {
        let i = resolve_choice(Self::variant_count(), selection, random_index);
        Self::from_index(i)
    }
}

/// The subclasses a Paladin can take.
#[derive(Debug, Clone, Copy, PartialEq, Eq, Structural)]
pub enum PaladinSubclass {
    Devotion,
    Ancients,
    Vengeance,
    Conquest,
    Redemption,
    Glory,
    Watchers,
}

impl Choosable for PaladinSubclass {
    open spec fn option_count() -> nat {
        7
    }

    open spec fn variant_at(i: int) -> PaladinSubclass {
        if i == 0 {
            PaladinSubclass::Devotion
        } else if i == 1 {
            PaladinSubclass::Ancients
        } else if i == 2 {
            PaladinSubclass::Vengeance
        } else if i == 3 {
            PaladinSubclass::Conquest
        } else if i == 4 {
            PaladinSubclass::Redemption
        } else if i == 5 {
            PaladinSubclass::Glory
        } else {
            PaladinSubclass::Watchers
        }
    }

    open spec fn spec_name(self) -> Seq<char> {
        match self {
            PaladinSubclass::Devotion => "Devotion"@,
            PaladinSubclass::Ancients => "Ancients"@,
            PaladinSubclass::Vengeance => "Vengeance"@,
            PaladinSubclass::Conquest => "Conquest"@,
            PaladinSubclass::Redemption => "Redemption"@,
            PaladinSubclass::Glory => "Glory"@,
            PaladinSubclass::Watchers => "Watchers"@,
        }
    }

    fn variant_count() -> usize {
        7
    }

    fn from_index(i: usize) -> (r: PaladinSubclass) {
        if i == 0 {
            PaladinSubclass::Devotion
        } else if i == 1 {
            PaladinSubclass::Ancients
        } else if i == 2 {
            PaladinSubclass::Vengeance
        } else if i == 3 {
            PaladinSubclass::Conquest
        } else if i == 4 {
            PaladinSubclass::Redemption
        } else if i == 5 {
            PaladinSubclass::Glory
        } else {
            PaladinSubclass::Watchers
        }
    }

    fn name(&self) -> (r: &'static str) {
        match *self {
            PaladinSubclass::Devotion => "Devotion",
            PaladinSubclass::Ancients => "Ancients",
            PaladinSubclass::Vengeance => "Vengeance",
            PaladinSubclass::Conquest => "Conquest",
            PaladinSubclass::Redemption => "Redemption",
            PaladinSubclass::Glory => "Glory",
            PaladinSubclass::Watchers => "Watchers",
        }
    }

    fn pick(selection: Option<usize>, random_index: usize) -> (r: PaladinSubclass) {
        let i = resolve_choice(Self::variant_count(), selection, random_index);
        Self::from_index(i)
    }
}

/// The subclasses a Ranger can take.
#[derive(Debug, Clone, Copy, PartialEq, Eq, Structural)]
pub enum RangerSubclass {
    Hunter,
    BeastMaster,
    GloomStalker,
    HorizonWalker,
    MonsterSlayer,
    FeyWanderer,
    Swarmkeeper,
}

impl Choosable for RangerSubclass {
    open spec fn option_count() -> nat {
        7
    }

    open spec fn variant_at(i: int) -> RangerSubclass {
        if i == 0 {
            RangerSubclass::Hunter
        } else if i == 1 {
            RangerSubclass::BeastMaster
        } else if i == 2 {
            RangerSubclass::GloomStalker
        } else if i == 3 {
            RangerSubclass::HorizonWalker
        } else if i == 4 {
            RangerSubclass::MonsterSlayer
        } else if i == 5 {
            RangerSubclass::FeyWanderer
        } else {
            RangerSubclass::Swarmkeeper
        }
    }

    open spec fn spec_name(self) -> Seq<char> {
        match self {
            RangerSubclass::Hunter => "Hunter"@,
            RangerSubclass::BeastMaster => "Beast Master"@,
            RangerSubclass::GloomStalker => "Gloom Stalker"@,
            RangerSubclass::HorizonWalker => "Horizon Walker"@,
            RangerSubclass::MonsterSlayer => "Monster Slayer"@,
            RangerSubclass::FeyWanderer => "Fey Wanderer"@,
            RangerSubclass::Swarmkeeper => "Swarmkeeper"@,
        }
    }

    fn variant_count() -> usize {
        7
    }

    fn from_index(i: usize) -> (r: RangerSubclass) {
        if i == 0 {
            RangerSubclass::Hunter
        } else if i == 1 {
            RangerSubclass::BeastMaster
        } else if i == 2 {
            RangerSubclass::GloomStalker
        } else if i == 3 {
            RangerSubclass::HorizonWalker
        } else if i == 4 {
            RangerSubclass::MonsterSlayer
        } else if i == 5 {
            RangerSubclass::FeyWanderer
        } else {
            RangerSubclass::Swarmkeeper
        }
    }

    fn name(&self) -> (r: &'static str) {
        match *self {
            RangerSubclass::Hunter => "Hunter",
            RangerSubclass::BeastMaster => "Beast Master",
            RangerSubclass::GloomStalker => "Gloom Stalker",
            RangerSubclass::HorizonWalker => "Horizon Walker",
            RangerSubclass::MonsterSlayer => "Monster Slayer",
            RangerSubclass::FeyWanderer => "Fey Wanderer",
            RangerSubclass::Swarmkeeper => "Swarmkeeper",
        }
    }

    fn pick(selection: Option<usize>, random_index: usize) -> (r: RangerSubclass) {
        let i = resolve_choice(Self::variant_count(), selection, random_index);
        Self::from_index(i)
    }
}

/// The subclasses a Rogue can take.
#[derive(Debug, Clone, Copy, PartialEq, Eq, Structural)]
pub enum RogueSubclass {
    Thief,
    Assassin,
    Mastermind,
    Swashbuckler,
    ArcaneTrickster,
    Inquisitive,
    Scout,
    Phantom,
    Soulknife,
}

impl Choosable for RogueSubclass {
    open spec fn option_count() -> nat {
        9
    }

    open spec fn variant_at(i: int) -> RogueSubclass {
        if i == 0 {
            RogueSubclass::Thief
        } else if i == 1 {
            RogueSubclass::Assassin
        } else if i == 2 {
            RogueSubclass::Mastermind
        } else if i == 3 {
            RogueSubclass::Swashbuckler
        } else if i == 4 {
            RogueSubclass::ArcaneTrickster
        } else if i == 5 {
            RogueSubclass::Inquisitive
        } else if i == 6 {
            RogueSubclass::Scout
        } else if i == 7 {
            RogueSubclass::Phantom
        } else {
            RogueSubclass::Soulknife
        }
    }

    open spec fn spec_name(self) -> Seq<char> {
        match self {
            RogueSubclass::Thief => "Thief"@,
            RogueSubclass::Assassin => "Assassin"@,
            RogueSubclass::Mastermind => "Mastermind"@,
            RogueSubclass::Swashbuckler => "Swashbuckler"@,
            RogueSubclass::ArcaneTrickster => "Arcane Trickster"@,
            RogueSubclass::Inquisitive => "Inquisitive"@,
            RogueSubclass::Scout => "Scout"@,
            RogueSubclass::Phantom => "Phantom"@,
            RogueSubclass::Soulknife => "Soulknife"@,
        }
    }

    fn variant_count() -> usize {
        9
    }

    fn from_index(i: usize) -> (r: RogueSubclass) {
        if i == 0 {
            RogueSubclass::Thief
        } else if i == 1 {
            RogueSubclass::Assassin
        } else if i == 2 {
            RogueSubclass::Mastermind
        } else if i == 3 {
            RogueSubclass::Swashbuckler
        } else if i == 4 {
            RogueSubclass::ArcaneTrickster
        } else if i == 5 {
            RogueSubclass::Inquisitive
        } else if i == 6 {
            RogueSubclass::Scout
        } else if i == 7 {
            RogueSubclass::Phantom
        } else {
            RogueSubclass::Soulknife
        }
    }

    fn name(&self) -> (r: &'static str) {
        match *self {
            RogueSubclass::Thief => "Thief",
            RogueSubclass::Assassin => "Assassin",
            RogueSubclass::Mastermind => "Mastermind",
            RogueSubclass::Swashbuckler => "Swashbuckler",
            RogueSubclass::ArcaneTrickster => "Arcane Trickster",
            RogueSubclass::Inquisitive => "Inquisitive",
            RogueSubclass::Scout => "Scout",
            RogueSubclass::Phantom => "Phantom",
            RogueSubclass::Soulknife => "Soulknife",
        }
    }

    fn pick(selection: Option<usize>, random_index: usize) -> (r: RogueSubclass) {
        let i = resolve_choice(Self::variant_count(), selection, random_index);
        Self::from_index(i)
    }
}

/// The subclasses a Sorcerer can take.
#[derive(Debug, Clone, Copy, PartialEq, Eq, Structural)]
pub enum SorcererSubclass {
    Draconic,
    WildMagic,
    Storm,
    DivineSoul,
    ShadowMagic,
    AberrantMind,
    ClockworkSoul,
}

impl Choosable for SorcererSubclass {
    open spec fn option_count() -> nat {
        7
    }

    open spec fn variant_at(i: int) -> SorcererSubclass {
        if i == 0 {
            SorcererSubclass::Draconic
        } else if i == 1 {
            SorcererSubclass::WildMagic
        } else if i == 2 {
            SorcererSubclass::Storm
        } else if i == 3 {
            SorcererSubclass::DivineSoul
        } else if i == 4 {
            SorcererSubclass::ShadowMagic
        } else if i == 5 {
            SorcererSubclass::AberrantMind
        } else {
            SorcererSubclass::ClockworkSoul
        }
    }

    open spec fn spec_name(self) -> Seq<char> {
        match self {
            SorcererSubclass::Draconic => "Draconic"@,
            SorcererSubclass::WildMagic => "Wild Magic"@,
            SorcererSubclass::Storm => "Storm"@,
            SorcererSubclass::DivineSoul => "Divine Soul"@,
            SorcererSubclass::ShadowMagic => "Shadow Magic"@,
            SorcererSubclass::AberrantMind => "Aberrant Mind"@,
            SorcererSubclass::ClockworkSoul => "Clockwork Soul"@,
        }
    }

    fn variant_count() -> usize {
        7
    }

    fn from_index(i: usize) -> (r: SorcererSubclass) {
        if i == 0 {
            SorcererSubclass::Draconic
        } else if i == 1 {
            SorcererSubclass::WildMagic
        } else if i == 2 {
            SorcererSubclass::Storm
        } else if i == 3 {
            SorcererSubclass::DivineSoul
        } else if i == 4 {
            SorcererSubclass::ShadowMagic
        } else if i == 5 {
            SorcererSubclass::AberrantMind
        } else {
            SorcererSubclass::ClockworkSoul
        }
    }

    fn name(&self) -> (r: &'static str) {
        match *self {
            SorcererSubclass::Draconic => "Draconic",
            SorcererSubclass::WildMagic => "Wild Magic",
            SorcererSubclass::Storm => "Storm",
            SorcererSubclass::DivineSoul => "Divine Soul",
            SorcererSubclass::ShadowMagic => "Shadow Magic",
            SorcererSubclass::AberrantMind => "Aberrant Mind",
            SorcererSubclass::ClockworkSoul => "Clockwork Soul",
        }
    }

    fn pick(selection: Option<usize>, random_index: usize) -> (r: SorcererSubclass) {
        let i = resolve_choice(Self::variant_count(), selection, random_index);
        Self::from_index(i)
    }
}

/// The subclasses a Warlock can take.
#[derive(Debug, Clone, Copy, PartialEq, Eq, Structural)]
pub enum WarlockSubclass {
    Archfey,
    Fiend,
    GreatOldOne,
    Celestial,
    Hexblade,
    Fathomless,
    Genie,
}

impl Choosable for WarlockSubclass {
    open spec fn option_count() -> nat {
        7
    }

    open spec fn variant_at(i: int) -> WarlockSubclass {
        if i == 0 {
            WarlockSubclass::Archfey
        } else if i == 1 {
            WarlockSubclass::Fiend
        } else if i == 2 {
            WarlockSubclass::GreatOldOne
        } else if i == 3 {
            WarlockSubclass::Celestial
        } else if i == 4 {
            WarlockSubclass::Hexblade
        } else if i == 5 {
            WarlockSubclass::Fathomless
        } else {
            WarlockSubclass::Genie
        }
    }

    open spec fn spec_name(self) -> Seq<char> {
        match self {
            WarlockSubclass::Archfey => "Archfey"@,
            WarlockSubclass::Fiend => "Fiend"@,
            WarlockSubclass::GreatOldOne => "Great Old One"@,
            WarlockSubclass::Celestial => "Celestial"@,
            WarlockSubclass::Hexblade => "Hexblade"@,
            WarlockSubclass::Fathomless => "Fathomless"@,
            WarlockSubclass::Genie => "Genie"@,
        }
    }

    fn variant_count() -> usize {
        7
    }

    fn from_index(i: usize) -> (r: WarlockSubclass) {
        if i == 0 {
            WarlockSubclass::Archfey
        } else if i == 1 {
            WarlockSubclass::Fiend
        } else if i == 2 {
            WarlockSubclass::GreatOldOne
        } else if i == 3 {
            WarlockSubclass::Celestial
        } else if i == 4 {
            WarlockSubclass::Hexblade
        } else if i == 5 {
            WarlockSubclass::Fathomless
        } else {
            WarlockSubclass::Genie
        }
    }

    fn name(&self) -> (r: &'static str) {
        match *self {
            WarlockSubclass::Archfey => "Archfey",
            WarlockSubclass::Fiend => "Fiend",
            WarlockSubclass::GreatOldOne => "Great Old One",
            WarlockSubclass::Celestial => "Celestial",
            WarlockSubclass::Hexblade => "Hexblade",
            WarlockSubclass::Fathomless => "Fathomless",
            WarlockSubclass::Genie => "Genie",
        }
    }

    fn pick(selection: Option<usize>, random_index: usize) -> (r: WarlockSubclass) {
        let i = resolve_choice(Self::variant_count(), selection, random_index);
        Self::from_index(i)
    }
}

/// The subclasses a Wizard can take.
#[derive(Debug, Clone, Copy, PartialEq, Eq, Structural)]
pub enum WizardSubclass {
    Abjuration,
    Conjuration,
    Divination,
    Enchantment,
    Evocation,
    Illusion,
    Necromancy,
    Transmutation,
    Bladesinger,
    WarMagic,
}

impl Choosable for WizardSubclass {
    open spec fn option_count() -> nat {
        10
    }

    open spec fn variant_at(i: int) -> WizardSubclass {
        if i == 0 {
            WizardSubclass::Abjuration
        } else if i == 1 {
            WizardSubclass::Conjuration
        } else if i == 2 {
            WizardSubclass::Divination
        } else if i == 3 {
            WizardSubclass::Enchantment
        } else if i == 4 {
            WizardSubclass::Evocation
        } else if i == 5 {
            WizardSubclass::Illusion
        } else if i == 6 {
            WizardSubclass::Necromancy
        } else if i == 7 {
            WizardSubclass::Transmutation
        } else if i == 8 {
            WizardSubclass::Bladesinger
        } else {
            WizardSubclass::WarMagic
        }
    }

    open spec fn spec_name(self) -> Seq<char> {
        match self {
            WizardSubclass::Abjuration => "Abjuration"@,
            WizardSubclass::Conjuration => "Conjuration"@,
            WizardSubclass::Divination => "Divination"@,
            WizardSubclass::Enchantment => "Enchantment"@,
            WizardSubclass::Evocation => "Evocation"@,
            WizardSubclass::Illusion => "Illusion"@,
            WizardSubclass::Necromancy => "Necromancy"@,
            WizardSubclass::Transmutation => "Transmutation"@,
            WizardSubclass::Bladesinger => "Bladesinger"@,
            WizardSubclass::WarMagic => "War Magic"@,
        }
    }

    fn variant_count() -> usize {
        10
    }

    fn from_index(i: usize) -> (r: WizardSubclass) {
        if i == 0 {
            WizardSubclass::Abjuration
        } else if i == 1 {
            WizardSubclass::Conjuration
        } else if i == 2 {
            WizardSubclass::Divination
        } else if i == 3 {
            WizardSubclass::Enchantment
        } else if i == 4 {
            WizardSubclass::Evocation
        } else if i == 5 {
            WizardSubclass::Illusion
        } else if i == 6 {
            WizardSubclass::Necromancy
        } else if i == 7 {
            WizardSubclass::Transmutation
        } else if i == 8 {
            WizardSubclass::Bladesinger
        } else {
            WizardSubclass::WarMagic
        }
    }

    fn name(&self) -> (r: &'static str) {
        match *self {
            WizardSubclass::Abjuration => "Abjuration",
            WizardSubclass::Conjuration => "Conjuration",
            WizardSubclass::Divination => "Divination",
            WizardSubclass::Enchantment => "Enchantment",
            WizardSubclass::Evocation => "Evocation",
            WizardSubclass::Illusion => "Illusion",
            WizardSubclass::Necromancy => "Necromancy",
            WizardSubclass::Transmutation => "Transmutation",
            WizardSubclass::Bladesinger => "Bladesinger",
            WizardSubclass::WarMagic => "War Magic",
        }
    }

    fn pick(selection: Option<usize>, random_index: usize) -> (r: WizardSubclass) {
        let i = resolve_choice(Self::variant_count(), selection, random_index);
        Self::from_index(i)
    }
}

impl Class {
    /// How many subclasses this class offers.
    pub open spec fn spec_subclass_count(self) -> nat {
        match self {
            Class::Artificer(_) => 4,
            Class::Barbarian(_) => 7,
            Class::Bard(_) => 7,
            Class::Cleric(_) => 12,
            Class::Druid(_) => 7,
            Class::Fighter(_) => 7,
            Class::Monk(_) => 8,
            Class::Paladin(_) => 7,
            Class::Ranger(_) => 7,
            Class::Rogue(_) => 9,
            Class::Sorcerer(_) => 7,
            Class::Warlock(_) => 7,
            Class::Wizard(_) => 10,
        }
    }

    /// The number of subclasses the subclass phase offers for this class.
    pub fn subclass_count(&self) -> (n: usize)
        ensures
            n as nat == self.spec_subclass_count(),
    {
        match *self {
            Class::Artificer(_) => 4,
            Class::Barbarian(_) => 7,
            Class::Bard(_) => 7,
            Class::Cleric(_) => 12,
            Class::Druid(_) => 7,
            Class::Fighter(_) => 7,
            Class::Monk(_) => 8,
            Class::Paladin(_) => 7,
            Class::Ranger(_) => 7,
            Class::Rogue(_) => 9,
            Class::Sorcerer(_) => 7,
            Class::Warlock(_) => 7,
            Class::Wizard(_) => 10,
        }
    }

    /// This class rewrapped with the subclass at position `i` of its own
    /// subclass list.
    pub open spec fn spec_with_subclass(self, i: int) -> Class {
        match self {
            Class::Artificer(_) => Class::Artificer(ArtificerSubclass::variant_at(i)),
            Class::Barbarian(_) => Class::Barbarian(BarbarianSubclass::variant_at(i)),
            Class::Bard(_) => Class::Bard(BardSubclass::variant_at(i)),
            Class::Cleric(_) => Class::Cleric(ClericSubclass::variant_at(i)),
            Class::Druid(_) => Class::Druid(DruidSubclass::variant_at(i)),
            Class::Fighter(_) => Class::Fighter(FighterSubclass::variant_at(i)),
            Class::Monk(_) => Class::Monk(MonkSubclass::variant_at(i)),
            Class::Paladin(_) => Class::Paladin(PaladinSubclass::variant_at(i)),
            Class::Ranger(_) => Class::Ranger(RangerSubclass::variant_at(i)),
            Class::Rogue(_) => Class::Rogue(RogueSubclass::variant_at(i)),
            Class::Sorcerer(_) => Class::Sorcerer(SorcererSubclass::variant_at(i)),
            Class::Warlock(_) => Class::Warlock(WarlockSubclass::variant_at(i)),
            Class::Wizard(_) => Class::Wizard(WizardSubclass::variant_at(i)),
        }
    }

    /// The display name of the subclass at position `i` of this class's list.
    pub open spec fn spec_subclass_name_at(self, i: int) -> Seq<char> {
        match self {
            Class::Artificer(_) => ArtificerSubclass::variant_at(i).spec_name(),
            Class::Barbarian(_) => BarbarianSubclass::variant_at(i).spec_name(),
            Class::Bard(_) => BardSubclass::variant_at(i).spec_name(),
            Class::Cleric(_) => ClericSubclass::variant_at(i).spec_name(),
            Class::Druid(_) => DruidSubclass::variant_at(i).spec_name(),
            Class::Fighter(_) => FighterSubclass::variant_at(i).spec_name(),
            Class::Monk(_) => MonkSubclass::variant_at(i).spec_name(),
            Class::Paladin(_) => PaladinSubclass::variant_at(i).spec_name(),
            Class::Ranger(_) => RangerSubclass::variant_at(i).spec_name(),
            Class::Rogue(_) => RogueSubclass::variant_at(i).spec_name(),
            Class::Sorcerer(_) => SorcererSubclass::variant_at(i).spec_name(),
            Class::Warlock(_) => WarlockSubclass::variant_at(i).spec_name(),
            Class::Wizard(_) => WizardSubclass::variant_at(i).spec_name(),
        }
    }

    /// The display name of the subclass this class currently holds.
    pub open spec fn spec_subclass_name(self) -> Seq<char> {
        match self {
            Class::Artificer(v) => v.spec_name(),
            Class::Barbarian(v) => v.spec_name(),
            Class::Bard(v) => v.spec_name(),
            Class::Cleric(v) => v.spec_name(),
            Class::Druid(v) => v.spec_name(),
            Class::Fighter(v) => v.spec_name(),
            Class::Monk(v) => v.spec_name(),
            Class::Paladin(v) => v.spec_name(),
            Class::Ranger(v) => v.spec_name(),
            Class::Rogue(v) => v.spec_name(),
            Class::Sorcerer(v) => v.spec_name(),
            Class::Warlock(v) => v.spec_name(),
            Class::Wizard(v) => v.spec_name(),
        }
    }

    /// The menu the subclass phase presents: exactly this class's own
    /// subclasses, in declaration order.
    pub fn subclass_options(&self) -> (r: Vec<String>)
        ensures
            r@.len() == self.spec_subclass_count(),
            forall|i: int| 0 <= i < r@.len() ==> r@[i]@ == self.spec_subclass_name_at(i),
    {
        match *self {
            Class::Artificer(_) => collect_names::<ArtificerSubclass>(),
            Class::Barbarian(_) => collect_names::<BarbarianSubclass>(),
            Class::Bard(_) => collect_names::<BardSubclass>(),
            Class::Cleric(_) => collect_names::<ClericSubclass>(),
            Class::Druid(_) => collect_names::<DruidSubclass>(),
            Class::Fighter(_) => collect_names::<FighterSubclass>(),
            Class::Monk(_) => collect_names::<MonkSubclass>(),
            Class::Paladin(_) => collect_names::<PaladinSubclass>(),
            Class::Ranger(_) => collect_names::<RangerSubclass>(),
            Class::Rogue(_) => collect_names::<RogueSubclass>(),
            Class::Sorcerer(_) => collect_names::<SorcererSubclass>(),
            Class::Warlock(_) => collect_names::<WarlockSubclass>(),
            Class::Wizard(_) => collect_names::<WizardSubclass>(),
        }
    }

    /// Resolves the subclass phase: rewraps this class with the subclass
    /// the selection picks from its own subclass list.
    pub fn choose_subclass(self, selection: Option<usize>, random_index: usize) -> (r: Class)
        requires
            (random_index as nat) < self.spec_subclass_count(),
        ensures
            r == self.spec_with_subclass(
                spec_resolve(self.spec_subclass_count(), selection, random_index as nat) as int,
            ),
    {
        match self {
            Class::Artificer(_) => Class::Artificer(ArtificerSubclass::pick(selection, random_index)),
            Class::Barbarian(_) => Class::Barbarian(BarbarianSubclass::pick(selection, random_index)),
            Class::Bard(_) => Class::Bard(BardSubclass::pick(selection, random_index)),
            Class::Cleric(_) => Class::Cleric(ClericSubclass::pick(selection, random_index)),
            Class::Druid(_) => Class::Druid(DruidSubclass::pick(selection, random_index)),
            Class::Fighter(_) => Class::Fighter(FighterSubclass::pick(selection, random_index)),
            Class::Monk(_) => Class::Monk(MonkSubclass::pick(selection, random_index)),
            Class::Paladin(_) => Class::Paladin(PaladinSubclass::pick(selection, random_index)),
            Class::Ranger(_) => Class::Ranger(RangerSubclass::pick(selection, random_index)),
            Class::Rogue(_) => Class::Rogue(RogueSubclass::pick(selection, random_index)),
            Class::Sorcerer(_) => Class::Sorcerer(SorcererSubclass::pick(selection, random_index)),
            Class::Warlock(_) => Class::Warlock(WarlockSubclass::pick(selection, random_index)),
            Class::Wizard(_) => Class::Wizard(WizardSubclass::pick(selection, random_index)),
        }
    }
}

/// Anything that carries a resolved subclass it can show by name.
pub trait HasSubclass<T> {
    /// The canonical name of the subclass currently held.
    spec fn spec_subclass(&self) -> Seq<char>;

    /// Renders the name of the subclass currently held.
    fn get_subclass(&self) -> (r: String)
        ensures
            r@ == self.spec_subclass(),
    ;
}

impl HasSubclass<Subclass> for Class {
    open spec fn spec_subclass(&self) -> Seq<char> {
        self.spec_subclass_name()
    }

    fn get_subclass(&self) -> (r: String) {
        match *self {
            Class::Artificer(v) => v.name().to_owned(),
            Class::Barbarian(v) => v.name().to_owned(),
            Class::Bard(v) => v.name().to_owned(),
            Class::Cleric(v) => v.name().to_owned(),
            Class::Druid(v) => v.name().to_owned(),
            Class::Fighter(v) => v.name().to_owned(),
            Class::Monk(v) => v.name().to_owned(),
            Class::Paladin(v) => v.name().to_owned(),
            Class::Ranger(v) => v.name().to_owned(),
            Class::Rogue(v) => v.name().to_owned(),
            Class::Sorcerer(v) => v.name().to_owned(),
            Class::Warlock(v) => v.name().to_owned(),
            Class::Wizard(v) => v.name().to_owned(),
        }
    }
}

impl Class {
    /// The declaration-order position of this variant, ignoring any payload.
    pub open spec fn spec_index(self) -> int {
        match self {
            Class::Artificer(_) => 0,
            Class::Barbarian(_) => 1,
            Class::Bard(_) => 2,
            Class::Cleric(_) => 3,
            Class::Druid(_) => 4,
            Class::Fighter(_) => 5,
            Class::Monk(_) => 6,
            Class::Paladin(_) => 7,
            Class::Ranger(_) => 8,
            Class::Rogue(_) => 9,
            Class::Sorcerer(_) => 10,
            Class::Warlock(_) => 11,
            Class::Wizard(_) => 12,
        }
    }

    /// Returns this variant's position in declaration order.
    pub fn index_of(&self) -> (r: usize)
        ensures
            r as int == self.spec_index(),
            0 <= self.spec_index() < Self::option_count(),
    {
        match *self {
            Class::Artificer(_) => 0,
            Class::Barbarian(_) => 1,
            Class::Bard(_) => 2,
            Class::Cleric(_) => 3,
            Class::Druid(_) => 4,
            Class::Fighter(_) => 5,
            Class::Monk(_) => 6,
            Class::Paladin(_) => 7,
            Class::Ranger(_) => 8,
            Class::Rogue(_) => 9,
            Class::Sorcerer(_) => 10,
            Class::Warlock(_) => 11,
            Class::Wizard(_) => 12,
        }
    }
}

impl Subclass {
    /// The declaration-order position of this variant.
    pub open spec fn spec_index(self) -> int {
        match self {
            Subclass::ArtificerSubclass => 0,
            Subclass::BarbarianSubclass => 1,
            Subclass::BardSubclass => 2,
            Subclass::ClericSubclass => 3,
            Subclass::DruidSubclass => 4,
            Subclass::FighterSubclass => 5,
            Subclass::MonkSubclass => 6,
            Subclass::PaladinSubclass => 7,
            Subclass::RangerSubclass => 8,
            Subclass::RogueSubclass => 9,
            Subclass::SorcererSubclass => 10,
            Subclass::WarlockSubclass => 11,
            Subclass::WizardSubclass => 12,
        }
    }

    /// Returns this variant's position in declaration order.
    pub fn index_of(&self) -> (r: usize)
        ensures
            r as int == self.spec_index(),
            0 <= self.spec_index() < Self::option_count(),
    {
        match *self {
            Subclass::ArtificerSubclass => 0,
            Subclass::BarbarianSubclass => 1,
            Subclass::BardSubclass => 2,
            Subclass::ClericSubclass => 3,
            Subclass::DruidSubclass => 4,
            Subclass::FighterSubclass => 5,
            Subclass::MonkSubclass => 6,
            Subclass::PaladinSubclass => 7,
            Subclass::RangerSubclass => 8,
            Subclass::RogueSubclass => 9,
            Subclass::SorcererSubclass => 10,
            Subclass::WarlockSubclass => 11,
            Subclass::WizardSubclass => 12,
        }
    }
}

impl ArtificerSubclass {
    /// The declaration-order position of this variant.
    pub open spec fn spec_index(self) -> int {
        match self {
            ArtificerSubclass::Alchemist => 0,
            ArtificerSubclass::Artillerist => 1,
            ArtificerSubclass::BattleSmith => 2,
            ArtificerSubclass::Armorer => 3,
        }
    }

    /// Returns this variant's position in declaration order.
    pub fn index_of(&self) -> (r: usize)
        ensures
            r as int == self.spec_index(),
            0 <= self.spec_index() < Self::option_count(),
    {
        match *self {
            ArtificerSubclass::Alchemist => 0,
            ArtificerSubclass::Artillerist => 1,
            ArtificerSubclass::BattleSmith => 2,
            ArtificerSubclass::Armorer => 3,
        }
    }
}

impl BarbarianSubclass {
    /// The declaration-order position of this variant.
    pub open spec fn spec_index(self) -> int {
        match self {
            BarbarianSubclass::Berserker => 0,
            BarbarianSubclass::Totem => 1,
            BarbarianSubclass::AncestralGuardian => 2,
            BarbarianSubclass::StormHerald => 3,
            BarbarianSubclass::Zealot => 4,
            BarbarianSubclass::Beast => 5,
            BarbarianSubclass::WildMagic => 6,
        }
    }

    /// Returns this variant's position in declaration order.
    pub fn index_of(&self) -> (r: usize)
        ensures
            r as int == self.spec_index(),
            0 <= self.spec_index() < Self::option_count(),
    {
        match *self {
            BarbarianSubclass::Berserker => 0,
            BarbarianSubclass::Totem => 1,
            BarbarianSubclass::AncestralGuardian => 2,
            BarbarianSubclass::StormHerald => 3,
            BarbarianSubclass::Zealot => 4,
            BarbarianSubclass::Beast => 5,
            BarbarianSubclass::WildMagic => 6,
        }
    }
}

impl BardSubclass {
    /// The declaration-order position of this variant.
    pub open spec fn spec_index(self) -> int {
        match self {
            BardSubclass::Lore => 0,
            BardSubclass::Valor => 1,
            BardSubclass::Glamour => 2,
            BardSubclass::Swords => 3,
            BardSubclass::Whispers => 4,
            BardSubclass::Eloquence => 5,
            BardSubclass::Creation => 6,
        }
    }

    /// Returns this variant's position in declaration order.
    pub fn index_of(&self) -> (r: usize)
        ensures
            r as int == self.spec_index(),
            0 <= self.spec_index() < Self::option_count(),
    {
        match *self {
            BardSubclass::Lore => 0,
            BardSubclass::Valor => 1,
            BardSubclass::Glamour => 2,
            BardSubclass::Swords => 3,
            BardSubclass::Whispers => 4,
            BardSubclass::Eloquence => 5,
            BardSubclass::Creation => 6,
        }
    }
}

impl ClericSubclass {
    /// The declaration-order position of this variant.
    pub open spec fn spec_index(self) -> int {
        match self {
            ClericSubclass::Knowledge => 0,
            ClericSubclass::Life => 1,
            ClericSubclass::Light => 2,
            ClericSubclass::Nature => 3,
            ClericSubclass::Tempest => 4,
            ClericSubclass::Trickery => 5,
            ClericSubclass::War => 6,
            ClericSubclass::Forge => 7,
            ClericSubclass::Grave => 8,
            ClericSubclass::Order => 9,
            ClericSubclass::Peace => 10,
            ClericSubclass::Twilight => 11,
        }
    }

    /// Returns this variant's position in declaration order.
    pub fn index_of(&self) -> (r: usize)
        ensures
            r as int == self.spec_index(),
            0 <= self.spec_index() < Self::option_count(),
    {
        match *self {
            ClericSubclass::Knowledge => 0,
            ClericSubclass::Life => 1,
            ClericSubclass::Light => 2,
            ClericSubclass::Nature => 3,
            ClericSubclass::Tempest => 4,
            ClericSubclass::Trickery => 5,
            ClericSubclass::War => 6,
            ClericSubclass::Forge => 7,
            ClericSubclass::Grave => 8,
            ClericSubclass::Order => 9,
            ClericSubclass::Peace => 10,
            ClericSubclass::Twilight => 11,
        }
    }
}

impl DruidSubclass {
    /// The declaration-order position of this variant.
    pub open spec fn spec_index(self) -> int {
        match self {
            DruidSubclass::Land => 0,
            DruidSubclass::Moon => 1,
            DruidSubclass::Dreams => 2,
            DruidSubclass::Shepherd => 3,
            DruidSubclass::Spores => 4,
            DruidSubclass::Stars => 5,
            DruidSubclass::Wildfire => 6,
        }
    }

    /// Returns this variant's position in declaration order.
    pub fn index_of(&self) -> (r: usize)
        ensures
            r as int == self.spec_index(),
            0 <= self.spec_index() < Self::option_count(),
    {
        match *self {
            DruidSubclass::Land => 0,
            DruidSubclass::Moon => 1,
            DruidSubclass::Dreams => 2,
            DruidSubclass::Shepherd => 3,
            DruidSubclass::Spores => 4,
            DruidSubclass::Stars => 5,
            DruidSubclass::Wildfire => 6,
        }
    }
}

impl FighterSubclass {
    /// The declaration-order position of this variant.
    pub open spec fn spec_index(self) -> int {
        match self {
            FighterSubclass::Champion => 0,
            FighterSubclass::BattleMaster => 1,
            FighterSubclass::EldritchKnight => 2,
            FighterSubclass::ArcaneArcher => 3,
            FighterSubclass::Cavalier => 4,
            FighterSubclass::PsiWarrior => 5,
            FighterSubclass::RuneKnight => 6,
        }
    }

    /// Returns this variant's position in declaration order.
    pub fn index_of(&self) -> (r: usize)
        ensures
            r as int == self.spec_index(),
            0 <= self.spec_index() < Self::option_count(),
    {
        match *self {
            FighterSubclass::Champion => 0,
            FighterSubclass::BattleMaster => 1,
            FighterSubclass::EldritchKnight => 2,
            FighterSubclass::ArcaneArcher => 3,
            FighterSubclass::Cavalier => 4,
            FighterSubclass::PsiWarrior => 5,
            FighterSubclass::RuneKnight => 6,
        }
    }
}

impl MonkSubclass {
    /// The declaration-order position of this variant.
    pub open spec fn spec_index(self) -> int {
        match self {
            MonkSubclass::OpenHand => 0,
            MonkSubclass::Shadow => 1,
            MonkSubclass::FourElements => 2,
            MonkSubclass::SunSoul => 3,
            MonkSubclass::Drunken => 4,
            MonkSubclass::Kensei => 5,
            MonkSubclass::Mercy => 6,
            MonkSubclass::AstralSelf => 7,
        }
    }

    /// Returns this variant's position in declaration order.
    pub fn index_of(&self) -> (r: usize)
        ensures
            r as int == self.spec_index(),
            0 <= self.spec_index() < Self::option_count(),
    {
        match *self {
            MonkSubclass::OpenHand => 0,
            MonkSubclass::Shadow => 1,
            MonkSubclass::FourElements => 2,
            MonkSubclass::SunSoul => 3,
            MonkSubclass::Drunken => 4,
            MonkSubclass::Kensei => 5,
            MonkSubclass::Mercy => 6,
            MonkSubclass::AstralSelf => 7,
        }
    }
}

impl PaladinSubclass {
    /// The declaration-order position of this variant.
    pub open spec fn spec_index(self) -> int {
        match self {
            PaladinSubclass::Devotion => 0,
            PaladinSubclass::Ancients => 1,
            PaladinSubclass::Vengeance => 2,
            PaladinSubclass::Conquest => 3,
            PaladinSubclass::Redemption => 4,
            PaladinSubclass::Glory => 5,
            PaladinSubclass::Watchers => 6,
        }
    }

    /// Returns this variant's position in declaration order.
    pub fn index_of(&self) -> (r: usize)
        ensures
            r as int == self.spec_index(),
            0 <= self.spec_index() < Self::option_count(),
    {
        match *self {
            PaladinSubclass::Devotion => 0,
            PaladinSubclass::Ancients => 1,
            PaladinSubclass::Vengeance => 2,
            PaladinSubclass::Conquest => 3,
            PaladinSubclass::Redemption => 4,
            PaladinSubclass::Glory => 5,
            PaladinSubclass::Watchers => 6,
        }
    }
}

impl RangerSubclass {
    /// The declaration-order position of this variant.
    pub open spec fn spec_index(self) -> int {
        match self {
            RangerSubclass::Hunter => 0,
            RangerSubclass::BeastMaster => 1,
            RangerSubclass::GloomStalker => 2,
            RangerSubclass::HorizonWalker => 3,
            RangerSubclass::MonsterSlayer => 4,
            RangerSubclass::FeyWanderer => 5,
            RangerSubclass::Swarmkeeper => 6,
        }
    }

    /// Returns this variant's position in declaration order.
    pub fn index_of(&self) -> (r: usize)
        ensures
            r as int == self.spec_index(),
            0 <= self.spec_index() < Self::option_count(),
    {
        match *self {
            RangerSubclass::Hunter => 0,
            RangerSubclass::BeastMaster => 1,
            RangerSubclass::GloomStalker => 2,
            RangerSubclass::HorizonWalker => 3,
            RangerSubclass::MonsterSlayer => 4,
            RangerSubclass::FeyWanderer => 5,
            RangerSubclass::Swarmkeeper => 6,
        }
    }
}

impl RogueSubclass {
    /// The declaration-order position of this variant.
    pub open spec fn spec_index(self) -> int {
        match self {
            RogueSubclass::Thief => 0,
            RogueSubclass::Assassin => 1,
            RogueSubclass::Mastermind => 2,
            RogueSubclass::Swashbuckler => 3,
            RogueSubclass::ArcaneTrickster => 4,
            RogueSubclass::Inquisitive => 5,
            RogueSubclass::Scout => 6,
            RogueSubclass::Phantom => 7,
            RogueSubclass::Soulknife => 8,
        }
    }

    /// Returns this variant's position in declaration order.
    pub fn index_of(&self) -> (r: usize)
        ensures
            r as int == self.spec_index(),
            0 <= self.spec_index() < Self::option_count(),
    {
        match *self {
            RogueSubclass::Thief => 0,
            RogueSubclass::Assassin => 1,
            RogueSubclass::Mastermind => 2,
            RogueSubclass::Swashbuckler => 3,
            RogueSubclass::ArcaneTrickster => 4,
            RogueSubclass::Inquisitive => 5,
            RogueSubclass::Scout => 6,
            RogueSubclass::Phantom => 7,
            RogueSubclass::Soulknife => 8,
        }
    }
}

impl SorcererSubclass {
    /// The declaration-order position of this variant.
    pub open spec fn spec_index(self) -> int {
        match self {
            SorcererSubclass::Draconic => 0,
            SorcererSubclass::WildMagic => 1,
            SorcererSubclass::Storm => 2,
            SorcererSubclass::DivineSoul => 3,
            SorcererSubclass::ShadowMagic => 4,
            SorcererSubclass::AberrantMind => 5,
            SorcererSubclass::ClockworkSoul => 6,
        }
    }

    /// Returns this variant's position in declaration order.
    pub fn index_of(&self) -> (r: usize)
        ensures
            r as int == self.spec_index(),
            0 <= self.spec_index() < Self::option_count(),
    {
        match *self {
            SorcererSubclass::Draconic => 0,
            SorcererSubclass::WildMagic => 1,
            SorcererSubclass::Storm => 2,
            SorcererSubclass::DivineSoul => 3,
            SorcererSubclass::ShadowMagic => 4,
            SorcererSubclass::AberrantMind => 5,
            SorcererSubclass::ClockworkSoul => 6,
        }
    }
}

impl WarlockSubclass {
    /// The declaration-order position of this variant.
    pub open spec fn spec_index(self) -> int {
        match self {
            WarlockSubclass::Archfey => 0,
            WarlockSubclass::Fiend => 1,
            WarlockSubclass::GreatOldOne => 2,
            WarlockSubclass::Celestial => 3,
            WarlockSubclass::Hexblade => 4,
            WarlockSubclass::Fathomless => 5,
            WarlockSubclass::Genie => 6,
        }
    }

    /// Returns this variant's position in declaration order.
    pub fn index_of(&self) -> (r: usize)
        ensures
            r as int == self.spec_index(),
            0 <= self.spec_index() < Self::option_count(),
    {
        match *self {
            WarlockSubclass::Archfey => 0,
            WarlockSubclass::Fiend => 1,
            WarlockSubclass::GreatOldOne => 2,
            WarlockSubclass::Celestial => 3,
            WarlockSubclass::Hexblade => 4,
            WarlockSubclass::Fathomless => 5,
            WarlockSubclass::Genie => 6,
        }
    }
}

impl WizardSubclass {
    /// The declaration-order position of this variant.
    pub open spec fn spec_index(self) -> int {
        match self {
            WizardSubclass::Abjuration => 0,
            WizardSubclass::Conjuration => 1,
            WizardSubclass::Divination => 2,
            WizardSubclass::Enchantment => 3,
            WizardSubclass::Evocation => 4,
            WizardSubclass::Illusion => 5,
            WizardSubclass::Necromancy => 6,
            WizardSubclass::Transmutation => 7,
            WizardSubclass::Bladesinger => 8,
            WizardSubclass::WarMagic => 9,
        }
    }

    /// Returns this variant's position in declaration order.
    pub fn index_of(&self) -> (r: usize)
        ensures
            r as int == self.spec_index(),
            0 <= self.spec_index() < Self::option_count(),
    {
        match *self {
            WizardSubclass::Abjuration => 0,
            WizardSubclass::Conjuration => 1,
            WizardSubclass::Divination => 2,
            WizardSubclass::Enchantment => 3,
            WizardSubclass::Evocation => 4,
            WizardSubclass::Illusion => 5,
            WizardSubclass::Necromancy => 6,
            WizardSubclass::Transmutation => 7,
            WizardSubclass::Bladesinger => 8,
            WizardSubclass::WarMagic => 9,
        }
    }
}

impl Class {
    /// The position of the held subclass inside this class's own
    /// subclass list.
    pub open spec fn spec_subclass_index(self) -> int {
        match self {
            Class::Artificer(v) => v.spec_index(),
            Class::Barbarian(v) => v.spec_index(),
            Class::Bard(v) => v.spec_index(),
            Class::Cleric(v) => v.spec_index(),
            Class::Druid(v) => v.spec_index(),
            Class::Fighter(v) => v.spec_index(),
            Class::Monk(v) => v.spec_index(),
            Class::Paladin(v) => v.spec_index(),
            Class::Ranger(v) => v.spec_index(),
            Class::Rogue(v) => v.spec_index(),
            Class::Sorcerer(v) => v.spec_index(),
            Class::Warlock(v) => v.spec_index(),
            Class::Wizard(v) => v.spec_index(),
        }
    }

    /// Returns the held subclass's position in this class's subclass list.
    pub fn subclass_index(&self) -> (r: usize)
        ensures
            r as int == self.spec_subclass_index(),
            (r as nat) < self.spec_subclass_count(),
    {
        match *self {
            Class::Artificer(v) => v.index_of(),
            Class::Barbarian(v) => v.index_of(),
            Class::Bard(v) => v.index_of(),
            Class::Cleric(v) => v.index_of(),
            Class::Druid(v) => v.index_of(),
            Class::Fighter(v) => v.index_of(),
            Class::Monk(v) => v.index_of(),
            Class::Paladin(v) => v.index_of(),
            Class::Ranger(v) => v.index_of(),
            Class::Rogue(v) => v.index_of(),
            Class::Sorcerer(v) => v.index_of(),
            Class::Warlock(v) => v.index_of(),
            Class::Wizard(v) => v.index_of(),
        }
    }

    /// Rewraps this class with the subclass at position `i` of its own
    /// subclass list.
    pub fn with_subclass(self, i: usize) -> (r: Class)
        requires
            (i as nat) < self.spec_subclass_count(),
        ensures
            r == self.spec_with_subclass(i as int),
    {
        match self {
            Class::Artificer(_) => Class::Artificer(ArtificerSubclass::from_index(i)),
            Class::Barbarian(_) => Class::Barbarian(BarbarianSubclass::from_index(i)),
            Class::Bard(_) => Class::Bard(BardSubclass::from_index(i)),
            Class::Cleric(_) => Class::Cleric(ClericSubclass::from_index(i)),
            Class::Druid(_) => Class::Druid(DruidSubclass::from_index(i)),
            Class::Fighter(_) => Class::Fighter(FighterSubclass::from_index(i)),
            Class::Monk(_) => Class::Monk(MonkSubclass::from_index(i)),
            Class::Paladin(_) => Class::Paladin(PaladinSubclass::from_index(i)),
            Class::Ranger(_) => Class::Ranger(RangerSubclass::from_index(i)),
            Class::Rogue(_) => Class::Rogue(RogueSubclass::from_index(i)),
            Class::Sorcerer(_) => Class::Sorcerer(SorcererSubclass::from_index(i)),
            Class::Warlock(_) => Class::Warlock(WarlockSubclass::from_index(i)),
            Class::Wizard(_) => Class::Wizard(WizardSubclass::from_index(i)),
        }
    }
}

/// Splitting a class into its own position and its subclass's position
/// and rebuilding from the two yields the class unchanged.
pub proof fn lemma_class_index_round(class: Class)
    ensures
        Class::variant_at(class.spec_index()).spec_with_subclass(class.spec_subclass_index())
            == class,
{
}

} // verus!
