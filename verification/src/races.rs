//! Races and their subraces, with the two-phase subrace resolution.

use crate::resolver::{collect_names, resolve_choice, spec_resolve, Choosable};
use vstd::prelude::*;

verus! {

/// A character's race.  Five races carry a required subrace, resolved
/// in a second choice phase; the other four have none.
#[derive(Debug, Clone, Copy, PartialEq, Eq, Structural)]
pub enum Race {
    Dwarf(Dwarf),
    Elf(Elf),
    Halfling(Halfling),
    Human(Human),
    Dragonborn,
    Gnome(Gnome),
    HalfElf,
    HalfOrc,
    Tiefling,
}

impl Choosable for Race {
    open spec fn option_count() -> nat {
        9
    }

    open spec fn variant_at(i: int) -> Race {
        if i == 0 {
            Race::Dwarf(Dwarf::HillDwarf)
        } else if i == 1 {
            Race::Elf(Elf::DarkElf)
        } else if i == 2 {
            Race::Halfling(Halfling::Lightfoot)
        } else if i == 3 {
            Race::Human(Human::Standard)
        } else if i == 4 {
            Race::Dragonborn
        } else if i == 5 {
            Race::Gnome(Gnome::Forest)
        } else if i == 6 {
            Race::HalfElf
        } else if i == 7 {
            Race::HalfOrc
        } else {
            Race::Tiefling
        }
    }

    open spec fn spec_name(self) -> Seq<char> {
        match self {
            Race::Dwarf(_) => "Dwarf"@,
            Race::Elf(_) => "Elf"@,
            Race::Halfling(_) => "Halfling"@,
            Race::Human(_) => "Human"@,
            Race::Dragonborn => "Dragonborn"@,
            Race::Gnome(_) => "Gnome"@,
            Race::HalfElf => "Half Elf"@,
            Race::HalfOrc => "Half Orc"@,
            Race::Tiefling => "Tiefling"@,
        }
    }

    fn variant_count() -> usize {
        9
    }

    fn from_index(i: usize) -> (r: Race) {
        if i == 0 {
            Race::Dwarf(Dwarf::HillDwarf)
        } else if i == 1 {
            Race::Elf(Elf::DarkElf)
        } else if i == 2 {
            Race::Halfling(Halfling::Lightfoot)
        } else if i == 3 {
            Race::Human(Human::Standard)
        } else if i == 4 {
            Race::Dragonborn
        } else if i == 5 {
            Race::Gnome(Gnome::Forest)
        } else if i == 6 {
            Race::HalfElf
        } else if i == 7 {
            Race::HalfOrc
        } else {
            Race::Tiefling
        }
    }

    fn name(&self) -> (r: &'static str) {
        match *self {
            Race::Dwarf(_) => "Dwarf",
            Race::Elf(_) => "Elf",
            Race::Halfling(_) => "Halfling",
            Race::Human(_) => "Human",
            Race::Dragonborn => "Dragonborn",
            Race::Gnome(_) => "Gnome",
            Race::HalfElf => "Half Elf",
            Race::HalfOrc => "Half Orc",
            Race::Tiefling => "Tiefling",
        }
    }

    fn pick(selection: Option<usize>, random_index: usize) -> (r: Race) {
        let i = resolve_choice(Self::variant_count(), selection, random_index);
        Self::from_index(i)
    }
}

/// The subraces a Dwarf can have.
#[derive(Debug, Clone, Copy, PartialEq, Eq, Structural)]
pub enum Dwarf {
    HillDwarf,
    MountainDwarf,
}

impl Choosable for Dwarf {
    open spec fn option_count() -> nat {
        2
    }

    open spec fn variant_at(i: int) -> Dwarf {
        if i == 0 {
            Dwarf::HillDwarf
        } else {
            Dwarf::MountainDwarf
        }
    }

    open spec fn spec_name(self) -> Seq<char> {
        match self {
            Dwarf::HillDwarf => "Hill Dwarf"@,
            Dwarf::MountainDwarf => "Mountain Dwarf"@,
        }
    }

    fn variant_count() -> usize {
        2
    }

    fn from_index(i: usize) -> (r: Dwarf) {
        if i == 0 {
            Dwarf::HillDwarf
        } else {
            Dwarf::MountainDwarf
        }
    }

    fn name(&self) -> (r: &'static str) {
        match *self {
            Dwarf::HillDwarf => "Hill Dwarf",
            Dwarf::MountainDwarf => "Mountain Dwarf",
        }
    }

    fn pick(selection: Option<usize>, random_index: usize) -> (r: Dwarf) {
        let i = resolve_choice(Self::variant_count(), selection, random_index);
        Self::from_index(i)
    }
}

/// The subraces an Elf can have.
#[derive(Debug, Clone, Copy, PartialEq, Eq, Structural)]
pub enum Elf {
    DarkElf,
    HighElf,
    WoodElf,
}

impl Choosable for Elf {
    open spec fn option_count() -> nat {
        3
    }

    open spec fn variant_at(i: int) -> Elf {
        if i == 0 {
            Elf::DarkElf
        } else if i == 1 {
            Elf::HighElf
        } else {
            Elf::WoodElf
        }
    }

    open spec fn spec_name(self) -> Seq<char> {
        match self {
            Elf::DarkElf => "Dark Elf"@,
            Elf::HighElf => "High Elf"@,
            Elf::WoodElf => "Wood Elf"@,
        }
    }

    fn variant_count() -> usize {
        3
    }

    fn from_index(i: usize) -> (r: Elf) {
        if i == 0 {
            Elf::DarkElf
        } else if i == 1 {
            Elf::HighElf
        } else {
            Elf::WoodElf
        }
    }

    fn name(&self) -> (r: &'static str) {
        match *self {
            Elf::DarkElf => "Dark Elf",
            Elf::HighElf => "High Elf",
            Elf::WoodElf => "Wood Elf",
        }
    }

    fn pick(selection: Option<usize>, random_index: usize) -> (r: Elf) {
        let i = resolve_choice(Self::variant_count(), selection, random_index);
        Self::from_index(i)
    }
}

/// The subraces a Halfling can have.
#[derive(Debug, Clone, Copy, PartialEq, Eq, Structural)]
pub enum Halfling {
    Lightfoot,
    Stout,
}

impl Choosable for Halfling {
    open spec fn option_count() -> nat {
        2
    }

    open spec fn variant_at(i: int) -> Halfling {
        if i == 0 {
            Halfling::Lightfoot
        } else {
            Halfling::Stout
        }
    }

    open spec fn spec_name(self) -> Seq<char> {
        match self {
            Halfling::Lightfoot => "Lightfoot"@,
            Halfling::Stout => "Stout"@,
        }
    }

    fn variant_count() -> usize {
        2
    }

    fn from_index(i: usize) -> (r: Halfling) {
        if i == 0 {
            Halfling::Lightfoot
        } else {
            Halfling::Stout
        }
    }

    fn name(&self) -> (r: &'static str) {
        match *self {
            Halfling::Lightfoot => "Lightfoot",
            Halfling::Stout => "Stout",
        }
    }

    fn pick(selection: Option<usize>, random_index: usize) -> (r: Halfling) {
        let i = resolve_choice(Self::variant_count(), selection, random_index);
        Self::from_index(i)
    }
}

/// The subraces a Human can have.
#[derive(Debug, Clone, Copy, PartialEq, Eq, Structural)]
pub enum Human {
    Standard,
    Variant,
}

impl Choosable for Human {
    open spec fn option_count() -> nat {
        2
    }

    open spec fn variant_at(i: int) -> Human {
        if i == 0 {
            Human::Standard
        } else {
            Human::Variant
        }
    }

    open spec fn spec_name(self) -> Seq<char> {
        match self {
            Human::Standard => "Standard"@,
            Human::Variant => "Variant"@,
        }
    }

    fn variant_count() -> usize {
        2
    }

    fn from_index(i: usize) -> (r: Human) {
        if i == 0 {
            Human::Standard
        } else {
            Human::Variant
        }
    }

    fn name(&self) -> (r: &'static str) {
        match *self {
            Human::Standard => "Standard",
            Human::Variant => "Variant",
        }
    }

    fn pick(selection: Option<usize>, random_index: usize) -> (r: Human) {
        let i = resolve_choice(Self::variant_count(), selection, random_index);
        Self::from_index(i)
    }
}

/// The subraces a Gnome can have.
#[derive(Debug, Clone, Copy, PartialEq, Eq, Structural)]
pub enum Gnome {
    Forest,
    Rock,
}

impl Choosable for Gnome {
    open spec fn option_count() -> nat {
        2
    }

    open spec fn variant_at(i: int) -> Gnome {
        if i == 0 {
            Gnome::Forest
        } else {
            Gnome::Rock
        }
    }

    open spec fn spec_name(self) -> Seq<char> {
        match self {
            Gnome::Forest => "Forest"@,
            Gnome::Rock => "Rock"@,
        }
    }

    fn variant_count() -> usize {
        2
    }

    fn from_index(i: usize) -> (r: Gnome) {
        if i == 0 {
            Gnome::Forest
        } else {
            Gnome::Rock
        }
    }

    fn name(&self) -> (r: &'static str) {
        match *self {
            Gnome::Forest => "Forest",
            Gnome::Rock => "Rock",
        }
    }

    fn pick(selection: Option<usize>, random_index: usize) -> (r: Gnome) {
        let i = resolve_choice(Self::variant_count(), selection, random_index);
        Self::from_index(i)
    }
}

impl Race {
    /// Whether this race carries a subrace that a second phase must resolve.
    pub open spec fn spec_has_subrace(self) -> bool {
        match self {
            Race::Dwarf(_) => true,
            Race::Elf(_) => true,
            Race::Halfling(_) => true,
            Race::Human(_) => true,
            Race::Gnome(_) => true,
            Race::Dragonborn => false,
            Race::HalfElf => false,
            Race::HalfOrc => false,
            Race::Tiefling => false,
        }
    }

    /// Whether the build must enter the subrace phase for this race.
    pub fn has_subrace(&self) -> (r: bool)
        ensures
            r == self.spec_has_subrace(),
    {
        match *self {
            Race::Dwarf(_) => true,
            Race::Elf(_) => true,
            Race::Halfling(_) => true,
            Race::Human(_) => true,
            Race::Gnome(_) => true,
            Race::Dragonborn => false,
            Race::HalfElf => false,
            Race::HalfOrc => false,
            Race::Tiefling => false,
        }
    }

    /// How many subraces stand behind this race.
    pub open spec fn spec_subrace_count(self) -> nat {
        match self {
            Race::Dwarf(_) => 2,
            Race::Elf(_) => 3,
            Race::Halfling(_) => 2,
            Race::Human(_) => 2,
            Race::Gnome(_) => 2,
            Race::Dragonborn => 0,
            Race::HalfElf => 0,
            Race::HalfOrc => 0,
            Race::Tiefling => 0,
        }
    }

    /// The number of subraces the second phase offers for this race.
    pub fn subrace_count(&self) -> (n: usize)
        ensures
            n as nat == self.spec_subrace_count(),
    {
        match *self {
            Race::Dwarf(_) => 2,
            Race::Elf(_) => 3,
            Race::Halfling(_) => 2,
            Race::Human(_) => 2,
            Race::Gnome(_) => 2,
            Race::Dragonborn => 0,
            Race::HalfElf => 0,
            Race::HalfOrc => 0,
            Race::Tiefling => 0,
        }
    }

    /// This race rewrapped with the subrace at position `i` of its own
    /// subrace list; races without subraces stay as they are.
    pub open spec fn spec_with_subrace(self, i: int) -> Race {
        match self {
            Race::Dwarf(_) => Race::Dwarf(Dwarf::variant_at(i)),
            Race::Elf(_) => Race::Elf(Elf::variant_at(i)),
            Race::Halfling(_) => Race::Halfling(Halfling::variant_at(i)),
            Race::Human(_) => Race::Human(Human::variant_at(i)),
            Race::Gnome(_) => Race::Gnome(Gnome::variant_at(i)),
            Race::Dragonborn => Race::Dragonborn,
            Race::HalfElf => Race::HalfElf,
            Race::HalfOrc => Race::HalfOrc,
            Race::Tiefling => Race::Tiefling,
        }
    }

    /// The display name of the subrace at position `i` of this race's list.
    pub open spec fn spec_subrace_name(self, i: int) -> Seq<char> {
        match self {
            Race::Dwarf(_) => Dwarf::variant_at(i).spec_name(),
            Race::Elf(_) => Elf::variant_at(i).spec_name(),
            Race::Halfling(_) => Halfling::variant_at(i).spec_name(),
            Race::Human(_) => Human::variant_at(i).spec_name(),
            Race::Gnome(_) => Gnome::variant_at(i).spec_name(),
            Race::Dragonborn => Seq::empty(),
            Race::HalfElf => Seq::empty(),
            Race::HalfOrc => Seq::empty(),
            Race::Tiefling => Seq::empty(),
        }
    }

    /// The menu the subrace phase presents: exactly this race's own
    /// subraces, in declaration order.
    pub fn subrace_options(&self) -> (r: Vec<String>)
        requires
            self.spec_has_subrace(),
        ensures
            r@.len() == self.spec_subrace_count(),
            forall|i: int| 0 <= i < r@.len() ==> r@[i]@ == self.spec_subrace_name(i),
    {
        match *self {
            Race::Dwarf(_) => collect_names::<Dwarf>(),
            Race::Elf(_) => collect_names::<Elf>(),
            Race::Halfling(_) => collect_names::<Halfling>(),
            Race::Human(_) => collect_names::<Human>(),
            Race::Gnome(_) => collect_names::<Gnome>(),
            _ => Vec::new(),
        }
    }

    /// Resolves the subrace phase: rewraps this race with the subrace the
    /// selection picks from its own subrace list.
    pub fn choose_subrace(self, selection: Option<usize>, random_index: usize) -> (r: Race)
        requires
            self.spec_has_subrace(),
            (random_index as nat) < self.spec_subrace_count(),
        ensures
            r == self.spec_with_subrace(
                spec_resolve(self.spec_subrace_count(), selection, random_index as nat) as int,
            ),
    {
        match self {
            Race::Dwarf(_) => Race::Dwarf(Dwarf::pick(selection, random_index)),
            Race::Elf(_) => Race::Elf(Elf::pick(selection, random_index)),
            Race::Halfling(_) => Race::Halfling(Halfling::pick(selection, random_index)),
            Race::Human(_) => Race::Human(Human::pick(selection, random_index)),
            Race::Gnome(_) => Race::Gnome(Gnome::pick(selection, random_index)),
            _ => self,
        }
    }
}

/// A race that entered the subrace phase as a Dwarf always leaves it as
/// a Dwarf wrapping one of the two Dwarf subraces, whatever the prompt
/// returned -- never an unresolved placeholder of another race.
pub proof fn lemma_dwarf_subrace_resolution(race: Race, selection: Option<usize>, random_index: nat)
    requires
        race is Dwarf,
        random_index < race.spec_subrace_count(),
    ensures
        ({
            let r = race.spec_with_subrace(
                spec_resolve(race.spec_subrace_count(), selection, random_index) as int,
            );
            r == Race::Dwarf(Dwarf::HillDwarf) || r == Race::Dwarf(Dwarf::MountainDwarf)
        }),
{
}

impl Race {
    /// The declaration-order position of this variant, ignoring any payload.
    pub open spec fn spec_index(self) -> int {
        match self {
            Race::Dwarf(_) => 0,
            Race::Elf(_) => 1,
            Race::Halfling(_) => 2,
            Race::Human(_) => 3,
            Race::Dragonborn => 4,
            Race::Gnome(_) => 5,
            Race::HalfElf => 6,
            Race::HalfOrc => 7,
            Race::Tiefling => 8,
        }
    }

    /// Returns this variant's position in declaration order.
    pub fn index_of(&self) -> (r: usize)
        ensures
            r as int == self.spec_index(),
            0 <= self.spec_index() < Self::option_count(),
    {
        match *self {
            Race::Dwarf(_) => 0,
            Race::Elf(_) => 1,
            Race::Halfling(_) => 2,
            Race::Human(_) => 3,
            Race::Dragonborn => 4,
            Race::Gnome(_) => 5,
            Race::HalfElf => 6,
            Race::HalfOrc => 7,
            Race::Tiefling => 8,
        }
    }
}

impl Dwarf {
    /// The declaration-order position of this variant.
    pub open spec fn spec_index(self) -> int {
        match self {
            Dwarf::HillDwarf => 0,
            Dwarf::MountainDwarf => 1,
        }
    }

    /// Returns this variant's position in declaration order.
    pub fn index_of(&self) -> (r: usize)
        ensures
            r as int == self.spec_index(),
            0 <= self.spec_index() < Self::option_count(),
    {
        match *self {
            Dwarf::HillDwarf => 0,
            Dwarf::MountainDwarf => 1,
        }
    }
}

impl Elf {
    /// The declaration-order position of this variant.
    pub open spec fn spec_index(self) -> int {
        match self {
            Elf::DarkElf => 0,
            Elf::HighElf => 1,
            Elf::WoodElf => 2,
        }
    }

    /// Returns this variant's position in declaration order.
    pub fn index_of(&self) -> (r: usize)
        ensures
            r as int == self.spec_index(),
            0 <= self.spec_index() < Self::option_count(),
    {
        match *self {
            Elf::DarkElf => 0,
            Elf::HighElf => 1,
            Elf::WoodElf => 2,
        }
    }
}

impl Halfling {
    /// The declaration-order position of this variant.
    pub open spec fn spec_index(self) -> int {
        match self {
            Halfling::Lightfoot => 0,
            Halfling::Stout => 1,
        }
    }

    /// Returns this variant's position in declaration order.
    pub fn index_of(&self) -> (r: usize)
        ensures
            r as int == self.spec_index(),
            0 <= self.spec_index() < Self::option_count(),
    {
        match *self {
            Halfling::Lightfoot => 0,
            Halfling::Stout => 1,
        }
    }
}

impl Human {
    /// The declaration-order position of this variant.
    pub open spec fn spec_index(self) -> int {
        match self {
            Human::Standard => 0,
            Human::Variant => 1,
        }
    }

    /// Returns this variant's position in declaration order.
    pub fn index_of(&self) -> (r: usize)
        ensures
            r as int == self.spec_index(),
            0 <= self.spec_index() < Self::option_count(),
    {
        match *self {
            Human::Standard => 0,
            Human::Variant => 1,
        }
    }
}

impl Gnome {
    /// The declaration-order position of this variant.
    pub open spec fn spec_index(self) -> int {
        match self {
            Gnome::Forest => 0,
            Gnome::Rock => 1,
        }
    }

    /// Returns this variant's position in declaration order.
    pub fn index_of(&self) -> (r: usize)
        ensures
            r as int == self.spec_index(),
            0 <= self.spec_index() < Self::option_count(),
    {
        match *self {
            Gnome::Forest => 0,
            Gnome::Rock => 1,
        }
    }
}

impl Race {
    /// The position of the held subrace inside this race's own subrace
    /// list; races without subraces report 0.
    pub open spec fn spec_subrace_index(self) -> int {
        match self {
            Race::Dwarf(v) => v.spec_index(),
            Race::Elf(v) => v.spec_index(),
            Race::Halfling(v) => v.spec_index(),
            Race::Human(v) => v.spec_index(),
            Race::Gnome(v) => v.spec_index(),
            Race::Dragonborn => 0,
            Race::HalfElf => 0,
            Race::HalfOrc => 0,
            Race::Tiefling => 0,
        }
    }

    /// Returns the held subrace's position in this race's subrace list.
    pub fn subrace_index(&self) -> (r: usize)
        ensures
            r as int == self.spec_subrace_index(),
            self.spec_has_subrace() ==> (r as nat) < self.spec_subrace_count(),
            !self.spec_has_subrace() ==> r == 0,
    {
        match *self {
            Race::Dwarf(v) => v.index_of(),
            Race::Elf(v) => v.index_of(),
            Race::Halfling(v) => v.index_of(),
            Race::Human(v) => v.index_of(),
            Race::Gnome(v) => v.index_of(),
            Race::Dragonborn => 0,
            Race::HalfElf => 0,
            Race::HalfOrc => 0,
            Race::Tiefling => 0,
        }
    }

    /// Rewraps this race with the subrace at position `i` of its own
    /// subrace list; races without subraces stay as they are.
    pub fn with_subrace(self, i: usize) -> (r: Race)
        requires
            self.spec_has_subrace() ==> (i as nat) < self.spec_subrace_count(),
        ensures
            r == self.spec_with_subrace(i as int),
    {
        match self {
            Race::Dwarf(_) => Race::Dwarf(Dwarf::from_index(i)),
            Race::Elf(_) => Race::Elf(Elf::from_index(i)),
            Race::Halfling(_) => Race::Halfling(Halfling::from_index(i)),
            Race::Human(_) => Race::Human(Human::from_index(i)),
            Race::Gnome(_) => Race::Gnome(Gnome::from_index(i)),
            _ => self,
        }
    }
}

/// Splitting a race into its own position and its subrace's position
/// and rebuilding from the two yields the race unchanged.
pub proof fn lemma_race_index_round(race: Race)
    ensures
        Race::variant_at(race.spec_index()).spec_with_subrace(race.spec_subrace_index()) == race,
{
}

} // verus!
