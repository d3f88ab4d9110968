//! Character assembly: the fixed sequence of build phases, from race
//! to hit-point policy, ending in an immutable character record.

use crate::background::Background;
use crate::character::{
    spec_armor_class, spec_average_hp, spec_first_level_hp, spec_hit_dice, spec_max_face,
    spec_speed, Character, Condition, Status,
};
use crate::classes::Class;
use crate::gender::Gender;
use crate::numeral::{spec_all_digits, spec_dec_val};
use crate::races::Race;
use crate::resolver::spec_resolve;
use crate::stats::{spec_modifier, spec_stats_ordered, Stat};
use vstd::prelude::*;

verus! {

/// The build phases, in the order the assembly walks them.  The
/// subrace phase is entered only for a subrace-bearing race, the
/// subclass phase only for a level past two.
#[derive(Debug, Clone, Copy, PartialEq, Eq, Structural)]
pub enum BuildPhase {
    Race,
    Subrace,
    Gender,
    Name,
    Class,
    Level,
    Subclass,
    Background,
    Stats,
    HitPolicy,
    Done,
}

/// Walks the build phases one resolved choice at a time.  Each setter
/// consumes the value its phase asked for and moves to the next phase
/// the rules dictate; `finish` turns a completed walk into a record.
#[derive(Debug)]
pub struct CharacterBuilder {
    phase: BuildPhase,
    race: Option<Race>,
    gender: Option<Gender>,
    name: Option<String>,
    class: Option<Class>,
    level: Option<u8>,
    background: Option<Background>,
    stats: Option<[Stat; 6]>,
    use_average: Option<bool>,
}

impl CharacterBuilder {
    /// Which fields a builder in each phase has already collected.
    pub closed spec fn wf(self) -> bool {
        &&& (self.race is Some) == (self.phase != BuildPhase::Race)
        &&& (self.phase == BuildPhase::Subrace ==> self.phase_race() is Some
            && self.phase_race().unwrap().spec_has_subrace())
        &&& (self.gender is Some) == (self.phase == BuildPhase::Name || self.phase
            == BuildPhase::Class || self.phase == BuildPhase::Level || self.phase
            == BuildPhase::Subclass || self.phase == BuildPhase::Background || self.phase
            == BuildPhase::Stats || self.phase == BuildPhase::HitPolicy || self.phase
            == BuildPhase::Done)
        &&& (self.name is Some) == (self.phase == BuildPhase::Class || self.phase
            == BuildPhase::Level || self.phase == BuildPhase::Subclass || self.phase
            == BuildPhase::Background || self.phase == BuildPhase::Stats || self.phase
            == BuildPhase::HitPolicy || self.phase == BuildPhase::Done)
        &&& (self.class is Some) == (self.phase == BuildPhase::Level || self.phase
            == BuildPhase::Subclass || self.phase == BuildPhase::Background || self.phase
            == BuildPhase::Stats || self.phase == BuildPhase::HitPolicy || self.phase
            == BuildPhase::Done)
        &&& (self.level is Some) == (self.phase == BuildPhase::Subclass || self.phase
            == BuildPhase::Background || self.phase == BuildPhase::Stats || self.phase
            == BuildPhase::HitPolicy || self.phase == BuildPhase::Done)
        &&& (self.level is Some ==> 1 <= self.level.unwrap() <= 20)
        &&& (self.phase == BuildPhase::Subclass ==> self.level.unwrap() > 2)
        &&& (self.background is Some) == (self.phase == BuildPhase::Stats || self.phase
            == BuildPhase::HitPolicy || self.phase == BuildPhase::Done)
        &&& (self.stats is Some) == (self.phase == BuildPhase::HitPolicy || self.phase
            == BuildPhase::Done)
        &&& (self.stats is Some ==> spec_stats_ordered(self.stats.unwrap()@))
        &&& (self.use_average is Some) == (self.phase == BuildPhase::Done)
    }

    /// The race collected so far, if any.  During the subrace phase it
    /// still carries its placeholder subrace.
    pub closed spec fn phase_race(self) -> Option<Race> {
        self.race
    }

    /// The phase the builder stands in.
    pub closed spec fn spec_phase(self) -> BuildPhase {
        self.phase
    }

    /// The level collected so far, if any.
    pub closed spec fn spec_level(self) -> Option<u8> {
        self.level
    }

    /// The class collected so far, if any.
    pub closed spec fn spec_class(self) -> Option<Class> {
        self.class
    }

    /// The gender collected so far, if any.
    pub closed spec fn spec_gender(self) -> Option<Gender> {
        self.gender
    }

    /// The name collected so far, if any.
    pub closed spec fn spec_name(self) -> Option<String> {
        self.name
    }

    /// The background collected so far, if any.
    pub closed spec fn spec_background(self) -> Option<Background> {
        self.background
    }

    /// The ability scores collected so far, if any.
    pub closed spec fn spec_stats(self) -> Option<[Stat; 6]> {
        self.stats
    }

    /// The hit-point policy collected so far, if any.
    pub closed spec fn spec_policy(self) -> Option<bool> {
        self.use_average
    }

    /// Reports the phase the builder stands in.
    pub fn phase(&self) -> (r: BuildPhase)
        ensures
            r == self.spec_phase(),
    {
        self.phase
    }

    /// A build that has not collected anything yet.
    pub fn new() -> (r: CharacterBuilder)
        ensures
            r.wf(),
            r.spec_phase() == BuildPhase::Race,
    {
        CharacterBuilder {
            phase: BuildPhase::Race,
            race: None,
            gender: None,
            name: None,
            class: None,
            level: None,
            background: None,
            stats: None,
            use_average: None,
        }
    }

    /// Takes the resolved race.  A subrace-bearing race sends the
    /// build into the subrace phase; any other race skips it.
    pub fn set_race(&mut self, race: Race)
        requires
            old(self).wf(),
            old(self).spec_phase() == BuildPhase::Race,
        ensures
            final(self).wf(),
            final(self).phase_race() == Some(race),
            final(self).spec_phase() == if race.spec_has_subrace() {
                BuildPhase::Subrace
            } else {
                BuildPhase::Gender
            },
    {
        let has_subrace = race.has_subrace();
        self.race = Some(race);
        self.phase = if has_subrace {
            BuildPhase::Subrace
        } else {
            BuildPhase::Gender
        };
    }

    /// Resolves the subrace phase with one prompt outcome: the held
    /// race is rewrapped with one of its own subraces, never left
    /// unresolved, and the build moves on.
    pub fn set_subrace(&mut self, selection: Option<usize>, random_index: usize)
        requires
            old(self).wf(),
            old(self).spec_phase() == BuildPhase::Subrace,
            (random_index as nat) < old(self).phase_race().unwrap().spec_subrace_count(),
        ensures
            final(self).wf(),
            final(self).spec_phase() == BuildPhase::Gender,
            final(self).phase_race() == Some(
                old(self).phase_race().unwrap().spec_with_subrace(
                    spec_resolve(
                        old(self).phase_race().unwrap().spec_subrace_count(),
                        selection,
                        random_index as nat,
                    ) as int,
                ),
            ),
    {
        let race = self.race.unwrap();
        self.race = Some(race.choose_subrace(selection, random_index));
        self.phase = BuildPhase::Gender;
    }

    /// Takes the resolved gender.
    pub fn set_gender(&mut self, gender: Gender)
        requires
            old(self).wf(),
            old(self).spec_phase() == BuildPhase::Gender,
        ensures
            final(self).wf(),
            final(self).spec_phase() == BuildPhase::Name,
            final(self).spec_gender() == Some(gender),
            final(self).phase_race() == old(self).phase_race(),
    {
        self.gender = Some(gender);
        self.phase = BuildPhase::Name;
    }

    /// Takes the chosen or generated name.
    pub fn set_name(&mut self, name: String)
        requires
            old(self).wf(),
            old(self).spec_phase() == BuildPhase::Name,
        ensures
            final(self).wf(),
            final(self).spec_phase() == BuildPhase::Class,
            final(self).spec_name() == Some(name),
            final(self).phase_race() == old(self).phase_race(),
            final(self).spec_gender() == old(self).spec_gender(),
    {
        self.name = Some(name);
        self.phase = BuildPhase::Class;
    }

    /// Takes the resolved class, still carrying its first subclass.
    pub fn set_class(&mut self, class: Class)
        requires
            old(self).wf(),
            old(self).spec_phase() == BuildPhase::Class,
        ensures
            final(self).wf(),
            final(self).spec_phase() == BuildPhase::Level,
            final(self).spec_class() == Some(class),
            final(self).phase_race() == old(self).phase_race(),
            final(self).spec_gender() == old(self).spec_gender(),
            final(self).spec_name() == old(self).spec_name(),
    {
        self.class = Some(class);
        self.phase = BuildPhase::Level;
    }

    /// Takes the validated level.  A level past two sends the build
    /// into the subclass phase; a level of one or two never enters it.
    pub fn set_level(&mut self, level: u8)
        requires
            old(self).wf(),
            old(self).spec_phase() == BuildPhase::Level,
            1 <= level <= 20,
        ensures
            final(self).wf(),
            final(self).spec_level() == Some(level),
            final(self).spec_class() == old(self).spec_class(),
            final(self).phase_race() == old(self).phase_race(),
            final(self).spec_gender() == old(self).spec_gender(),
            final(self).spec_name() == old(self).spec_name(),
            final(self).spec_phase() == if level > 2 {
                BuildPhase::Subclass
            } else {
                BuildPhase::Background
            },
    {
        self.level = Some(level);
        self.phase = if level > 2 {
            BuildPhase::Subclass
        } else {
            BuildPhase::Background
        };
    }

    /// Resolves the subclass phase with one prompt outcome: the held
    /// class is rewrapped with one of its own subclasses.
    pub fn set_subclass(&mut self, selection: Option<usize>, random_index: usize)
        requires
            old(self).wf(),
            old(self).spec_phase() == BuildPhase::Subclass,
            (random_index as nat) < old(self).spec_class().unwrap().spec_subclass_count(),
        ensures
            final(self).wf(),
            final(self).spec_phase() == BuildPhase::Background,
            final(self).phase_race() == old(self).phase_race(),
            final(self).spec_gender() == old(self).spec_gender(),
            final(self).spec_name() == old(self).spec_name(),
            final(self).spec_level() == old(self).spec_level(),
            final(self).spec_class() == Some(
                old(self).spec_class().unwrap().spec_with_subclass(
                    spec_resolve(
                        old(self).spec_class().unwrap().spec_subclass_count(),
                        selection,
                        random_index as nat,
                    ) as int,
                ),
            ),
    {
        let class = self.class.unwrap();
        self.class = Some(class.choose_subclass(selection, random_index));
        self.phase = BuildPhase::Background;
    }

    /// Takes the resolved background.
    pub fn set_background(&mut self, background: Background)
        requires
            old(self).wf(),
            old(self).spec_phase() == BuildPhase::Background,
        ensures
            final(self).wf(),
            final(self).spec_phase() == BuildPhase::Stats,
            final(self).spec_background() == Some(background),
            final(self).phase_race() == old(self).phase_race(),
            final(self).spec_gender() == old(self).spec_gender(),
            final(self).spec_name() == old(self).spec_name(),
            final(self).spec_class() == old(self).spec_class(),
            final(self).spec_level() == old(self).spec_level(),
    {
        self.background = Some(background);
        self.phase = BuildPhase::Stats;
    }

    /// Takes the six entered ability scores, in their fixed order.
    pub fn set_stats(&mut self, stats: [Stat; 6])
        requires
            old(self).wf(),
            old(self).spec_phase() == BuildPhase::Stats,
            spec_stats_ordered(stats@),
        ensures
            final(self).wf(),
            final(self).spec_phase() == BuildPhase::HitPolicy,
            final(self).spec_stats() == Some(stats),
            final(self).phase_race() == old(self).phase_race(),
            final(self).spec_gender() == old(self).spec_gender(),
            final(self).spec_name() == old(self).spec_name(),
            final(self).spec_class() == old(self).spec_class(),
            final(self).spec_level() == old(self).spec_level(),
            final(self).spec_background() == old(self).spec_background(),
    {
        self.stats = Some(stats);
        self.phase = BuildPhase::HitPolicy;
    }

    /// Takes the hit-point progression policy, completing the walk.
    pub fn set_hit_policy(&mut self, use_average: bool)
        requires
            old(self).wf(),
            old(self).spec_phase() == BuildPhase::HitPolicy,
        ensures
            final(self).wf(),
            final(self).spec_phase() == BuildPhase::Done,
            final(self).spec_policy() == Some(use_average),
            final(self).phase_race() == old(self).phase_race(),
            final(self).spec_gender() == old(self).spec_gender(),
            final(self).spec_name() == old(self).spec_name(),
            final(self).spec_class() == old(self).spec_class(),
            final(self).spec_level() == old(self).spec_level(),
            final(self).spec_background() == old(self).spec_background(),
            final(self).spec_stats() == old(self).spec_stats(),
    {
        self.use_average = Some(use_average);
        self.phase = BuildPhase::Done;
    }

    /// Seals a completed walk into an immutable character record: the
    /// collected choices verbatim, and the derived combat block
    /// computed from them.
    pub fn finish(self) -> (r: Character)
        requires
            self.wf(),
            self.spec_phase() == BuildPhase::Done,
        ensures
            r.name == self.spec_name().unwrap(),
            r.level == self.spec_level().unwrap(),
            r.background == self.spec_background().unwrap(),
            r.race == self.phase_race().unwrap(),
            r.class == self.spec_class().unwrap(),
            r.stats == self.spec_stats().unwrap(),
            r.gender == self.spec_gender().unwrap(),
            1 <= r.level <= 20,
            spec_stats_ordered(r.stats@),
            r.status.armor_class as int == spec_armor_class(
                self.spec_stats().unwrap()@,
                self.spec_class().unwrap(),
            ),
            r.status.conditions == Condition::Normal,
            r.status.blessed == false,
            r.status.initiative as int == spec_modifier(
                self.spec_stats().unwrap()@[1].spec_value() as int,
            ),
            r.status.hit_dice == spec_hit_dice(self.spec_class().unwrap()),
            r.status.speed as int == spec_speed(self.phase_race().unwrap()),
            r.status.current_hp == r.status.maximum_hp,
            self.spec_policy().unwrap() ==> r.status.maximum_hp as int == spec_average_hp(
                self.spec_level().unwrap() as int,
                spec_modifier(self.spec_stats().unwrap()@[2].spec_value() as int),
                spec_hit_dice(self.spec_class().unwrap()),
            ),
            !self.spec_policy().unwrap() ==> ({
                let con = spec_modifier(self.spec_stats().unwrap()@[2].spec_value() as int);
                let d = spec_hit_dice(self.spec_class().unwrap());
                spec_first_level_hp(con, d) + (self.spec_level().unwrap() - 1) * (con + 1)
                    <= r.status.maximum_hp as int <= spec_first_level_hp(con, d) + (
                self.spec_level().unwrap() - 1) * (con + spec_max_face(d))
            }),
    {
        let stats = self.stats.unwrap();
        let race = self.race.unwrap();
        let class = self.class.unwrap();
        let level = self.level.unwrap();
        let use_average = self.use_average.unwrap();
        let status = Status::new(stats.as_slice(), &race, &class, &level, use_average);
        let name = match self.name {
            Some(n) => n,
            None => String::new(),
        };
        Character {
            name,
            level,
            background: self.background.unwrap(),
            race,
            class,
            stats,
            status,
            gender: self.gender.unwrap(),
        }
    }
}

/// Whether a typed line is a valid character level: a clean decimal
/// numeral whose value lies in [1, 20].
pub fn is_valid_level(input: &String) -> (r: bool)
    ensures
        r == (1 <= input@.len() <= 18 && spec_all_digits(input@) && 1 <= spec_dec_val(input@)
            <= 20),
{
    match crate::numeral::digits_value(input.as_str()) {
        Some(v) => 1 <= v && v <= 20,
        None => false,
    }
}

} // verus!
