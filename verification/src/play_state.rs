//! The turn state machine: dispatches one turn at a time over a built
//! character until the player quits.

use crate::play_object::PlayObject;
use crate::resolver::{resolve_choice, Choosable};
use crate::spell::{filter_spells, sort_spells, spec_sorted, Spell};
use vstd::prelude::*;

verus! {

/// What one turn can do.
#[derive(Debug, Clone, Copy, PartialEq, Eq, Structural)]
pub enum TurnOption {
    Move,
    Action,
    BonusAction,
    Quit,
}

impl Choosable for TurnOption {
    open spec fn option_count() -> nat {
        4
    }

    open spec fn variant_at(i: int) -> TurnOption {
        if i == 0 {
            TurnOption::Move
        } else if i == 1 {
            TurnOption::Action
        } else if i == 2 {
            TurnOption::BonusAction
        } else {
            TurnOption::Quit
        }
    }

    open spec fn spec_name(self) -> Seq<char> {
        match self {
            TurnOption::Move => "Move"@,
            TurnOption::Action => "Action"@,
            TurnOption::BonusAction => "Bonus Action"@,
            TurnOption::Quit => "Quit"@,
        }
    }

    fn variant_count() -> usize {
        4
    }

    fn from_index(i: usize) -> (r: TurnOption) {
        if i == 0 {
            TurnOption::Move
        } else if i == 1 {
            TurnOption::Action
        } else if i == 2 {
            TurnOption::BonusAction
        } else {
            TurnOption::Quit
        }
    }

    fn name(&self) -> (r: &'static str) {
        match *self {
            TurnOption::Move => "Move",
            TurnOption::Action => "Action",
            TurnOption::BonusAction => "Bonus Action",
            TurnOption::Quit => "Quit",
        }
    }

    fn pick(selection: Option<usize>, random_index: usize) -> (r: TurnOption) {
        let i = resolve_choice(Self::variant_count(), selection, random_index);
        Self::from_index(i)
    }
}

/// Whether the session is still live after one turn: only Quit ends
/// it, and nothing revives an ended one.
pub open spec fn spec_next_active(active: bool, turn: TurnOption) -> bool {
    active && !(turn is Quit)
}

/// The transition law of the turn machine: from a live session, Quit
/// terminates it; Move, Action and Bonus Action keep it live; and from
/// a terminated session every turn leaves it terminated.
pub proof fn lemma_turn_transitions(turn: TurnOption)
    ensures
        spec_next_active(true, TurnOption::Quit) == false,
        !(turn is Quit) ==> spec_next_active(true, turn) == true,
        spec_next_active(false, turn) == false,
{
}

/// The running session: one persisted record and the liveness flag the
/// outer loop polls between turns.
#[derive(Debug)]
pub struct PlayState {
    pub play_object: PlayObject,
    pub active: bool,
}

impl PlayState {
    /// Starts a session over a loaded or freshly built record; it
    /// begins live.
    pub fn new(play_object: PlayObject) -> (r: PlayState)
        ensures
            r.play_object == play_object,
            r.active == true,
    {
        PlayState { play_object, active: true }
    }

    /// One dispatch step of the machine.  Quit clears the liveness
    /// flag; Move, Action and Bonus Action change neither the flag nor
    /// the record (an Action's spell pick has no effect on the record
    /// in this scope).  The caller re-renders the sheet after every
    /// turn.
    pub fn take_turn(&mut self, turn: TurnOption)
        ensures
            final(self).play_object == old(self).play_object,
            final(self).active == spec_next_active(old(self).active, turn),
    {
        match turn {
            TurnOption::Move => self.get_movement(),
            TurnOption::Action => (),
            TurnOption::BonusAction => self.get_bonus_actions(),
            TurnOption::Quit => self.quit(),
        }
    }

    /// Movement is reserved for later; a Move turn does nothing.
    pub fn get_movement(&self) {
    }

    /// Prepares the Action menu from a catalog response: keeps the
    /// spells strictly below the exclusive slot bound and sorts them
    /// by level, then by name.  A failed or empty catalog response
    /// hands in no spells and yields an empty menu.
    pub fn get_actions(&self, spells: Vec<Spell>, slot_bound: u8) -> (r: Vec<Spell>)
        ensures
            spec_sorted(r@),
            r@.to_multiset() == spells@.filter(|s: Spell| s.level < slot_bound).to_multiset(),
    {
        sort_spells(filter_spells(spells, slot_bound))
    }

    /// Bonus actions are reserved for later; such a turn does nothing.
    pub fn get_bonus_actions(&self) {
    }

    /// Ends the session: no transition leaves the terminated state.
    pub fn quit(&mut self)
        ensures
            final(self).play_object == old(self).play_object,
            final(self).active == false,
    {
        self.active = false;
    }
}

} // verus!
