//! The persisted envelope: one character plus the session timestamps,
//! and the policy that governs them across load and save.

use crate::character::Character;
use vstd::prelude::*;

verus! {

/// The persisted wrapper around one character: what a session saves
/// and reloads.  Timestamps count seconds since the epoch.
#[derive(Debug, Clone, PartialEq, Eq)]
pub struct PlayObject {
    pub character: Character,
    pub created_at: i64,
    pub updated_at: Option<i64>,
    pub last_played_at: i64,
}

impl PlayObject {
    /// A fresh record for a just-built character: every timestamp
    /// starts at the moment of creation.
    pub fn new(character: Character, now: i64) -> (r: PlayObject)
        ensures
            r.character == character,
            r.created_at == now,
            r.updated_at == Some(now),
            r.last_played_at == now,
    {
        PlayObject { character, created_at: now, updated_at: Some(now), last_played_at: now }
    }

    /// Marks the record saved now: only the update timestamp moves;
    /// the creation timestamp, set once, is preserved.
    pub fn on_save(&mut self, now: i64)
        ensures
            final(self).character == old(self).character,
            final(self).created_at == old(self).created_at,
            final(self).updated_at == Some(now),
            final(self).last_played_at == old(self).last_played_at,
    {
        self.updated_at = Some(now);
    }

    /// Marks the record loaded now: only the last-played timestamp is
    /// reset; nothing else of the loaded record changes.
    pub fn on_load(&mut self, now: i64)
        ensures
            final(self).character == old(self).character,
            final(self).created_at == old(self).created_at,
            final(self).updated_at == old(self).updated_at,
            final(self).last_played_at == now,
    {
        self.last_played_at = now;
    }
}

} // verus!
