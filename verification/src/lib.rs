//! A verified character build engine for a table-top role-playing game.
//!
//! The crate resolves a chain of enumerated choices (race and subrace,
//! class and subclass, gender, background), derives combat statistics
//! from raw ability scores, persists the finished character, and steps
//! a small turn state machine over it.  All rules live here with
//! machine-checked contracts; prompting, terminal rendering, file and
//! network traffic stay outside the library.

pub mod background;
pub mod builder;
pub mod character;
pub mod classes;
pub mod codec;
pub mod gender;
pub mod names;
pub mod numeral;
pub mod play_object;
pub mod play_state;
pub mod races;
pub mod resolver;
pub mod spell;
pub mod stats;
