//! Flow-control core of a turn-based role-playing game.
//!
//! The crate decides what screen is active, how player and world state change
//! from tick to tick, and how a scripted narrative sequence and a combat
//! encounter unfold.  Everything that computes or decides lives here, with
//! contracts; rendering, audio playback and file persistence are left to the
//! embedding application, which drives this library once per tick.

pub mod audio;
pub mod combat;
pub mod contexts;
pub mod enemy;
pub mod input;
pub mod levels;
pub mod modes;
pub mod progress;
pub mod text;
pub mod rng;
pub mod script;
