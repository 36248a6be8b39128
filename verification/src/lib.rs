//! Rules of a top-down stealth game, kept apart from the engine that draws it.
//!
//! Every module holds plain state and the functions that advance it by one
//! frame. Time is counted in whole nanoseconds, opacity in billionths, and
//! every other number with a fraction in thousandths, so that each rule is
//! exact integer arithmetic. Entities are known by a 64-bit number.

pub mod animation;
pub mod config;
pub mod dialogue;
pub mod enemy;
pub mod entities;
pub mod fields;
pub mod gate;
pub mod lighting;
pub mod metadata;
pub mod pawn;
pub mod physics;
mod random;
pub mod state;
pub mod text;
pub mod timer;
pub mod transition;
pub mod ui;
