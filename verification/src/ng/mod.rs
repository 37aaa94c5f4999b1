//! The event-driven variant of the jukebox daemon, where the player thread
//! emits effects for an interpreter to perform.

pub mod effects;
pub mod input_controller;
pub mod jukebox;
pub mod player;
