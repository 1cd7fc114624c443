//! Core logic of a side-scrolling arena defense game: per-actor behavior
//! state machines, hit resolution and damage application, spawn pacing with
//! catch-up and escalation, and the bounded nearest-corpse selection used to
//! raise allies.
//!
//! All gameplay quantities are fixed-point integers: times are milliseconds,
//! positions, speeds, damage and knockback carry three decimal places
//! (a value of 1000 stands for 1.0). The engine around this crate owns
//! rendering, physics queries, audio and input; it hands plain values in and
//! takes plain values back.

pub mod animation;
pub mod combat;
pub mod end_boss;
pub mod enemy;
pub mod game_manager;
pub mod hit_detection;
pub mod movement;
pub mod player_states;
mod rng;
pub mod spawning;
pub mod summoning;
pub mod timer;
pub mod ui_stuff;
pub mod units;
