//! Frame-orchestration core of a small real-time engine.
//!
//! The crate owns the mutable simulation state of one running instance,
//! advances a fixed-rate simulation step from a variable-rate frame time,
//! and hands the per-frame subsystems to game logic. Every function carries
//! a contract that Verus proves.
//!
//! All times are whole numbers of ticks, [`config::TICKS_PER_SECOND`] to the
//! second, so that the usual frame rates divide a second without remainder.

pub mod changes;
pub mod clock;
pub mod commands;
pub mod config;
pub mod cooldowns;
pub mod driver;
pub mod engine;
pub mod flags;
pub mod guarded;
pub mod notifications;
pub mod stats;
pub mod ui;
pub mod world;
