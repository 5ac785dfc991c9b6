//! Simulation core of a two-player ball-and-paddle game.
//!
//! The core is a frame-stepped state machine: a host hands it one input
//! snapshot and one elapsed time per tick, and it hands back the collision
//! events of that tick and whether the exit key asked the process to end.
//! Rendering, audio and raw keyboard polling are the host's business.
//!
//! All lengths are held in milliunits (one thousandth of a court unit) and
//! all times in milliseconds, so the whole simulation runs on exact
//! integer arithmetic. The playing field is a 700 x 500 unit court centred
//! on the origin; the derived constants live in `geometry`.

pub mod angle;
pub mod ball;
pub mod collision;
pub mod geometry;
pub mod laws;
pub mod paddle;
pub mod phase;
pub mod ramp;
pub mod scoring;
pub mod state;
pub mod tick;
