//! The simulation core of a small obstacle-avoidance game.
//!
//! A player marker rises while the jump input is held and sinks otherwise.
//! Obstacles scroll to the left each time a repeating timer fires. When the
//! player's box overlaps an obstacle's box the game is over, for good.
//!
//! All coordinates are whole units and all times whole nanoseconds, so every
//! rule of the game is stated over integers and proved.

pub mod collision;
pub mod entity;
pub mod laws;
pub mod timer;
pub mod world;
