//! Game rules for a small 2D collection game: a player sprite moves over a
//! tiled field, picks up sticks on contact, and a score / speed / rank
//! display reacts. The engine-facing shell (windowing, rendering, input
//! polling, asset loading) lives outside this crate; here stand the rules
//! themselves, each with a contract.
//!
//! Coordinates are integers in thousandths of a screen unit, so that the
//! movement, wrapping and collision arithmetic is exact.

pub mod config;
pub mod geometry;
pub mod hud;
pub mod player;
pub mod spawn;
pub mod state;
