//! A media-playback controller: the lifecycle of a playback session, the
//! events that drive it, the clamped drag-and-seek engine and the discrete
//! playback-speed ladder.
//!
//! Times are whole milliseconds and fractions are millionths, so that every
//! rule of the controller is exact integer arithmetic.

pub mod bounds;
pub mod dispatch;
pub mod drag;
pub mod errors;
pub mod events;
pub mod invoke;
pub mod player;
pub mod shared;
pub mod speed;
pub mod stream;
pub mod surface;
pub mod units;
