//! Waypoints that make threads pass numbered waypoints in order.
//!
//! Each participant announces "I have reached point `n`" and is held until every
//! earlier point has been passed. A pass may also ask that the next one wait a
//! minimum time (a head start).
pub mod gate;
mod host;
pub mod laws;
mod waypoints;

pub use gate::{GateState, Passage};
pub use waypoints::Waypoints;
