//! A two-combatant turn-based encounter with a timed parry window.
//!
//! Time is counted in whole microseconds. The clock hands each tick a
//! non-negative delta; the encounter advances its phase timer by it and
//! resolves the player's edge-triggered actions.

pub mod encounter;
pub mod laws;
pub mod timer;
