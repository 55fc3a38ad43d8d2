//! The rule sets a room can run, one module each.

pub mod carbo;
pub mod coup;
pub mod games;
pub mod tycoon;
