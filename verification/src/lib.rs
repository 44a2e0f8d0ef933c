//! A small survival arena: one player, waves of homing enemies, and the
//! state machine that decides when the game is lost.
//!
//! All positions are fixed-point: an `i32` counts thousandths of a world
//! unit. All times are whole nanoseconds.
//!
//! The library is verified with Verus. The one thing it takes on trust is
//! the range of the random coordinates that the `rand` crate hands out.

pub mod arena;
pub mod health;
pub mod state;
pub mod timer;
pub mod player;
pub mod enemy;
pub mod pending;
mod random;
pub mod game;
