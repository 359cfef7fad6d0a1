//! The decisions of a compass firmware for a board with a ring of eight LEDs
//! and a magnetometer on an I2C bus: in which order the board is brought up,
//! when bring-up gives up, and what the sampling cycle does with each reading.
//!
//! Nothing in this crate touches a register. The firmware performs each
//! action that a sequencer names and reports how it went; the sequencer
//! answers with the next action.

pub mod claim;
pub mod direction;
pub mod fault;
pub mod sensor;
pub mod handles;
pub mod bringup;
pub mod runloop;
