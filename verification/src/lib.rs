//! A typed mirror of the accelerometer filter-configuration register
//! (CTRL8_XL) of a MEMS inertial sensor.
//!
//! The mirror holds the last byte written to the register. Named fields are
//! read out of that byte without touching the bus; a field write rebuilds
//! the byte, keeps every other field, and commits the whole byte in one bus
//! transaction.

pub mod bits;
pub mod cutoff;
pub mod register;

pub use cutoff::HPCF_Xl;
pub use register::{Ctrl8Xl, ADDR};
