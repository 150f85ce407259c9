//! Ethernet MAC registers.

pub mod cse;
pub mod dtf;
pub mod fro;
pub mod tund;
