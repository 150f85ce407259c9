//! Pulse width modulation controller registers.

pub mod oov;
pub mod dt4;
