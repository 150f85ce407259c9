//! Timer counter 2 registers.

pub mod rb0;
