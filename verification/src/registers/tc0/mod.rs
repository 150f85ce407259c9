//! Timer counter 0 registers.

pub mod qidr;
