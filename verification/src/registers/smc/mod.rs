//! Static memory controller registers.

pub mod cycle6;
pub mod mode4;
pub mod w8bit_ecc_pr3_w8bit;
