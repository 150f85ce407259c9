//! DMA controller registers.

pub mod dscr5;
