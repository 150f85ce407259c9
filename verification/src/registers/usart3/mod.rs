//! USART 3 registers.

pub mod lin_mode_ier_lin_mode;
