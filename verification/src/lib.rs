//! Building blocks for an EnOcean-based heater controller.

pub mod max_array;
pub mod crc8;
pub mod bits;
pub mod bit_field;
pub mod ring_buffer;
pub mod max_array_ext;
pub mod esp3;
pub mod registers;
pub mod display;
pub mod dcf77;
pub mod dcf77_transmitter;
pub mod dynamic_bit_field;
pub mod channel;
pub mod clock;
pub mod i2c_display;
pub mod hex;
pub mod numbers;
pub mod pixels;
pub mod wide_strings;
pub mod usart;
pub mod name_filters;
