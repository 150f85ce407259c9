//! Readers and writers for memory-mapped registers of the SAM3X8E microcontroller.
//!
//! A register value is read as an `R` and written as a `W`. Each field of a register has a
//! reader, returned by the method of `R` named after the field, and a writer, returned by the
//! method of `W` named after the field; the writer replaces the bits of its field and leaves all
//! other bits of the register as they were.

use vstd::prelude::*;

pub mod dmac;
pub mod pwm;
pub mod smc;
pub mod tc0;
pub mod tc2;
pub mod emac;
pub mod uotghs;
pub mod usart3;

verus! {

/// A register with a defined value after reset.
pub trait Resettable {
    /// The value of the register after reset.
    spec fn reset_spec() -> u32;

    /// The value of the register after reset.
    fn reset_value() -> (ret: u32)
        ensures
            ret == Self::reset_spec(),
    ;
}

/// The value of a register after a field of `width` bits at bit `offset` is written with
/// `value`: the field holds the low bits of the value, the other bits are unchanged.
pub open spec fn field_written(bits: u32, offset: u32, mask: u32, value: u32) -> u32 {
    (bits & !(mask << offset)) | ((value & mask) << offset)
}

/// The value of the field of a register at bit `offset` with the given mask.
pub open spec fn field_read(bits: u32, offset: u32, mask: u32) -> u32 {
    (bits >> offset) & mask
}

/// Reading a field after writing it gives the low bits of the value that was written.
pub proof fn lemma_read_after_write(bits: u32, offset: u32, width: u32, value: u32)
    requires
        1 <= width,
        offset + width <= 32,
    ensures
        field_read(field_written(bits, offset, low_mask(width), value), offset, low_mask(width))
            == value & low_mask(width),
{
    let mask = low_mask(width);
    assert(((((bits & !(mask << offset)) | ((value & mask) << offset)) >> offset) & mask) == value & mask)
        by (bit_vector)
        requires
            1 <= width,
            offset + width <= 32,
            mask == (if width == 32 { 0xFFFF_FFFFu32 } else { ((1u32 << width) - 1) as u32 }),
    ;
}

/// Writing a field leaves every other field of the register as it was.
pub proof fn lemma_write_keeps_other_fields(
    bits: u32,
    offset: u32,
    width: u32,
    value: u32,
    other_offset: u32,
    other_width: u32,
)
    requires
        1 <= width,
        offset + width <= 32,
        1 <= other_width,
        other_offset + other_width <= 32,
        other_offset + other_width <= offset || offset + width <= other_offset,
    ensures
        field_read(field_written(bits, offset, low_mask(width), value), other_offset, low_mask(other_width))
            == field_read(bits, other_offset, low_mask(other_width)),
{
    let mask = low_mask(width);
    let other_mask = low_mask(other_width);
    assert(((((bits & !(mask << offset)) | ((value & mask) << offset)) >> other_offset) & other_mask)
        == ((bits >> other_offset) & other_mask)) by (bit_vector)
        requires
            1 <= width,
            offset + width <= 32,
            1 <= other_width,
            other_offset + other_width <= 32,
            other_offset + other_width <= offset || offset + width <= other_offset,
            mask == (if width == 32 { 0xFFFF_FFFFu32 } else { ((1u32 << width) - 1) as u32 }),
            other_mask == (if other_width == 32 { 0xFFFF_FFFFu32 } else { ((1u32 << other_width) - 1) as u32 }),
    ;
}

/// The mask of the low `width` bits.
pub open spec fn low_mask(width: u32) -> u32 {
    if width == 32 {
        0xFFFF_FFFFu32
    } else {
        ((1u32 << width) - 1) as u32
    }
}

} // verus!
