//! SMC ECC parity 3 Register.

use vstd::prelude::*;
use crate::registers::Resettable;

verus! {

/// The value read from the register.
#[derive(Clone, Copy, Debug, PartialEq, Eq, Structural)]
pub struct R {
    bits: u32,
}

impl View for R {
    type V = u32;

    closed spec fn view(&self) -> u32 {
        self.bits
    }
}

impl From<u32> for R {
    fn from(bits: u32) -> (ret: R)
        ensures
            ret@ == bits,
    {
        R { bits }
    }
}

impl vstd::std_specs::convert::FromSpecImpl<u32> for R {
    open spec fn obeys_from_spec() -> bool {
        true
    }

    closed spec fn from_spec(v: u32) -> R {
        R { bits: v }
    }
}

/// Reader of the field `BITADDR`: Corrupted Bit Address in the Page between (i x 256) and ((i + 1) x 512) - 1) Bytes
#[allow(non_camel_case_types)]
#[derive(Clone, Copy, Debug, PartialEq, Eq, Structural)]
pub struct BITADDR_R {
    bits: u8,
}

impl View for BITADDR_R {
    type V = u8;

    closed spec fn view(&self) -> u8 {
        self.bits
    }
}

impl BITADDR_R {
    /// A reader that holds the given field value.
    pub fn new(bits: u8) -> (ret: Self)
        ensures
            ret@ == bits,
    {
        BITADDR_R { bits }
    }

    /// The value of the field.
    pub fn bits(&self) -> (ret: u8)
        ensures
            ret == self@,
    {
        self.bits
    }
}

/// Reader of the field `WORDADDR`: Corrupted Word Address in the Page between (i x 256) and ((i + 1) x 512) - 1) Bytes
#[allow(non_camel_case_types)]
#[derive(Clone, Copy, Debug, PartialEq, Eq, Structural)]
pub struct WORDADDR_R {
    bits: u8,
}

impl View for WORDADDR_R {
    type V = u8;

    closed spec fn view(&self) -> u8 {
        self.bits
    }
}

impl WORDADDR_R {
    /// A reader that holds the given field value.
    pub fn new(bits: u8) -> (ret: Self)
        ensures
            ret@ == bits,
    {
        WORDADDR_R { bits }
    }

    /// The value of the field.
    pub fn bits(&self) -> (ret: u8)
        ensures
            ret == self@,
    {
        self.bits
    }
}

/// Reader of the field `NPARITY`: Parity N
#[allow(non_camel_case_types)]
#[derive(Clone, Copy, Debug, PartialEq, Eq, Structural)]
pub struct NPARITY_R {
    bits: u16,
}

impl View for NPARITY_R {
    type V = u16;

    closed spec fn view(&self) -> u16 {
        self.bits
    }
}

impl NPARITY_R {
    /// A reader that holds the given field value.
    pub fn new(bits: u16) -> (ret: Self)
        ensures
            ret@ == bits,
    {
        NPARITY_R { bits }
    }

    /// The value of the field.
    pub fn bits(&self) -> (ret: u16)
        ensures
            ret == self@,
    {
        self.bits
    }
}

impl R {
    /// The raw value of the register.
    pub fn bits(&self) -> (ret: u32)
        ensures
            ret == self@,
    {
        self.bits
    }

    /// Bits 0:2 - Corrupted Bit Address in the Page between (i x 256) and ((i + 1) x 512) - 1) Bytes
    pub fn bitaddr(&self) -> (ret: BITADDR_R)
        ensures
            ret@ == ((self@ >> 0u32) & 0x7u32) as u8,
    {
        BITADDR_R::new(((self.bits >> 0u32) & 0x7u32) as u8)
    }

    /// Bits 3:10 - Corrupted Word Address in the Page between (i x 256) and ((i + 1) x 512) - 1) Bytes
    pub fn wordaddr(&self) -> (ret: WORDADDR_R)
        ensures
            ret@ == ((self@ >> 3u32) & 0xffu32) as u8,
    {
        WORDADDR_R::new(((self.bits >> 3u32) & 0xffu32) as u8)
    }

    /// Bits 12:22 - Parity N
    pub fn nparity(&self) -> (ret: NPARITY_R)
        ensures
            ret@ == ((self@ >> 12u32) & 0x7ffu32) as u16,
    {
        NPARITY_R::new(((self.bits >> 12u32) & 0x7ffu32) as u16)
    }
}

/// SMC ECC parity 3 Register.
#[allow(non_camel_case_types)]
pub struct W8BIT_ECC_PR3_W8BIT_SPEC;

impl Resettable for W8BIT_ECC_PR3_W8BIT_SPEC {
    open spec fn reset_spec() -> u32 {
        0
    }

    fn reset_value() -> (ret: u32) {
        0
    }
}

} // verus!
