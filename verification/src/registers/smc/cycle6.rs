//! SMC Cycle Register (CS_number = 6).

use vstd::prelude::*;
use crate::registers::Resettable;

verus! {

/// The value read from the register.
#[derive(Clone, Copy, Debug, PartialEq, Eq, Structural)]
pub struct R {
    bits: u32,
}

impl View for R {
    type V = u32;

    closed spec fn view(&self) -> u32 {
        self.bits
    }
}

impl From<u32> for R {
    fn from(bits: u32) -> (ret: R)
        ensures
            ret@ == bits,
    {
        R { bits }
    }
}

impl vstd::std_specs::convert::FromSpecImpl<u32> for R {
    open spec fn obeys_from_spec() -> bool {
        true
    }

    closed spec fn from_spec(v: u32) -> R {
        R { bits: v }
    }
}

/// The value being written to the register.
#[derive(Clone, Copy, Debug, PartialEq, Eq, Structural)]
pub struct W {
    bits: u32,
}

impl View for W {
    type V = u32;

    closed spec fn view(&self) -> u32 {
        self.bits
    }
}

impl From<u32> for W {
    fn from(bits: u32) -> (ret: W)
        ensures
            ret@ == bits,
    {
        W { bits }
    }
}

impl vstd::std_specs::convert::FromSpecImpl<u32> for W {
    open spec fn obeys_from_spec() -> bool {
        true
    }

    closed spec fn from_spec(v: u32) -> W {
        W { bits: v }
    }
}

impl From<W> for u32 {
    fn from(w: W) -> (ret: u32)
        ensures
            ret == w@,
    {
        w.bits
    }
}

impl vstd::std_specs::convert::FromSpecImpl<W> for u32 {
    open spec fn obeys_from_spec() -> bool {
        true
    }

    open spec fn from_spec(v: W) -> u32 {
        v@
    }
}

/// Reader of the field `NWE_CYCLE`: Total Write Cycle Length
#[allow(non_camel_case_types)]
#[derive(Clone, Copy, Debug, PartialEq, Eq, Structural)]
pub struct NWE_CYCLE_R {
    bits: u16,
}

impl View for NWE_CYCLE_R {
    type V = u16;

    closed spec fn view(&self) -> u16 {
        self.bits
    }
}

impl NWE_CYCLE_R {
    /// A reader that holds the given field value.
    pub fn new(bits: u16) -> (ret: Self)
        ensures
            ret@ == bits,
    {
        NWE_CYCLE_R { bits }
    }

    /// The value of the field.
    pub fn bits(&self) -> (ret: u16)
        ensures
            ret == self@,
    {
        self.bits
    }
}

/// Reader of the field `NRD_CYCLE`: Total Read Cycle Length
#[allow(non_camel_case_types)]
#[derive(Clone, Copy, Debug, PartialEq, Eq, Structural)]
pub struct NRD_CYCLE_R {
    bits: u16,
}

impl View for NRD_CYCLE_R {
    type V = u16;

    closed spec fn view(&self) -> u16 {
        self.bits
    }
}

impl NRD_CYCLE_R {
    /// A reader that holds the given field value.
    pub fn new(bits: u16) -> (ret: Self)
        ensures
            ret@ == bits,
    {
        NRD_CYCLE_R { bits }
    }

    /// The value of the field.
    pub fn bits(&self) -> (ret: u16)
        ensures
            ret == self@,
    {
        self.bits
    }
}

/// Writer of the field `NWE_CYCLE` (at bit 0): Total Write Cycle Length
#[allow(non_camel_case_types)]
pub struct NWE_CYCLE_W<'a> {
    /// The register value being written.
    pub w: &'a mut W,
}

impl<'a> NWE_CYCLE_W<'a> {
    /// Writes the low bits of the given value to the field.
    pub fn bits(self, value: u16) -> (ret: &'a mut W)
        ensures
            ret@ == (old(self.w)@ & !(0x1ffu32 << 0u32)) | (((value as u32) & 0x1ffu32) << 0u32),
            *final(ret) == *final(self.w),
    {
        self.w.bits = (self.w.bits & !(0x1ffu32 << 0u32)) | (((value as u32) & 0x1ffu32) << 0u32);
        self.w
    }
}

/// Writer of the field `NRD_CYCLE` (at bit 16): Total Read Cycle Length
#[allow(non_camel_case_types)]
pub struct NRD_CYCLE_W<'a> {
    /// The register value being written.
    pub w: &'a mut W,
}

impl<'a> NRD_CYCLE_W<'a> {
    /// Writes the low bits of the given value to the field.
    pub fn bits(self, value: u16) -> (ret: &'a mut W)
        ensures
            ret@ == (old(self.w)@ & !(0x1ffu32 << 16u32)) | (((value as u32) & 0x1ffu32) << 16u32),
            *final(ret) == *final(self.w),
    {
        self.w.bits = (self.w.bits & !(0x1ffu32 << 16u32)) | (((value as u32) & 0x1ffu32) << 16u32);
        self.w
    }
}

impl R {
    /// The raw value of the register.
    pub fn bits(&self) -> (ret: u32)
        ensures
            ret == self@,
    {
        self.bits
    }

    /// Bits 0:8 - Total Write Cycle Length
    pub fn nwe_cycle(&self) -> (ret: NWE_CYCLE_R)
        ensures
            ret@ == ((self@ >> 0u32) & 0x1ffu32) as u16,
    {
        NWE_CYCLE_R::new(((self.bits >> 0u32) & 0x1ffu32) as u16)
    }

    /// Bits 16:24 - Total Read Cycle Length
    pub fn nrd_cycle(&self) -> (ret: NRD_CYCLE_R)
        ensures
            ret@ == ((self@ >> 16u32) & 0x1ffu32) as u16,
    {
        NRD_CYCLE_R::new(((self.bits >> 16u32) & 0x1ffu32) as u16)
    }
}

impl W {
    /// Bits 0:8 - Total Write Cycle Length
    pub fn nwe_cycle(&mut self) -> (ret: NWE_CYCLE_W<'_>)
        ensures
            *ret.w == *old(self),
            *final(ret.w) == *final(self),
    {
        NWE_CYCLE_W { w: self }
    }

    /// Bits 16:24 - Total Read Cycle Length
    pub fn nrd_cycle(&mut self) -> (ret: NRD_CYCLE_W<'_>)
        ensures
            *ret.w == *old(self),
            *final(ret.w) == *final(self),
    {
        NRD_CYCLE_W { w: self }
    }

    /// Writes raw bits to the register.
    pub fn bits(&mut self, bits: u32) -> (ret: &mut Self)
        ensures
            ret@ == bits,
            *final(ret) == *final(self),
    {
        self.bits = bits;
        self
    }
}

/// SMC Cycle Register (CS_number = 6).
#[allow(non_camel_case_types)]
pub struct CYCLE6_SPEC;

impl Resettable for CYCLE6_SPEC {
    open spec fn reset_spec() -> u32 {
        0x0003_0003
    }

    fn reset_value() -> (ret: u32) {
        0x0003_0003
    }
}

} // verus!
