//! Frames Received Ok Register.

use vstd::prelude::*;
use crate::registers::Resettable;

verus! {

/// The value read from the register.
#[derive(Clone, Copy, Debug, PartialEq, Eq, Structural)]
pub struct R {
    bits: u32,
}

impl View for R {
    type V = u32;

    closed spec fn view(&self) -> u32 {
        self.bits
    }
}

impl From<u32> for R {
    fn from(bits: u32) -> (ret: R)
        ensures
            ret@ == bits,
    {
        R { bits }
    }
}

impl vstd::std_specs::convert::FromSpecImpl<u32> for R {
    open spec fn obeys_from_spec() -> bool {
        true
    }

    closed spec fn from_spec(v: u32) -> R {
        R { bits: v }
    }
}

/// The value being written to the register.
#[derive(Clone, Copy, Debug, PartialEq, Eq, Structural)]
pub struct W {
    bits: u32,
}

impl View for W {
    type V = u32;

    closed spec fn view(&self) -> u32 {
        self.bits
    }
}

impl From<u32> for W {
    fn from(bits: u32) -> (ret: W)
        ensures
            ret@ == bits,
    {
        W { bits }
    }
}

impl vstd::std_specs::convert::FromSpecImpl<u32> for W {
    open spec fn obeys_from_spec() -> bool {
        true
    }

    closed spec fn from_spec(v: u32) -> W {
        W { bits: v }
    }
}

impl From<W> for u32 {
    fn from(w: W) -> (ret: u32)
        ensures
            ret == w@,
    {
        w.bits
    }
}

impl vstd::std_specs::convert::FromSpecImpl<W> for u32 {
    open spec fn obeys_from_spec() -> bool {
        true
    }

    open spec fn from_spec(v: W) -> u32 {
        v@
    }
}

/// Reader of the field `FROK`: Frames Received OK
#[allow(non_camel_case_types)]
#[derive(Clone, Copy, Debug, PartialEq, Eq, Structural)]
pub struct FROK_R {
    bits: u32,
}

impl View for FROK_R {
    type V = u32;

    closed spec fn view(&self) -> u32 {
        self.bits
    }
}

impl FROK_R {
    /// A reader that holds the given field value.
    pub fn new(bits: u32) -> (ret: Self)
        ensures
            ret@ == bits,
    {
        FROK_R { bits }
    }

    /// The value of the field.
    pub fn bits(&self) -> (ret: u32)
        ensures
            ret == self@,
    {
        self.bits
    }
}

/// Writer of the field `FROK` (at bit 0): Frames Received OK
#[allow(non_camel_case_types)]
pub struct FROK_W<'a> {
    /// The register value being written.
    pub w: &'a mut W,
}

impl<'a> FROK_W<'a> {
    /// Writes the low bits of the given value to the field.
    pub fn bits(self, value: u32) -> (ret: &'a mut W)
        ensures
            ret@ == (old(self.w)@ & !(0xffffffu32 << 0u32)) | (((value as u32) & 0xffffffu32) << 0u32),
            *final(ret) == *final(self.w),
    {
        self.w.bits = (self.w.bits & !(0xffffffu32 << 0u32)) | (((value as u32) & 0xffffffu32) << 0u32);
        self.w
    }
}

impl R {
    /// The raw value of the register.
    pub fn bits(&self) -> (ret: u32)
        ensures
            ret == self@,
    {
        self.bits
    }

    /// Bits 0:23 - Frames Received OK
    pub fn frok(&self) -> (ret: FROK_R)
        ensures
            ret@ == ((self@ >> 0u32) & 0xffffffffu32) as u32,
    {
        FROK_R::new(((self.bits >> 0u32) & 0xffffffffu32) as u32)
    }
}

impl W {
    /// Bits 0:23 - Frames Received OK
    pub fn frok(&mut self) -> (ret: FROK_W<'_>)
        ensures
            *ret.w == *old(self),
            *final(ret.w) == *final(self),
    {
        FROK_W { w: self }
    }

    /// Writes raw bits to the register.
    pub fn bits(&mut self, bits: u32) -> (ret: &mut Self)
        ensures
            ret@ == bits,
            *final(ret) == *final(self),
    {
        self.bits = bits;
        self
    }
}

/// Frames Received Ok Register.
#[allow(non_camel_case_types)]
pub struct FRO_SPEC;

impl Resettable for FRO_SPEC {
    open spec fn reset_spec() -> u32 {
        0
    }

    fn reset_value() -> (ret: u32) {
        0
    }
}

} // verus!
