//! QDEC Interrupt Disable Register.

use vstd::prelude::*;
use crate::registers::Resettable;

verus! {

/// The value being written to the register.
#[derive(Clone, Copy, Debug, PartialEq, Eq, Structural)]
pub struct W {
    bits: u32,
}

impl View for W {
    type V = u32;

    closed spec fn view(&self) -> u32 {
        self.bits
    }
}

impl From<u32> for W {
    fn from(bits: u32) -> (ret: W)
        ensures
            ret@ == bits,
    {
        W { bits }
    }
}

impl vstd::std_specs::convert::FromSpecImpl<u32> for W {
    open spec fn obeys_from_spec() -> bool {
        true
    }

    closed spec fn from_spec(v: u32) -> W {
        W { bits: v }
    }
}

impl From<W> for u32 {
    fn from(w: W) -> (ret: u32)
        ensures
            ret == w@,
    {
        w.bits
    }
}

impl vstd::std_specs::convert::FromSpecImpl<W> for u32 {
    open spec fn obeys_from_spec() -> bool {
        true
    }

    open spec fn from_spec(v: W) -> u32 {
        v@
    }
}

/// Writer of the field `IDX` (at bit 0): InDeX
#[allow(non_camel_case_types)]
pub struct IDX_W<'a> {
    /// The register value being written.
    pub w: &'a mut W,
}

impl<'a> IDX_W<'a> {
    /// Writes the given value to the bit.
    pub fn bit(self, value: bool) -> (ret: &'a mut W)
        ensures
            ret@ == (old(self.w)@ & !(1u32 << 0u32)) | ((if value { 1u32 } else { 0u32 }) << 0u32),
            *final(ret) == *final(self.w),
    {
        self.w.bits = (self.w.bits & !(1u32 << 0u32)) | ((if value { 1u32 } else { 0u32 }) << 0u32);
        self.w
    }

    /// Sets the bit.
    pub fn set_bit(self) -> (ret: &'a mut W)
        ensures
            ret@ == old(self.w)@ | (1u32 << 0u32),
            *final(ret) == *final(self.w),
    {
        self.w.bits = self.w.bits | (1u32 << 0u32);
        self.w
    }

    /// Clears the bit.
    pub fn clear_bit(self) -> (ret: &'a mut W)
        ensures
            ret@ == old(self.w)@ & !(1u32 << 0u32),
            *final(ret) == *final(self.w),
    {
        self.w.bits = self.w.bits & !(1u32 << 0u32);
        self.w
    }
}

/// Writer of the field `DIRCHG` (at bit 1): DIRection CHanGe
#[allow(non_camel_case_types)]
pub struct DIRCHG_W<'a> {
    /// The register value being written.
    pub w: &'a mut W,
}

impl<'a> DIRCHG_W<'a> {
    /// Writes the given value to the bit.
    pub fn bit(self, value: bool) -> (ret: &'a mut W)
        ensures
            ret@ == (old(self.w)@ & !(1u32 << 1u32)) | ((if value { 1u32 } else { 0u32 }) << 1u32),
            *final(ret) == *final(self.w),
    {
        self.w.bits = (self.w.bits & !(1u32 << 1u32)) | ((if value { 1u32 } else { 0u32 }) << 1u32);
        self.w
    }

    /// Sets the bit.
    pub fn set_bit(self) -> (ret: &'a mut W)
        ensures
            ret@ == old(self.w)@ | (1u32 << 1u32),
            *final(ret) == *final(self.w),
    {
        self.w.bits = self.w.bits | (1u32 << 1u32);
        self.w
    }

    /// Clears the bit.
    pub fn clear_bit(self) -> (ret: &'a mut W)
        ensures
            ret@ == old(self.w)@ & !(1u32 << 1u32),
            *final(ret) == *final(self.w),
    {
        self.w.bits = self.w.bits & !(1u32 << 1u32);
        self.w
    }
}

/// Writer of the field `QERR` (at bit 2): Quadrature ERRor
#[allow(non_camel_case_types)]
pub struct QERR_W<'a> {
    /// The register value being written.
    pub w: &'a mut W,
}

impl<'a> QERR_W<'a> {
    /// Writes the given value to the bit.
    pub fn bit(self, value: bool) -> (ret: &'a mut W)
        ensures
            ret@ == (old(self.w)@ & !(1u32 << 2u32)) | ((if value { 1u32 } else { 0u32 }) << 2u32),
            *final(ret) == *final(self.w),
    {
        self.w.bits = (self.w.bits & !(1u32 << 2u32)) | ((if value { 1u32 } else { 0u32 }) << 2u32);
        self.w
    }

    /// Sets the bit.
    pub fn set_bit(self) -> (ret: &'a mut W)
        ensures
            ret@ == old(self.w)@ | (1u32 << 2u32),
            *final(ret) == *final(self.w),
    {
        self.w.bits = self.w.bits | (1u32 << 2u32);
        self.w
    }

    /// Clears the bit.
    pub fn clear_bit(self) -> (ret: &'a mut W)
        ensures
            ret@ == old(self.w)@ & !(1u32 << 2u32),
            *final(ret) == *final(self.w),
    {
        self.w.bits = self.w.bits & !(1u32 << 2u32);
        self.w
    }
}

impl W {
    /// Bit 0 - InDeX
    pub fn idx(&mut self) -> (ret: IDX_W<'_>)
        ensures
            *ret.w == *old(self),
            *final(ret.w) == *final(self),
    {
        IDX_W { w: self }
    }

    /// Bit 1 - DIRection CHanGe
    pub fn dirchg(&mut self) -> (ret: DIRCHG_W<'_>)
        ensures
            *ret.w == *old(self),
            *final(ret.w) == *final(self),
    {
        DIRCHG_W { w: self }
    }

    /// Bit 2 - Quadrature ERRor
    pub fn qerr(&mut self) -> (ret: QERR_W<'_>)
        ensures
            *ret.w == *old(self),
            *final(ret.w) == *final(self),
    {
        QERR_W { w: self }
    }

    /// Writes raw bits to the register.
    pub fn bits(&mut self, bits: u32) -> (ret: &mut Self)
        ensures
            ret@ == bits,
            *final(ret) == *final(self),
    {
        self.bits = bits;
        self
    }
}

/// QDEC Interrupt Disable Register.
#[allow(non_camel_case_types)]
pub struct QIDR_SPEC;

impl Resettable for QIDR_SPEC {
    open spec fn reset_spec() -> u32 {
        0
    }

    fn reset_value() -> (ret: u32) {
        0
    }
}

} // verus!
