//! Interrupt Enable Register.

use vstd::prelude::*;
use crate::registers::Resettable;

verus! {

/// The value being written to the register.
#[derive(Clone, Copy, Debug, PartialEq, Eq, Structural)]
pub struct W {
    bits: u32,
}

impl View for W {
    type V = u32;

    closed spec fn view(&self) -> u32 {
        self.bits
    }
}

impl From<u32> for W {
    fn from(bits: u32) -> (ret: W)
        ensures
            ret@ == bits,
    {
        W { bits }
    }
}

impl vstd::std_specs::convert::FromSpecImpl<u32> for W {
    open spec fn obeys_from_spec() -> bool {
        true
    }

    closed spec fn from_spec(v: u32) -> W {
        W { bits: v }
    }
}

impl From<W> for u32 {
    fn from(w: W) -> (ret: u32)
        ensures
            ret == w@,
    {
        w.bits
    }
}

impl vstd::std_specs::convert::FromSpecImpl<W> for u32 {
    open spec fn obeys_from_spec() -> bool {
        true
    }

    open spec fn from_spec(v: W) -> u32 {
        v@
    }
}

/// Writer of the field `RXRDY` (at bit 0): RXRDY Interrupt Enable
#[allow(non_camel_case_types)]
pub struct RXRDY_W<'a> {
    /// The register value being written.
    pub w: &'a mut W,
}

impl<'a> RXRDY_W<'a> {
    /// Writes the given value to the bit.
    pub fn bit(self, value: bool) -> (ret: &'a mut W)
        ensures
            ret@ == (old(self.w)@ & !(1u32 << 0u32)) | ((if value { 1u32 } else { 0u32 }) << 0u32),
            *final(ret) == *final(self.w),
    {
        self.w.bits = (self.w.bits & !(1u32 << 0u32)) | ((if value { 1u32 } else { 0u32 }) << 0u32);
        self.w
    }

    /// Sets the bit.
    pub fn set_bit(self) -> (ret: &'a mut W)
        ensures
            ret@ == old(self.w)@ | (1u32 << 0u32),
            *final(ret) == *final(self.w),
    {
        self.w.bits = self.w.bits | (1u32 << 0u32);
        self.w
    }

    /// Clears the bit.
    pub fn clear_bit(self) -> (ret: &'a mut W)
        ensures
            ret@ == old(self.w)@ & !(1u32 << 0u32),
            *final(ret) == *final(self.w),
    {
        self.w.bits = self.w.bits & !(1u32 << 0u32);
        self.w
    }
}

/// Writer of the field `TXRDY` (at bit 1): TXRDY Interrupt Enable
#[allow(non_camel_case_types)]
pub struct TXRDY_W<'a> {
    /// The register value being written.
    pub w: &'a mut W,
}

impl<'a> TXRDY_W<'a> {
    /// Writes the given value to the bit.
    pub fn bit(self, value: bool) -> (ret: &'a mut W)
        ensures
            ret@ == (old(self.w)@ & !(1u32 << 1u32)) | ((if value { 1u32 } else { 0u32 }) << 1u32),
            *final(ret) == *final(self.w),
    {
        self.w.bits = (self.w.bits & !(1u32 << 1u32)) | ((if value { 1u32 } else { 0u32 }) << 1u32);
        self.w
    }

    /// Sets the bit.
    pub fn set_bit(self) -> (ret: &'a mut W)
        ensures
            ret@ == old(self.w)@ | (1u32 << 1u32),
            *final(ret) == *final(self.w),
    {
        self.w.bits = self.w.bits | (1u32 << 1u32);
        self.w
    }

    /// Clears the bit.
    pub fn clear_bit(self) -> (ret: &'a mut W)
        ensures
            ret@ == old(self.w)@ & !(1u32 << 1u32),
            *final(ret) == *final(self.w),
    {
        self.w.bits = self.w.bits & !(1u32 << 1u32);
        self.w
    }
}

/// Writer of the field `ENDRX` (at bit 3): 
#[allow(non_camel_case_types)]
pub struct ENDRX_W<'a> {
    /// The register value being written.
    pub w: &'a mut W,
}

impl<'a> ENDRX_W<'a> {
    /// Writes the given value to the bit.
    pub fn bit(self, value: bool) -> (ret: &'a mut W)
        ensures
            ret@ == (old(self.w)@ & !(1u32 << 3u32)) | ((if value { 1u32 } else { 0u32 }) << 3u32),
            *final(ret) == *final(self.w),
    {
        self.w.bits = (self.w.bits & !(1u32 << 3u32)) | ((if value { 1u32 } else { 0u32 }) << 3u32);
        self.w
    }

    /// Sets the bit.
    pub fn set_bit(self) -> (ret: &'a mut W)
        ensures
            ret@ == old(self.w)@ | (1u32 << 3u32),
            *final(ret) == *final(self.w),
    {
        self.w.bits = self.w.bits | (1u32 << 3u32);
        self.w
    }

    /// Clears the bit.
    pub fn clear_bit(self) -> (ret: &'a mut W)
        ensures
            ret@ == old(self.w)@ & !(1u32 << 3u32),
            *final(ret) == *final(self.w),
    {
        self.w.bits = self.w.bits & !(1u32 << 3u32);
        self.w
    }
}

/// Writer of the field `ENDTX` (at bit 4): 
#[allow(non_camel_case_types)]
pub struct ENDTX_W<'a> {
    /// The register value being written.
    pub w: &'a mut W,
}

impl<'a> ENDTX_W<'a> {
    /// Writes the given value to the bit.
    pub fn bit(self, value: bool) -> (ret: &'a mut W)
        ensures
            ret@ == (old(self.w)@ & !(1u32 << 4u32)) | ((if value { 1u32 } else { 0u32 }) << 4u32),
            *final(ret) == *final(self.w),
    {
        self.w.bits = (self.w.bits & !(1u32 << 4u32)) | ((if value { 1u32 } else { 0u32 }) << 4u32);
        self.w
    }

    /// Sets the bit.
    pub fn set_bit(self) -> (ret: &'a mut W)
        ensures
            ret@ == old(self.w)@ | (1u32 << 4u32),
            *final(ret) == *final(self.w),
    {
        self.w.bits = self.w.bits | (1u32 << 4u32);
        self.w
    }

    /// Clears the bit.
    pub fn clear_bit(self) -> (ret: &'a mut W)
        ensures
            ret@ == old(self.w)@ & !(1u32 << 4u32),
            *final(ret) == *final(self.w),
    {
        self.w.bits = self.w.bits & !(1u32 << 4u32);
        self.w
    }
}

/// Writer of the field `OVRE` (at bit 5): Overrun Error Interrupt Enable
#[allow(non_camel_case_types)]
pub struct OVRE_W<'a> {
    /// The register value being written.
    pub w: &'a mut W,
}

impl<'a> OVRE_W<'a> {
    /// Writes the given value to the bit.
    pub fn bit(self, value: bool) -> (ret: &'a mut W)
        ensures
            ret@ == (old(self.w)@ & !(1u32 << 5u32)) | ((if value { 1u32 } else { 0u32 }) << 5u32),
            *final(ret) == *final(self.w),
    {
        self.w.bits = (self.w.bits & !(1u32 << 5u32)) | ((if value { 1u32 } else { 0u32 }) << 5u32);
        self.w
    }

    /// Sets the bit.
    pub fn set_bit(self) -> (ret: &'a mut W)
        ensures
            ret@ == old(self.w)@ | (1u32 << 5u32),
            *final(ret) == *final(self.w),
    {
        self.w.bits = self.w.bits | (1u32 << 5u32);
        self.w
    }

    /// Clears the bit.
    pub fn clear_bit(self) -> (ret: &'a mut W)
        ensures
            ret@ == old(self.w)@ & !(1u32 << 5u32),
            *final(ret) == *final(self.w),
    {
        self.w.bits = self.w.bits & !(1u32 << 5u32);
        self.w
    }
}

/// Writer of the field `FRAME` (at bit 6): Framing Error Interrupt Enable
#[allow(non_camel_case_types)]
pub struct FRAME_W<'a> {
    /// The register value being written.
    pub w: &'a mut W,
}

impl<'a> FRAME_W<'a> {
    /// Writes the given value to the bit.
    pub fn bit(self, value: bool) -> (ret: &'a mut W)
        ensures
            ret@ == (old(self.w)@ & !(1u32 << 6u32)) | ((if value { 1u32 } else { 0u32 }) << 6u32),
            *final(ret) == *final(self.w),
    {
        self.w.bits = (self.w.bits & !(1u32 << 6u32)) | ((if value { 1u32 } else { 0u32 }) << 6u32);
        self.w
    }

    /// Sets the bit.
    pub fn set_bit(self) -> (ret: &'a mut W)
        ensures
            ret@ == old(self.w)@ | (1u32 << 6u32),
            *final(ret) == *final(self.w),
    {
        self.w.bits = self.w.bits | (1u32 << 6u32);
        self.w
    }

    /// Clears the bit.
    pub fn clear_bit(self) -> (ret: &'a mut W)
        ensures
            ret@ == old(self.w)@ & !(1u32 << 6u32),
            *final(ret) == *final(self.w),
    {
        self.w.bits = self.w.bits & !(1u32 << 6u32);
        self.w
    }
}

/// Writer of the field `PARE` (at bit 7): Parity Error Interrupt Enable
#[allow(non_camel_case_types)]
pub struct PARE_W<'a> {
    /// The register value being written.
    pub w: &'a mut W,
}

impl<'a> PARE_W<'a> {
    /// Writes the given value to the bit.
    pub fn bit(self, value: bool) -> (ret: &'a mut W)
        ensures
            ret@ == (old(self.w)@ & !(1u32 << 7u32)) | ((if value { 1u32 } else { 0u32 }) << 7u32),
            *final(ret) == *final(self.w),
    {
        self.w.bits = (self.w.bits & !(1u32 << 7u32)) | ((if value { 1u32 } else { 0u32 }) << 7u32);
        self.w
    }

    /// Sets the bit.
    pub fn set_bit(self) -> (ret: &'a mut W)
        ensures
            ret@ == old(self.w)@ | (1u32 << 7u32),
            *final(ret) == *final(self.w),
    {
        self.w.bits = self.w.bits | (1u32 << 7u32);
        self.w
    }

    /// Clears the bit.
    pub fn clear_bit(self) -> (ret: &'a mut W)
        ensures
            ret@ == old(self.w)@ & !(1u32 << 7u32),
            *final(ret) == *final(self.w),
    {
        self.w.bits = self.w.bits & !(1u32 << 7u32);
        self.w
    }
}

/// Writer of the field `TIMEOUT` (at bit 8): Time-out Interrupt Enable
#[allow(non_camel_case_types)]
pub struct TIMEOUT_W<'a> {
    /// The register value being written.
    pub w: &'a mut W,
}

impl<'a> TIMEOUT_W<'a> {
    /// Writes the given value to the bit.
    pub fn bit(self, value: bool) -> (ret: &'a mut W)
        ensures
            ret@ == (old(self.w)@ & !(1u32 << 8u32)) | ((if value { 1u32 } else { 0u32 }) << 8u32),
            *final(ret) == *final(self.w),
    {
        self.w.bits = (self.w.bits & !(1u32 << 8u32)) | ((if value { 1u32 } else { 0u32 }) << 8u32);
        self.w
    }

    /// Sets the bit.
    pub fn set_bit(self) -> (ret: &'a mut W)
        ensures
            ret@ == old(self.w)@ | (1u32 << 8u32),
            *final(ret) == *final(self.w),
    {
        self.w.bits = self.w.bits | (1u32 << 8u32);
        self.w
    }

    /// Clears the bit.
    pub fn clear_bit(self) -> (ret: &'a mut W)
        ensures
            ret@ == old(self.w)@ & !(1u32 << 8u32),
            *final(ret) == *final(self.w),
    {
        self.w.bits = self.w.bits & !(1u32 << 8u32);
        self.w
    }
}

/// Writer of the field `TXEMPTY` (at bit 9): TXEMPTY Interrupt Enable
#[allow(non_camel_case_types)]
pub struct TXEMPTY_W<'a> {
    /// The register value being written.
    pub w: &'a mut W,
}

impl<'a> TXEMPTY_W<'a> {
    /// Writes the given value to the bit.
    pub fn bit(self, value: bool) -> (ret: &'a mut W)
        ensures
            ret@ == (old(self.w)@ & !(1u32 << 9u32)) | ((if value { 1u32 } else { 0u32 }) << 9u32),
            *final(ret) == *final(self.w),
    {
        self.w.bits = (self.w.bits & !(1u32 << 9u32)) | ((if value { 1u32 } else { 0u32 }) << 9u32);
        self.w
    }

    /// Sets the bit.
    pub fn set_bit(self) -> (ret: &'a mut W)
        ensures
            ret@ == old(self.w)@ | (1u32 << 9u32),
            *final(ret) == *final(self.w),
    {
        self.w.bits = self.w.bits | (1u32 << 9u32);
        self.w
    }

    /// Clears the bit.
    pub fn clear_bit(self) -> (ret: &'a mut W)
        ensures
            ret@ == old(self.w)@ & !(1u32 << 9u32),
            *final(ret) == *final(self.w),
    {
        self.w.bits = self.w.bits & !(1u32 << 9u32);
        self.w
    }
}

/// Writer of the field `TXBUFE` (at bit 11): 
#[allow(non_camel_case_types)]
pub struct TXBUFE_W<'a> {
    /// The register value being written.
    pub w: &'a mut W,
}

impl<'a> TXBUFE_W<'a> {
    /// Writes the given value to the bit.
    pub fn bit(self, value: bool) -> (ret: &'a mut W)
        ensures
            ret@ == (old(self.w)@ & !(1u32 << 11u32)) | ((if value { 1u32 } else { 0u32 }) << 11u32),
            *final(ret) == *final(self.w),
    {
        self.w.bits = (self.w.bits & !(1u32 << 11u32)) | ((if value { 1u32 } else { 0u32 }) << 11u32);
        self.w
    }

    /// Sets the bit.
    pub fn set_bit(self) -> (ret: &'a mut W)
        ensures
            ret@ == old(self.w)@ | (1u32 << 11u32),
            *final(ret) == *final(self.w),
    {
        self.w.bits = self.w.bits | (1u32 << 11u32);
        self.w
    }

    /// Clears the bit.
    pub fn clear_bit(self) -> (ret: &'a mut W)
        ensures
            ret@ == old(self.w)@ & !(1u32 << 11u32),
            *final(ret) == *final(self.w),
    {
        self.w.bits = self.w.bits & !(1u32 << 11u32);
        self.w
    }
}

/// Writer of the field `RXBUFF` (at bit 12): 
#[allow(non_camel_case_types)]
pub struct RXBUFF_W<'a> {
    /// The register value being written.
    pub w: &'a mut W,
}

impl<'a> RXBUFF_W<'a> {
    /// Writes the given value to the bit.
    pub fn bit(self, value: bool) -> (ret: &'a mut W)
        ensures
            ret@ == (old(self.w)@ & !(1u32 << 12u32)) | ((if value { 1u32 } else { 0u32 }) << 12u32),
            *final(ret) == *final(self.w),
    {
        self.w.bits = (self.w.bits & !(1u32 << 12u32)) | ((if value { 1u32 } else { 0u32 }) << 12u32);
        self.w
    }

    /// Sets the bit.
    pub fn set_bit(self) -> (ret: &'a mut W)
        ensures
            ret@ == old(self.w)@ | (1u32 << 12u32),
            *final(ret) == *final(self.w),
    {
        self.w.bits = self.w.bits | (1u32 << 12u32);
        self.w
    }

    /// Clears the bit.
    pub fn clear_bit(self) -> (ret: &'a mut W)
        ensures
            ret@ == old(self.w)@ & !(1u32 << 12u32),
            *final(ret) == *final(self.w),
    {
        self.w.bits = self.w.bits & !(1u32 << 12u32);
        self.w
    }
}

/// Writer of the field `LINBK` (at bit 13): LIN Break Sent or LIN Break Received Interrupt Enable
#[allow(non_camel_case_types)]
pub struct LINBK_W<'a> {
    /// The register value being written.
    pub w: &'a mut W,
}

impl<'a> LINBK_W<'a> {
    /// Writes the given value to the bit.
    pub fn bit(self, value: bool) -> (ret: &'a mut W)
        ensures
            ret@ == (old(self.w)@ & !(1u32 << 13u32)) | ((if value { 1u32 } else { 0u32 }) << 13u32),
            *final(ret) == *final(self.w),
    {
        self.w.bits = (self.w.bits & !(1u32 << 13u32)) | ((if value { 1u32 } else { 0u32 }) << 13u32);
        self.w
    }

    /// Sets the bit.
    pub fn set_bit(self) -> (ret: &'a mut W)
        ensures
            ret@ == old(self.w)@ | (1u32 << 13u32),
            *final(ret) == *final(self.w),
    {
        self.w.bits = self.w.bits | (1u32 << 13u32);
        self.w
    }

    /// Clears the bit.
    pub fn clear_bit(self) -> (ret: &'a mut W)
        ensures
            ret@ == old(self.w)@ & !(1u32 << 13u32),
            *final(ret) == *final(self.w),
    {
        self.w.bits = self.w.bits & !(1u32 << 13u32);
        self.w
    }
}

/// Writer of the field `LINID` (at bit 14): LIN Identifier Sent or LIN Identifier Received Interrupt Enable
#[allow(non_camel_case_types)]
pub struct LINID_W<'a> {
    /// The register value being written.
    pub w: &'a mut W,
}

impl<'a> LINID_W<'a> {
    /// Writes the given value to the bit.
    pub fn bit(self, value: bool) -> (ret: &'a mut W)
        ensures
            ret@ == (old(self.w)@ & !(1u32 << 14u32)) | ((if value { 1u32 } else { 0u32 }) << 14u32),
            *final(ret) == *final(self.w),
    {
        self.w.bits = (self.w.bits & !(1u32 << 14u32)) | ((if value { 1u32 } else { 0u32 }) << 14u32);
        self.w
    }

    /// Sets the bit.
    pub fn set_bit(self) -> (ret: &'a mut W)
        ensures
            ret@ == old(self.w)@ | (1u32 << 14u32),
            *final(ret) == *final(self.w),
    {
        self.w.bits = self.w.bits | (1u32 << 14u32);
        self.w
    }

    /// Clears the bit.
    pub fn clear_bit(self) -> (ret: &'a mut W)
        ensures
            ret@ == old(self.w)@ & !(1u32 << 14u32),
            *final(ret) == *final(self.w),
    {
        self.w.bits = self.w.bits & !(1u32 << 14u32);
        self.w
    }
}

/// Writer of the field `LINTC` (at bit 15): LIN Transfer Completed Interrupt Enable
#[allow(non_camel_case_types)]
pub struct LINTC_W<'a> {
    /// The register value being written.
    pub w: &'a mut W,
}

impl<'a> LINTC_W<'a> {
    /// Writes the given value to the bit.
    pub fn bit(self, value: bool) -> (ret: &'a mut W)
        ensures
            ret@ == (old(self.w)@ & !(1u32 << 15u32)) | ((if value { 1u32 } else { 0u32 }) << 15u32),
            *final(ret) == *final(self.w),
    {
        self.w.bits = (self.w.bits & !(1u32 << 15u32)) | ((if value { 1u32 } else { 0u32 }) << 15u32);
        self.w
    }

    /// Sets the bit.
    pub fn set_bit(self) -> (ret: &'a mut W)
        ensures
            ret@ == old(self.w)@ | (1u32 << 15u32),
            *final(ret) == *final(self.w),
    {
        self.w.bits = self.w.bits | (1u32 << 15u32);
        self.w
    }

    /// Clears the bit.
    pub fn clear_bit(self) -> (ret: &'a mut W)
        ensures
            ret@ == old(self.w)@ & !(1u32 << 15u32),
            *final(ret) == *final(self.w),
    {
        self.w.bits = self.w.bits & !(1u32 << 15u32);
        self.w
    }
}

/// Writer of the field `LINBE` (at bit 25): LIN Bus Error Interrupt Enable
#[allow(non_camel_case_types)]
pub struct LINBE_W<'a> {
    /// The register value being written.
    pub w: &'a mut W,
}

impl<'a> LINBE_W<'a> {
    /// Writes the given value to the bit.
    pub fn bit(self, value: bool) -> (ret: &'a mut W)
        ensures
            ret@ == (old(self.w)@ & !(1u32 << 25u32)) | ((if value { 1u32 } else { 0u32 }) << 25u32),
            *final(ret) == *final(self.w),
    {
        self.w.bits = (self.w.bits & !(1u32 << 25u32)) | ((if value { 1u32 } else { 0u32 }) << 25u32);
        self.w
    }

    /// Sets the bit.
    pub fn set_bit(self) -> (ret: &'a mut W)
        ensures
            ret@ == old(self.w)@ | (1u32 << 25u32),
            *final(ret) == *final(self.w),
    {
        self.w.bits = self.w.bits | (1u32 << 25u32);
        self.w
    }

    /// Clears the bit.
    pub fn clear_bit(self) -> (ret: &'a mut W)
        ensures
            ret@ == old(self.w)@ & !(1u32 << 25u32),
            *final(ret) == *final(self.w),
    {
        self.w.bits = self.w.bits & !(1u32 << 25u32);
        self.w
    }
}

/// Writer of the field `LINISFE` (at bit 26): LIN Inconsistent Synch Field Error Interrupt Enable
#[allow(non_camel_case_types)]
pub struct LINISFE_W<'a> {
    /// The register value being written.
    pub w: &'a mut W,
}

impl<'a> LINISFE_W<'a> {
    /// Writes the given value to the bit.
    pub fn bit(self, value: bool) -> (ret: &'a mut W)
        ensures
            ret@ == (old(self.w)@ & !(1u32 << 26u32)) | ((if value { 1u32 } else { 0u32 }) << 26u32),
            *final(ret) == *final(self.w),
    {
        self.w.bits = (self.w.bits & !(1u32 << 26u32)) | ((if value { 1u32 } else { 0u32 }) << 26u32);
        self.w
    }

    /// Sets the bit.
    pub fn set_bit(self) -> (ret: &'a mut W)
        ensures
            ret@ == old(self.w)@ | (1u32 << 26u32),
            *final(ret) == *final(self.w),
    {
        self.w.bits = self.w.bits | (1u32 << 26u32);
        self.w
    }

    /// Clears the bit.
    pub fn clear_bit(self) -> (ret: &'a mut W)
        ensures
            ret@ == old(self.w)@ & !(1u32 << 26u32),
            *final(ret) == *final(self.w),
    {
        self.w.bits = self.w.bits & !(1u32 << 26u32);
        self.w
    }
}

/// Writer of the field `LINIPE` (at bit 27): LIN Identifier Parity Interrupt Enable
#[allow(non_camel_case_types)]
pub struct LINIPE_W<'a> {
    /// The register value being written.
    pub w: &'a mut W,
}

impl<'a> LINIPE_W<'a> {
    /// Writes the given value to the bit.
    pub fn bit(self, value: bool) -> (ret: &'a mut W)
        ensures
            ret@ == (old(self.w)@ & !(1u32 << 27u32)) | ((if value { 1u32 } else { 0u32 }) << 27u32),
            *final(ret) == *final(self.w),
    {
        self.w.bits = (self.w.bits & !(1u32 << 27u32)) | ((if value { 1u32 } else { 0u32 }) << 27u32);
        self.w
    }

    /// Sets the bit.
    pub fn set_bit(self) -> (ret: &'a mut W)
        ensures
            ret@ == old(self.w)@ | (1u32 << 27u32),
            *final(ret) == *final(self.w),
    {
        self.w.bits = self.w.bits | (1u32 << 27u32);
        self.w
    }

    /// Clears the bit.
    pub fn clear_bit(self) -> (ret: &'a mut W)
        ensures
            ret@ == old(self.w)@ & !(1u32 << 27u32),
            *final(ret) == *final(self.w),
    {
        self.w.bits = self.w.bits & !(1u32 << 27u32);
        self.w
    }
}

/// Writer of the field `LINCE` (at bit 28): LIN Checksum Error Interrupt Enable
#[allow(non_camel_case_types)]
pub struct LINCE_W<'a> {
    /// The register value being written.
    pub w: &'a mut W,
}

impl<'a> LINCE_W<'a> {
    /// Writes the given value to the bit.
    pub fn bit(self, value: bool) -> (ret: &'a mut W)
        ensures
            ret@ == (old(self.w)@ & !(1u32 << 28u32)) | ((if value { 1u32 } else { 0u32 }) << 28u32),
            *final(ret) == *final(self.w),
    {
        self.w.bits = (self.w.bits & !(1u32 << 28u32)) | ((if value { 1u32 } else { 0u32 }) << 28u32);
        self.w
    }

    /// Sets the bit.
    pub fn set_bit(self) -> (ret: &'a mut W)
        ensures
            ret@ == old(self.w)@ | (1u32 << 28u32),
            *final(ret) == *final(self.w),
    {
        self.w.bits = self.w.bits | (1u32 << 28u32);
        self.w
    }

    /// Clears the bit.
    pub fn clear_bit(self) -> (ret: &'a mut W)
        ensures
            ret@ == old(self.w)@ & !(1u32 << 28u32),
            *final(ret) == *final(self.w),
    {
        self.w.bits = self.w.bits & !(1u32 << 28u32);
        self.w
    }
}

/// Writer of the field `LINSNRE` (at bit 29): LIN Slave Not Responding Error Interrupt Enable
#[allow(non_camel_case_types)]
pub struct LINSNRE_W<'a> {
    /// The register value being written.
    pub w: &'a mut W,
}

impl<'a> LINSNRE_W<'a> {
    /// Writes the given value to the bit.
    pub fn bit(self, value: bool) -> (ret: &'a mut W)
        ensures
            ret@ == (old(self.w)@ & !(1u32 << 29u32)) | ((if value { 1u32 } else { 0u32 }) << 29u32),
            *final(ret) == *final(self.w),
    {
        self.w.bits = (self.w.bits & !(1u32 << 29u32)) | ((if value { 1u32 } else { 0u32 }) << 29u32);
        self.w
    }

    /// Sets the bit.
    pub fn set_bit(self) -> (ret: &'a mut W)
        ensures
            ret@ == old(self.w)@ | (1u32 << 29u32),
            *final(ret) == *final(self.w),
    {
        self.w.bits = self.w.bits | (1u32 << 29u32);
        self.w
    }

    /// Clears the bit.
    pub fn clear_bit(self) -> (ret: &'a mut W)
        ensures
            ret@ == old(self.w)@ & !(1u32 << 29u32),
            *final(ret) == *final(self.w),
    {
        self.w.bits = self.w.bits & !(1u32 << 29u32);
        self.w
    }
}

impl W {
    /// Bit 0 - RXRDY Interrupt Enable
    pub fn rxrdy(&mut self) -> (ret: RXRDY_W<'_>)
        ensures
            *ret.w == *old(self),
            *final(ret.w) == *final(self),
    {
        RXRDY_W { w: self }
    }

    /// Bit 1 - TXRDY Interrupt Enable
    pub fn txrdy(&mut self) -> (ret: TXRDY_W<'_>)
        ensures
            *ret.w == *old(self),
            *final(ret.w) == *final(self),
    {
        TXRDY_W { w: self }
    }

    /// Bit 3
    pub fn endrx(&mut self) -> (ret: ENDRX_W<'_>)
        ensures
            *ret.w == *old(self),
            *final(ret.w) == *final(self),
    {
        ENDRX_W { w: self }
    }

    /// Bit 4
    pub fn endtx(&mut self) -> (ret: ENDTX_W<'_>)
        ensures
            *ret.w == *old(self),
            *final(ret.w) == *final(self),
    {
        ENDTX_W { w: self }
    }

    /// Bit 5 - Overrun Error Interrupt Enable
    pub fn ovre(&mut self) -> (ret: OVRE_W<'_>)
        ensures
            *ret.w == *old(self),
            *final(ret.w) == *final(self),
    {
        OVRE_W { w: self }
    }

    /// Bit 6 - Framing Error Interrupt Enable
    pub fn frame(&mut self) -> (ret: FRAME_W<'_>)
        ensures
            *ret.w == *old(self),
            *final(ret.w) == *final(self),
    {
        FRAME_W { w: self }
    }

    /// Bit 7 - Parity Error Interrupt Enable
    pub fn pare(&mut self) -> (ret: PARE_W<'_>)
        ensures
            *ret.w == *old(self),
            *final(ret.w) == *final(self),
    {
        PARE_W { w: self }
    }

    /// Bit 8 - Time-out Interrupt Enable
    pub fn timeout(&mut self) -> (ret: TIMEOUT_W<'_>)
        ensures
            *ret.w == *old(self),
            *final(ret.w) == *final(self),
    {
        TIMEOUT_W { w: self }
    }

    /// Bit 9 - TXEMPTY Interrupt Enable
    pub fn txempty(&mut self) -> (ret: TXEMPTY_W<'_>)
        ensures
            *ret.w == *old(self),
            *final(ret.w) == *final(self),
    {
        TXEMPTY_W { w: self }
    }

    /// Bit 11
    pub fn txbufe(&mut self) -> (ret: TXBUFE_W<'_>)
        ensures
            *ret.w == *old(self),
            *final(ret.w) == *final(self),
    {
        TXBUFE_W { w: self }
    }

    /// Bit 12
    pub fn rxbuff(&mut self) -> (ret: RXBUFF_W<'_>)
        ensures
            *ret.w == *old(self),
            *final(ret.w) == *final(self),
    {
        RXBUFF_W { w: self }
    }

    /// Bit 13 - LIN Break Sent or LIN Break Received Interrupt Enable
    pub fn linbk(&mut self) -> (ret: LINBK_W<'_>)
        ensures
            *ret.w == *old(self),
            *final(ret.w) == *final(self),
    {
        LINBK_W { w: self }
    }

    /// Bit 14 - LIN Identifier Sent or LIN Identifier Received Interrupt Enable
    pub fn linid(&mut self) -> (ret: LINID_W<'_>)
        ensures
            *ret.w == *old(self),
            *final(ret.w) == *final(self),
    {
        LINID_W { w: self }
    }

    /// Bit 15 - LIN Transfer Completed Interrupt Enable
    pub fn lintc(&mut self) -> (ret: LINTC_W<'_>)
        ensures
            *ret.w == *old(self),
            *final(ret.w) == *final(self),
    {
        LINTC_W { w: self }
    }

    /// Bit 25 - LIN Bus Error Interrupt Enable
    pub fn linbe(&mut self) -> (ret: LINBE_W<'_>)
        ensures
            *ret.w == *old(self),
            *final(ret.w) == *final(self),
    {
        LINBE_W { w: self }
    }

    /// Bit 26 - LIN Inconsistent Synch Field Error Interrupt Enable
    pub fn linisfe(&mut self) -> (ret: LINISFE_W<'_>)
        ensures
            *ret.w == *old(self),
            *final(ret.w) == *final(self),
    {
        LINISFE_W { w: self }
    }

    /// Bit 27 - LIN Identifier Parity Interrupt Enable
    pub fn linipe(&mut self) -> (ret: LINIPE_W<'_>)
        ensures
            *ret.w == *old(self),
            *final(ret.w) == *final(self),
    {
        LINIPE_W { w: self }
    }

    /// Bit 28 - LIN Checksum Error Interrupt Enable
    pub fn lince(&mut self) -> (ret: LINCE_W<'_>)
        ensures
            *ret.w == *old(self),
            *final(ret.w) == *final(self),
    {
        LINCE_W { w: self }
    }

    /// Bit 29 - LIN Slave Not Responding Error Interrupt Enable
    pub fn linsnre(&mut self) -> (ret: LINSNRE_W<'_>)
        ensures
            *ret.w == *old(self),
            *final(ret.w) == *final(self),
    {
        LINSNRE_W { w: self }
    }

    /// Writes raw bits to the register.
    pub fn bits(&mut self, bits: u32) -> (ret: &mut Self)
        ensures
            ret@ == bits,
            *final(ret) == *final(self),
    {
        self.bits = bits;
        self
    }
}

/// Interrupt Enable Register.
#[allow(non_camel_case_types)]
pub struct LIN_MODE_IER_LIN_MODE_SPEC;

impl Resettable for LIN_MODE_IER_LIN_MODE_SPEC {
    open spec fn reset_spec() -> u32 {
        0
    }

    fn reset_value() -> (ret: u32) {
        0
    }
}

} // verus!
