//! SMC Mode Register (CS_number = 4).

use vstd::prelude::*;
use crate::registers::Resettable;

verus! {

/// The value read from the register.
#[derive(Clone, Copy, Debug, PartialEq, Eq, Structural)]
pub struct R {
    bits: u32,
}

impl View for R {
    type V = u32;

    closed spec fn view(&self) -> u32 {
        self.bits
    }
}

impl From<u32> for R {
    fn from(bits: u32) -> (ret: R)
        ensures
            ret@ == bits,
    {
        R { bits }
    }
}

impl vstd::std_specs::convert::FromSpecImpl<u32> for R {
    open spec fn obeys_from_spec() -> bool {
        true
    }

    closed spec fn from_spec(v: u32) -> R {
        R { bits: v }
    }
}

/// The value being written to the register.
#[derive(Clone, Copy, Debug, PartialEq, Eq, Structural)]
pub struct W {
    bits: u32,
}

impl View for W {
    type V = u32;

    closed spec fn view(&self) -> u32 {
        self.bits
    }
}

impl From<u32> for W {
    fn from(bits: u32) -> (ret: W)
        ensures
            ret@ == bits,
    {
        W { bits }
    }
}

impl vstd::std_specs::convert::FromSpecImpl<u32> for W {
    open spec fn obeys_from_spec() -> bool {
        true
    }

    closed spec fn from_spec(v: u32) -> W {
        W { bits: v }
    }
}

impl From<W> for u32 {
    fn from(w: W) -> (ret: u32)
        ensures
            ret == w@,
    {
        w.bits
    }
}

impl vstd::std_specs::convert::FromSpecImpl<W> for u32 {
    open spec fn obeys_from_spec() -> bool {
        true
    }

    open spec fn from_spec(v: W) -> u32 {
        v@
    }
}

/// Selection of the Control Signal for Read Operation
#[allow(non_camel_case_types)]
#[derive(Clone, Copy, Debug, PartialEq, Eq, Structural)]
pub enum READ_MODE_A {
    /// 0: The Read operation is controlled by the NCS signal.
    NCS_CTRL,
    /// 1: The Read operation is controlled by the NRD signal.
    NRD_CTRL,
}

impl READ_MODE_A {
    /// The field value of this variant.
    pub open spec fn value_spec(self) -> bool {
        match self {
            READ_MODE_A::NCS_CTRL => false,
            READ_MODE_A::NRD_CTRL => true,
        }
    }
}

impl From<READ_MODE_A> for bool {
    fn from(variant: READ_MODE_A) -> (ret: bool)
        ensures
            ret == variant.value_spec(),
    {
        match variant {
            READ_MODE_A::NCS_CTRL => false,
            READ_MODE_A::NRD_CTRL => true,
        }
    }
}

impl vstd::std_specs::convert::FromSpecImpl<READ_MODE_A> for bool {
    open spec fn obeys_from_spec() -> bool {
        true
    }

    open spec fn from_spec(v: READ_MODE_A) -> bool {
        v.value_spec()
    }
}

/// Reader of the field `READ_MODE`: Selection of the Control Signal for Read Operation
#[allow(non_camel_case_types)]
#[derive(Clone, Copy, Debug, PartialEq, Eq, Structural)]
pub struct READ_MODE_R {
    bits: bool,
}

impl View for READ_MODE_R {
    type V = bool;

    closed spec fn view(&self) -> bool {
        self.bits
    }
}

impl READ_MODE_R {
    /// A reader that holds the given field value.
    pub fn new(bits: bool) -> (ret: Self)
        ensures
            ret@ == bits,
    {
        READ_MODE_R { bits }
    }

    /// The value of the bit.
    pub fn bit(&self) -> (ret: bool)
        ensures
            ret == self@,
    {
        self.bits
    }

    /// Whether the bit is set.
    pub fn bit_is_set(&self) -> (ret: bool)
        ensures
            ret == self@,
    {
        self.bits
    }

    /// Whether the bit is clear.
    pub fn bit_is_clear(&self) -> (ret: bool)
        ensures
            ret == !self@,
    {
        !self.bits
    }

    /// The variant that the field value stands for.
    pub fn variant(&self) -> (ret: READ_MODE_A)
        ensures
            ret.value_spec() == self@,
    {
        match self.bits {
            false => READ_MODE_A::NCS_CTRL,
            true => READ_MODE_A::NRD_CTRL,
        }
    }

    /// Checks if the value of the field is `NCS_CTRL`.
    pub fn is_ncs_ctrl(&self) -> (ret: bool)
        ensures
            ret == (self@ == false),
    {
        self.bits == false
    }

    /// Checks if the value of the field is `NRD_CTRL`.
    pub fn is_nrd_ctrl(&self) -> (ret: bool)
        ensures
            ret == (self@ == true),
    {
        self.bits == true
    }
}

/// Selection of the Control Signal for Write Operation
#[allow(non_camel_case_types)]
#[derive(Clone, Copy, Debug, PartialEq, Eq, Structural)]
pub enum WRITE_MODE_A {
    /// 0: The Write operation is controller by the NCS signal.
    NCS_CTRL,
    /// 1: The Write operation is controlled by the NWE signal.
    NWE_CTRL,
}

impl WRITE_MODE_A {
    /// The field value of this variant.
    pub open spec fn value_spec(self) -> bool {
        match self {
            WRITE_MODE_A::NCS_CTRL => false,
            WRITE_MODE_A::NWE_CTRL => true,
        }
    }
}

impl From<WRITE_MODE_A> for bool {
    fn from(variant: WRITE_MODE_A) -> (ret: bool)
        ensures
            ret == variant.value_spec(),
    {
        match variant {
            WRITE_MODE_A::NCS_CTRL => false,
            WRITE_MODE_A::NWE_CTRL => true,
        }
    }
}

impl vstd::std_specs::convert::FromSpecImpl<WRITE_MODE_A> for bool {
    open spec fn obeys_from_spec() -> bool {
        true
    }

    open spec fn from_spec(v: WRITE_MODE_A) -> bool {
        v.value_spec()
    }
}

/// Reader of the field `WRITE_MODE`: Selection of the Control Signal for Write Operation
#[allow(non_camel_case_types)]
#[derive(Clone, Copy, Debug, PartialEq, Eq, Structural)]
pub struct WRITE_MODE_R {
    bits: bool,
}

impl View for WRITE_MODE_R {
    type V = bool;

    closed spec fn view(&self) -> bool {
        self.bits
    }
}

impl WRITE_MODE_R {
    /// A reader that holds the given field value.
    pub fn new(bits: bool) -> (ret: Self)
        ensures
            ret@ == bits,
    {
        WRITE_MODE_R { bits }
    }

    /// The value of the bit.
    pub fn bit(&self) -> (ret: bool)
        ensures
            ret == self@,
    {
        self.bits
    }

    /// Whether the bit is set.
    pub fn bit_is_set(&self) -> (ret: bool)
        ensures
            ret == self@,
    {
        self.bits
    }

    /// Whether the bit is clear.
    pub fn bit_is_clear(&self) -> (ret: bool)
        ensures
            ret == !self@,
    {
        !self.bits
    }

    /// The variant that the field value stands for.
    pub fn variant(&self) -> (ret: WRITE_MODE_A)
        ensures
            ret.value_spec() == self@,
    {
        match self.bits {
            false => WRITE_MODE_A::NCS_CTRL,
            true => WRITE_MODE_A::NWE_CTRL,
        }
    }

    /// Checks if the value of the field is `NCS_CTRL`.
    pub fn is_ncs_ctrl(&self) -> (ret: bool)
        ensures
            ret == (self@ == false),
    {
        self.bits == false
    }

    /// Checks if the value of the field is `NWE_CTRL`.
    pub fn is_nwe_ctrl(&self) -> (ret: bool)
        ensures
            ret == (self@ == true),
    {
        self.bits == true
    }
}

/// NWAIT Mode
#[allow(non_camel_case_types)]
#[derive(Clone, Copy, Debug, PartialEq, Eq, Structural)]
pub enum EXNW_MODE_A {
    /// 0: Disabled
    DISABLED,
    /// 2: Frozen Mode
    FROZEN,
    /// 3: Ready Mode
    READY,
}

impl EXNW_MODE_A {
    /// The field value of this variant.
    pub open spec fn value_spec(self) -> u8 {
        match self {
            EXNW_MODE_A::DISABLED => 0u8,
            EXNW_MODE_A::FROZEN => 2u8,
            EXNW_MODE_A::READY => 3u8,
        }
    }
}

impl From<EXNW_MODE_A> for u8 {
    fn from(variant: EXNW_MODE_A) -> (ret: u8)
        ensures
            ret == variant.value_spec(),
    {
        match variant {
            EXNW_MODE_A::DISABLED => 0,
            EXNW_MODE_A::FROZEN => 2,
            EXNW_MODE_A::READY => 3,
        }
    }
}

impl vstd::std_specs::convert::FromSpecImpl<EXNW_MODE_A> for u8 {
    open spec fn obeys_from_spec() -> bool {
        true
    }

    open spec fn from_spec(v: EXNW_MODE_A) -> u8 {
        v.value_spec()
    }
}

/// Reader of the field `EXNW_MODE`: NWAIT Mode
#[allow(non_camel_case_types)]
#[derive(Clone, Copy, Debug, PartialEq, Eq, Structural)]
pub struct EXNW_MODE_R {
    bits: u8,
}

impl View for EXNW_MODE_R {
    type V = u8;

    closed spec fn view(&self) -> u8 {
        self.bits
    }
}

impl EXNW_MODE_R {
    /// A reader that holds the given field value.
    pub fn new(bits: u8) -> (ret: Self)
        ensures
            ret@ == bits,
    {
        EXNW_MODE_R { bits }
    }

    /// The value of the field.
    pub fn bits(&self) -> (ret: u8)
        ensures
            ret == self@,
    {
        self.bits
    }

    /// The variant that the field value stands for, if any.
    pub fn variant(&self) -> (ret: Option<EXNW_MODE_A>)
        ensures
            ret matches Some(v) ==> v.value_spec() == self@,
            ret is None ==> self@ != 0 && self@ != 2 && self@ != 3,
    {
        match self.bits {
            0 => Some(EXNW_MODE_A::DISABLED),
            2 => Some(EXNW_MODE_A::FROZEN),
            3 => Some(EXNW_MODE_A::READY),
            _ => None,
        }
    }

    /// Checks if the value of the field is `DISABLED`.
    pub fn is_disabled(&self) -> (ret: bool)
        ensures
            ret == (self@ == 0),
    {
        self.bits == 0
    }

    /// Checks if the value of the field is `FROZEN`.
    pub fn is_frozen(&self) -> (ret: bool)
        ensures
            ret == (self@ == 2),
    {
        self.bits == 2
    }

    /// Checks if the value of the field is `READY`.
    pub fn is_ready(&self) -> (ret: bool)
        ensures
            ret == (self@ == 3),
    {
        self.bits == 3
    }
}

/// Reader of the field `BAT`: Byte Access Type
#[allow(non_camel_case_types)]
#[derive(Clone, Copy, Debug, PartialEq, Eq, Structural)]
pub struct BAT_R {
    bits: bool,
}

impl View for BAT_R {
    type V = bool;

    closed spec fn view(&self) -> bool {
        self.bits
    }
}

impl BAT_R {
    /// A reader that holds the given field value.
    pub fn new(bits: bool) -> (ret: Self)
        ensures
            ret@ == bits,
    {
        BAT_R { bits }
    }

    /// The value of the bit.
    pub fn bit(&self) -> (ret: bool)
        ensures
            ret == self@,
    {
        self.bits
    }

    /// Whether the bit is set.
    pub fn bit_is_set(&self) -> (ret: bool)
        ensures
            ret == self@,
    {
        self.bits
    }

    /// Whether the bit is clear.
    pub fn bit_is_clear(&self) -> (ret: bool)
        ensures
            ret == !self@,
    {
        !self.bits
    }
}

/// Data Bus Width
#[allow(non_camel_case_types)]
#[derive(Clone, Copy, Debug, PartialEq, Eq, Structural)]
pub enum DBW_A {
    /// 0: 8-bit bus
    BIT_8,
    /// 1: 16-bit bus
    BIT_16,
}

impl DBW_A {
    /// The field value of this variant.
    pub open spec fn value_spec(self) -> bool {
        match self {
            DBW_A::BIT_8 => false,
            DBW_A::BIT_16 => true,
        }
    }
}

impl From<DBW_A> for bool {
    fn from(variant: DBW_A) -> (ret: bool)
        ensures
            ret == variant.value_spec(),
    {
        match variant {
            DBW_A::BIT_8 => false,
            DBW_A::BIT_16 => true,
        }
    }
}

impl vstd::std_specs::convert::FromSpecImpl<DBW_A> for bool {
    open spec fn obeys_from_spec() -> bool {
        true
    }

    open spec fn from_spec(v: DBW_A) -> bool {
        v.value_spec()
    }
}

/// Reader of the field `DBW`: Data Bus Width
#[allow(non_camel_case_types)]
#[derive(Clone, Copy, Debug, PartialEq, Eq, Structural)]
pub struct DBW_R {
    bits: bool,
}

impl View for DBW_R {
    type V = bool;

    closed spec fn view(&self) -> bool {
        self.bits
    }
}

impl DBW_R {
    /// A reader that holds the given field value.
    pub fn new(bits: bool) -> (ret: Self)
        ensures
            ret@ == bits,
    {
        DBW_R { bits }
    }

    /// The value of the bit.
    pub fn bit(&self) -> (ret: bool)
        ensures
            ret == self@,
    {
        self.bits
    }

    /// Whether the bit is set.
    pub fn bit_is_set(&self) -> (ret: bool)
        ensures
            ret == self@,
    {
        self.bits
    }

    /// Whether the bit is clear.
    pub fn bit_is_clear(&self) -> (ret: bool)
        ensures
            ret == !self@,
    {
        !self.bits
    }

    /// The variant that the field value stands for.
    pub fn variant(&self) -> (ret: DBW_A)
        ensures
            ret.value_spec() == self@,
    {
        match self.bits {
            false => DBW_A::BIT_8,
            true => DBW_A::BIT_16,
        }
    }

    /// Checks if the value of the field is `BIT_8`.
    pub fn is_bit_8(&self) -> (ret: bool)
        ensures
            ret == (self@ == false),
    {
        self.bits == false
    }

    /// Checks if the value of the field is `BIT_16`.
    pub fn is_bit_16(&self) -> (ret: bool)
        ensures
            ret == (self@ == true),
    {
        self.bits == true
    }
}

/// Reader of the field `TDF_CYCLES`: Data Float Time
#[allow(non_camel_case_types)]
#[derive(Clone, Copy, Debug, PartialEq, Eq, Structural)]
pub struct TDF_CYCLES_R {
    bits: u8,
}

impl View for TDF_CYCLES_R {
    type V = u8;

    closed spec fn view(&self) -> u8 {
        self.bits
    }
}

impl TDF_CYCLES_R {
    /// A reader that holds the given field value.
    pub fn new(bits: u8) -> (ret: Self)
        ensures
            ret@ == bits,
    {
        TDF_CYCLES_R { bits }
    }

    /// The value of the field.
    pub fn bits(&self) -> (ret: u8)
        ensures
            ret == self@,
    {
        self.bits
    }
}

/// Reader of the field `TDF_MODE`: TDF Optimization
#[allow(non_camel_case_types)]
#[derive(Clone, Copy, Debug, PartialEq, Eq, Structural)]
pub struct TDF_MODE_R {
    bits: bool,
}

impl View for TDF_MODE_R {
    type V = bool;

    closed spec fn view(&self) -> bool {
        self.bits
    }
}

impl TDF_MODE_R {
    /// A reader that holds the given field value.
    pub fn new(bits: bool) -> (ret: Self)
        ensures
            ret@ == bits,
    {
        TDF_MODE_R { bits }
    }

    /// The value of the bit.
    pub fn bit(&self) -> (ret: bool)
        ensures
            ret == self@,
    {
        self.bits
    }

    /// Whether the bit is set.
    pub fn bit_is_set(&self) -> (ret: bool)
        ensures
            ret == self@,
    {
        self.bits
    }

    /// Whether the bit is clear.
    pub fn bit_is_clear(&self) -> (ret: bool)
        ensures
            ret == !self@,
    {
        !self.bits
    }
}

/// Writer of the field `READ_MODE` (at bit 0): Selection of the Control Signal for Read Operation
#[allow(non_camel_case_types)]
pub struct READ_MODE_W<'a> {
    /// The register value being written.
    pub w: &'a mut W,
}

impl<'a> READ_MODE_W<'a> {
    /// Writes the given value to the bit.
    pub fn bit(self, value: bool) -> (ret: &'a mut W)
        ensures
            ret@ == (old(self.w)@ & !(1u32 << 0u32)) | ((if value { 1u32 } else { 0u32 }) << 0u32),
            *final(ret) == *final(self.w),
    {
        self.w.bits = (self.w.bits & !(1u32 << 0u32)) | ((if value { 1u32 } else { 0u32 }) << 0u32);
        self.w
    }

    /// Sets the bit.
    pub fn set_bit(self) -> (ret: &'a mut W)
        ensures
            ret@ == old(self.w)@ | (1u32 << 0u32),
            *final(ret) == *final(self.w),
    {
        self.w.bits = self.w.bits | (1u32 << 0u32);
        self.w
    }

    /// Clears the bit.
    pub fn clear_bit(self) -> (ret: &'a mut W)
        ensures
            ret@ == old(self.w)@ & !(1u32 << 0u32),
            *final(ret) == *final(self.w),
    {
        self.w.bits = self.w.bits & !(1u32 << 0u32);
        self.w
    }

    /// Writes the value of the given variant to the bit.
    pub fn variant(self, variant: READ_MODE_A) -> (ret: &'a mut W)
        ensures
            ret@ == (old(self.w)@ & !(1u32 << 0u32)) | ((if variant.value_spec() { 1u32 } else { 0u32 }) << 0u32),
            *final(ret) == *final(self.w),
    {
        self.bit(bool::from(variant))
    }

    /// The Read operation is controlled by the NCS signal.
    pub fn ncs_ctrl(self) -> (ret: &'a mut W)
        ensures
            ret@ == (old(self.w)@ & !(1u32 << 0u32)) | (0u32 << 0u32),
            *final(ret) == *final(self.w),
    {
        self.variant(READ_MODE_A::NCS_CTRL)
    }

    /// The Read operation is controlled by the NRD signal.
    pub fn nrd_ctrl(self) -> (ret: &'a mut W)
        ensures
            ret@ == (old(self.w)@ & !(1u32 << 0u32)) | (1u32 << 0u32),
            *final(ret) == *final(self.w),
    {
        self.variant(READ_MODE_A::NRD_CTRL)
    }
}

/// Writer of the field `WRITE_MODE` (at bit 1): Selection of the Control Signal for Write Operation
#[allow(non_camel_case_types)]
pub struct WRITE_MODE_W<'a> {
    /// The register value being written.
    pub w: &'a mut W,
}

impl<'a> WRITE_MODE_W<'a> {
    /// Writes the given value to the bit.
    pub fn bit(self, value: bool) -> (ret: &'a mut W)
        ensures
            ret@ == (old(self.w)@ & !(1u32 << 1u32)) | ((if value { 1u32 } else { 0u32 }) << 1u32),
            *final(ret) == *final(self.w),
    {
        self.w.bits = (self.w.bits & !(1u32 << 1u32)) | ((if value { 1u32 } else { 0u32 }) << 1u32);
        self.w
    }

    /// Sets the bit.
    pub fn set_bit(self) -> (ret: &'a mut W)
        ensures
            ret@ == old(self.w)@ | (1u32 << 1u32),
            *final(ret) == *final(self.w),
    {
        self.w.bits = self.w.bits | (1u32 << 1u32);
        self.w
    }

    /// Clears the bit.
    pub fn clear_bit(self) -> (ret: &'a mut W)
        ensures
            ret@ == old(self.w)@ & !(1u32 << 1u32),
            *final(ret) == *final(self.w),
    {
        self.w.bits = self.w.bits & !(1u32 << 1u32);
        self.w
    }

    /// Writes the value of the given variant to the bit.
    pub fn variant(self, variant: WRITE_MODE_A) -> (ret: &'a mut W)
        ensures
            ret@ == (old(self.w)@ & !(1u32 << 1u32)) | ((if variant.value_spec() { 1u32 } else { 0u32 }) << 1u32),
            *final(ret) == *final(self.w),
    {
        self.bit(bool::from(variant))
    }

    /// The Write operation is controller by the NCS signal.
    pub fn ncs_ctrl(self) -> (ret: &'a mut W)
        ensures
            ret@ == (old(self.w)@ & !(1u32 << 1u32)) | (0u32 << 1u32),
            *final(ret) == *final(self.w),
    {
        self.variant(WRITE_MODE_A::NCS_CTRL)
    }

    /// The Write operation is controlled by the NWE signal.
    pub fn nwe_ctrl(self) -> (ret: &'a mut W)
        ensures
            ret@ == (old(self.w)@ & !(1u32 << 1u32)) | (1u32 << 1u32),
            *final(ret) == *final(self.w),
    {
        self.variant(WRITE_MODE_A::NWE_CTRL)
    }
}

/// Writer of the field `EXNW_MODE` (at bit 4): NWAIT Mode
#[allow(non_camel_case_types)]
pub struct EXNW_MODE_W<'a> {
    /// The register value being written.
    pub w: &'a mut W,
}

impl<'a> EXNW_MODE_W<'a> {
    /// Writes the low bits of the given value to the field.
    pub fn bits(self, value: u8) -> (ret: &'a mut W)
        ensures
            ret@ == (old(self.w)@ & !(0x3u32 << 4u32)) | (((value as u32) & 0x3u32) << 4u32),
            *final(ret) == *final(self.w),
    {
        self.w.bits = (self.w.bits & !(0x3u32 << 4u32)) | (((value as u32) & 0x3u32) << 4u32);
        self.w
    }

    /// Writes the value of the given variant to the field.
    pub fn variant(self, variant: EXNW_MODE_A) -> (ret: &'a mut W)
        ensures
            ret@ == (old(self.w)@ & !(0x3u32 << 4u32)) | (((variant.value_spec() as u32) & 0x3u32) << 4u32),
            *final(ret) == *final(self.w),
    {
        self.bits(u8::from(variant))
    }

    /// Disabled
    pub fn disabled(self) -> (ret: &'a mut W)
        ensures
            ret@ == (old(self.w)@ & !(0x3u32 << 4u32)) | ((0u32 & 0x3u32) << 4u32),
            *final(ret) == *final(self.w),
    {
        self.variant(EXNW_MODE_A::DISABLED)
    }

    /// Frozen Mode
    pub fn frozen(self) -> (ret: &'a mut W)
        ensures
            ret@ == (old(self.w)@ & !(0x3u32 << 4u32)) | ((2u32 & 0x3u32) << 4u32),
            *final(ret) == *final(self.w),
    {
        self.variant(EXNW_MODE_A::FROZEN)
    }

    /// Ready Mode
    pub fn ready(self) -> (ret: &'a mut W)
        ensures
            ret@ == (old(self.w)@ & !(0x3u32 << 4u32)) | ((3u32 & 0x3u32) << 4u32),
            *final(ret) == *final(self.w),
    {
        self.variant(EXNW_MODE_A::READY)
    }
}

/// Writer of the field `BAT` (at bit 8): Byte Access Type
#[allow(non_camel_case_types)]
pub struct BAT_W<'a> {
    /// The register value being written.
    pub w: &'a mut W,
}

impl<'a> BAT_W<'a> {
    /// Writes the given value to the bit.
    pub fn bit(self, value: bool) -> (ret: &'a mut W)
        ensures
            ret@ == (old(self.w)@ & !(1u32 << 8u32)) | ((if value { 1u32 } else { 0u32 }) << 8u32),
            *final(ret) == *final(self.w),
    {
        self.w.bits = (self.w.bits & !(1u32 << 8u32)) | ((if value { 1u32 } else { 0u32 }) << 8u32);
        self.w
    }

    /// Sets the bit.
    pub fn set_bit(self) -> (ret: &'a mut W)
        ensures
            ret@ == old(self.w)@ | (1u32 << 8u32),
            *final(ret) == *final(self.w),
    {
        self.w.bits = self.w.bits | (1u32 << 8u32);
        self.w
    }

    /// Clears the bit.
    pub fn clear_bit(self) -> (ret: &'a mut W)
        ensures
            ret@ == old(self.w)@ & !(1u32 << 8u32),
            *final(ret) == *final(self.w),
    {
        self.w.bits = self.w.bits & !(1u32 << 8u32);
        self.w
    }
}

/// Writer of the field `DBW` (at bit 12): Data Bus Width
#[allow(non_camel_case_types)]
pub struct DBW_W<'a> {
    /// The register value being written.
    pub w: &'a mut W,
}

impl<'a> DBW_W<'a> {
    /// Writes the given value to the bit.
    pub fn bit(self, value: bool) -> (ret: &'a mut W)
        ensures
            ret@ == (old(self.w)@ & !(1u32 << 12u32)) | ((if value { 1u32 } else { 0u32 }) << 12u32),
            *final(ret) == *final(self.w),
    {
        self.w.bits = (self.w.bits & !(1u32 << 12u32)) | ((if value { 1u32 } else { 0u32 }) << 12u32);
        self.w
    }

    /// Sets the bit.
    pub fn set_bit(self) -> (ret: &'a mut W)
        ensures
            ret@ == old(self.w)@ | (1u32 << 12u32),
            *final(ret) == *final(self.w),
    {
        self.w.bits = self.w.bits | (1u32 << 12u32);
        self.w
    }

    /// Clears the bit.
    pub fn clear_bit(self) -> (ret: &'a mut W)
        ensures
            ret@ == old(self.w)@ & !(1u32 << 12u32),
            *final(ret) == *final(self.w),
    {
        self.w.bits = self.w.bits & !(1u32 << 12u32);
        self.w
    }

    /// Writes the value of the given variant to the bit.
    pub fn variant(self, variant: DBW_A) -> (ret: &'a mut W)
        ensures
            ret@ == (old(self.w)@ & !(1u32 << 12u32)) | ((if variant.value_spec() { 1u32 } else { 0u32 }) << 12u32),
            *final(ret) == *final(self.w),
    {
        self.bit(bool::from(variant))
    }

    /// 8-bit bus
    pub fn bit_8(self) -> (ret: &'a mut W)
        ensures
            ret@ == (old(self.w)@ & !(1u32 << 12u32)) | (0u32 << 12u32),
            *final(ret) == *final(self.w),
    {
        self.variant(DBW_A::BIT_8)
    }

    /// 16-bit bus
    pub fn bit_16(self) -> (ret: &'a mut W)
        ensures
            ret@ == (old(self.w)@ & !(1u32 << 12u32)) | (1u32 << 12u32),
            *final(ret) == *final(self.w),
    {
        self.variant(DBW_A::BIT_16)
    }
}

/// Writer of the field `TDF_CYCLES` (at bit 16): Data Float Time
#[allow(non_camel_case_types)]
pub struct TDF_CYCLES_W<'a> {
    /// The register value being written.
    pub w: &'a mut W,
}

impl<'a> TDF_CYCLES_W<'a> {
    /// Writes the low bits of the given value to the field.
    pub fn bits(self, value: u8) -> (ret: &'a mut W)
        ensures
            ret@ == (old(self.w)@ & !(0xfu32 << 16u32)) | (((value as u32) & 0xfu32) << 16u32),
            *final(ret) == *final(self.w),
    {
        self.w.bits = (self.w.bits & !(0xfu32 << 16u32)) | (((value as u32) & 0xfu32) << 16u32);
        self.w
    }
}

/// Writer of the field `TDF_MODE` (at bit 20): TDF Optimization
#[allow(non_camel_case_types)]
pub struct TDF_MODE_W<'a> {
    /// The register value being written.
    pub w: &'a mut W,
}

impl<'a> TDF_MODE_W<'a> {
    /// Writes the given value to the bit.
    pub fn bit(self, value: bool) -> (ret: &'a mut W)
        ensures
            ret@ == (old(self.w)@ & !(1u32 << 20u32)) | ((if value { 1u32 } else { 0u32 }) << 20u32),
            *final(ret) == *final(self.w),
    {
        self.w.bits = (self.w.bits & !(1u32 << 20u32)) | ((if value { 1u32 } else { 0u32 }) << 20u32);
        self.w
    }

    /// Sets the bit.
    pub fn set_bit(self) -> (ret: &'a mut W)
        ensures
            ret@ == old(self.w)@ | (1u32 << 20u32),
            *final(ret) == *final(self.w),
    {
        self.w.bits = self.w.bits | (1u32 << 20u32);
        self.w
    }

    /// Clears the bit.
    pub fn clear_bit(self) -> (ret: &'a mut W)
        ensures
            ret@ == old(self.w)@ & !(1u32 << 20u32),
            *final(ret) == *final(self.w),
    {
        self.w.bits = self.w.bits & !(1u32 << 20u32);
        self.w
    }
}

impl R {
    /// The raw value of the register.
    pub fn bits(&self) -> (ret: u32)
        ensures
            ret == self@,
    {
        self.bits
    }

    /// Bit 0 - Selection of the Control Signal for Read Operation
    pub fn read_mode(&self) -> (ret: READ_MODE_R)
        ensures
            ret@ == ((self@ >> 0u32) & 1u32 != 0),
    {
        READ_MODE_R::new(((self.bits >> 0u32) & 1u32) != 0)
    }

    /// Bit 1 - Selection of the Control Signal for Write Operation
    pub fn write_mode(&self) -> (ret: WRITE_MODE_R)
        ensures
            ret@ == ((self@ >> 1u32) & 1u32 != 0),
    {
        WRITE_MODE_R::new(((self.bits >> 1u32) & 1u32) != 0)
    }

    /// Bits 4:5 - NWAIT Mode
    pub fn exnw_mode(&self) -> (ret: EXNW_MODE_R)
        ensures
            ret@ == ((self@ >> 4u32) & 0x3u32) as u8,
    {
        EXNW_MODE_R::new(((self.bits >> 4u32) & 0x3u32) as u8)
    }

    /// Bit 8 - Byte Access Type
    pub fn bat(&self) -> (ret: BAT_R)
        ensures
            ret@ == ((self@ >> 8u32) & 1u32 != 0),
    {
        BAT_R::new(((self.bits >> 8u32) & 1u32) != 0)
    }

    /// Bit 12 - Data Bus Width
    pub fn dbw(&self) -> (ret: DBW_R)
        ensures
            ret@ == ((self@ >> 12u32) & 1u32 != 0),
    {
        DBW_R::new(((self.bits >> 12u32) & 1u32) != 0)
    }

    /// Bits 16:19 - Data Float Time
    pub fn tdf_cycles(&self) -> (ret: TDF_CYCLES_R)
        ensures
            ret@ == ((self@ >> 16u32) & 0xfu32) as u8,
    {
        TDF_CYCLES_R::new(((self.bits >> 16u32) & 0xfu32) as u8)
    }

    /// Bit 20 - TDF Optimization
    pub fn tdf_mode(&self) -> (ret: TDF_MODE_R)
        ensures
            ret@ == ((self@ >> 20u32) & 1u32 != 0),
    {
        TDF_MODE_R::new(((self.bits >> 20u32) & 1u32) != 0)
    }
}

impl W {
    /// Bit 0 - Selection of the Control Signal for Read Operation
    pub fn read_mode(&mut self) -> (ret: READ_MODE_W<'_>)
        ensures
            *ret.w == *old(self),
            *final(ret.w) == *final(self),
    {
        READ_MODE_W { w: self }
    }

    /// Bit 1 - Selection of the Control Signal for Write Operation
    pub fn write_mode(&mut self) -> (ret: WRITE_MODE_W<'_>)
        ensures
            *ret.w == *old(self),
            *final(ret.w) == *final(self),
    {
        WRITE_MODE_W { w: self }
    }

    /// Bits 4:5 - NWAIT Mode
    pub fn exnw_mode(&mut self) -> (ret: EXNW_MODE_W<'_>)
        ensures
            *ret.w == *old(self),
            *final(ret.w) == *final(self),
    {
        EXNW_MODE_W { w: self }
    }

    /// Bit 8 - Byte Access Type
    pub fn bat(&mut self) -> (ret: BAT_W<'_>)
        ensures
            *ret.w == *old(self),
            *final(ret.w) == *final(self),
    {
        BAT_W { w: self }
    }

    /// Bit 12 - Data Bus Width
    pub fn dbw(&mut self) -> (ret: DBW_W<'_>)
        ensures
            *ret.w == *old(self),
            *final(ret.w) == *final(self),
    {
        DBW_W { w: self }
    }

    /// Bits 16:19 - Data Float Time
    pub fn tdf_cycles(&mut self) -> (ret: TDF_CYCLES_W<'_>)
        ensures
            *ret.w == *old(self),
            *final(ret.w) == *final(self),
    {
        TDF_CYCLES_W { w: self }
    }

    /// Bit 20 - TDF Optimization
    pub fn tdf_mode(&mut self) -> (ret: TDF_MODE_W<'_>)
        ensures
            *ret.w == *old(self),
            *final(ret.w) == *final(self),
    {
        TDF_MODE_W { w: self }
    }

    /// Writes raw bits to the register.
    pub fn bits(&mut self, bits: u32) -> (ret: &mut Self)
        ensures
            ret@ == bits,
            *final(ret) == *final(self),
    {
        self.bits = bits;
        self
    }
}

/// SMC Mode Register (CS_number = 4).
#[allow(non_camel_case_types)]
pub struct MODE4_SPEC;

impl Resettable for MODE4_SPEC {
    open spec fn reset_spec() -> u32 {
        0x1000_0003
    }

    fn reset_value() -> (ret: u32) {
        0x1000_0003
    }
}

} // verus!
