//! Host Pipe Configuration Register (n = 0).

use vstd::prelude::*;
use crate::registers::Resettable;

verus! {

/// The value read from the register.
#[derive(Clone, Copy, Debug, PartialEq, Eq, Structural)]
pub struct R {
    bits: u32,
}

impl View for R {
    type V = u32;

    closed spec fn view(&self) -> u32 {
        self.bits
    }
}

impl From<u32> for R {
    fn from(bits: u32) -> (ret: R)
        ensures
            ret@ == bits,
    {
        R { bits }
    }
}

impl vstd::std_specs::convert::FromSpecImpl<u32> for R {
    open spec fn obeys_from_spec() -> bool {
        true
    }

    closed spec fn from_spec(v: u32) -> R {
        R { bits: v }
    }
}

/// The value being written to the register.
#[derive(Clone, Copy, Debug, PartialEq, Eq, Structural)]
pub struct W {
    bits: u32,
}

impl View for W {
    type V = u32;

    closed spec fn view(&self) -> u32 {
        self.bits
    }
}

impl From<u32> for W {
    fn from(bits: u32) -> (ret: W)
        ensures
            ret@ == bits,
    {
        W { bits }
    }
}

impl vstd::std_specs::convert::FromSpecImpl<u32> for W {
    open spec fn obeys_from_spec() -> bool {
        true
    }

    closed spec fn from_spec(v: u32) -> W {
        W { bits: v }
    }
}

impl From<W> for u32 {
    fn from(w: W) -> (ret: u32)
        ensures
            ret == w@,
    {
        w.bits
    }
}

impl vstd::std_specs::convert::FromSpecImpl<W> for u32 {
    open spec fn obeys_from_spec() -> bool {
        true
    }

    open spec fn from_spec(v: W) -> u32 {
        v@
    }
}

/// Reader of the field `ALLOC`: Pipe Memory Allocate
#[allow(non_camel_case_types)]
#[derive(Clone, Copy, Debug, PartialEq, Eq, Structural)]
pub struct ALLOC_R {
    bits: bool,
}

impl View for ALLOC_R {
    type V = bool;

    closed spec fn view(&self) -> bool {
        self.bits
    }
}

impl ALLOC_R {
    /// A reader that holds the given field value.
    pub fn new(bits: bool) -> (ret: Self)
        ensures
            ret@ == bits,
    {
        ALLOC_R { bits }
    }

    /// The value of the bit.
    pub fn bit(&self) -> (ret: bool)
        ensures
            ret == self@,
    {
        self.bits
    }

    /// Whether the bit is set.
    pub fn bit_is_set(&self) -> (ret: bool)
        ensures
            ret == self@,
    {
        self.bits
    }

    /// Whether the bit is clear.
    pub fn bit_is_clear(&self) -> (ret: bool)
        ensures
            ret == !self@,
    {
        !self.bits
    }
}

/// Pipe Banks
#[allow(non_camel_case_types)]
#[derive(Clone, Copy, Debug, PartialEq, Eq, Structural)]
pub enum PBK_A {
    /// 0: Single-bank pipe
    _1_BANK,
    /// 1: Double-bank pipe
    _2_BANK,
    /// 2: Triple-bank pipe
    _3_BANK,
}

impl PBK_A {
    /// The field value of this variant.
    pub open spec fn value_spec(self) -> u8 {
        match self {
            PBK_A::_1_BANK => 0u8,
            PBK_A::_2_BANK => 1u8,
            PBK_A::_3_BANK => 2u8,
        }
    }
}

impl From<PBK_A> for u8 {
    fn from(variant: PBK_A) -> (ret: u8)
        ensures
            ret == variant.value_spec(),
    {
        match variant {
            PBK_A::_1_BANK => 0,
            PBK_A::_2_BANK => 1,
            PBK_A::_3_BANK => 2,
        }
    }
}

impl vstd::std_specs::convert::FromSpecImpl<PBK_A> for u8 {
    open spec fn obeys_from_spec() -> bool {
        true
    }

    open spec fn from_spec(v: PBK_A) -> u8 {
        v.value_spec()
    }
}

/// Reader of the field `PBK`: Pipe Banks
#[allow(non_camel_case_types)]
#[derive(Clone, Copy, Debug, PartialEq, Eq, Structural)]
pub struct PBK_R {
    bits: u8,
}

impl View for PBK_R {
    type V = u8;

    closed spec fn view(&self) -> u8 {
        self.bits
    }
}

impl PBK_R {
    /// A reader that holds the given field value.
    pub fn new(bits: u8) -> (ret: Self)
        ensures
            ret@ == bits,
    {
        PBK_R { bits }
    }

    /// The value of the field.
    pub fn bits(&self) -> (ret: u8)
        ensures
            ret == self@,
    {
        self.bits
    }

    /// The variant that the field value stands for, if any.
    pub fn variant(&self) -> (ret: Option<PBK_A>)
        ensures
            ret matches Some(v) ==> v.value_spec() == self@,
            ret is None ==> self@ != 0 && self@ != 1 && self@ != 2,
    {
        match self.bits {
            0 => Some(PBK_A::_1_BANK),
            1 => Some(PBK_A::_2_BANK),
            2 => Some(PBK_A::_3_BANK),
            _ => None,
        }
    }

    /// Checks if the value of the field is `_1_BANK`.
    pub fn is_1_bank(&self) -> (ret: bool)
        ensures
            ret == (self@ == 0),
    {
        self.bits == 0
    }

    /// Checks if the value of the field is `_2_BANK`.
    pub fn is_2_bank(&self) -> (ret: bool)
        ensures
            ret == (self@ == 1),
    {
        self.bits == 1
    }

    /// Checks if the value of the field is `_3_BANK`.
    pub fn is_3_bank(&self) -> (ret: bool)
        ensures
            ret == (self@ == 2),
    {
        self.bits == 2
    }
}

/// Pipe Size
#[allow(non_camel_case_types)]
#[derive(Clone, Copy, Debug, PartialEq, Eq, Structural)]
pub enum PSIZE_A {
    /// 0: 8 bytes
    _8_BYTE,
    /// 1: 16 bytes
    _16_BYTE,
    /// 2: 32 bytes
    _32_BYTE,
    /// 3: 64 bytes
    _64_BYTE,
    /// 4: 128 bytes
    _128_BYTE,
    /// 5: 256 bytes
    _256_BYTE,
    /// 6: 512 bytes
    _512_BYTE,
    /// 7: 1024 bytes
    _1024_BYTE,
}

impl PSIZE_A {
    /// The field value of this variant.
    pub open spec fn value_spec(self) -> u8 {
        match self {
            PSIZE_A::_8_BYTE => 0u8,
            PSIZE_A::_16_BYTE => 1u8,
            PSIZE_A::_32_BYTE => 2u8,
            PSIZE_A::_64_BYTE => 3u8,
            PSIZE_A::_128_BYTE => 4u8,
            PSIZE_A::_256_BYTE => 5u8,
            PSIZE_A::_512_BYTE => 6u8,
            PSIZE_A::_1024_BYTE => 7u8,
        }
    }
}

impl From<PSIZE_A> for u8 {
    fn from(variant: PSIZE_A) -> (ret: u8)
        ensures
            ret == variant.value_spec(),
    {
        match variant {
            PSIZE_A::_8_BYTE => 0,
            PSIZE_A::_16_BYTE => 1,
            PSIZE_A::_32_BYTE => 2,
            PSIZE_A::_64_BYTE => 3,
            PSIZE_A::_128_BYTE => 4,
            PSIZE_A::_256_BYTE => 5,
            PSIZE_A::_512_BYTE => 6,
            PSIZE_A::_1024_BYTE => 7,
        }
    }
}

impl vstd::std_specs::convert::FromSpecImpl<PSIZE_A> for u8 {
    open spec fn obeys_from_spec() -> bool {
        true
    }

    open spec fn from_spec(v: PSIZE_A) -> u8 {
        v.value_spec()
    }
}

/// Reader of the field `PSIZE`: Pipe Size
#[allow(non_camel_case_types)]
#[derive(Clone, Copy, Debug, PartialEq, Eq, Structural)]
pub struct PSIZE_R {
    bits: u8,
}

impl View for PSIZE_R {
    type V = u8;

    closed spec fn view(&self) -> u8 {
        self.bits
    }
}

impl PSIZE_R {
    /// A reader that holds the given field value.
    pub fn new(bits: u8) -> (ret: Self)
        ensures
            ret@ == bits,
    {
        PSIZE_R { bits }
    }

    /// The value of the field.
    pub fn bits(&self) -> (ret: u8)
        ensures
            ret == self@,
    {
        self.bits
    }

    /// The variant that the field value stands for.
    pub fn variant(&self) -> (ret: PSIZE_A)
        requires
            self@ < 8,
        ensures
            ret.value_spec() == self@,
    {
        match self.bits {
            0 => PSIZE_A::_8_BYTE,
            1 => PSIZE_A::_16_BYTE,
            2 => PSIZE_A::_32_BYTE,
            3 => PSIZE_A::_64_BYTE,
            4 => PSIZE_A::_128_BYTE,
            5 => PSIZE_A::_256_BYTE,
            6 => PSIZE_A::_512_BYTE,
            _ => PSIZE_A::_1024_BYTE,
        }
    }

    /// Checks if the value of the field is `_8_BYTE`.
    pub fn is_8_byte(&self) -> (ret: bool)
        ensures
            ret == (self@ == 0),
    {
        self.bits == 0
    }

    /// Checks if the value of the field is `_16_BYTE`.
    pub fn is_16_byte(&self) -> (ret: bool)
        ensures
            ret == (self@ == 1),
    {
        self.bits == 1
    }

    /// Checks if the value of the field is `_32_BYTE`.
    pub fn is_32_byte(&self) -> (ret: bool)
        ensures
            ret == (self@ == 2),
    {
        self.bits == 2
    }

    /// Checks if the value of the field is `_64_BYTE`.
    pub fn is_64_byte(&self) -> (ret: bool)
        ensures
            ret == (self@ == 3),
    {
        self.bits == 3
    }

    /// Checks if the value of the field is `_128_BYTE`.
    pub fn is_128_byte(&self) -> (ret: bool)
        ensures
            ret == (self@ == 4),
    {
        self.bits == 4
    }

    /// Checks if the value of the field is `_256_BYTE`.
    pub fn is_256_byte(&self) -> (ret: bool)
        ensures
            ret == (self@ == 5),
    {
        self.bits == 5
    }

    /// Checks if the value of the field is `_512_BYTE`.
    pub fn is_512_byte(&self) -> (ret: bool)
        ensures
            ret == (self@ == 6),
    {
        self.bits == 6
    }

    /// Checks if the value of the field is `_1024_BYTE`.
    pub fn is_1024_byte(&self) -> (ret: bool)
        ensures
            ret == (self@ == 7),
    {
        self.bits == 7
    }
}

/// Pipe Token
#[allow(non_camel_case_types)]
#[derive(Clone, Copy, Debug, PartialEq, Eq, Structural)]
pub enum PTOKEN_A {
    /// 0: SETUP
    SETUP,
    /// 1: IN
    IN,
    /// 2: OUT
    OUT,
}

impl PTOKEN_A {
    /// The field value of this variant.
    pub open spec fn value_spec(self) -> u8 {
        match self {
            PTOKEN_A::SETUP => 0u8,
            PTOKEN_A::IN => 1u8,
            PTOKEN_A::OUT => 2u8,
        }
    }
}

impl From<PTOKEN_A> for u8 {
    fn from(variant: PTOKEN_A) -> (ret: u8)
        ensures
            ret == variant.value_spec(),
    {
        match variant {
            PTOKEN_A::SETUP => 0,
            PTOKEN_A::IN => 1,
            PTOKEN_A::OUT => 2,
        }
    }
}

impl vstd::std_specs::convert::FromSpecImpl<PTOKEN_A> for u8 {
    open spec fn obeys_from_spec() -> bool {
        true
    }

    open spec fn from_spec(v: PTOKEN_A) -> u8 {
        v.value_spec()
    }
}

/// Reader of the field `PTOKEN`: Pipe Token
#[allow(non_camel_case_types)]
#[derive(Clone, Copy, Debug, PartialEq, Eq, Structural)]
pub struct PTOKEN_R {
    bits: u8,
}

impl View for PTOKEN_R {
    type V = u8;

    closed spec fn view(&self) -> u8 {
        self.bits
    }
}

impl PTOKEN_R {
    /// A reader that holds the given field value.
    pub fn new(bits: u8) -> (ret: Self)
        ensures
            ret@ == bits,
    {
        PTOKEN_R { bits }
    }

    /// The value of the field.
    pub fn bits(&self) -> (ret: u8)
        ensures
            ret == self@,
    {
        self.bits
    }

    /// The variant that the field value stands for, if any.
    pub fn variant(&self) -> (ret: Option<PTOKEN_A>)
        ensures
            ret matches Some(v) ==> v.value_spec() == self@,
            ret is None ==> self@ != 0 && self@ != 1 && self@ != 2,
    {
        match self.bits {
            0 => Some(PTOKEN_A::SETUP),
            1 => Some(PTOKEN_A::IN),
            2 => Some(PTOKEN_A::OUT),
            _ => None,
        }
    }

    /// Checks if the value of the field is `SETUP`.
    pub fn is_setup(&self) -> (ret: bool)
        ensures
            ret == (self@ == 0),
    {
        self.bits == 0
    }

    /// Checks if the value of the field is `IN`.
    pub fn is_in(&self) -> (ret: bool)
        ensures
            ret == (self@ == 1),
    {
        self.bits == 1
    }

    /// Checks if the value of the field is `OUT`.
    pub fn is_out(&self) -> (ret: bool)
        ensures
            ret == (self@ == 2),
    {
        self.bits == 2
    }
}

/// Reader of the field `AUTOSW`: Automatic Switch
#[allow(non_camel_case_types)]
#[derive(Clone, Copy, Debug, PartialEq, Eq, Structural)]
pub struct AUTOSW_R {
    bits: bool,
}

impl View for AUTOSW_R {
    type V = bool;

    closed spec fn view(&self) -> bool {
        self.bits
    }
}

impl AUTOSW_R {
    /// A reader that holds the given field value.
    pub fn new(bits: bool) -> (ret: Self)
        ensures
            ret@ == bits,
    {
        AUTOSW_R { bits }
    }

    /// The value of the bit.
    pub fn bit(&self) -> (ret: bool)
        ensures
            ret == self@,
    {
        self.bits
    }

    /// Whether the bit is set.
    pub fn bit_is_set(&self) -> (ret: bool)
        ensures
            ret == self@,
    {
        self.bits
    }

    /// Whether the bit is clear.
    pub fn bit_is_clear(&self) -> (ret: bool)
        ensures
            ret == !self@,
    {
        !self.bits
    }
}

/// Pipe Type
#[allow(non_camel_case_types)]
#[derive(Clone, Copy, Debug, PartialEq, Eq, Structural)]
pub enum PTYPE_A {
    /// 0: Control
    CTRL,
    /// 2: Bulk
    BLK,
}

impl PTYPE_A {
    /// The field value of this variant.
    pub open spec fn value_spec(self) -> u8 {
        match self {
            PTYPE_A::CTRL => 0u8,
            PTYPE_A::BLK => 2u8,
        }
    }
}

impl From<PTYPE_A> for u8 {
    fn from(variant: PTYPE_A) -> (ret: u8)
        ensures
            ret == variant.value_spec(),
    {
        match variant {
            PTYPE_A::CTRL => 0,
            PTYPE_A::BLK => 2,
        }
    }
}

impl vstd::std_specs::convert::FromSpecImpl<PTYPE_A> for u8 {
    open spec fn obeys_from_spec() -> bool {
        true
    }

    open spec fn from_spec(v: PTYPE_A) -> u8 {
        v.value_spec()
    }
}

/// Reader of the field `PTYPE`: Pipe Type
#[allow(non_camel_case_types)]
#[derive(Clone, Copy, Debug, PartialEq, Eq, Structural)]
pub struct PTYPE_R {
    bits: u8,
}

impl View for PTYPE_R {
    type V = u8;

    closed spec fn view(&self) -> u8 {
        self.bits
    }
}

impl PTYPE_R {
    /// A reader that holds the given field value.
    pub fn new(bits: u8) -> (ret: Self)
        ensures
            ret@ == bits,
    {
        PTYPE_R { bits }
    }

    /// The value of the field.
    pub fn bits(&self) -> (ret: u8)
        ensures
            ret == self@,
    {
        self.bits
    }

    /// The variant that the field value stands for, if any.
    pub fn variant(&self) -> (ret: Option<PTYPE_A>)
        ensures
            ret matches Some(v) ==> v.value_spec() == self@,
            ret is None ==> self@ != 0 && self@ != 2,
    {
        match self.bits {
            0 => Some(PTYPE_A::CTRL),
            2 => Some(PTYPE_A::BLK),
            _ => None,
        }
    }

    /// Checks if the value of the field is `CTRL`.
    pub fn is_ctrl(&self) -> (ret: bool)
        ensures
            ret == (self@ == 0),
    {
        self.bits == 0
    }

    /// Checks if the value of the field is `BLK`.
    pub fn is_blk(&self) -> (ret: bool)
        ensures
            ret == (self@ == 2),
    {
        self.bits == 2
    }
}

/// Reader of the field `PEPNUM`: Pipe Endpoint Number
#[allow(non_camel_case_types)]
#[derive(Clone, Copy, Debug, PartialEq, Eq, Structural)]
pub struct PEPNUM_R {
    bits: u8,
}

impl View for PEPNUM_R {
    type V = u8;

    closed spec fn view(&self) -> u8 {
        self.bits
    }
}

impl PEPNUM_R {
    /// A reader that holds the given field value.
    pub fn new(bits: u8) -> (ret: Self)
        ensures
            ret@ == bits,
    {
        PEPNUM_R { bits }
    }

    /// The value of the field.
    pub fn bits(&self) -> (ret: u8)
        ensures
            ret == self@,
    {
        self.bits
    }
}

/// Reader of the field `PINGEN`: Ping Enable
#[allow(non_camel_case_types)]
#[derive(Clone, Copy, Debug, PartialEq, Eq, Structural)]
pub struct PINGEN_R {
    bits: bool,
}

impl View for PINGEN_R {
    type V = bool;

    closed spec fn view(&self) -> bool {
        self.bits
    }
}

impl PINGEN_R {
    /// A reader that holds the given field value.
    pub fn new(bits: bool) -> (ret: Self)
        ensures
            ret@ == bits,
    {
        PINGEN_R { bits }
    }

    /// The value of the bit.
    pub fn bit(&self) -> (ret: bool)
        ensures
            ret == self@,
    {
        self.bits
    }

    /// Whether the bit is set.
    pub fn bit_is_set(&self) -> (ret: bool)
        ensures
            ret == self@,
    {
        self.bits
    }

    /// Whether the bit is clear.
    pub fn bit_is_clear(&self) -> (ret: bool)
        ensures
            ret == !self@,
    {
        !self.bits
    }
}

/// Reader of the field `BINTERVAL`: Binterval Parameter for the Bulk-Out/Ping Transaction
#[allow(non_camel_case_types)]
#[derive(Clone, Copy, Debug, PartialEq, Eq, Structural)]
pub struct BINTERVAL_R {
    bits: u8,
}

impl View for BINTERVAL_R {
    type V = u8;

    closed spec fn view(&self) -> u8 {
        self.bits
    }
}

impl BINTERVAL_R {
    /// A reader that holds the given field value.
    pub fn new(bits: u8) -> (ret: Self)
        ensures
            ret@ == bits,
    {
        BINTERVAL_R { bits }
    }

    /// The value of the field.
    pub fn bits(&self) -> (ret: u8)
        ensures
            ret == self@,
    {
        self.bits
    }
}

/// Writer of the field `ALLOC` (at bit 1): Pipe Memory Allocate
#[allow(non_camel_case_types)]
pub struct ALLOC_W<'a> {
    /// The register value being written.
    pub w: &'a mut W,
}

impl<'a> ALLOC_W<'a> {
    /// Writes the given value to the bit.
    pub fn bit(self, value: bool) -> (ret: &'a mut W)
        ensures
            ret@ == (old(self.w)@ & !(1u32 << 1u32)) | ((if value { 1u32 } else { 0u32 }) << 1u32),
            *final(ret) == *final(self.w),
    {
        self.w.bits = (self.w.bits & !(1u32 << 1u32)) | ((if value { 1u32 } else { 0u32 }) << 1u32);
        self.w
    }

    /// Sets the bit.
    pub fn set_bit(self) -> (ret: &'a mut W)
        ensures
            ret@ == old(self.w)@ | (1u32 << 1u32),
            *final(ret) == *final(self.w),
    {
        self.w.bits = self.w.bits | (1u32 << 1u32);
        self.w
    }

    /// Clears the bit.
    pub fn clear_bit(self) -> (ret: &'a mut W)
        ensures
            ret@ == old(self.w)@ & !(1u32 << 1u32),
            *final(ret) == *final(self.w),
    {
        self.w.bits = self.w.bits & !(1u32 << 1u32);
        self.w
    }
}

/// Writer of the field `PBK` (at bit 2): Pipe Banks
#[allow(non_camel_case_types)]
pub struct PBK_W<'a> {
    /// The register value being written.
    pub w: &'a mut W,
}

impl<'a> PBK_W<'a> {
    /// Writes the low bits of the given value to the field.
    pub fn bits(self, value: u8) -> (ret: &'a mut W)
        ensures
            ret@ == (old(self.w)@ & !(0x3u32 << 2u32)) | (((value as u32) & 0x3u32) << 2u32),
            *final(ret) == *final(self.w),
    {
        self.w.bits = (self.w.bits & !(0x3u32 << 2u32)) | (((value as u32) & 0x3u32) << 2u32);
        self.w
    }

    /// Writes the value of the given variant to the field.
    pub fn variant(self, variant: PBK_A) -> (ret: &'a mut W)
        ensures
            ret@ == (old(self.w)@ & !(0x3u32 << 2u32)) | (((variant.value_spec() as u32) & 0x3u32) << 2u32),
            *final(ret) == *final(self.w),
    {
        self.bits(u8::from(variant))
    }

    /// Single-bank pipe
    pub fn _1_bank(self) -> (ret: &'a mut W)
        ensures
            ret@ == (old(self.w)@ & !(0x3u32 << 2u32)) | ((0u32 & 0x3u32) << 2u32),
            *final(ret) == *final(self.w),
    {
        self.variant(PBK_A::_1_BANK)
    }

    /// Double-bank pipe
    pub fn _2_bank(self) -> (ret: &'a mut W)
        ensures
            ret@ == (old(self.w)@ & !(0x3u32 << 2u32)) | ((1u32 & 0x3u32) << 2u32),
            *final(ret) == *final(self.w),
    {
        self.variant(PBK_A::_2_BANK)
    }

    /// Triple-bank pipe
    pub fn _3_bank(self) -> (ret: &'a mut W)
        ensures
            ret@ == (old(self.w)@ & !(0x3u32 << 2u32)) | ((2u32 & 0x3u32) << 2u32),
            *final(ret) == *final(self.w),
    {
        self.variant(PBK_A::_3_BANK)
    }
}

/// Writer of the field `PSIZE` (at bit 4): Pipe Size
#[allow(non_camel_case_types)]
pub struct PSIZE_W<'a> {
    /// The register value being written.
    pub w: &'a mut W,
}

impl<'a> PSIZE_W<'a> {
    /// Writes the low bits of the given value to the field.
    pub fn bits(self, value: u8) -> (ret: &'a mut W)
        ensures
            ret@ == (old(self.w)@ & !(0x7u32 << 4u32)) | (((value as u32) & 0x7u32) << 4u32),
            *final(ret) == *final(self.w),
    {
        self.w.bits = (self.w.bits & !(0x7u32 << 4u32)) | (((value as u32) & 0x7u32) << 4u32);
        self.w
    }

    /// Writes the value of the given variant to the field.
    pub fn variant(self, variant: PSIZE_A) -> (ret: &'a mut W)
        ensures
            ret@ == (old(self.w)@ & !(0x7u32 << 4u32)) | (((variant.value_spec() as u32) & 0x7u32) << 4u32),
            *final(ret) == *final(self.w),
    {
        self.bits(u8::from(variant))
    }

    /// 8 bytes
    pub fn _8_byte(self) -> (ret: &'a mut W)
        ensures
            ret@ == (old(self.w)@ & !(0x7u32 << 4u32)) | ((0u32 & 0x7u32) << 4u32),
            *final(ret) == *final(self.w),
    {
        self.variant(PSIZE_A::_8_BYTE)
    }

    /// 16 bytes
    pub fn _16_byte(self) -> (ret: &'a mut W)
        ensures
            ret@ == (old(self.w)@ & !(0x7u32 << 4u32)) | ((1u32 & 0x7u32) << 4u32),
            *final(ret) == *final(self.w),
    {
        self.variant(PSIZE_A::_16_BYTE)
    }

    /// 32 bytes
    pub fn _32_byte(self) -> (ret: &'a mut W)
        ensures
            ret@ == (old(self.w)@ & !(0x7u32 << 4u32)) | ((2u32 & 0x7u32) << 4u32),
            *final(ret) == *final(self.w),
    {
        self.variant(PSIZE_A::_32_BYTE)
    }

    /// 64 bytes
    pub fn _64_byte(self) -> (ret: &'a mut W)
        ensures
            ret@ == (old(self.w)@ & !(0x7u32 << 4u32)) | ((3u32 & 0x7u32) << 4u32),
            *final(ret) == *final(self.w),
    {
        self.variant(PSIZE_A::_64_BYTE)
    }

    /// 128 bytes
    pub fn _128_byte(self) -> (ret: &'a mut W)
        ensures
            ret@ == (old(self.w)@ & !(0x7u32 << 4u32)) | ((4u32 & 0x7u32) << 4u32),
            *final(ret) == *final(self.w),
    {
        self.variant(PSIZE_A::_128_BYTE)
    }

    /// 256 bytes
    pub fn _256_byte(self) -> (ret: &'a mut W)
        ensures
            ret@ == (old(self.w)@ & !(0x7u32 << 4u32)) | ((5u32 & 0x7u32) << 4u32),
            *final(ret) == *final(self.w),
    {
        self.variant(PSIZE_A::_256_BYTE)
    }

    /// 512 bytes
    pub fn _512_byte(self) -> (ret: &'a mut W)
        ensures
            ret@ == (old(self.w)@ & !(0x7u32 << 4u32)) | ((6u32 & 0x7u32) << 4u32),
            *final(ret) == *final(self.w),
    {
        self.variant(PSIZE_A::_512_BYTE)
    }

    /// 1024 bytes
    pub fn _1024_byte(self) -> (ret: &'a mut W)
        ensures
            ret@ == (old(self.w)@ & !(0x7u32 << 4u32)) | ((7u32 & 0x7u32) << 4u32),
            *final(ret) == *final(self.w),
    {
        self.variant(PSIZE_A::_1024_BYTE)
    }
}

/// Writer of the field `PTOKEN` (at bit 8): Pipe Token
#[allow(non_camel_case_types)]
pub struct PTOKEN_W<'a> {
    /// The register value being written.
    pub w: &'a mut W,
}

impl<'a> PTOKEN_W<'a> {
    /// Writes the low bits of the given value to the field.
    pub fn bits(self, value: u8) -> (ret: &'a mut W)
        ensures
            ret@ == (old(self.w)@ & !(0x3u32 << 8u32)) | (((value as u32) & 0x3u32) << 8u32),
            *final(ret) == *final(self.w),
    {
        self.w.bits = (self.w.bits & !(0x3u32 << 8u32)) | (((value as u32) & 0x3u32) << 8u32);
        self.w
    }

    /// Writes the value of the given variant to the field.
    pub fn variant(self, variant: PTOKEN_A) -> (ret: &'a mut W)
        ensures
            ret@ == (old(self.w)@ & !(0x3u32 << 8u32)) | (((variant.value_spec() as u32) & 0x3u32) << 8u32),
            *final(ret) == *final(self.w),
    {
        self.bits(u8::from(variant))
    }

    /// SETUP
    pub fn setup(self) -> (ret: &'a mut W)
        ensures
            ret@ == (old(self.w)@ & !(0x3u32 << 8u32)) | ((0u32 & 0x3u32) << 8u32),
            *final(ret) == *final(self.w),
    {
        self.variant(PTOKEN_A::SETUP)
    }

    /// IN
    pub fn in_(self) -> (ret: &'a mut W)
        ensures
            ret@ == (old(self.w)@ & !(0x3u32 << 8u32)) | ((1u32 & 0x3u32) << 8u32),
            *final(ret) == *final(self.w),
    {
        self.variant(PTOKEN_A::IN)
    }

    /// OUT
    pub fn out(self) -> (ret: &'a mut W)
        ensures
            ret@ == (old(self.w)@ & !(0x3u32 << 8u32)) | ((2u32 & 0x3u32) << 8u32),
            *final(ret) == *final(self.w),
    {
        self.variant(PTOKEN_A::OUT)
    }
}

/// Writer of the field `AUTOSW` (at bit 10): Automatic Switch
#[allow(non_camel_case_types)]
pub struct AUTOSW_W<'a> {
    /// The register value being written.
    pub w: &'a mut W,
}

impl<'a> AUTOSW_W<'a> {
    /// Writes the given value to the bit.
    pub fn bit(self, value: bool) -> (ret: &'a mut W)
        ensures
            ret@ == (old(self.w)@ & !(1u32 << 10u32)) | ((if value { 1u32 } else { 0u32 }) << 10u32),
            *final(ret) == *final(self.w),
    {
        self.w.bits = (self.w.bits & !(1u32 << 10u32)) | ((if value { 1u32 } else { 0u32 }) << 10u32);
        self.w
    }

    /// Sets the bit.
    pub fn set_bit(self) -> (ret: &'a mut W)
        ensures
            ret@ == old(self.w)@ | (1u32 << 10u32),
            *final(ret) == *final(self.w),
    {
        self.w.bits = self.w.bits | (1u32 << 10u32);
        self.w
    }

    /// Clears the bit.
    pub fn clear_bit(self) -> (ret: &'a mut W)
        ensures
            ret@ == old(self.w)@ & !(1u32 << 10u32),
            *final(ret) == *final(self.w),
    {
        self.w.bits = self.w.bits & !(1u32 << 10u32);
        self.w
    }
}

/// Writer of the field `PTYPE` (at bit 12): Pipe Type
#[allow(non_camel_case_types)]
pub struct PTYPE_W<'a> {
    /// The register value being written.
    pub w: &'a mut W,
}

impl<'a> PTYPE_W<'a> {
    /// Writes the low bits of the given value to the field.
    pub fn bits(self, value: u8) -> (ret: &'a mut W)
        ensures
            ret@ == (old(self.w)@ & !(0x3u32 << 12u32)) | (((value as u32) & 0x3u32) << 12u32),
            *final(ret) == *final(self.w),
    {
        self.w.bits = (self.w.bits & !(0x3u32 << 12u32)) | (((value as u32) & 0x3u32) << 12u32);
        self.w
    }

    /// Writes the value of the given variant to the field.
    pub fn variant(self, variant: PTYPE_A) -> (ret: &'a mut W)
        ensures
            ret@ == (old(self.w)@ & !(0x3u32 << 12u32)) | (((variant.value_spec() as u32) & 0x3u32) << 12u32),
            *final(ret) == *final(self.w),
    {
        self.bits(u8::from(variant))
    }

    /// Control
    pub fn ctrl(self) -> (ret: &'a mut W)
        ensures
            ret@ == (old(self.w)@ & !(0x3u32 << 12u32)) | ((0u32 & 0x3u32) << 12u32),
            *final(ret) == *final(self.w),
    {
        self.variant(PTYPE_A::CTRL)
    }

    /// Bulk
    pub fn blk(self) -> (ret: &'a mut W)
        ensures
            ret@ == (old(self.w)@ & !(0x3u32 << 12u32)) | ((2u32 & 0x3u32) << 12u32),
            *final(ret) == *final(self.w),
    {
        self.variant(PTYPE_A::BLK)
    }
}

/// Writer of the field `PEPNUM` (at bit 16): Pipe Endpoint Number
#[allow(non_camel_case_types)]
pub struct PEPNUM_W<'a> {
    /// The register value being written.
    pub w: &'a mut W,
}

impl<'a> PEPNUM_W<'a> {
    /// Writes the low bits of the given value to the field.
    pub fn bits(self, value: u8) -> (ret: &'a mut W)
        ensures
            ret@ == (old(self.w)@ & !(0xfu32 << 16u32)) | (((value as u32) & 0xfu32) << 16u32),
            *final(ret) == *final(self.w),
    {
        self.w.bits = (self.w.bits & !(0xfu32 << 16u32)) | (((value as u32) & 0xfu32) << 16u32);
        self.w
    }
}

/// Writer of the field `PINGEN` (at bit 20): Ping Enable
#[allow(non_camel_case_types)]
pub struct PINGEN_W<'a> {
    /// The register value being written.
    pub w: &'a mut W,
}

impl<'a> PINGEN_W<'a> {
    /// Writes the given value to the bit.
    pub fn bit(self, value: bool) -> (ret: &'a mut W)
        ensures
            ret@ == (old(self.w)@ & !(1u32 << 20u32)) | ((if value { 1u32 } else { 0u32 }) << 20u32),
            *final(ret) == *final(self.w),
    {
        self.w.bits = (self.w.bits & !(1u32 << 20u32)) | ((if value { 1u32 } else { 0u32 }) << 20u32);
        self.w
    }

    /// Sets the bit.
    pub fn set_bit(self) -> (ret: &'a mut W)
        ensures
            ret@ == old(self.w)@ | (1u32 << 20u32),
            *final(ret) == *final(self.w),
    {
        self.w.bits = self.w.bits | (1u32 << 20u32);
        self.w
    }

    /// Clears the bit.
    pub fn clear_bit(self) -> (ret: &'a mut W)
        ensures
            ret@ == old(self.w)@ & !(1u32 << 20u32),
            *final(ret) == *final(self.w),
    {
        self.w.bits = self.w.bits & !(1u32 << 20u32);
        self.w
    }
}

/// Writer of the field `BINTERVAL` (at bit 24): Binterval Parameter for the Bulk-Out/Ping Transaction
#[allow(non_camel_case_types)]
pub struct BINTERVAL_W<'a> {
    /// The register value being written.
    pub w: &'a mut W,
}

impl<'a> BINTERVAL_W<'a> {
    /// Writes the low bits of the given value to the field.
    pub fn bits(self, value: u8) -> (ret: &'a mut W)
        ensures
            ret@ == (old(self.w)@ & !(0xffu32 << 24u32)) | (((value as u32) & 0xffu32) << 24u32),
            *final(ret) == *final(self.w),
    {
        self.w.bits = (self.w.bits & !(0xffu32 << 24u32)) | (((value as u32) & 0xffu32) << 24u32);
        self.w
    }
}

impl R {
    /// The raw value of the register.
    pub fn bits(&self) -> (ret: u32)
        ensures
            ret == self@,
    {
        self.bits
    }

    /// Bit 1 - Pipe Memory Allocate
    pub fn alloc_(&self) -> (ret: ALLOC_R)
        ensures
            ret@ == ((self@ >> 1u32) & 1u32 != 0),
    {
        ALLOC_R::new(((self.bits >> 1u32) & 1u32) != 0)
    }

    /// Bits 2:3 - Pipe Banks
    pub fn pbk(&self) -> (ret: PBK_R)
        ensures
            ret@ == ((self@ >> 2u32) & 0x3u32) as u8,
    {
        PBK_R::new(((self.bits >> 2u32) & 0x3u32) as u8)
    }

    /// Bits 4:6 - Pipe Size
    pub fn psize(&self) -> (ret: PSIZE_R)
        ensures
            ret@ == ((self@ >> 4u32) & 0x7u32) as u8,
    {
        PSIZE_R::new(((self.bits >> 4u32) & 0x7u32) as u8)
    }

    /// Bits 8:9 - Pipe Token
    pub fn ptoken(&self) -> (ret: PTOKEN_R)
        ensures
            ret@ == ((self@ >> 8u32) & 0x3u32) as u8,
    {
        PTOKEN_R::new(((self.bits >> 8u32) & 0x3u32) as u8)
    }

    /// Bit 10 - Automatic Switch
    pub fn autosw(&self) -> (ret: AUTOSW_R)
        ensures
            ret@ == ((self@ >> 10u32) & 1u32 != 0),
    {
        AUTOSW_R::new(((self.bits >> 10u32) & 1u32) != 0)
    }

    /// Bits 12:13 - Pipe Type
    pub fn ptype(&self) -> (ret: PTYPE_R)
        ensures
            ret@ == ((self@ >> 12u32) & 0x3u32) as u8,
    {
        PTYPE_R::new(((self.bits >> 12u32) & 0x3u32) as u8)
    }

    /// Bits 16:19 - Pipe Endpoint Number
    pub fn pepnum(&self) -> (ret: PEPNUM_R)
        ensures
            ret@ == ((self@ >> 16u32) & 0xfu32) as u8,
    {
        PEPNUM_R::new(((self.bits >> 16u32) & 0xfu32) as u8)
    }

    /// Bit 20 - Ping Enable
    pub fn pingen(&self) -> (ret: PINGEN_R)
        ensures
            ret@ == ((self@ >> 20u32) & 1u32 != 0),
    {
        PINGEN_R::new(((self.bits >> 20u32) & 1u32) != 0)
    }

    /// Bits 24:31 - Binterval Parameter for the Bulk-Out/Ping Transaction
    pub fn binterval(&self) -> (ret: BINTERVAL_R)
        ensures
            ret@ == ((self@ >> 24u32) & 0xffu32) as u8,
    {
        BINTERVAL_R::new(((self.bits >> 24u32) & 0xffu32) as u8)
    }
}

impl W {
    /// Bit 1 - Pipe Memory Allocate
    pub fn alloc_(&mut self) -> (ret: ALLOC_W<'_>)
        ensures
            *ret.w == *old(self),
            *final(ret.w) == *final(self),
    {
        ALLOC_W { w: self }
    }

    /// Bits 2:3 - Pipe Banks
    pub fn pbk(&mut self) -> (ret: PBK_W<'_>)
        ensures
            *ret.w == *old(self),
            *final(ret.w) == *final(self),
    {
        PBK_W { w: self }
    }

    /// Bits 4:6 - Pipe Size
    pub fn psize(&mut self) -> (ret: PSIZE_W<'_>)
        ensures
            *ret.w == *old(self),
            *final(ret.w) == *final(self),
    {
        PSIZE_W { w: self }
    }

    /// Bits 8:9 - Pipe Token
    pub fn ptoken(&mut self) -> (ret: PTOKEN_W<'_>)
        ensures
            *ret.w == *old(self),
            *final(ret.w) == *final(self),
    {
        PTOKEN_W { w: self }
    }

    /// Bit 10 - Automatic Switch
    pub fn autosw(&mut self) -> (ret: AUTOSW_W<'_>)
        ensures
            *ret.w == *old(self),
            *final(ret.w) == *final(self),
    {
        AUTOSW_W { w: self }
    }

    /// Bits 12:13 - Pipe Type
    pub fn ptype(&mut self) -> (ret: PTYPE_W<'_>)
        ensures
            *ret.w == *old(self),
            *final(ret.w) == *final(self),
    {
        PTYPE_W { w: self }
    }

    /// Bits 16:19 - Pipe Endpoint Number
    pub fn pepnum(&mut self) -> (ret: PEPNUM_W<'_>)
        ensures
            *ret.w == *old(self),
            *final(ret.w) == *final(self),
    {
        PEPNUM_W { w: self }
    }

    /// Bit 20 - Ping Enable
    pub fn pingen(&mut self) -> (ret: PINGEN_W<'_>)
        ensures
            *ret.w == *old(self),
            *final(ret.w) == *final(self),
    {
        PINGEN_W { w: self }
    }

    /// Bits 24:31 - Binterval Parameter for the Bulk-Out/Ping Transaction
    pub fn binterval(&mut self) -> (ret: BINTERVAL_W<'_>)
        ensures
            *ret.w == *old(self),
            *final(ret.w) == *final(self),
    {
        BINTERVAL_W { w: self }
    }

    /// Writes raw bits to the register.
    pub fn bits(&mut self, bits: u32) -> (ret: &mut Self)
        ensures
            ret@ == bits,
            *final(ret) == *final(self),
    {
        self.bits = bits;
        self
    }
}

/// Host Pipe Configuration Register (n = 0).
#[allow(non_camel_case_types)]
pub struct HSBOHSCP_HSTPIPCFG0_HSBOHSCP_SPEC;

impl Resettable for HSBOHSCP_HSTPIPCFG0_HSBOHSCP_SPEC {
    open spec fn reset_spec() -> u32 {
        0
    }

    fn reset_value() -> (ret: u32) {
        0
    }
}

} // verus!
