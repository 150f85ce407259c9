//! PWM Output Override Value Register.

use vstd::prelude::*;
use crate::registers::Resettable;

verus! {

/// The value read from the register.
#[derive(Clone, Copy, Debug, PartialEq, Eq, Structural)]
pub struct R {
    bits: u32,
}

impl View for R {
    type V = u32;

    closed spec fn view(&self) -> u32 {
        self.bits
    }
}

impl From<u32> for R {
    fn from(bits: u32) -> (ret: R)
        ensures
            ret@ == bits,
    {
        R { bits }
    }
}

impl vstd::std_specs::convert::FromSpecImpl<u32> for R {
    open spec fn obeys_from_spec() -> bool {
        true
    }

    closed spec fn from_spec(v: u32) -> R {
        R { bits: v }
    }
}

/// The value being written to the register.
#[derive(Clone, Copy, Debug, PartialEq, Eq, Structural)]
pub struct W {
    bits: u32,
}

impl View for W {
    type V = u32;

    closed spec fn view(&self) -> u32 {
        self.bits
    }
}

impl From<u32> for W {
    fn from(bits: u32) -> (ret: W)
        ensures
            ret@ == bits,
    {
        W { bits }
    }
}

impl vstd::std_specs::convert::FromSpecImpl<u32> for W {
    open spec fn obeys_from_spec() -> bool {
        true
    }

    closed spec fn from_spec(v: u32) -> W {
        W { bits: v }
    }
}

impl From<W> for u32 {
    fn from(w: W) -> (ret: u32)
        ensures
            ret == w@,
    {
        w.bits
    }
}

impl vstd::std_specs::convert::FromSpecImpl<W> for u32 {
    open spec fn obeys_from_spec() -> bool {
        true
    }

    open spec fn from_spec(v: W) -> u32 {
        v@
    }
}

/// Reader of the field `OOVH0`: Output Override Value for PWMH output of the channel 0
#[allow(non_camel_case_types)]
#[derive(Clone, Copy, Debug, PartialEq, Eq, Structural)]
pub struct OOVH0_R {
    bits: bool,
}

impl View for OOVH0_R {
    type V = bool;

    closed spec fn view(&self) -> bool {
        self.bits
    }
}

impl OOVH0_R {
    /// A reader that holds the given field value.
    pub fn new(bits: bool) -> (ret: Self)
        ensures
            ret@ == bits,
    {
        OOVH0_R { bits }
    }

    /// The value of the bit.
    pub fn bit(&self) -> (ret: bool)
        ensures
            ret == self@,
    {
        self.bits
    }

    /// Whether the bit is set.
    pub fn bit_is_set(&self) -> (ret: bool)
        ensures
            ret == self@,
    {
        self.bits
    }

    /// Whether the bit is clear.
    pub fn bit_is_clear(&self) -> (ret: bool)
        ensures
            ret == !self@,
    {
        !self.bits
    }
}

/// Reader of the field `OOVH1`: Output Override Value for PWMH output of the channel 1
#[allow(non_camel_case_types)]
#[derive(Clone, Copy, Debug, PartialEq, Eq, Structural)]
pub struct OOVH1_R {
    bits: bool,
}

impl View for OOVH1_R {
    type V = bool;

    closed spec fn view(&self) -> bool {
        self.bits
    }
}

impl OOVH1_R {
    /// A reader that holds the given field value.
    pub fn new(bits: bool) -> (ret: Self)
        ensures
            ret@ == bits,
    {
        OOVH1_R { bits }
    }

    /// The value of the bit.
    pub fn bit(&self) -> (ret: bool)
        ensures
            ret == self@,
    {
        self.bits
    }

    /// Whether the bit is set.
    pub fn bit_is_set(&self) -> (ret: bool)
        ensures
            ret == self@,
    {
        self.bits
    }

    /// Whether the bit is clear.
    pub fn bit_is_clear(&self) -> (ret: bool)
        ensures
            ret == !self@,
    {
        !self.bits
    }
}

/// Reader of the field `OOVH2`: Output Override Value for PWMH output of the channel 2
#[allow(non_camel_case_types)]
#[derive(Clone, Copy, Debug, PartialEq, Eq, Structural)]
pub struct OOVH2_R {
    bits: bool,
}

impl View for OOVH2_R {
    type V = bool;

    closed spec fn view(&self) -> bool {
        self.bits
    }
}

impl OOVH2_R {
    /// A reader that holds the given field value.
    pub fn new(bits: bool) -> (ret: Self)
        ensures
            ret@ == bits,
    {
        OOVH2_R { bits }
    }

    /// The value of the bit.
    pub fn bit(&self) -> (ret: bool)
        ensures
            ret == self@,
    {
        self.bits
    }

    /// Whether the bit is set.
    pub fn bit_is_set(&self) -> (ret: bool)
        ensures
            ret == self@,
    {
        self.bits
    }

    /// Whether the bit is clear.
    pub fn bit_is_clear(&self) -> (ret: bool)
        ensures
            ret == !self@,
    {
        !self.bits
    }
}

/// Reader of the field `OOVH3`: Output Override Value for PWMH output of the channel 3
#[allow(non_camel_case_types)]
#[derive(Clone, Copy, Debug, PartialEq, Eq, Structural)]
pub struct OOVH3_R {
    bits: bool,
}

impl View for OOVH3_R {
    type V = bool;

    closed spec fn view(&self) -> bool {
        self.bits
    }
}

impl OOVH3_R {
    /// A reader that holds the given field value.
    pub fn new(bits: bool) -> (ret: Self)
        ensures
            ret@ == bits,
    {
        OOVH3_R { bits }
    }

    /// The value of the bit.
    pub fn bit(&self) -> (ret: bool)
        ensures
            ret == self@,
    {
        self.bits
    }

    /// Whether the bit is set.
    pub fn bit_is_set(&self) -> (ret: bool)
        ensures
            ret == self@,
    {
        self.bits
    }

    /// Whether the bit is clear.
    pub fn bit_is_clear(&self) -> (ret: bool)
        ensures
            ret == !self@,
    {
        !self.bits
    }
}

/// Reader of the field `OOVH4`: Output Override Value for PWMH output of the channel 4
#[allow(non_camel_case_types)]
#[derive(Clone, Copy, Debug, PartialEq, Eq, Structural)]
pub struct OOVH4_R {
    bits: bool,
}

impl View for OOVH4_R {
    type V = bool;

    closed spec fn view(&self) -> bool {
        self.bits
    }
}

impl OOVH4_R {
    /// A reader that holds the given field value.
    pub fn new(bits: bool) -> (ret: Self)
        ensures
            ret@ == bits,
    {
        OOVH4_R { bits }
    }

    /// The value of the bit.
    pub fn bit(&self) -> (ret: bool)
        ensures
            ret == self@,
    {
        self.bits
    }

    /// Whether the bit is set.
    pub fn bit_is_set(&self) -> (ret: bool)
        ensures
            ret == self@,
    {
        self.bits
    }

    /// Whether the bit is clear.
    pub fn bit_is_clear(&self) -> (ret: bool)
        ensures
            ret == !self@,
    {
        !self.bits
    }
}

/// Reader of the field `OOVH5`: Output Override Value for PWMH output of the channel 5
#[allow(non_camel_case_types)]
#[derive(Clone, Copy, Debug, PartialEq, Eq, Structural)]
pub struct OOVH5_R {
    bits: bool,
}

impl View for OOVH5_R {
    type V = bool;

    closed spec fn view(&self) -> bool {
        self.bits
    }
}

impl OOVH5_R {
    /// A reader that holds the given field value.
    pub fn new(bits: bool) -> (ret: Self)
        ensures
            ret@ == bits,
    {
        OOVH5_R { bits }
    }

    /// The value of the bit.
    pub fn bit(&self) -> (ret: bool)
        ensures
            ret == self@,
    {
        self.bits
    }

    /// Whether the bit is set.
    pub fn bit_is_set(&self) -> (ret: bool)
        ensures
            ret == self@,
    {
        self.bits
    }

    /// Whether the bit is clear.
    pub fn bit_is_clear(&self) -> (ret: bool)
        ensures
            ret == !self@,
    {
        !self.bits
    }
}

/// Reader of the field `OOVH6`: Output Override Value for PWMH output of the channel 6
#[allow(non_camel_case_types)]
#[derive(Clone, Copy, Debug, PartialEq, Eq, Structural)]
pub struct OOVH6_R {
    bits: bool,
}

impl View for OOVH6_R {
    type V = bool;

    closed spec fn view(&self) -> bool {
        self.bits
    }
}

impl OOVH6_R {
    /// A reader that holds the given field value.
    pub fn new(bits: bool) -> (ret: Self)
        ensures
            ret@ == bits,
    {
        OOVH6_R { bits }
    }

    /// The value of the bit.
    pub fn bit(&self) -> (ret: bool)
        ensures
            ret == self@,
    {
        self.bits
    }

    /// Whether the bit is set.
    pub fn bit_is_set(&self) -> (ret: bool)
        ensures
            ret == self@,
    {
        self.bits
    }

    /// Whether the bit is clear.
    pub fn bit_is_clear(&self) -> (ret: bool)
        ensures
            ret == !self@,
    {
        !self.bits
    }
}

/// Reader of the field `OOVH7`: Output Override Value for PWMH output of the channel 7
#[allow(non_camel_case_types)]
#[derive(Clone, Copy, Debug, PartialEq, Eq, Structural)]
pub struct OOVH7_R {
    bits: bool,
}

impl View for OOVH7_R {
    type V = bool;

    closed spec fn view(&self) -> bool {
        self.bits
    }
}

impl OOVH7_R {
    /// A reader that holds the given field value.
    pub fn new(bits: bool) -> (ret: Self)
        ensures
            ret@ == bits,
    {
        OOVH7_R { bits }
    }

    /// The value of the bit.
    pub fn bit(&self) -> (ret: bool)
        ensures
            ret == self@,
    {
        self.bits
    }

    /// Whether the bit is set.
    pub fn bit_is_set(&self) -> (ret: bool)
        ensures
            ret == self@,
    {
        self.bits
    }

    /// Whether the bit is clear.
    pub fn bit_is_clear(&self) -> (ret: bool)
        ensures
            ret == !self@,
    {
        !self.bits
    }
}

/// Reader of the field `OOVL0`: Output Override Value for PWML output of the channel 0
#[allow(non_camel_case_types)]
#[derive(Clone, Copy, Debug, PartialEq, Eq, Structural)]
pub struct OOVL0_R {
    bits: bool,
}

impl View for OOVL0_R {
    type V = bool;

    closed spec fn view(&self) -> bool {
        self.bits
    }
}

impl OOVL0_R {
    /// A reader that holds the given field value.
    pub fn new(bits: bool) -> (ret: Self)
        ensures
            ret@ == bits,
    {
        OOVL0_R { bits }
    }

    /// The value of the bit.
    pub fn bit(&self) -> (ret: bool)
        ensures
            ret == self@,
    {
        self.bits
    }

    /// Whether the bit is set.
    pub fn bit_is_set(&self) -> (ret: bool)
        ensures
            ret == self@,
    {
        self.bits
    }

    /// Whether the bit is clear.
    pub fn bit_is_clear(&self) -> (ret: bool)
        ensures
            ret == !self@,
    {
        !self.bits
    }
}

/// Reader of the field `OOVL1`: Output Override Value for PWML output of the channel 1
#[allow(non_camel_case_types)]
#[derive(Clone, Copy, Debug, PartialEq, Eq, Structural)]
pub struct OOVL1_R {
    bits: bool,
}

impl View for OOVL1_R {
    type V = bool;

    closed spec fn view(&self) -> bool {
        self.bits
    }
}

impl OOVL1_R {
    /// A reader that holds the given field value.
    pub fn new(bits: bool) -> (ret: Self)
        ensures
            ret@ == bits,
    {
        OOVL1_R { bits }
    }

    /// The value of the bit.
    pub fn bit(&self) -> (ret: bool)
        ensures
            ret == self@,
    {
        self.bits
    }

    /// Whether the bit is set.
    pub fn bit_is_set(&self) -> (ret: bool)
        ensures
            ret == self@,
    {
        self.bits
    }

    /// Whether the bit is clear.
    pub fn bit_is_clear(&self) -> (ret: bool)
        ensures
            ret == !self@,
    {
        !self.bits
    }
}

/// Reader of the field `OOVL2`: Output Override Value for PWML output of the channel 2
#[allow(non_camel_case_types)]
#[derive(Clone, Copy, Debug, PartialEq, Eq, Structural)]
pub struct OOVL2_R {
    bits: bool,
}

impl View for OOVL2_R {
    type V = bool;

    closed spec fn view(&self) -> bool {
        self.bits
    }
}

impl OOVL2_R {
    /// A reader that holds the given field value.
    pub fn new(bits: bool) -> (ret: Self)
        ensures
            ret@ == bits,
    {
        OOVL2_R { bits }
    }

    /// The value of the bit.
    pub fn bit(&self) -> (ret: bool)
        ensures
            ret == self@,
    {
        self.bits
    }

    /// Whether the bit is set.
    pub fn bit_is_set(&self) -> (ret: bool)
        ensures
            ret == self@,
    {
        self.bits
    }

    /// Whether the bit is clear.
    pub fn bit_is_clear(&self) -> (ret: bool)
        ensures
            ret == !self@,
    {
        !self.bits
    }
}

/// Reader of the field `OOVL3`: Output Override Value for PWML output of the channel 3
#[allow(non_camel_case_types)]
#[derive(Clone, Copy, Debug, PartialEq, Eq, Structural)]
pub struct OOVL3_R {
    bits: bool,
}

impl View for OOVL3_R {
    type V = bool;

    closed spec fn view(&self) -> bool {
        self.bits
    }
}

impl OOVL3_R {
    /// A reader that holds the given field value.
    pub fn new(bits: bool) -> (ret: Self)
        ensures
            ret@ == bits,
    {
        OOVL3_R { bits }
    }

    /// The value of the bit.
    pub fn bit(&self) -> (ret: bool)
        ensures
            ret == self@,
    {
        self.bits
    }

    /// Whether the bit is set.
    pub fn bit_is_set(&self) -> (ret: bool)
        ensures
            ret == self@,
    {
        self.bits
    }

    /// Whether the bit is clear.
    pub fn bit_is_clear(&self) -> (ret: bool)
        ensures
            ret == !self@,
    {
        !self.bits
    }
}

/// Reader of the field `OOVL4`: Output Override Value for PWML output of the channel 4
#[allow(non_camel_case_types)]
#[derive(Clone, Copy, Debug, PartialEq, Eq, Structural)]
pub struct OOVL4_R {
    bits: bool,
}

impl View for OOVL4_R {
    type V = bool;

    closed spec fn view(&self) -> bool {
        self.bits
    }
}

impl OOVL4_R {
    /// A reader that holds the given field value.
    pub fn new(bits: bool) -> (ret: Self)
        ensures
            ret@ == bits,
    {
        OOVL4_R { bits }
    }

    /// The value of the bit.
    pub fn bit(&self) -> (ret: bool)
        ensures
            ret == self@,
    {
        self.bits
    }

    /// Whether the bit is set.
    pub fn bit_is_set(&self) -> (ret: bool)
        ensures
            ret == self@,
    {
        self.bits
    }

    /// Whether the bit is clear.
    pub fn bit_is_clear(&self) -> (ret: bool)
        ensures
            ret == !self@,
    {
        !self.bits
    }
}

/// Reader of the field `OOVL5`: Output Override Value for PWML output of the channel 5
#[allow(non_camel_case_types)]
#[derive(Clone, Copy, Debug, PartialEq, Eq, Structural)]
pub struct OOVL5_R {
    bits: bool,
}

impl View for OOVL5_R {
    type V = bool;

    closed spec fn view(&self) -> bool {
        self.bits
    }
}

impl OOVL5_R {
    /// A reader that holds the given field value.
    pub fn new(bits: bool) -> (ret: Self)
        ensures
            ret@ == bits,
    {
        OOVL5_R { bits }
    }

    /// The value of the bit.
    pub fn bit(&self) -> (ret: bool)
        ensures
            ret == self@,
    {
        self.bits
    }

    /// Whether the bit is set.
    pub fn bit_is_set(&self) -> (ret: bool)
        ensures
            ret == self@,
    {
        self.bits
    }

    /// Whether the bit is clear.
    pub fn bit_is_clear(&self) -> (ret: bool)
        ensures
            ret == !self@,
    {
        !self.bits
    }
}

/// Reader of the field `OOVL6`: Output Override Value for PWML output of the channel 6
#[allow(non_camel_case_types)]
#[derive(Clone, Copy, Debug, PartialEq, Eq, Structural)]
pub struct OOVL6_R {
    bits: bool,
}

impl View for OOVL6_R {
    type V = bool;

    closed spec fn view(&self) -> bool {
        self.bits
    }
}

impl OOVL6_R {
    /// A reader that holds the given field value.
    pub fn new(bits: bool) -> (ret: Self)
        ensures
            ret@ == bits,
    {
        OOVL6_R { bits }
    }

    /// The value of the bit.
    pub fn bit(&self) -> (ret: bool)
        ensures
            ret == self@,
    {
        self.bits
    }

    /// Whether the bit is set.
    pub fn bit_is_set(&self) -> (ret: bool)
        ensures
            ret == self@,
    {
        self.bits
    }

    /// Whether the bit is clear.
    pub fn bit_is_clear(&self) -> (ret: bool)
        ensures
            ret == !self@,
    {
        !self.bits
    }
}

/// Reader of the field `OOVL7`: Output Override Value for PWML output of the channel 7
#[allow(non_camel_case_types)]
#[derive(Clone, Copy, Debug, PartialEq, Eq, Structural)]
pub struct OOVL7_R {
    bits: bool,
}

impl View for OOVL7_R {
    type V = bool;

    closed spec fn view(&self) -> bool {
        self.bits
    }
}

impl OOVL7_R {
    /// A reader that holds the given field value.
    pub fn new(bits: bool) -> (ret: Self)
        ensures
            ret@ == bits,
    {
        OOVL7_R { bits }
    }

    /// The value of the bit.
    pub fn bit(&self) -> (ret: bool)
        ensures
            ret == self@,
    {
        self.bits
    }

    /// Whether the bit is set.
    pub fn bit_is_set(&self) -> (ret: bool)
        ensures
            ret == self@,
    {
        self.bits
    }

    /// Whether the bit is clear.
    pub fn bit_is_clear(&self) -> (ret: bool)
        ensures
            ret == !self@,
    {
        !self.bits
    }
}

/// Writer of the field `OOVH0` (at bit 0): Output Override Value for PWMH output of the channel 0
#[allow(non_camel_case_types)]
pub struct OOVH0_W<'a> {
    /// The register value being written.
    pub w: &'a mut W,
}

impl<'a> OOVH0_W<'a> {
    /// Writes the given value to the bit.
    pub fn bit(self, value: bool) -> (ret: &'a mut W)
        ensures
            ret@ == (old(self.w)@ & !(1u32 << 0u32)) | ((if value { 1u32 } else { 0u32 }) << 0u32),
            *final(ret) == *final(self.w),
    {
        self.w.bits = (self.w.bits & !(1u32 << 0u32)) | ((if value { 1u32 } else { 0u32 }) << 0u32);
        self.w
    }

    /// Sets the bit.
    pub fn set_bit(self) -> (ret: &'a mut W)
        ensures
            ret@ == old(self.w)@ | (1u32 << 0u32),
            *final(ret) == *final(self.w),
    {
        self.w.bits = self.w.bits | (1u32 << 0u32);
        self.w
    }

    /// Clears the bit.
    pub fn clear_bit(self) -> (ret: &'a mut W)
        ensures
            ret@ == old(self.w)@ & !(1u32 << 0u32),
            *final(ret) == *final(self.w),
    {
        self.w.bits = self.w.bits & !(1u32 << 0u32);
        self.w
    }
}

/// Writer of the field `OOVH1` (at bit 1): Output Override Value for PWMH output of the channel 1
#[allow(non_camel_case_types)]
pub struct OOVH1_W<'a> {
    /// The register value being written.
    pub w: &'a mut W,
}

impl<'a> OOVH1_W<'a> {
    /// Writes the given value to the bit.
    pub fn bit(self, value: bool) -> (ret: &'a mut W)
        ensures
            ret@ == (old(self.w)@ & !(1u32 << 1u32)) | ((if value { 1u32 } else { 0u32 }) << 1u32),
            *final(ret) == *final(self.w),
    {
        self.w.bits = (self.w.bits & !(1u32 << 1u32)) | ((if value { 1u32 } else { 0u32 }) << 1u32);
        self.w
    }

    /// Sets the bit.
    pub fn set_bit(self) -> (ret: &'a mut W)
        ensures
            ret@ == old(self.w)@ | (1u32 << 1u32),
            *final(ret) == *final(self.w),
    {
        self.w.bits = self.w.bits | (1u32 << 1u32);
        self.w
    }

    /// Clears the bit.
    pub fn clear_bit(self) -> (ret: &'a mut W)
        ensures
            ret@ == old(self.w)@ & !(1u32 << 1u32),
            *final(ret) == *final(self.w),
    {
        self.w.bits = self.w.bits & !(1u32 << 1u32);
        self.w
    }
}

/// Writer of the field `OOVH2` (at bit 2): Output Override Value for PWMH output of the channel 2
#[allow(non_camel_case_types)]
pub struct OOVH2_W<'a> {
    /// The register value being written.
    pub w: &'a mut W,
}

impl<'a> OOVH2_W<'a> {
    /// Writes the given value to the bit.
    pub fn bit(self, value: bool) -> (ret: &'a mut W)
        ensures
            ret@ == (old(self.w)@ & !(1u32 << 2u32)) | ((if value { 1u32 } else { 0u32 }) << 2u32),
            *final(ret) == *final(self.w),
    {
        self.w.bits = (self.w.bits & !(1u32 << 2u32)) | ((if value { 1u32 } else { 0u32 }) << 2u32);
        self.w
    }

    /// Sets the bit.
    pub fn set_bit(self) -> (ret: &'a mut W)
        ensures
            ret@ == old(self.w)@ | (1u32 << 2u32),
            *final(ret) == *final(self.w),
    {
        self.w.bits = self.w.bits | (1u32 << 2u32);
        self.w
    }

    /// Clears the bit.
    pub fn clear_bit(self) -> (ret: &'a mut W)
        ensures
            ret@ == old(self.w)@ & !(1u32 << 2u32),
            *final(ret) == *final(self.w),
    {
        self.w.bits = self.w.bits & !(1u32 << 2u32);
        self.w
    }
}

/// Writer of the field `OOVH3` (at bit 3): Output Override Value for PWMH output of the channel 3
#[allow(non_camel_case_types)]
pub struct OOVH3_W<'a> {
    /// The register value being written.
    pub w: &'a mut W,
}

impl<'a> OOVH3_W<'a> {
    /// Writes the given value to the bit.
    pub fn bit(self, value: bool) -> (ret: &'a mut W)
        ensures
            ret@ == (old(self.w)@ & !(1u32 << 3u32)) | ((if value { 1u32 } else { 0u32 }) << 3u32),
            *final(ret) == *final(self.w),
    {
        self.w.bits = (self.w.bits & !(1u32 << 3u32)) | ((if value { 1u32 } else { 0u32 }) << 3u32);
        self.w
    }

    /// Sets the bit.
    pub fn set_bit(self) -> (ret: &'a mut W)
        ensures
            ret@ == old(self.w)@ | (1u32 << 3u32),
            *final(ret) == *final(self.w),
    {
        self.w.bits = self.w.bits | (1u32 << 3u32);
        self.w
    }

    /// Clears the bit.
    pub fn clear_bit(self) -> (ret: &'a mut W)
        ensures
            ret@ == old(self.w)@ & !(1u32 << 3u32),
            *final(ret) == *final(self.w),
    {
        self.w.bits = self.w.bits & !(1u32 << 3u32);
        self.w
    }
}

/// Writer of the field `OOVH4` (at bit 4): Output Override Value for PWMH output of the channel 4
#[allow(non_camel_case_types)]
pub struct OOVH4_W<'a> {
    /// The register value being written.
    pub w: &'a mut W,
}

impl<'a> OOVH4_W<'a> {
    /// Writes the given value to the bit.
    pub fn bit(self, value: bool) -> (ret: &'a mut W)
        ensures
            ret@ == (old(self.w)@ & !(1u32 << 4u32)) | ((if value { 1u32 } else { 0u32 }) << 4u32),
            *final(ret) == *final(self.w),
    {
        self.w.bits = (self.w.bits & !(1u32 << 4u32)) | ((if value { 1u32 } else { 0u32 }) << 4u32);
        self.w
    }

    /// Sets the bit.
    pub fn set_bit(self) -> (ret: &'a mut W)
        ensures
            ret@ == old(self.w)@ | (1u32 << 4u32),
            *final(ret) == *final(self.w),
    {
        self.w.bits = self.w.bits | (1u32 << 4u32);
        self.w
    }

    /// Clears the bit.
    pub fn clear_bit(self) -> (ret: &'a mut W)
        ensures
            ret@ == old(self.w)@ & !(1u32 << 4u32),
            *final(ret) == *final(self.w),
    {
        self.w.bits = self.w.bits & !(1u32 << 4u32);
        self.w
    }
}

/// Writer of the field `OOVH5` (at bit 5): Output Override Value for PWMH output of the channel 5
#[allow(non_camel_case_types)]
pub struct OOVH5_W<'a> {
    /// The register value being written.
    pub w: &'a mut W,
}

impl<'a> OOVH5_W<'a> {
    /// Writes the given value to the bit.
    pub fn bit(self, value: bool) -> (ret: &'a mut W)
        ensures
            ret@ == (old(self.w)@ & !(1u32 << 5u32)) | ((if value { 1u32 } else { 0u32 }) << 5u32),
            *final(ret) == *final(self.w),
    {
        self.w.bits = (self.w.bits & !(1u32 << 5u32)) | ((if value { 1u32 } else { 0u32 }) << 5u32);
        self.w
    }

    /// Sets the bit.
    pub fn set_bit(self) -> (ret: &'a mut W)
        ensures
            ret@ == old(self.w)@ | (1u32 << 5u32),
            *final(ret) == *final(self.w),
    {
        self.w.bits = self.w.bits | (1u32 << 5u32);
        self.w
    }

    /// Clears the bit.
    pub fn clear_bit(self) -> (ret: &'a mut W)
        ensures
            ret@ == old(self.w)@ & !(1u32 << 5u32),
            *final(ret) == *final(self.w),
    {
        self.w.bits = self.w.bits & !(1u32 << 5u32);
        self.w
    }
}

/// Writer of the field `OOVH6` (at bit 6): Output Override Value for PWMH output of the channel 6
#[allow(non_camel_case_types)]
pub struct OOVH6_W<'a> {
    /// The register value being written.
    pub w: &'a mut W,
}

impl<'a> OOVH6_W<'a> {
    /// Writes the given value to the bit.
    pub fn bit(self, value: bool) -> (ret: &'a mut W)
        ensures
            ret@ == (old(self.w)@ & !(1u32 << 6u32)) | ((if value { 1u32 } else { 0u32 }) << 6u32),
            *final(ret) == *final(self.w),
    {
        self.w.bits = (self.w.bits & !(1u32 << 6u32)) | ((if value { 1u32 } else { 0u32 }) << 6u32);
        self.w
    }

    /// Sets the bit.
    pub fn set_bit(self) -> (ret: &'a mut W)
        ensures
            ret@ == old(self.w)@ | (1u32 << 6u32),
            *final(ret) == *final(self.w),
    {
        self.w.bits = self.w.bits | (1u32 << 6u32);
        self.w
    }

    /// Clears the bit.
    pub fn clear_bit(self) -> (ret: &'a mut W)
        ensures
            ret@ == old(self.w)@ & !(1u32 << 6u32),
            *final(ret) == *final(self.w),
    {
        self.w.bits = self.w.bits & !(1u32 << 6u32);
        self.w
    }
}

/// Writer of the field `OOVH7` (at bit 7): Output Override Value for PWMH output of the channel 7
#[allow(non_camel_case_types)]
pub struct OOVH7_W<'a> {
    /// The register value being written.
    pub w: &'a mut W,
}

impl<'a> OOVH7_W<'a> {
    /// Writes the given value to the bit.
    pub fn bit(self, value: bool) -> (ret: &'a mut W)
        ensures
            ret@ == (old(self.w)@ & !(1u32 << 7u32)) | ((if value { 1u32 } else { 0u32 }) << 7u32),
            *final(ret) == *final(self.w),
    {
        self.w.bits = (self.w.bits & !(1u32 << 7u32)) | ((if value { 1u32 } else { 0u32 }) << 7u32);
        self.w
    }

    /// Sets the bit.
    pub fn set_bit(self) -> (ret: &'a mut W)
        ensures
            ret@ == old(self.w)@ | (1u32 << 7u32),
            *final(ret) == *final(self.w),
    {
        self.w.bits = self.w.bits | (1u32 << 7u32);
        self.w
    }

    /// Clears the bit.
    pub fn clear_bit(self) -> (ret: &'a mut W)
        ensures
            ret@ == old(self.w)@ & !(1u32 << 7u32),
            *final(ret) == *final(self.w),
    {
        self.w.bits = self.w.bits & !(1u32 << 7u32);
        self.w
    }
}

/// Writer of the field `OOVL0` (at bit 16): Output Override Value for PWML output of the channel 0
#[allow(non_camel_case_types)]
pub struct OOVL0_W<'a> {
    /// The register value being written.
    pub w: &'a mut W,
}

impl<'a> OOVL0_W<'a> {
    /// Writes the given value to the bit.
    pub fn bit(self, value: bool) -> (ret: &'a mut W)
        ensures
            ret@ == (old(self.w)@ & !(1u32 << 16u32)) | ((if value { 1u32 } else { 0u32 }) << 16u32),
            *final(ret) == *final(self.w),
    {
        self.w.bits = (self.w.bits & !(1u32 << 16u32)) | ((if value { 1u32 } else { 0u32 }) << 16u32);
        self.w
    }

    /// Sets the bit.
    pub fn set_bit(self) -> (ret: &'a mut W)
        ensures
            ret@ == old(self.w)@ | (1u32 << 16u32),
            *final(ret) == *final(self.w),
    {
        self.w.bits = self.w.bits | (1u32 << 16u32);
        self.w
    }

    /// Clears the bit.
    pub fn clear_bit(self) -> (ret: &'a mut W)
        ensures
            ret@ == old(self.w)@ & !(1u32 << 16u32),
            *final(ret) == *final(self.w),
    {
        self.w.bits = self.w.bits & !(1u32 << 16u32);
        self.w
    }
}

/// Writer of the field `OOVL1` (at bit 17): Output Override Value for PWML output of the channel 1
#[allow(non_camel_case_types)]
pub struct OOVL1_W<'a> {
    /// The register value being written.
    pub w: &'a mut W,
}

impl<'a> OOVL1_W<'a> {
    /// Writes the given value to the bit.
    pub fn bit(self, value: bool) -> (ret: &'a mut W)
        ensures
            ret@ == (old(self.w)@ & !(1u32 << 17u32)) | ((if value { 1u32 } else { 0u32 }) << 17u32),
            *final(ret) == *final(self.w),
    {
        self.w.bits = (self.w.bits & !(1u32 << 17u32)) | ((if value { 1u32 } else { 0u32 }) << 17u32);
        self.w
    }

    /// Sets the bit.
    pub fn set_bit(self) -> (ret: &'a mut W)
        ensures
            ret@ == old(self.w)@ | (1u32 << 17u32),
            *final(ret) == *final(self.w),
    {
        self.w.bits = self.w.bits | (1u32 << 17u32);
        self.w
    }

    /// Clears the bit.
    pub fn clear_bit(self) -> (ret: &'a mut W)
        ensures
            ret@ == old(self.w)@ & !(1u32 << 17u32),
            *final(ret) == *final(self.w),
    {
        self.w.bits = self.w.bits & !(1u32 << 17u32);
        self.w
    }
}

/// Writer of the field `OOVL2` (at bit 18): Output Override Value for PWML output of the channel 2
#[allow(non_camel_case_types)]
pub struct OOVL2_W<'a> {
    /// The register value being written.
    pub w: &'a mut W,
}

impl<'a> OOVL2_W<'a> {
    /// Writes the given value to the bit.
    pub fn bit(self, value: bool) -> (ret: &'a mut W)
        ensures
            ret@ == (old(self.w)@ & !(1u32 << 18u32)) | ((if value { 1u32 } else { 0u32 }) << 18u32),
            *final(ret) == *final(self.w),
    {
        self.w.bits = (self.w.bits & !(1u32 << 18u32)) | ((if value { 1u32 } else { 0u32 }) << 18u32);
        self.w
    }

    /// Sets the bit.
    pub fn set_bit(self) -> (ret: &'a mut W)
        ensures
            ret@ == old(self.w)@ | (1u32 << 18u32),
            *final(ret) == *final(self.w),
    {
        self.w.bits = self.w.bits | (1u32 << 18u32);
        self.w
    }

    /// Clears the bit.
    pub fn clear_bit(self) -> (ret: &'a mut W)
        ensures
            ret@ == old(self.w)@ & !(1u32 << 18u32),
            *final(ret) == *final(self.w),
    {
        self.w.bits = self.w.bits & !(1u32 << 18u32);
        self.w
    }
}

/// Writer of the field `OOVL3` (at bit 19): Output Override Value for PWML output of the channel 3
#[allow(non_camel_case_types)]
pub struct OOVL3_W<'a> {
    /// The register value being written.
    pub w: &'a mut W,
}

impl<'a> OOVL3_W<'a> {
    /// Writes the given value to the bit.
    pub fn bit(self, value: bool) -> (ret: &'a mut W)
        ensures
            ret@ == (old(self.w)@ & !(1u32 << 19u32)) | ((if value { 1u32 } else { 0u32 }) << 19u32),
            *final(ret) == *final(self.w),
    {
        self.w.bits = (self.w.bits & !(1u32 << 19u32)) | ((if value { 1u32 } else { 0u32 }) << 19u32);
        self.w
    }

    /// Sets the bit.
    pub fn set_bit(self) -> (ret: &'a mut W)
        ensures
            ret@ == old(self.w)@ | (1u32 << 19u32),
            *final(ret) == *final(self.w),
    {
        self.w.bits = self.w.bits | (1u32 << 19u32);
        self.w
    }

    /// Clears the bit.
    pub fn clear_bit(self) -> (ret: &'a mut W)
        ensures
            ret@ == old(self.w)@ & !(1u32 << 19u32),
            *final(ret) == *final(self.w),
    {
        self.w.bits = self.w.bits & !(1u32 << 19u32);
        self.w
    }
}

/// Writer of the field `OOVL4` (at bit 20): Output Override Value for PWML output of the channel 4
#[allow(non_camel_case_types)]
pub struct OOVL4_W<'a> {
    /// The register value being written.
    pub w: &'a mut W,
}

impl<'a> OOVL4_W<'a> {
    /// Writes the given value to the bit.
    pub fn bit(self, value: bool) -> (ret: &'a mut W)
        ensures
            ret@ == (old(self.w)@ & !(1u32 << 20u32)) | ((if value { 1u32 } else { 0u32 }) << 20u32),
            *final(ret) == *final(self.w),
    {
        self.w.bits = (self.w.bits & !(1u32 << 20u32)) | ((if value { 1u32 } else { 0u32 }) << 20u32);
        self.w
    }

    /// Sets the bit.
    pub fn set_bit(self) -> (ret: &'a mut W)
        ensures
            ret@ == old(self.w)@ | (1u32 << 20u32),
            *final(ret) == *final(self.w),
    {
        self.w.bits = self.w.bits | (1u32 << 20u32);
        self.w
    }

    /// Clears the bit.
    pub fn clear_bit(self) -> (ret: &'a mut W)
        ensures
            ret@ == old(self.w)@ & !(1u32 << 20u32),
            *final(ret) == *final(self.w),
    {
        self.w.bits = self.w.bits & !(1u32 << 20u32);
        self.w
    }
}

/// Writer of the field `OOVL5` (at bit 21): Output Override Value for PWML output of the channel 5
#[allow(non_camel_case_types)]
pub struct OOVL5_W<'a> {
    /// The register value being written.
    pub w: &'a mut W,
}

impl<'a> OOVL5_W<'a> {
    /// Writes the given value to the bit.
    pub fn bit(self, value: bool) -> (ret: &'a mut W)
        ensures
            ret@ == (old(self.w)@ & !(1u32 << 21u32)) | ((if value { 1u32 } else { 0u32 }) << 21u32),
            *final(ret) == *final(self.w),
    {
        self.w.bits = (self.w.bits & !(1u32 << 21u32)) | ((if value { 1u32 } else { 0u32 }) << 21u32);
        self.w
    }

    /// Sets the bit.
    pub fn set_bit(self) -> (ret: &'a mut W)
        ensures
            ret@ == old(self.w)@ | (1u32 << 21u32),
            *final(ret) == *final(self.w),
    {
        self.w.bits = self.w.bits | (1u32 << 21u32);
        self.w
    }

    /// Clears the bit.
    pub fn clear_bit(self) -> (ret: &'a mut W)
        ensures
            ret@ == old(self.w)@ & !(1u32 << 21u32),
            *final(ret) == *final(self.w),
    {
        self.w.bits = self.w.bits & !(1u32 << 21u32);
        self.w
    }
}

/// Writer of the field `OOVL6` (at bit 22): Output Override Value for PWML output of the channel 6
#[allow(non_camel_case_types)]
pub struct OOVL6_W<'a> {
    /// The register value being written.
    pub w: &'a mut W,
}

impl<'a> OOVL6_W<'a> {
    /// Writes the given value to the bit.
    pub fn bit(self, value: bool) -> (ret: &'a mut W)
        ensures
            ret@ == (old(self.w)@ & !(1u32 << 22u32)) | ((if value { 1u32 } else { 0u32 }) << 22u32),
            *final(ret) == *final(self.w),
    {
        self.w.bits = (self.w.bits & !(1u32 << 22u32)) | ((if value { 1u32 } else { 0u32 }) << 22u32);
        self.w
    }

    /// Sets the bit.
    pub fn set_bit(self) -> (ret: &'a mut W)
        ensures
            ret@ == old(self.w)@ | (1u32 << 22u32),
            *final(ret) == *final(self.w),
    {
        self.w.bits = self.w.bits | (1u32 << 22u32);
        self.w
    }

    /// Clears the bit.
    pub fn clear_bit(self) -> (ret: &'a mut W)
        ensures
            ret@ == old(self.w)@ & !(1u32 << 22u32),
            *final(ret) == *final(self.w),
    {
        self.w.bits = self.w.bits & !(1u32 << 22u32);
        self.w
    }
}

/// Writer of the field `OOVL7` (at bit 23): Output Override Value for PWML output of the channel 7
#[allow(non_camel_case_types)]
pub struct OOVL7_W<'a> {
    /// The register value being written.
    pub w: &'a mut W,
}

impl<'a> OOVL7_W<'a> {
    /// Writes the given value to the bit.
    pub fn bit(self, value: bool) -> (ret: &'a mut W)
        ensures
            ret@ == (old(self.w)@ & !(1u32 << 23u32)) | ((if value { 1u32 } else { 0u32 }) << 23u32),
            *final(ret) == *final(self.w),
    {
        self.w.bits = (self.w.bits & !(1u32 << 23u32)) | ((if value { 1u32 } else { 0u32 }) << 23u32);
        self.w
    }

    /// Sets the bit.
    pub fn set_bit(self) -> (ret: &'a mut W)
        ensures
            ret@ == old(self.w)@ | (1u32 << 23u32),
            *final(ret) == *final(self.w),
    {
        self.w.bits = self.w.bits | (1u32 << 23u32);
        self.w
    }

    /// Clears the bit.
    pub fn clear_bit(self) -> (ret: &'a mut W)
        ensures
            ret@ == old(self.w)@ & !(1u32 << 23u32),
            *final(ret) == *final(self.w),
    {
        self.w.bits = self.w.bits & !(1u32 << 23u32);
        self.w
    }
}

impl R {
    /// The raw value of the register.
    pub fn bits(&self) -> (ret: u32)
        ensures
            ret == self@,
    {
        self.bits
    }

    /// Bit 0 - Output Override Value for PWMH output of the channel 0
    pub fn oovh0(&self) -> (ret: OOVH0_R)
        ensures
            ret@ == ((self@ >> 0u32) & 1u32 != 0),
    {
        OOVH0_R::new(((self.bits >> 0u32) & 1u32) != 0)
    }

    /// Bit 1 - Output Override Value for PWMH output of the channel 1
    pub fn oovh1(&self) -> (ret: OOVH1_R)
        ensures
            ret@ == ((self@ >> 1u32) & 1u32 != 0),
    {
        OOVH1_R::new(((self.bits >> 1u32) & 1u32) != 0)
    }

    /// Bit 2 - Output Override Value for PWMH output of the channel 2
    pub fn oovh2(&self) -> (ret: OOVH2_R)
        ensures
            ret@ == ((self@ >> 2u32) & 1u32 != 0),
    {
        OOVH2_R::new(((self.bits >> 2u32) & 1u32) != 0)
    }

    /// Bit 3 - Output Override Value for PWMH output of the channel 3
    pub fn oovh3(&self) -> (ret: OOVH3_R)
        ensures
            ret@ == ((self@ >> 3u32) & 1u32 != 0),
    {
        OOVH3_R::new(((self.bits >> 3u32) & 1u32) != 0)
    }

    /// Bit 4 - Output Override Value for PWMH output of the channel 4
    pub fn oovh4(&self) -> (ret: OOVH4_R)
        ensures
            ret@ == ((self@ >> 4u32) & 1u32 != 0),
    {
        OOVH4_R::new(((self.bits >> 4u32) & 1u32) != 0)
    }

    /// Bit 5 - Output Override Value for PWMH output of the channel 5
    pub fn oovh5(&self) -> (ret: OOVH5_R)
        ensures
            ret@ == ((self@ >> 5u32) & 1u32 != 0),
    {
        OOVH5_R::new(((self.bits >> 5u32) & 1u32) != 0)
    }

    /// Bit 6 - Output Override Value for PWMH output of the channel 6
    pub fn oovh6(&self) -> (ret: OOVH6_R)
        ensures
            ret@ == ((self@ >> 6u32) & 1u32 != 0),
    {
        OOVH6_R::new(((self.bits >> 6u32) & 1u32) != 0)
    }

    /// Bit 7 - Output Override Value for PWMH output of the channel 7
    pub fn oovh7(&self) -> (ret: OOVH7_R)
        ensures
            ret@ == ((self@ >> 7u32) & 1u32 != 0),
    {
        OOVH7_R::new(((self.bits >> 7u32) & 1u32) != 0)
    }

    /// Bit 16 - Output Override Value for PWML output of the channel 0
    pub fn oovl0(&self) -> (ret: OOVL0_R)
        ensures
            ret@ == ((self@ >> 16u32) & 1u32 != 0),
    {
        OOVL0_R::new(((self.bits >> 16u32) & 1u32) != 0)
    }

    /// Bit 17 - Output Override Value for PWML output of the channel 1
    pub fn oovl1(&self) -> (ret: OOVL1_R)
        ensures
            ret@ == ((self@ >> 17u32) & 1u32 != 0),
    {
        OOVL1_R::new(((self.bits >> 17u32) & 1u32) != 0)
    }

    /// Bit 18 - Output Override Value for PWML output of the channel 2
    pub fn oovl2(&self) -> (ret: OOVL2_R)
        ensures
            ret@ == ((self@ >> 18u32) & 1u32 != 0),
    {
        OOVL2_R::new(((self.bits >> 18u32) & 1u32) != 0)
    }

    /// Bit 19 - Output Override Value for PWML output of the channel 3
    pub fn oovl3(&self) -> (ret: OOVL3_R)
        ensures
            ret@ == ((self@ >> 19u32) & 1u32 != 0),
    {
        OOVL3_R::new(((self.bits >> 19u32) & 1u32) != 0)
    }

    /// Bit 20 - Output Override Value for PWML output of the channel 4
    pub fn oovl4(&self) -> (ret: OOVL4_R)
        ensures
            ret@ == ((self@ >> 20u32) & 1u32 != 0),
    {
        OOVL4_R::new(((self.bits >> 20u32) & 1u32) != 0)
    }

    /// Bit 21 - Output Override Value for PWML output of the channel 5
    pub fn oovl5(&self) -> (ret: OOVL5_R)
        ensures
            ret@ == ((self@ >> 21u32) & 1u32 != 0),
    {
        OOVL5_R::new(((self.bits >> 21u32) & 1u32) != 0)
    }

    /// Bit 22 - Output Override Value for PWML output of the channel 6
    pub fn oovl6(&self) -> (ret: OOVL6_R)
        ensures
            ret@ == ((self@ >> 22u32) & 1u32 != 0),
    {
        OOVL6_R::new(((self.bits >> 22u32) & 1u32) != 0)
    }

    /// Bit 23 - Output Override Value for PWML output of the channel 7
    pub fn oovl7(&self) -> (ret: OOVL7_R)
        ensures
            ret@ == ((self@ >> 23u32) & 1u32 != 0),
    {
        OOVL7_R::new(((self.bits >> 23u32) & 1u32) != 0)
    }
}

impl W {
    /// Bit 0 - Output Override Value for PWMH output of the channel 0
    pub fn oovh0(&mut self) -> (ret: OOVH0_W<'_>)
        ensures
            *ret.w == *old(self),
            *final(ret.w) == *final(self),
    {
        OOVH0_W { w: self }
    }

    /// Bit 1 - Output Override Value for PWMH output of the channel 1
    pub fn oovh1(&mut self) -> (ret: OOVH1_W<'_>)
        ensures
            *ret.w == *old(self),
            *final(ret.w) == *final(self),
    {
        OOVH1_W { w: self }
    }

    /// Bit 2 - Output Override Value for PWMH output of the channel 2
    pub fn oovh2(&mut self) -> (ret: OOVH2_W<'_>)
        ensures
            *ret.w == *old(self),
            *final(ret.w) == *final(self),
    {
        OOVH2_W { w: self }
    }

    /// Bit 3 - Output Override Value for PWMH output of the channel 3
    pub fn oovh3(&mut self) -> (ret: OOVH3_W<'_>)
        ensures
            *ret.w == *old(self),
            *final(ret.w) == *final(self),
    {
        OOVH3_W { w: self }
    }

    /// Bit 4 - Output Override Value for PWMH output of the channel 4
    pub fn oovh4(&mut self) -> (ret: OOVH4_W<'_>)
        ensures
            *ret.w == *old(self),
            *final(ret.w) == *final(self),
    {
        OOVH4_W { w: self }
    }

    /// Bit 5 - Output Override Value for PWMH output of the channel 5
    pub fn oovh5(&mut self) -> (ret: OOVH5_W<'_>)
        ensures
            *ret.w == *old(self),
            *final(ret.w) == *final(self),
    {
        OOVH5_W { w: self }
    }

    /// Bit 6 - Output Override Value for PWMH output of the channel 6
    pub fn oovh6(&mut self) -> (ret: OOVH6_W<'_>)
        ensures
            *ret.w == *old(self),
            *final(ret.w) == *final(self),
    {
        OOVH6_W { w: self }
    }

    /// Bit 7 - Output Override Value for PWMH output of the channel 7
    pub fn oovh7(&mut self) -> (ret: OOVH7_W<'_>)
        ensures
            *ret.w == *old(self),
            *final(ret.w) == *final(self),
    {
        OOVH7_W { w: self }
    }

    /// Bit 16 - Output Override Value for PWML output of the channel 0
    pub fn oovl0(&mut self) -> (ret: OOVL0_W<'_>)
        ensures
            *ret.w == *old(self),
            *final(ret.w) == *final(self),
    {
        OOVL0_W { w: self }
    }

    /// Bit 17 - Output Override Value for PWML output of the channel 1
    pub fn oovl1(&mut self) -> (ret: OOVL1_W<'_>)
        ensures
            *ret.w == *old(self),
            *final(ret.w) == *final(self),
    {
        OOVL1_W { w: self }
    }

    /// Bit 18 - Output Override Value for PWML output of the channel 2
    pub fn oovl2(&mut self) -> (ret: OOVL2_W<'_>)
        ensures
            *ret.w == *old(self),
            *final(ret.w) == *final(self),
    {
        OOVL2_W { w: self }
    }

    /// Bit 19 - Output Override Value for PWML output of the channel 3
    pub fn oovl3(&mut self) -> (ret: OOVL3_W<'_>)
        ensures
            *ret.w == *old(self),
            *final(ret.w) == *final(self),
    {
        OOVL3_W { w: self }
    }

    /// Bit 20 - Output Override Value for PWML output of the channel 4
    pub fn oovl4(&mut self) -> (ret: OOVL4_W<'_>)
        ensures
            *ret.w == *old(self),
            *final(ret.w) == *final(self),
    {
        OOVL4_W { w: self }
    }

    /// Bit 21 - Output Override Value for PWML output of the channel 5
    pub fn oovl5(&mut self) -> (ret: OOVL5_W<'_>)
        ensures
            *ret.w == *old(self),
            *final(ret.w) == *final(self),
    {
        OOVL5_W { w: self }
    }

    /// Bit 22 - Output Override Value for PWML output of the channel 6
    pub fn oovl6(&mut self) -> (ret: OOVL6_W<'_>)
        ensures
            *ret.w == *old(self),
            *final(ret.w) == *final(self),
    {
        OOVL6_W { w: self }
    }

    /// Bit 23 - Output Override Value for PWML output of the channel 7
    pub fn oovl7(&mut self) -> (ret: OOVL7_W<'_>)
        ensures
            *ret.w == *old(self),
            *final(ret.w) == *final(self),
    {
        OOVL7_W { w: self }
    }

    /// Writes raw bits to the register.
    pub fn bits(&mut self, bits: u32) -> (ret: &mut Self)
        ensures
            ret@ == bits,
            *final(ret) == *final(self),
    {
        self.bits = bits;
        self
    }
}

/// PWM Output Override Value Register.
#[allow(non_camel_case_types)]
pub struct OOV_SPEC;

impl Resettable for OOV_SPEC {
    open spec fn reset_spec() -> u32 {
        0
    }

    fn reset_value() -> (ret: u32) {
        0
    }
}

} // verus!
