//! Extensions to the [MaxArray] type.

use vstd::prelude::*;
use crate::max_array::MaxArray;

verus! {

/// The big-endian bytes of a 16-bit value.
pub open spec fn be_u16_bytes(v: u16) -> Seq<u8> {
    seq![(v >> 8u16) as u8, v as u8]
}

/// The little-endian bytes of a 16-bit value.
pub open spec fn le_u16_bytes(v: u16) -> Seq<u8> {
    be_u16_bytes(v).reverse()
}

/// The big-endian bytes of a 32-bit value.
pub open spec fn be_u32_bytes(v: u32) -> Seq<u8> {
    seq![(v >> 24u32) as u8, (v >> 16u32) as u8, (v >> 8u32) as u8, v as u8]
}

/// The little-endian bytes of a 32-bit value.
pub open spec fn le_u32_bytes(v: u32) -> Seq<u8> {
    be_u32_bytes(v).reverse()
}

/// The big-endian bytes of a 64-bit value.
pub open spec fn be_u64_bytes(v: u64) -> Seq<u8> {
    Seq::new(8, |i: int| (v >> ((8 * (7 - i)) as u64)) as u8)
}

/// The little-endian bytes of a 64-bit value.
pub open spec fn le_u64_bytes(v: u64) -> Seq<u8> {
    be_u64_bytes(v).reverse()
}

/// The big-endian bytes of a 128-bit value.
pub open spec fn be_u128_bytes(v: u128) -> Seq<u8> {
    Seq::new(16, |i: int| (v >> ((8 * (15 - i)) as u128)) as u8)
}

/// The little-endian bytes of a 128-bit value.
pub open spec fn le_u128_bytes(v: u128) -> Seq<u8> {
    be_u128_bytes(v).reverse()
}

/// Extensions to [MaxArray<u8>] that allow pushing multi-byte integers.
///
/// A multi-byte value is pushed whole or not at all: if the bytes of the value do not all fit,
/// nothing is pushed and the value is handed back.
pub trait MaxArrayPushIntExt: Sized {
    /// The bytes currently stored.
    spec fn stored_bytes(&self) -> Seq<u8>;

    /// The maximum number of bytes that can be stored.
    spec fn byte_capacity() -> nat;

    /// Whether `extra` more bytes fit.
    open spec fn fits(&self, extra: nat) -> bool {
        self.stored_bytes().len() + extra <= Self::byte_capacity()
    }

    /// Pushes a value that can be converted into an unsigned 8-bit value.
    fn push_any<I: Into<u8>>(&mut self, value: I) -> (ret: Result<(), u8>)
        ensures
            old(self).fits(1) ==> ret is Ok && exists|b: u8| #![trigger call_ensures(I::into, (value,), b)]
                call_ensures(I::into, (value,), b) && final(self).stored_bytes() == old(self).stored_bytes().push(b),
            !old(self).fits(1) ==> ret is Err && final(self).stored_bytes() == old(self).stored_bytes(),
    ;

    /// Pushes an unsigned 8-bit value.
    fn push_u8(&mut self, value: u8) -> (ret: Result<(), u8>)
        ensures
            old(self).fits(1) ==> ret == Ok::<(), u8>(()) && final(self).stored_bytes() == old(self).stored_bytes().push(value),
            !old(self).fits(1) ==> ret == Err::<(), u8>(value) && final(self).stored_bytes() == old(self).stored_bytes(),
    ;

    /// Pushes an unsigned 16-bit value in big-endian order.
    fn push_u16_be(&mut self, value: u16) -> (ret: Result<(), u16>)
        ensures
            old(self).fits(2) ==> ret == Ok::<(), u16>(()) && final(self).stored_bytes() == old(self).stored_bytes() + be_u16_bytes(value),
            !old(self).fits(2) ==> ret == Err::<(), u16>(value) && final(self).stored_bytes() == old(self).stored_bytes(),
    ;

    /// Pushes an unsigned 32-bit value in big-endian order.
    fn push_u32_be(&mut self, value: u32) -> (ret: Result<(), u32>)
        ensures
            old(self).fits(4) ==> ret == Ok::<(), u32>(()) && final(self).stored_bytes() == old(self).stored_bytes() + be_u32_bytes(value),
            !old(self).fits(4) ==> ret == Err::<(), u32>(value) && final(self).stored_bytes() == old(self).stored_bytes(),
    ;

    /// Pushes an unsigned 64-bit value in big-endian order.
    fn push_u64_be(&mut self, value: u64) -> (ret: Result<(), u64>)
        ensures
            old(self).fits(8) ==> ret == Ok::<(), u64>(()) && final(self).stored_bytes() == old(self).stored_bytes() + be_u64_bytes(value),
            !old(self).fits(8) ==> ret == Err::<(), u64>(value) && final(self).stored_bytes() == old(self).stored_bytes(),
    ;

    /// Pushes an unsigned 128-bit value in big-endian order.
    fn push_u128_be(&mut self, value: u128) -> (ret: Result<(), u128>)
        ensures
            old(self).fits(16) ==> ret == Ok::<(), u128>(()) && final(self).stored_bytes() == old(self).stored_bytes() + be_u128_bytes(value),
            !old(self).fits(16) ==> ret == Err::<(), u128>(value) && final(self).stored_bytes() == old(self).stored_bytes(),
    ;

    /// Pushes an unsigned 16-bit value in little-endian order.
    fn push_u16_le(&mut self, value: u16) -> (ret: Result<(), u16>)
        ensures
            old(self).fits(2) ==> ret == Ok::<(), u16>(()) && final(self).stored_bytes() == old(self).stored_bytes() + le_u16_bytes(value),
            !old(self).fits(2) ==> ret == Err::<(), u16>(value) && final(self).stored_bytes() == old(self).stored_bytes(),
    ;

    /// Pushes an unsigned 32-bit value in little-endian order.
    fn push_u32_le(&mut self, value: u32) -> (ret: Result<(), u32>)
        ensures
            old(self).fits(4) ==> ret == Ok::<(), u32>(()) && final(self).stored_bytes() == old(self).stored_bytes() + le_u32_bytes(value),
            !old(self).fits(4) ==> ret == Err::<(), u32>(value) && final(self).stored_bytes() == old(self).stored_bytes(),
    ;

    /// Pushes an unsigned 64-bit value in little-endian order.
    fn push_u64_le(&mut self, value: u64) -> (ret: Result<(), u64>)
        ensures
            old(self).fits(8) ==> ret == Ok::<(), u64>(()) && final(self).stored_bytes() == old(self).stored_bytes() + le_u64_bytes(value),
            !old(self).fits(8) ==> ret == Err::<(), u64>(value) && final(self).stored_bytes() == old(self).stored_bytes(),
    ;

    /// Pushes an unsigned 128-bit value in little-endian order.
    fn push_u128_le(&mut self, value: u128) -> (ret: Result<(), u128>)
        ensures
            old(self).fits(16) ==> ret == Ok::<(), u128>(()) && final(self).stored_bytes() == old(self).stored_bytes() + le_u128_bytes(value),
            !old(self).fits(16) ==> ret == Err::<(), u128>(value) && final(self).stored_bytes() == old(self).stored_bytes(),
    ;

    /// Pushes a signed 8-bit value.
    fn push_i8(&mut self, value: i8) -> (ret: Result<(), i8>)
        ensures
            old(self).fits(1) ==> ret == Ok::<(), i8>(()) && final(self).stored_bytes() == old(self).stored_bytes().push(value as u8),
            !old(self).fits(1) ==> ret == Err::<(), i8>(value) && final(self).stored_bytes() == old(self).stored_bytes(),
    {
        match self.push_u8(value as u8) {
            Ok(()) => Ok(()),
            Err(_) => Err(value),
        }
    }

    /// Pushes a signed 16-bit value in big-endian order.
    fn push_i16_be(&mut self, value: i16) -> (ret: Result<(), i16>)
        ensures
            old(self).fits(2) ==> ret == Ok::<(), i16>(()) && final(self).stored_bytes() == old(self).stored_bytes() + be_u16_bytes(value as u16),
            !old(self).fits(2) ==> ret == Err::<(), i16>(value) && final(self).stored_bytes() == old(self).stored_bytes(),
    {
        match self.push_u16_be(value as u16) {
            Ok(()) => Ok(()),
            Err(_) => Err(value),
        }
    }

    /// Pushes a signed 16-bit value in little-endian order.
    fn push_i16_le(&mut self, value: i16) -> (ret: Result<(), i16>)
        ensures
            old(self).fits(2) ==> ret == Ok::<(), i16>(()) && final(self).stored_bytes() == old(self).stored_bytes() + le_u16_bytes(value as u16),
            !old(self).fits(2) ==> ret == Err::<(), i16>(value) && final(self).stored_bytes() == old(self).stored_bytes(),
    {
        match self.push_u16_le(value as u16) {
            Ok(()) => Ok(()),
            Err(_) => Err(value),
        }
    }

    /// Pushes a signed 32-bit value in big-endian order.
    fn push_i32_be(&mut self, value: i32) -> (ret: Result<(), i32>)
        ensures
            old(self).fits(4) ==> ret == Ok::<(), i32>(()) && final(self).stored_bytes() == old(self).stored_bytes() + be_u32_bytes(value as u32),
            !old(self).fits(4) ==> ret == Err::<(), i32>(value) && final(self).stored_bytes() == old(self).stored_bytes(),
    {
        match self.push_u32_be(value as u32) {
            Ok(()) => Ok(()),
            Err(_) => Err(value),
        }
    }

    /// Pushes a signed 32-bit value in little-endian order.
    fn push_i32_le(&mut self, value: i32) -> (ret: Result<(), i32>)
        ensures
            old(self).fits(4) ==> ret == Ok::<(), i32>(()) && final(self).stored_bytes() == old(self).stored_bytes() + le_u32_bytes(value as u32),
            !old(self).fits(4) ==> ret == Err::<(), i32>(value) && final(self).stored_bytes() == old(self).stored_bytes(),
    {
        match self.push_u32_le(value as u32) {
            Ok(()) => Ok(()),
            Err(_) => Err(value),
        }
    }

    /// Pushes a signed 64-bit value in big-endian order.
    fn push_i64_be(&mut self, value: i64) -> (ret: Result<(), i64>)
        ensures
            old(self).fits(8) ==> ret == Ok::<(), i64>(()) && final(self).stored_bytes() == old(self).stored_bytes() + be_u64_bytes(value as u64),
            !old(self).fits(8) ==> ret == Err::<(), i64>(value) && final(self).stored_bytes() == old(self).stored_bytes(),
    {
        match self.push_u64_be(value as u64) {
            Ok(()) => Ok(()),
            Err(_) => Err(value),
        }
    }

    /// Pushes a signed 64-bit value in little-endian order.
    fn push_i64_le(&mut self, value: i64) -> (ret: Result<(), i64>)
        ensures
            old(self).fits(8) ==> ret == Ok::<(), i64>(()) && final(self).stored_bytes() == old(self).stored_bytes() + le_u64_bytes(value as u64),
            !old(self).fits(8) ==> ret == Err::<(), i64>(value) && final(self).stored_bytes() == old(self).stored_bytes(),
    {
        match self.push_u64_le(value as u64) {
            Ok(()) => Ok(()),
            Err(_) => Err(value),
        }
    }

    /// Pushes a signed 128-bit value in big-endian order.
    fn push_i128_be(&mut self, value: i128) -> (ret: Result<(), i128>)
        ensures
            old(self).fits(16) ==> ret == Ok::<(), i128>(()) && final(self).stored_bytes() == old(self).stored_bytes() + be_u128_bytes(value as u128),
            !old(self).fits(16) ==> ret == Err::<(), i128>(value) && final(self).stored_bytes() == old(self).stored_bytes(),
    {
        match self.push_u128_be(value as u128) {
            Ok(()) => Ok(()),
            Err(_) => Err(value),
        }
    }

    /// Pushes a signed 128-bit value in little-endian order.
    fn push_i128_le(&mut self, value: i128) -> (ret: Result<(), i128>)
        ensures
            old(self).fits(16) ==> ret == Ok::<(), i128>(()) && final(self).stored_bytes() == old(self).stored_bytes() + le_u128_bytes(value as u128),
            !old(self).fits(16) ==> ret == Err::<(), i128>(value) && final(self).stored_bytes() == old(self).stored_bytes(),
    {
        match self.push_u128_le(value as u128) {
            Ok(()) => Ok(()),
            Err(_) => Err(value),
        }
    }
}

impl<const MAX_SIZE: usize> MaxArrayPushIntExt for MaxArray<u8, MAX_SIZE> {
    open spec fn stored_bytes(&self) -> Seq<u8> {
        self@
    }

    open spec fn byte_capacity() -> nat {
        MAX_SIZE as nat
    }

    fn push_any<I: Into<u8>>(&mut self, value: I) -> (ret: Result<(), u8>) {
        let b: u8 = value.into();
        self.push_u8(b)
    }

    fn push_u8(&mut self, value: u8) -> (ret: Result<(), u8>) {
        if self.can_fit(1) {
            let r = self.push(value);
            assert(r is Ok);
            Ok(())
        } else {
            Err(value)
        }
    }

    fn push_u16_be(&mut self, value: u16) -> (ret: Result<(), u16>) {
        if self.can_fit(2) {
            self.push((value >> 8u16) as u8).unwrap();
            self.push(value as u8).unwrap();
            assert(self@ =~= old(self)@ + be_u16_bytes(value));
            Ok(())
        } else {
            Err(value)
        }
    }

    fn push_u16_le(&mut self, value: u16) -> (ret: Result<(), u16>) {
        if self.can_fit(2) {
            self.push(value as u8).unwrap();
            self.push((value >> 8u16) as u8).unwrap();
            assert(self@ =~= old(self)@ + le_u16_bytes(value));
            Ok(())
        } else {
            Err(value)
        }
    }

    fn push_u32_be(&mut self, value: u32) -> (ret: Result<(), u32>) {
        if self.can_fit(4) {
            self.push((value >> 24u32) as u8).unwrap();
            self.push((value >> 16u32) as u8).unwrap();
            self.push((value >> 8u32) as u8).unwrap();
            self.push(value as u8).unwrap();
            assert(self@ =~= old(self)@ + be_u32_bytes(value));
            Ok(())
        } else {
            Err(value)
        }
    }

    fn push_u32_le(&mut self, value: u32) -> (ret: Result<(), u32>) {
        if self.can_fit(4) {
            self.push(value as u8).unwrap();
            self.push((value >> 8u32) as u8).unwrap();
            self.push((value >> 16u32) as u8).unwrap();
            self.push((value >> 24u32) as u8).unwrap();
            assert(self@ =~= old(self)@ + le_u32_bytes(value));
            Ok(())
        } else {
            Err(value)
        }
    }

    fn push_u64_be(&mut self, value: u64) -> (ret: Result<(), u64>) {
        if self.can_fit(8) {
            let mut i: usize = 0;
            while i < 8
                invariant
                    i <= 8,
                    old(self)@.len() + 8 <= MAX_SIZE,
                    self@ == old(self)@ + be_u64_bytes(value).subrange(0, i as int),
                decreases 8 - i,
            {
                let shift: u64 = (8 * (7 - i)) as u64;
                self.push((value >> shift) as u8).unwrap();
                i += 1;
                assert(self@ =~= old(self)@ + be_u64_bytes(value).subrange(0, i as int));
            }
            assert(be_u64_bytes(value).subrange(0, 8) =~= be_u64_bytes(value));
            Ok(())
        } else {
            Err(value)
        }
    }

    fn push_u64_le(&mut self, value: u64) -> (ret: Result<(), u64>) {
        if self.can_fit(8) {
            let mut i: usize = 0;
            while i < 8
                invariant
                    i <= 8,
                    old(self)@.len() + 8 <= MAX_SIZE,
                    self@ == old(self)@ + le_u64_bytes(value).subrange(0, i as int),
                decreases 8 - i,
            {
                let shift: u64 = (8 * i) as u64;
                self.push((value >> shift) as u8).unwrap();
                i += 1;
                assert(self@ =~= old(self)@ + le_u64_bytes(value).subrange(0, i as int));
            }
            assert(le_u64_bytes(value).subrange(0, 8) =~= le_u64_bytes(value));
            Ok(())
        } else {
            Err(value)
        }
    }

    fn push_u128_be(&mut self, value: u128) -> (ret: Result<(), u128>) {
        if self.can_fit(16) {
            let mut i: usize = 0;
            while i < 16
                invariant
                    i <= 16,
                    old(self)@.len() + 16 <= MAX_SIZE,
                    self@ == old(self)@ + be_u128_bytes(value).subrange(0, i as int),
                decreases 16 - i,
            {
                let shift: u128 = (8 * (15 - i)) as u128;
                self.push((value >> shift) as u8).unwrap();
                i += 1;
                assert(self@ =~= old(self)@ + be_u128_bytes(value).subrange(0, i as int));
            }
            assert(be_u128_bytes(value).subrange(0, 16) =~= be_u128_bytes(value));
            Ok(())
        } else {
            Err(value)
        }
    }

    fn push_u128_le(&mut self, value: u128) -> (ret: Result<(), u128>) {
        if self.can_fit(16) {
            let mut i: usize = 0;
            while i < 16
                invariant
                    i <= 16,
                    old(self)@.len() + 16 <= MAX_SIZE,
                    self@ == old(self)@ + le_u128_bytes(value).subrange(0, i as int),
                decreases 16 - i,
            {
                let shift: u128 = (8 * i) as u128;
                self.push((value >> shift) as u8).unwrap();
                i += 1;
                assert(self@ =~= old(self)@ + le_u128_bytes(value).subrange(0, i as int));
            }
            assert(le_u128_bytes(value).subrange(0, 16) =~= le_u128_bytes(value));
            Ok(())
        } else {
            Err(value)
        }
    }
}

} // verus!
