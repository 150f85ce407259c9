//! Decisions of the serial port driver: the clock divider for a baud rate, which peripheral clock
//! register bits to change, and draining the receive buffer that the interrupt handler fills.

use vstd::prelude::*;
use crate::max_array::MaxArray;
use crate::ring_buffer::RingBuffer;

verus! {

/// The clock divider that makes a serial port run at the given baud rate: the port takes sixteen
/// master clocks per bit.
pub fn usart_clock_divider(clock_speed: u32, bps: u32) -> (ret: u16)
    requires
        bps > 0,
        clock_speed / 16 / bps <= 0xFFFF,
    ensures
        ret == clock_speed / 16 / bps,
{
    ((clock_speed / 16) / bps) as u16
}

/// A write to the peripheral clock enable or disable registers of the power management
/// controller: to those of the second bank (peripherals 32 to 63) or the first, with the given
/// bits set.
#[derive(Clone, Copy, Debug, PartialEq, Eq, Structural)]
pub struct ClockWrite {
    pub second_bank: bool,
    pub mask: u32,
}

/// The write that turns the clock of a peripheral on (`enable`) or off, given the peripheral
/// clock status registers of both banks: none for peripheral numbers from 64 on, and none if the
/// clock already is as wanted.
pub open spec fn clock_write_spec(peripheral_id: u8, status0: u32, status1: u32, enable: bool) -> Option<ClockWrite> {
    if peripheral_id >= 64 {
        None
    } else {
        let second_bank = peripheral_id >= 32;
        let bit = (if second_bank { peripheral_id - 32 } else { peripheral_id as int }) as u32;
        let status = if second_bank { status1 } else { status0 };
        let running = status & (1u32 << bit) != 0;
        if running == enable {
            None
        } else {
            Some(ClockWrite { second_bank, mask: 1u32 << bit })
        }
    }
}

/// Decides how to turn the clock of a peripheral on or off (see [clock_write_spec]).
pub fn peripheral_clock_write(peripheral_id: u8, status0: u32, status1: u32, enable: bool) -> (ret: Option<ClockWrite>)
    ensures
        ret == clock_write_spec(peripheral_id, status0, status1, enable),
{
    if peripheral_id >= 64 {
        return None;
    }
    let second_bank = peripheral_id >= 32;
    let bit: u32 = if second_bank {
        (peripheral_id - 32) as u32
    } else {
        peripheral_id as u32
    };
    let status = if second_bank {
        status1
    } else {
        status0
    };
    let running = status & (1u32 << bit) != 0;
    if running == enable {
        None
    } else {
        Some(ClockWrite { second_bank, mask: 1u32 << bit })
    }
}

/// Empties the receive buffer of a serial port and returns its contents, oldest byte first.
pub fn take_receive_buffer<const N: usize>(ring_buffer: &mut RingBuffer<u8, N>) -> (ret: MaxArray<u8, N>)
    requires
        old(ring_buffer).wf(),
    ensures
        final(ring_buffer).wf(),
        ret@ == old(ring_buffer)@,
        final(ring_buffer)@ == Seq::<u8>::empty(),
{
    let ghost start = ring_buffer@;
    let mut buf: MaxArray<u8, N> = MaxArray::new();
    let n = ring_buffer.len();
    while buf.len() < buf.max_size()
        invariant_except_break
            ring_buffer.wf(),
            start.len() == n,
            n <= N,
            buf@.len() <= n,
            buf@ == start.subrange(0, buf@.len() as int),
            ring_buffer@ == start.subrange(buf@.len() as int, n as int),
        ensures
            ring_buffer.wf(),
            buf@ == start,
            ring_buffer@ == Seq::<u8>::empty(),
        decreases N - buf@.len(),
    {
        let ghost k = buf@.len() as int;
        let byte = match ring_buffer.pop() {
            Some(b) => b,
            None => {
                assert(start.subrange(0, k) =~= start);
                break;
            },
        };
        buf.push(byte).unwrap();
        assert(buf@ =~= start.subrange(0, k + 1));
        assert(ring_buffer@ =~= start.subrange(k + 1, n as int));
    }
    proof {
        if buf@.len() == N {
            assert(start.subrange(0, N as int) =~= start);
            assert(ring_buffer@ =~= Seq::<u8>::empty());
        }
    }
    buf
}

} // verus!
