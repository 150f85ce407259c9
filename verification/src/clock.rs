//! Clock computations for the SAM3X8E: the speed of the master clock as the power management
//! controller is configured, and the clock dividers of the two-wire interface (I²C).

use vstd::prelude::*;

verus! {

/// The minimum frequency of the slow RC oscillator.
pub const CHIP_FREQ_SLCK_RC_MIN: u32 = 20000;
/// The typical frequency of the slow RC oscillator.
pub const CHIP_FREQ_SLCK_RC: u32 = 32000;
/// The maximum frequency of the slow RC oscillator.
pub const CHIP_FREQ_SLCK_RC_MAX: u32 = 44000;
/// The frequency of the main RC oscillator in its 4 MHz setting.
pub const CHIP_FREQ_MAINCK_RC_4MHZ: u32 = 4000000;
/// The frequency of the main RC oscillator in its 8 MHz setting.
pub const CHIP_FREQ_MAINCK_RC_8MHZ: u32 = 8000000;
/// The frequency of the main RC oscillator in its 12 MHz setting.
pub const CHIP_FREQ_MAINCK_RC_12MHZ: u32 = 12000000;
/// The maximum frequency of the processor.
pub const CHIP_FREQ_CPU_MAX: u32 = 84000000;
/// The frequency of the 32 kHz crystal oscillator.
pub const CHIP_FREQ_XTAL_32K: u32 = 32768;
/// The frequency of the 12 MHz crystal oscillator.
pub const CHIP_FREQ_XTAL_12M: u32 = 12000000;
/// The frequency of the USB PLL.
pub const CHIP_FREQ_UTMIPLL: u32 = 480000000;

/// The register fields that determine the speed of the master clock.
#[derive(Clone, Copy, Debug, PartialEq, Eq, Structural)]
pub struct ClockRegisters {
    /// The clock source selection of the master clock register: 0 for the slow clock, 1 for the
    /// main clock, 2 for PLL A, 3 for the USB PLL.
    pub css: u8,
    /// Whether the slow clock runs from the 32 kHz crystal (supply controller status).
    pub oscsel: bool,
    /// Whether the main clock runs from the 12 MHz crystal (main oscillator register).
    pub moscsel: bool,
    /// The frequency selection of the main RC oscillator: 0 for 4 MHz, 1 for 8 MHz, 2 for
    /// 12 MHz.
    pub moscrcf: u8,
    /// The multiplier of PLL A, minus one.
    pub mula: u16,
    /// The divider of PLL A.
    pub diva: u8,
    /// The prescaler of the master clock: the clock is divided by two to this power, or by three
    /// for 7.
    pub pres: u8,
}

/// The frequency of the main clock.
pub open spec fn main_clock_spec(r: ClockRegisters) -> u32 {
    if r.moscsel {
        CHIP_FREQ_XTAL_12M
    } else if r.moscrcf == 1 {
        (CHIP_FREQ_MAINCK_RC_4MHZ * 2) as u32
    } else if r.moscrcf == 2 {
        (CHIP_FREQ_MAINCK_RC_4MHZ * 3) as u32
    } else {
        CHIP_FREQ_MAINCK_RC_4MHZ
    }
}

/// The frequency that enters the prescaler.
pub open spec fn source_clock_spec(r: ClockRegisters) -> u32 {
    if r.css == 2 {
        ((main_clock_spec(r) * (r.mula + 1)) as u32 / r.diva as u32) as u32
    } else if r.css == 3 {
        CHIP_FREQ_UTMIPLL / 2
    } else {
        main_clock_spec(r)
    }
}

/// The speed of the master clock that the register fields configure.
pub open spec fn clock_speed_spec(r: ClockRegisters) -> u32 {
    if r.css == 0 {
        if r.oscsel {
            CHIP_FREQ_XTAL_32K
        } else {
            CHIP_FREQ_SLCK_RC
        }
    } else if r.pres == 7 {
        source_clock_spec(r) / 3
    } else {
        source_clock_spec(r) >> r.pres
    }
}

/// Whether the register fields can be evaluated: PLL A must divide by a nonzero value and its
/// product must fit 32 bits, and the prescaler is a three-bit value.
pub open spec fn clock_registers_valid(r: ClockRegisters) -> bool {
    &&& r.pres <= 7
    &&& r.css == 2 ==> r.diva != 0 && main_clock_spec(r) * (r.mula + 1) <= u32::MAX
}

/// The main clock runs at the frequency of the oscillator that drives it: 12 MHz from the
/// crystal, else 4, 8 or 12 MHz from the RC oscillator as its frequency selection says (4 MHz
/// for the values that select none of these).
pub proof fn lemma_main_clock_frequency(r: ClockRegisters)
    ensures
        r.moscsel ==> main_clock_spec(r) == 12_000_000,
        !r.moscsel && r.moscrcf == 0 ==> main_clock_spec(r) == 4_000_000,
        !r.moscsel && r.moscrcf == 1 ==> main_clock_spec(r) == 8_000_000,
        !r.moscsel && r.moscrcf == 2 ==> main_clock_spec(r) == 12_000_000,
        !r.moscsel && r.moscrcf > 2 ==> main_clock_spec(r) == 4_000_000,
{
}

/// The master clock runs from the slow clock (32.768 kHz crystal or 32 kHz RC oscillator) when
/// that is selected; from the main clock it runs at the main clock frequency divided by two to
/// the power of the prescaler, or by three.
pub proof fn lemma_master_clock_frequency(r: ClockRegisters)
    requires
        clock_registers_valid(r),
    ensures
        r.css == 0 && r.oscsel ==> clock_speed_spec(r) == 32_768,
        r.css == 0 && !r.oscsel ==> clock_speed_spec(r) == 32_000,
        r.css == 1 && r.pres == 0 ==> clock_speed_spec(r) == main_clock_spec(r),
        r.css == 1 && r.pres == 1 ==> clock_speed_spec(r) == main_clock_spec(r) / 2,
        r.css == 1 && r.pres == 2 ==> clock_speed_spec(r) == main_clock_spec(r) / 4,
        r.css == 1 && r.pres == 3 ==> clock_speed_spec(r) == main_clock_spec(r) / 8,
        r.css == 1 && r.pres == 4 ==> clock_speed_spec(r) == main_clock_spec(r) / 16,
        r.css == 1 && r.pres == 5 ==> clock_speed_spec(r) == main_clock_spec(r) / 32,
        r.css == 1 && r.pres == 6 ==> clock_speed_spec(r) == main_clock_spec(r) / 64,
        r.css == 2 ==> source_clock_spec(r) == main_clock_spec(r) * (r.mula + 1) / (r.diva as int),
        r.css == 1 && r.pres == 7 ==> clock_speed_spec(r) == main_clock_spec(r) / 3,
        r.css == 3 && r.pres == 0 ==> clock_speed_spec(r) == 240_000_000,
{
    let m = main_clock_spec(r);
    assert(m >> 0u8 == m && m >> 1u8 == m / 2 && m >> 2u8 == m / 4 && m >> 3u8 == m / 8 && m >> 4u8
        == m / 16 && m >> 5u8 == m / 32 && m >> 6u8 == m / 64) by (bit_vector);
    let u: u32 = 240_000_000;
    assert(u >> 0u8 == u) by (bit_vector);
    assert(CHIP_FREQ_UTMIPLL / 2 == u);
}

/// The speed of the processor's master clock.
pub struct SystemCoreClock {
    pub clock_speed: u32,
}

impl SystemCoreClock {
    /// The clock speed after reset: the main RC oscillator at 4 MHz.
    pub fn new() -> (ret: Self)
        ensures
            ret.clock_speed == CHIP_FREQ_MAINCK_RC_4MHZ,
    {
        SystemCoreClock { clock_speed: CHIP_FREQ_MAINCK_RC_4MHZ }
    }

    /// Recomputes the clock speed from the register fields that configure it.
    pub fn update(&mut self, registers: &ClockRegisters)
        requires
            clock_registers_valid(*registers),
        ensures
            final(self).clock_speed == clock_speed_spec(*registers),
    {
        if registers.css == 0 {
            if registers.oscsel {
                self.clock_speed = CHIP_FREQ_XTAL_32K;
            } else {
                self.clock_speed = CHIP_FREQ_SLCK_RC;
            }
            return;
        }

        if registers.moscsel {
            self.clock_speed = CHIP_FREQ_XTAL_12M;
        } else {
            self.clock_speed = CHIP_FREQ_MAINCK_RC_4MHZ;
            if registers.moscrcf == 1 {
                self.clock_speed = self.clock_speed * 2;
            } else if registers.moscrcf == 2 {
                self.clock_speed = self.clock_speed * 3;
            }
        }

        if registers.css == 2 {
            self.clock_speed = self.clock_speed * (registers.mula as u32 + 1);
            self.clock_speed = self.clock_speed / (registers.diva as u32);
        } else if registers.css == 3 {
            self.clock_speed = CHIP_FREQ_UTMIPLL / 2;
        }

        if registers.pres == 7 {
            self.clock_speed = self.clock_speed / 3;
        } else {
            self.clock_speed = self.clock_speed >> registers.pres;
        }
    }
}

/// The result of halving a divisor until it fits a byte, counting the halvings.
pub open spec fn split_divisor_spec(divisor: u32, power: u8) -> (u32, u8)
    decreases divisor,
{
    if divisor <= 0xFF {
        (divisor, power)
    } else {
        split_divisor_spec(divisor / 2, (power + 1) as u8)
    }
}

/// Splits a clock divisor into a byte-sized divisor and a power of two: the divisor is halved
/// until it fits a byte.
pub fn split_divisor(divisor: u32) -> (ret: (u8, u8))
    ensures
        ret.0 as u32 == split_divisor_spec(divisor, 0).0,
        ret.1 == split_divisor_spec(divisor, 0).1,
{
    let mut d = divisor;
    let mut power: u8 = 0;
    assert(0x1_0000_0000u64 >> 0u64 == 0x1_0000_0000u64) by (bit_vector);
    while d > 0xFF
        invariant
            split_divisor_spec(d, power) == split_divisor_spec(divisor, 0),
            power <= 32 - 8,
            d < 0x1_0000_0000u64 >> (power as u64),
        decreases d,
    {
        assert(d / 2 < 0x1_0000_0000u64 >> ((power + 1) as u64)) by (bit_vector)
            requires
                d < 0x1_0000_0000u64 >> (power as u64),
                power <= 24,
                d > 0xFF,
        ;
        assert(power < 24) by (bit_vector)
            requires
                d < 0x1_0000_0000u64 >> (power as u64),
                power <= 24,
                d > 0xFF,
        ;
        d = d / 2;
        power = power + 1;
    }
    (d as u8, power)
}

/// The clock divisors of the two-wire interface for the given bus speed: a full period of the
/// bus clock (one low and one high phase) takes `clock_speed / i2c_speed` master clocks, and the
/// interface adds four clocks to each phase.
pub fn i2c_speed_divisors(i2c_speed: u32, clock_speed: u32) -> (ret: (u8, u8))
    requires
        0 < i2c_speed <= u32::MAX / 2,
        clock_speed as int / (i2c_speed as int * 2) >= 4,
    ensures
        ret.0 as u32 == split_divisor_spec((clock_speed as int / (i2c_speed as int * 2) - 4) as u32, 0).0,
        ret.1 == split_divisor_spec((clock_speed as int / (i2c_speed as int * 2) - 4) as u32, 0).1,
{
    let delay_value = clock_speed / (i2c_speed * 2) - 4;
    split_divisor(delay_value)
}

/// The clock divisors of the two-wire interface that drives the character display: 4.7 µs per
/// clock phase at the maximum processor frequency.
pub fn display_twi_divisors() -> (ret: (u8, u8))
    ensures
        ret.0 as u32 == split_divisor_spec((CHIP_FREQ_CPU_MAX * 47 / 10_000_000 - 4) as u32, 0).0,
        ret.1 == split_divisor_spec((CHIP_FREQ_CPU_MAX * 47 / 10_000_000 - 4) as u32, 0).1,
{
    let full_divisor: u32 = CHIP_FREQ_CPU_MAX * 47 / 10_000_000 - 4;
    split_divisor(full_divisor)
}

} // verus!
