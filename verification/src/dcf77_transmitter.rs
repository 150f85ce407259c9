//! The decisions of a DCF77 transmitter: how the 77.5 kHz carrier period is trimmed, when the
//! carrier switches between the "data" and the "no data" duty cycle within each second, and when
//! a new minute begins.
//!
//! The caller drives the timers: it reports each elapsed carrier period and each elapsed tenth
//! of a second, and carries out what the functions here decide.

use vstd::prelude::*;
use crate::dcf77::{
    hours_of, minutes_of, set_hours_spec, set_minutes_spec, day_of, month_of, year_of, Dcf77,
    lemma_increment,
};
use crate::hex::hex_digit;

verus! {

/// The whole number of timer counts in one carrier period.
pub const PERIOD_WHOLE: u32 = 518;

/// The numerator of the fractional timer counts in one carrier period.
pub const PERIOD_NUMER: i32 = 0;

/// The denominator of the fractional timer counts in one carrier period.
pub const PERIOD_DENOM: i32 = 31;

/// The timer compare value that ends the "on" part of a carrier period: a duty cycle of 1/44 of
/// the period while "data" is sent, half of it otherwise.
pub open spec fn duty_cycle_spec(period_whole: u32, is_data: bool) -> u32 {
    if is_data {
        period_whole / 44
    } else {
        period_whole / 2
    }
}

/// The state of the carrier generator.
pub struct Carrier {
    /// The accumulated fractional timer counts.
    pub current_numer: i32,
    /// The whole timer counts of the current period.
    pub current_period_whole: u32,
    /// Whether the carrier currently sends "data" (reduced amplitude).
    pub current_is_data: bool,
}

impl Carrier {
    /// The accumulated fraction stays below one timer count.
    pub open spec fn inv(&self) -> bool {
        0 <= self.current_numer < PERIOD_DENOM
    }

    /// A carrier with the nominal period, sending "no data".
    pub fn new() -> (ret: Self)
        ensures
            ret.inv(),
            ret.current_numer == 0,
            ret.current_period_whole == PERIOD_WHOLE,
            !ret.current_is_data,
    {
        Carrier { current_numer: 0, current_period_whole: PERIOD_WHOLE, current_is_data: false }
    }

    /// The timer compare value for the current period and level (see [duty_cycle_spec]).
    pub fn duty_cycle_value(&self) -> (ret: u32)
        ensures
            ret == duty_cycle_spec(self.current_period_whole, self.current_is_data),
    {
        if self.current_is_data {
            self.current_period_whole / 44
        } else {
            self.current_period_whole / 2
        }
    }

    /// Switches between "data" and "no data"; returns the compare value to write to the timer.
    pub fn set_data(&mut self, is_data: bool) -> (ret: u32)
        ensures
            final(self).current_numer == old(self).current_numer,
            final(self).current_period_whole == old(self).current_period_whole,
            final(self).current_is_data == is_data,
            ret == duty_cycle_spec(old(self).current_period_whole, is_data),
    {
        self.current_is_data = is_data;
        self.duty_cycle_value()
    }

    /// A carrier period has elapsed: adds the fractional counts, and once they make up a whole
    /// count, lengthens the next period by one. Returns the compare value to write to the timer
    /// if the period changed.
    pub fn period_elapsed(&mut self) -> (ret: Option<u32>)
        requires
            old(self).inv(),
        ensures
            final(self).inv(),
            final(self).current_is_data == old(self).current_is_data,
            old(self).current_numer + PERIOD_NUMER < PERIOD_DENOM ==> {
                &&& final(self).current_numer == old(self).current_numer + PERIOD_NUMER
                &&& final(self).current_period_whole == PERIOD_WHOLE - 1
                &&& ret == if old(self).current_period_whole != PERIOD_WHOLE - 1 {
                    Some(duty_cycle_spec((PERIOD_WHOLE - 1) as u32, old(self).current_is_data))
                } else {
                    None::<u32>
                }
            },
            old(self).current_numer + PERIOD_NUMER >= PERIOD_DENOM ==> {
                &&& final(self).current_numer == old(self).current_numer + PERIOD_NUMER - PERIOD_DENOM
                &&& final(self).current_period_whole == PERIOD_WHOLE
                &&& ret == Some(duty_cycle_spec(PERIOD_WHOLE, old(self).current_is_data))
            },
    {
        self.current_numer = self.current_numer + PERIOD_NUMER;
        if self.current_numer < PERIOD_DENOM {
            if self.current_period_whole != PERIOD_WHOLE - 1 {
                self.current_period_whole = PERIOD_WHOLE - 1;
                Some(self.duty_cycle_value())
            } else {
                None
            }
        } else {
            self.current_numer = self.current_numer - PERIOD_DENOM;
            self.current_period_whole = PERIOD_WHOLE;
            Some(self.duty_cycle_value())
        }
    }
}

/// The telegram one minute later (see [Dcf77::increment]).
pub open spec fn next_minute(s: Seq<bool>) -> Seq<bool> {
    if minutes_of(s) == 59 {
        set_minutes_spec(set_hours_spec(s, if hours_of(s) == 23 { 0 } else { hours_of(s) + 1 }), 0)
    } else {
        set_minutes_spec(s, minutes_of(s) + 1)
    }
}

/// What the caller does after a tenth of a second: switch the carrier to "data" or "no data"
/// (if `set_data` holds a level), and show the new time (if `refresh_display` is set).
#[derive(Clone, Copy, Debug, PartialEq, Eq, Structural)]
pub struct TickAction {
    pub set_data: Option<bool>,
    pub refresh_display: bool,
}

/// The position within the transmitted minute and the telegram being transmitted.
pub struct Transmitter {
    bit_pos: usize,
    within_second: u8,
    telegram: Dcf77,
}

impl Transmitter {
    /// The second of the minute whose bit is being transmitted.
    pub closed spec fn bit_pos_spec(&self) -> int {
        self.bit_pos as int
    }

    /// The tenths of a second elapsed within the current second.
    pub closed spec fn within_second_spec(&self) -> int {
        self.within_second as int
    }

    /// The bits of the telegram being transmitted.
    pub closed spec fn telegram_spec(&self) -> Seq<bool> {
        self.telegram@
    }

    /// The position lies within a minute, and the telegram holds a valid time.
    pub open spec fn inv(&self) -> bool {
        &&& 0 <= self.bit_pos_spec() < 60
        &&& 0 <= self.within_second_spec() < 10
        &&& self.telegram_spec().len() == 64
        &&& minutes_of(self.telegram_spec()) <= 59
        &&& hours_of(self.telegram_spec()) <= 23
    }

    /// Starts transmitting the given telegram at the start of its first second.
    pub fn new(telegram: Dcf77) -> (ret: Self)
        requires
            minutes_of(telegram@) <= 59,
            hours_of(telegram@) <= 23,
        ensures
            ret.inv(),
            ret.bit_pos_spec() == 0,
            ret.within_second_spec() == 0,
            ret.telegram_spec() == telegram@,
    {
        proof { telegram.lemma_len(); }
        Transmitter { bit_pos: 0, within_second: 0, telegram }
    }

    /// The telegram being transmitted.
    pub fn telegram(&self) -> (ret: &Dcf77)
        ensures
            ret@ == self.telegram_spec(),
    {
        &self.telegram
    }

    /// A tenth of a second has elapsed. At the start of each second the carrier switches to
    /// "data" (except in the last second of the minute, which stays silent); a clear bit ends the
    /// "data" part after a tenth of a second, a set bit after two tenths. After the last second
    /// of a minute, the telegram moves on to the next minute and the display is refreshed.
    pub fn tick(&mut self) -> (ret: TickAction)
        requires
            old(self).inv(),
        ensures
            final(self).inv(),
            ({
                let w = old(self).within_second_spec() + 1;
                let b = old(self).bit_pos_spec() + 1;
                let wraps = w >= 10 && b >= 60;
                let new_w = if w >= 10 { 0 } else { w };
                let new_b = if w >= 10 { if b >= 60 { 0 } else { b } } else { old(self).bit_pos_spec() };
                let t = if wraps { next_minute(old(self).telegram_spec()) } else { old(self).telegram_spec() };
                &&& final(self).within_second_spec() == new_w
                &&& final(self).bit_pos_spec() == new_b
                &&& final(self).telegram_spec() == t
                &&& ret.refresh_display == wraps
                &&& ret.set_data == if new_w == 0 {
                    Some(new_b != 59)
                } else if new_w == 1 && !t[new_b] {
                    Some(false)
                } else if new_w == 2 && t[new_b] {
                    Some(false)
                } else {
                    None::<bool>
                }
            }),
    {
        proof { self.telegram.lemma_len(); }
        let mut refresh_display = false;
        self.within_second = self.within_second + 1;
        if self.within_second >= 10 {
            self.within_second = 0;
            self.bit_pos = self.bit_pos + 1;
            if self.bit_pos >= 60 {
                proof { lemma_increment(self.telegram@); }
                self.telegram.increment();
                refresh_display = true;
                self.bit_pos = 0;
            }
        }
        proof { self.telegram.lemma_len(); }
        let data = self.telegram.get_storage_copy();
        proof { data.lemma_len(); }
        let set_data = if self.within_second == 0 {
            Some(self.bit_pos != 59)
        } else if self.within_second == 1 && !data.is_bit_set(self.bit_pos) {
            Some(false)
        } else if self.within_second == 2 && data.is_bit_set(self.bit_pos) {
            Some(false)
        } else {
            None
        };
        TickAction { set_data, refresh_display }
    }
}

/// The text that shows the date and time of a telegram: "DD.MM.YY HH:MM".
pub open spec fn time_text_spec(s: Seq<bool>) -> Seq<u8> {
    let two = |n: int| seq![hex_digit((n / 10) as u8), hex_digit((n % 10) as u8)];
    two(day_of(s)) + seq![0x2Eu8] + two(month_of(s)) + seq![0x2Eu8] + two(year_of(s)) + seq![0x20u8]
        + two(hours_of(s)) + seq![0x3Au8] + two(minutes_of(s))
}

/// Returns the text that shows the date and time of a telegram: "DD.MM.YY HH:MM".
pub fn time_text(telegram: &Dcf77) -> (ret: [u8; 14])
    ensures
        ret@ == time_text_spec(telegram@),
{
    let date = telegram.get_date();
    let day_buf = crate::dcf77::u8_to_dec(date.day_of_month);
    let mon_buf = crate::dcf77::u8_to_dec(date.month);
    let year_buf = crate::dcf77::u8_to_dec(date.year_of_century);
    let hour_buf = crate::dcf77::u8_to_dec(telegram.get_hours());
    let minute_buf = crate::dcf77::u8_to_dec(telegram.get_minutes());
    let ret = [
        day_buf[0],
        day_buf[1],
        0x2E,
        mon_buf[0],
        mon_buf[1],
        0x2E,
        year_buf[0],
        year_buf[1],
        0x20,
        hour_buf[0],
        hour_buf[1],
        0x3A,
        minute_buf[0],
        minute_buf[1],
    ];
    assert(ret@ =~= time_text_spec(telegram@));
    ret
}

} // verus!
