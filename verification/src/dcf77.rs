//! The time telegram of the DCF77 time signal, and the text helpers used to show it.

use vstd::prelude::*;
use crate::bit_field::BitField;
use crate::hex::hex_digit;

verus! {

/// The bits of a DCF77 telegram as this library first builds it.
///
/// The time reads 00:00 on 1970-01-01, a Thursday (day of week 4), in winter time (bit 18); bit
/// 20, the start of the time data, is set as the telegram format demands. All other flags and all
/// parity bits are clear.
pub open spec fn initial_telegram() -> Seq<bool> {
    seq![false, false, false, false, false, false, false, false, false, false, false, false, false, false, false, false, false, false, true, false, true, false, false, false, false, false, false, false, false, false, false, false, false, false, false, false, true, false, false, false, false, false, false, false, true, true, false, false, false, false, false, false, false, false, true, true, true, false, false, false, false, false, false, false]
}

/// The minutes value stored in BCD from bit 21 of `s`.
pub open spec fn minutes_of(s: Seq<bool>) -> int {
    (if s[21] { 1int } else { 0int }) + (if s[22] { 2int } else { 0int }) + (if s[23] { 4int } else { 0int }) + (if s[24] { 8int } else { 0int }) + (if s[25] { 10int } else { 0int }) + (if s[26] { 20int } else { 0int }) + (if s[27] { 40int } else { 0int })
}

/// The hours value stored in BCD from bit 29 of `s`.
pub open spec fn hours_of(s: Seq<bool>) -> int {
    (if s[29] { 1int } else { 0int }) + (if s[30] { 2int } else { 0int }) + (if s[31] { 4int } else { 0int }) + (if s[32] { 8int } else { 0int }) + (if s[33] { 10int } else { 0int }) + (if s[34] { 20int } else { 0int })
}

/// The day value stored in BCD from bit 36 of `s`.
pub open spec fn day_of(s: Seq<bool>) -> int {
    (if s[36] { 1int } else { 0int }) + (if s[37] { 2int } else { 0int }) + (if s[38] { 4int } else { 0int }) + (if s[39] { 8int } else { 0int }) + (if s[40] { 10int } else { 0int }) + (if s[41] { 20int } else { 0int })
}

/// The dow value stored in BCD from bit 42 of `s`.
pub open spec fn dow_of(s: Seq<bool>) -> int {
    (if s[42] { 1int } else { 0int }) + (if s[43] { 2int } else { 0int }) + (if s[44] { 4int } else { 0int })
}

/// The month value stored in BCD from bit 45 of `s`.
pub open spec fn month_of(s: Seq<bool>) -> int {
    (if s[45] { 1int } else { 0int }) + (if s[46] { 2int } else { 0int }) + (if s[47] { 4int } else { 0int }) + (if s[48] { 8int } else { 0int }) + (if s[49] { 10int } else { 0int })
}

/// The year value stored in BCD from bit 50 of `s`.
pub open spec fn year_of(s: Seq<bool>) -> int {
    (if s[50] { 1int } else { 0int }) + (if s[51] { 2int } else { 0int }) + (if s[52] { 4int } else { 0int }) + (if s[53] { 8int } else { 0int }) + (if s[54] { 10int } else { 0int }) + (if s[55] { 20int } else { 0int }) + (if s[56] { 40int } else { 0int }) + (if s[57] { 80int } else { 0int })
}

/// One step of BCD encoding into bit `index`: if the remaining value is at least the weight,
/// the bit is set, the weight is taken off the value and the parity flips; otherwise the bit is
/// cleared.
pub open spec fn bcd_step(st: (Seq<bool>, int, bool), index: int, weight: int) -> (Seq<bool>, int, bool) {
    if st.1 >= weight {
        (st.0.update(index, true), st.1 - weight, !st.2)
    } else {
        (st.0.update(index, false), st.1, st.2)
    }
}

/// The telegram bits after writing the minutes (bits 21 to 27, tens first) and their parity
/// (bit 28).
pub open spec fn set_minutes_spec(s: Seq<bool>, minutes: int) -> Seq<bool> {
    let st = bcd_step(bcd_step(bcd_step(bcd_step(bcd_step(bcd_step(bcd_step(
        (s, minutes, false), 27, 40), 26, 20), 25, 10), 24, 8), 23, 4), 22, 2), 21, 1);
    st.0.update(28, st.2)
}

/// The telegram bits after writing the hours (bits 29 to 34, tens first) and their parity
/// (bit 35).
pub open spec fn set_hours_spec(s: Seq<bool>, hours: int) -> Seq<bool> {
    let st = bcd_step(bcd_step(bcd_step(bcd_step(bcd_step(bcd_step(
        (s, hours, false), 34, 20), 33, 10), 32, 8), 31, 4), 30, 2), 29, 1);
    st.0.update(35, st.2)
}

/// The telegram bits after writing a date (day of month, day of week, month and year, each in
/// BCD with the tens first) and the parity over all of them (bit 58).
pub open spec fn set_date_spec(s: Seq<bool>, date: Dcf77Date) -> Seq<bool> {
    let d = set_day_spec(s, date.day_of_month as int, false);
    let w = set_dow_spec(d.0, date.day_of_week as int, d.1);
    let m = set_month_spec(w.0, date.month as int, w.1);
    let y = set_year_spec(m.0, date.year_of_century as int, m.1);
    y.0.update(58, y.1)
}

/// The telegram bits after writing the day of month (bits 36 to 41), and the parity so far.
#[verifier::opaque]
pub open spec fn set_day_spec(s: Seq<bool>, day: int, parity: bool) -> (Seq<bool>, bool) {
    let st = bcd_step(bcd_step(bcd_step(bcd_step(bcd_step(bcd_step(
        (s, day, parity), 41, 20), 40, 10), 39, 8), 38, 4), 37, 2), 36, 1);
    (st.0, st.2)
}

/// The telegram bits after writing the day of week (bits 42 to 44), and the parity so far.
#[verifier::opaque]
pub open spec fn set_dow_spec(s: Seq<bool>, dow: int, parity: bool) -> (Seq<bool>, bool) {
    let st = bcd_step(bcd_step(bcd_step((s, dow, parity), 44, 4), 43, 2), 42, 1);
    (st.0, st.2)
}

/// The telegram bits after writing the month (bits 45 to 49), and the parity so far.
#[verifier::opaque]
pub open spec fn set_month_spec(s: Seq<bool>, month: int, parity: bool) -> (Seq<bool>, bool) {
    let st = bcd_step(bcd_step(bcd_step(bcd_step(bcd_step((s, month, parity), 49, 10), 48, 8), 47, 4), 46, 2),
        45, 1);
    (st.0, st.2)
}

/// The telegram bits after writing the year of the century (bits 50 to 57), and the parity so
/// far.
#[verifier::opaque]
pub open spec fn set_year_spec(s: Seq<bool>, year: int, parity: bool) -> (Seq<bool>, bool) {
    let st = bcd_step(bcd_step(bcd_step(bcd_step(bcd_step(bcd_step(bcd_step(bcd_step(
        (s, year, parity), 57, 80), 56, 40), 55, 20), 54, 10), 53, 8), 52, 4), 51, 2), 50, 1);
    (st.0, st.2)
}

/// The weight of a BCD bit if the bit is set, else zero.
fn bit_weight(storage: &BitField<8>, bit_index: usize, weight: u8) -> (ret: u8)
    requires
        bit_index < 64,
    ensures
        ret == if storage@[bit_index as int] { weight } else { 0 },
{
    proof { storage.lemma_len(); }
    if storage.is_bit_set(bit_index) {
        weight
    } else {
        0
    }
}

/// Writing the minutes and reading them back gives the minutes; the hours and the date stay as
/// they were.
#[verifier::rlimit(50)]
#[verifier::spinoff_prover]
pub proof fn lemma_minutes_roundtrip(s: Seq<bool>, minutes: int)
    requires
        s.len() == 64,
        0 <= minutes <= 59,
    ensures
        minutes_of(set_minutes_spec(s, minutes)) == minutes,
        hours_of(set_minutes_spec(s, minutes)) == hours_of(s),
        day_of(set_minutes_spec(s, minutes)) == day_of(s),
        dow_of(set_minutes_spec(s, minutes)) == dow_of(s),
        month_of(set_minutes_spec(s, minutes)) == month_of(s),
        year_of(set_minutes_spec(s, minutes)) == year_of(s),
{
    let t1 = bcd_step((s, minutes, false), 27, 40);
    let t2 = bcd_step(t1, 26, 20);
    let t3 = bcd_step(t2, 25, 10);
    assert(t3.1 == minutes % 10);
    assert((if t3.0[25] { 10int } else { 0int }) + (if t3.0[26] { 20int } else { 0int }) + (if t3.0[27] { 40int }
        else { 0int }) == minutes - minutes % 10);
    let t4 = bcd_step(t3, 24, 8);
    let t5 = bcd_step(t4, 23, 4);
    let t6 = bcd_step(t5, 22, 2);
    let t7 = bcd_step(t6, 21, 1);
    assert(t7.1 == 0);
    let t = t7.0.update(28, t7.2);
    assert(t == set_minutes_spec(s, minutes));
    assert(t[25] == t3.0[25] && t[26] == t3.0[26] && t[27] == t3.0[27]);
    assert forall|j: int| 29 <= j < 64 implies #[trigger] t[j] == s[j] by {}
}

/// Writing the hours and reading them back gives the hours; the minutes and the date stay as
/// they were.
#[verifier::rlimit(50)]
#[verifier::spinoff_prover]
pub proof fn lemma_hours_roundtrip(s: Seq<bool>, hours: int)
    requires
        s.len() == 64,
        0 <= hours <= 23,
    ensures
        hours_of(set_hours_spec(s, hours)) == hours,
        minutes_of(set_hours_spec(s, hours)) == minutes_of(s),
        day_of(set_hours_spec(s, hours)) == day_of(s),
        dow_of(set_hours_spec(s, hours)) == dow_of(s),
        month_of(set_hours_spec(s, hours)) == month_of(s),
        year_of(set_hours_spec(s, hours)) == year_of(s),
{
    let t1 = bcd_step((s, hours, false), 34, 20);
    let t2 = bcd_step(t1, 33, 10);
    assert(t2.1 == hours % 10);
    let t3 = bcd_step(t2, 32, 8);
    let t4 = bcd_step(t3, 31, 4);
    let t5 = bcd_step(t4, 30, 2);
    let t6 = bcd_step(t5, 29, 1);
    assert(t6.1 == 0);
    let t = t6.0.update(35, t6.2);
    assert(t == set_hours_spec(s, hours));
    assert(t[33] == t2.0[33] && t[34] == t2.0[34]);
    assert forall|j: int| 0 <= j < 29 implies #[trigger] t[j] == s[j] by {}
    assert forall|j: int| 36 <= j < 64 implies #[trigger] t[j] == s[j] by {}
}

/// Writing the day of month stores it in bits 36 to 41 and changes no other bit.
proof fn lemma_set_day(s: Seq<bool>, day: int, parity: bool)
    requires
        s.len() == 64,
        1 <= day <= 31,
    ensures
        set_day_spec(s, day, parity).0.len() == 64,
        day_of(set_day_spec(s, day, parity).0) == day,
        forall|j: int| 0 <= j < 64 && !(36 <= j <= 41) ==> #[trigger] set_day_spec(s, day, parity).0[j] == s[j],
        set_day_spec(s, day, parity).1 == (parity != xor_bits(set_day_spec(s, day, parity).0, 36, 42)),
{
    reveal(set_day_spec);
    reveal_with_fuel(xor_bits, 7);
}

/// Writing the day of week stores it in bits 42 to 44 and changes no other bit.
proof fn lemma_set_dow(s: Seq<bool>, dow: int, parity: bool)
    requires
        s.len() == 64,
        1 <= dow <= 7,
    ensures
        set_dow_spec(s, dow, parity).0.len() == 64,
        dow_of(set_dow_spec(s, dow, parity).0) == dow,
        forall|j: int| 0 <= j < 64 && !(42 <= j <= 44) ==> #[trigger] set_dow_spec(s, dow, parity).0[j] == s[j],
        set_dow_spec(s, dow, parity).1 == (parity != xor_bits(set_dow_spec(s, dow, parity).0, 42, 45)),
{
    reveal(set_dow_spec);
    reveal_with_fuel(xor_bits, 4);
}

/// Writing the month stores it in bits 45 to 49 and changes no other bit.
proof fn lemma_set_month(s: Seq<bool>, month: int, parity: bool)
    requires
        s.len() == 64,
        1 <= month <= 12,
    ensures
        set_month_spec(s, month, parity).0.len() == 64,
        month_of(set_month_spec(s, month, parity).0) == month,
        forall|j: int| 0 <= j < 64 && !(45 <= j <= 49) ==> #[trigger] set_month_spec(s, month, parity).0[j] == s[j],
        set_month_spec(s, month, parity).1 == (parity != xor_bits(set_month_spec(s, month, parity).0, 45, 50)),
{
    reveal(set_month_spec);
    reveal_with_fuel(xor_bits, 6);
}

/// Writing the year stores it in bits 50 to 57 and changes no other bit.
proof fn lemma_set_year(s: Seq<bool>, year: int, parity: bool)
    requires
        s.len() == 64,
        0 <= year <= 99,
    ensures
        set_year_spec(s, year, parity).0.len() == 64,
        year_of(set_year_spec(s, year, parity).0) == year,
        forall|j: int| 0 <= j < 64 && !(50 <= j <= 57) ==> #[trigger] set_year_spec(s, year, parity).0[j] == s[j],
        set_year_spec(s, year, parity).1 == (parity != xor_bits(set_year_spec(s, year, parity).0, 50, 58)),
{
    reveal(set_year_spec);
    reveal_with_fuel(xor_bits, 9);
    let t1 = bcd_step((s, year, parity), 57, 80);
    let t2 = bcd_step(t1, 56, 40);
    let t3 = bcd_step(t2, 55, 20);
    let t4 = bcd_step(t3, 54, 10);
    assert(t4.1 == year % 10);
    assert((if t4.0[54] { 10int } else { 0int }) + (if t4.0[55] { 20int } else { 0int }) + (if t4.0[56] { 40int }
        else { 0int }) + (if t4.0[57] { 80int } else { 0int }) == year - year % 10);
    let t5 = bcd_step(t4, 53, 8);
    let t6 = bcd_step(t5, 52, 4);
    let t7 = bcd_step(t6, 51, 2);
    let t8 = bcd_step(t7, 50, 1);
    assert(t8.1 == 0);
    assert(t8.0[54] == t4.0[54] && t8.0[55] == t4.0[55] && t8.0[56] == t4.0[56] && t8.0[57] == t4.0[57]);
}

/// Writing a valid date and reading it back gives the date; the minutes and the hours stay as
/// they were.
pub proof fn lemma_date_roundtrip(s: Seq<bool>, date: Dcf77Date)
    requires
        s.len() == 64,
        1 <= date.day_of_month <= 31,
        1 <= date.day_of_week <= 7,
        1 <= date.month <= 12,
        date.year_of_century <= 99,
    ensures
        day_of(set_date_spec(s, date)) == date.day_of_month,
        dow_of(set_date_spec(s, date)) == date.day_of_week,
        month_of(set_date_spec(s, date)) == date.month,
        year_of(set_date_spec(s, date)) == date.year_of_century,
        minutes_of(set_date_spec(s, date)) == minutes_of(s),
        hours_of(set_date_spec(s, date)) == hours_of(s),
{
    let d = set_day_spec(s, date.day_of_month as int, false);
    lemma_set_day(s, date.day_of_month as int, false);
    let w = set_dow_spec(d.0, date.day_of_week as int, d.1);
    lemma_set_dow(d.0, date.day_of_week as int, d.1);
    let m = set_month_spec(w.0, date.month as int, w.1);
    lemma_set_month(w.0, date.month as int, w.1);
    let y = set_year_spec(m.0, date.year_of_century as int, m.1);
    lemma_set_year(m.0, date.year_of_century as int, m.1);
    let t = y.0.update(58, y.1);
    assert(t == set_date_spec(s, date));
    assert(day_of(t) == day_of(d.0));
    assert(dow_of(t) == dow_of(w.0));
    assert(month_of(t) == month_of(m.0));
    assert(minutes_of(t) == minutes_of(s));
    assert(hours_of(t) == hours_of(s));
}

/// The parity bit that follows the date makes the number of set bits among bits 36 to 58 even:
/// it is the exclusive or of the bits of the day, the day of week, the month and the year.
pub proof fn lemma_date_parity(s: Seq<bool>, date: Dcf77Date)
    requires
        s.len() == 64,
        1 <= date.day_of_month <= 31,
        1 <= date.day_of_week <= 7,
        1 <= date.month <= 12,
        date.year_of_century <= 99,
    ensures
        set_date_spec(s, date)[58] == xor_bits(set_date_spec(s, date), 36, 58),
{
    let d = set_day_spec(s, date.day_of_month as int, false);
    lemma_set_day(s, date.day_of_month as int, false);
    let w = set_dow_spec(d.0, date.day_of_week as int, d.1);
    lemma_set_dow(d.0, date.day_of_week as int, d.1);
    let m = set_month_spec(w.0, date.month as int, w.1);
    lemma_set_month(w.0, date.month as int, w.1);
    let y = set_year_spec(m.0, date.year_of_century as int, m.1);
    lemma_set_year(m.0, date.year_of_century as int, m.1);
    let t = y.0.update(58, y.1);
    assert(t == set_date_spec(s, date));
    lemma_xor_bits_same(d.0, t, 36, 42);
    lemma_xor_bits_same(w.0, t, 42, 45);
    lemma_xor_bits_same(m.0, t, 45, 50);
    lemma_xor_bits_same(y.0, t, 50, 58);
    lemma_xor_bits_split(t, 36, 42, 58);
    lemma_xor_bits_split(t, 42, 45, 58);
    lemma_xor_bits_split(t, 45, 50, 58);
}

/// Advancing a telegram by a minute moves the minutes on by one, and at the full hour the hours
/// too; the date stays as it was.
pub proof fn lemma_increment(s: Seq<bool>)
    requires
        s.len() == 64,
        minutes_of(s) <= 59,
        hours_of(s) <= 23,
    ensures
        ({
            let t = if minutes_of(s) == 59 {
                set_minutes_spec(set_hours_spec(s, if hours_of(s) == 23 { 0 } else { hours_of(s) + 1 }), 0)
            } else {
                set_minutes_spec(s, minutes_of(s) + 1)
            };
            &&& minutes_of(t) == (minutes_of(s) + 1) % 60
            &&& hours_of(t) == if minutes_of(s) == 59 { (hours_of(s) + 1) % 24 } else { hours_of(s) }
            &&& day_of(t) == day_of(s)
            &&& dow_of(t) == dow_of(s)
            &&& month_of(t) == month_of(s)
            &&& year_of(t) == year_of(s)
        }),
{
    if minutes_of(s) == 59 {
        let h = if hours_of(s) == 23 { 0 } else { hours_of(s) + 1 };
        lemma_hours_roundtrip(s, h);
        lemma_minutes_roundtrip(set_hours_spec(s, h), 0);
    } else {
        lemma_minutes_roundtrip(s, minutes_of(s) + 1);
    }
}

/// Whether an odd number of the bits `lo` to `hi - 1` of `s` are set: their exclusive or.
pub open spec fn xor_bits(s: Seq<bool>, lo: int, hi: int) -> bool
    decreases hi - lo,
{
    if hi <= lo {
        false
    } else {
        xor_bits(s, lo, hi - 1) != s[hi - 1]
    }
}

/// The exclusive or of a range of bits is that of its two halves.
proof fn lemma_xor_bits_split(s: Seq<bool>, lo: int, mid: int, hi: int)
    requires
        lo <= mid <= hi,
    ensures
        xor_bits(s, lo, hi) == (xor_bits(s, lo, mid) != xor_bits(s, mid, hi)),
    decreases hi - mid,
{
    if hi > mid {
        lemma_xor_bits_split(s, lo, mid, hi - 1);
    }
}

/// The exclusive or of a range of bits depends on those bits alone.
proof fn lemma_xor_bits_same(s: Seq<bool>, t: Seq<bool>, lo: int, hi: int)
    requires
        forall|j: int| lo <= j < hi ==> s[j] == t[j],
    ensures
        xor_bits(s, lo, hi) == xor_bits(t, lo, hi),
    decreases hi - lo,
{
    if hi > lo {
        lemma_xor_bits_same(s, t, lo, hi - 1);
    }
}

/// The parity bit that follows the minutes makes the number of set bits among bits 21 to 28
/// even: it is the exclusive or of the minute bits.
pub proof fn lemma_minutes_parity(s: Seq<bool>, minutes: int)
    requires
        s.len() == 64,
        0 <= minutes <= 59,
    ensures
        set_minutes_spec(s, minutes)[28] == xor_bits(set_minutes_spec(s, minutes), 21, 28),
{
    let t1 = bcd_step((s, minutes, false), 27, 40);
    let t2 = bcd_step(t1, 26, 20);
    let t3 = bcd_step(t2, 25, 10);
    let t4 = bcd_step(t3, 24, 8);
    let t5 = bcd_step(t4, 23, 4);
    let t6 = bcd_step(t5, 22, 2);
    let t7 = bcd_step(t6, 21, 1);
    let t = t7.0.update(28, t7.2);
    assert(t == set_minutes_spec(s, minutes));
    reveal_with_fuel(xor_bits, 8);
    assert(t7.2 == (t[21] != t[22] != t[23] != t[24] != t[25] != t[26] != t[27]));
}

/// The minutes are stored in BCD: bits 21 to 24 hold the units digit and bits 25 to 27 the tens
/// digit, each least significant bit first; no bit outside 21 to 28 changes.
pub proof fn lemma_minutes_bcd(s: Seq<bool>, minutes: int)
    requires
        s.len() == 64,
        0 <= minutes <= 59,
    ensures
        ({
            let t = set_minutes_spec(s, minutes);
            let units = minutes % 10;
            let tens = minutes / 10;
            &&& t.len() == 64
            &&& t[21] == (units % 2 == 1)
            &&& t[22] == (units / 2 % 2 == 1)
            &&& t[23] == (units / 4 % 2 == 1)
            &&& t[24] == (units / 8 % 2 == 1)
            &&& t[25] == (tens % 2 == 1)
            &&& t[26] == (tens / 2 % 2 == 1)
            &&& t[27] == (tens / 4 % 2 == 1)
            &&& forall|j: int| 0 <= j < 64 && !(21 <= j <= 28) ==> #[trigger] t[j] == s[j]
        }),
{
    let t1 = bcd_step((s, minutes, false), 27, 40);
    let t2 = bcd_step(t1, 26, 20);
    let t3 = bcd_step(t2, 25, 10);
    let t4 = bcd_step(t3, 24, 8);
    let t5 = bcd_step(t4, 23, 4);
    let t6 = bcd_step(t5, 22, 2);
    let t7 = bcd_step(t6, 21, 1);
    let t = t7.0.update(28, t7.2);
    assert(t == set_minutes_spec(s, minutes));
    assert(t3.1 == minutes % 10);
}

/// The hours are stored in BCD: bits 29 to 32 hold the units digit and bits 33 and 34 the tens
/// digit, each least significant bit first; no bit outside 29 to 35 changes.
pub proof fn lemma_hours_bcd(s: Seq<bool>, hours: int)
    requires
        s.len() == 64,
        0 <= hours <= 23,
    ensures
        ({
            let t = set_hours_spec(s, hours);
            let units = hours % 10;
            let tens = hours / 10;
            &&& t.len() == 64
            &&& t[29] == (units % 2 == 1)
            &&& t[30] == (units / 2 % 2 == 1)
            &&& t[31] == (units / 4 % 2 == 1)
            &&& t[32] == (units / 8 % 2 == 1)
            &&& t[33] == (tens % 2 == 1)
            &&& t[34] == (tens / 2 % 2 == 1)
            &&& forall|j: int| 0 <= j < 64 && !(29 <= j <= 35) ==> #[trigger] t[j] == s[j]
        }),
{
    let t1 = bcd_step((s, hours, false), 34, 20);
    let t2 = bcd_step(t1, 33, 10);
    let t3 = bcd_step(t2, 32, 8);
    let t4 = bcd_step(t3, 31, 4);
    let t5 = bcd_step(t4, 30, 2);
    let t6 = bcd_step(t5, 29, 1);
    let t = t6.0.update(35, t6.2);
    assert(t == set_hours_spec(s, hours));
    assert(t2.1 == hours % 10);
}

/// The parity bit that follows the hours makes the number of set bits among bits 29 to 35
/// even: it is the exclusive or of the hour bits.
pub proof fn lemma_hours_parity(s: Seq<bool>, hours: int)
    requires
        s.len() == 64,
        0 <= hours <= 23,
    ensures
        set_hours_spec(s, hours)[35] == xor_bits(set_hours_spec(s, hours), 29, 35),
{
    let t1 = bcd_step((s, hours, false), 34, 20);
    let t2 = bcd_step(t1, 33, 10);
    let t3 = bcd_step(t2, 32, 8);
    let t4 = bcd_step(t3, 31, 4);
    let t5 = bcd_step(t4, 30, 2);
    let t6 = bcd_step(t5, 29, 1);
    let t = t6.0.update(35, t6.2);
    assert(t == set_hours_spec(s, hours));
    reveal_with_fuel(xor_bits, 7);
    assert(t6.2 == (t[29] != t[30] != t[31] != t[32] != t[33] != t[34]));
}

/// One step of BCD encoding into the telegram (see [bcd_step]).
fn bcd_bit(storage: &mut BitField<8>, bit_index: usize, variable: &mut u8, value: u8, parity: &mut bool)
    requires
        bit_index < 64,
    ensures
        (final(storage)@, *final(variable) as int, *final(parity)) == bcd_step(
            (old(storage)@, *old(variable) as int, *old(parity)),
            bit_index as int,
            value as int,
        ),
{
    proof { storage.lemma_len(); }
    if *variable >= value {
        *variable = *variable - value;
        storage.set_bit(bit_index);
        *parity = !*parity;
    } else {
        storage.clear_bit(bit_index);
    }
}

/// Writes the day of month into the telegram (see [set_day_spec]).
fn set_day(storage: &mut BitField<8>, day: u8, parity: &mut bool)
    ensures
        (final(storage)@, *final(parity)) == set_day_spec(old(storage)@, day as int, *old(parity)),
{
    proof { reveal(set_day_spec); }
    let mut day = day;
    bcd_bit(storage, 41, &mut day, 20, parity);
    bcd_bit(storage, 40, &mut day, 10, parity);
    bcd_bit(storage, 39, &mut day, 8, parity);
    bcd_bit(storage, 38, &mut day, 4, parity);
    bcd_bit(storage, 37, &mut day, 2, parity);
    bcd_bit(storage, 36, &mut day, 1, parity);
}

/// Writes the day of week into the telegram (see [set_dow_spec]).
fn set_dow(storage: &mut BitField<8>, dow: u8, parity: &mut bool)
    ensures
        (final(storage)@, *final(parity)) == set_dow_spec(old(storage)@, dow as int, *old(parity)),
{
    proof { reveal(set_dow_spec); }
    let mut dow = dow;
    bcd_bit(storage, 44, &mut dow, 4, parity);
    bcd_bit(storage, 43, &mut dow, 2, parity);
    bcd_bit(storage, 42, &mut dow, 1, parity);
}

/// Writes the month into the telegram (see [set_month_spec]).
fn set_month(storage: &mut BitField<8>, month: u8, parity: &mut bool)
    ensures
        (final(storage)@, *final(parity)) == set_month_spec(old(storage)@, month as int, *old(parity)),
{
    proof { reveal(set_month_spec); }
    let mut month = month;
    bcd_bit(storage, 49, &mut month, 10, parity);
    bcd_bit(storage, 48, &mut month, 8, parity);
    bcd_bit(storage, 47, &mut month, 4, parity);
    bcd_bit(storage, 46, &mut month, 2, parity);
    bcd_bit(storage, 45, &mut month, 1, parity);
}

/// Writes the year of the century into the telegram (see [set_year_spec]).
fn set_year(storage: &mut BitField<8>, year: u8, parity: &mut bool)
    ensures
        (final(storage)@, *final(parity)) == set_year_spec(old(storage)@, year as int, *old(parity)),
{
    proof { reveal(set_year_spec); }
    let mut year = year;
    bcd_bit(storage, 57, &mut year, 80, parity);
    bcd_bit(storage, 56, &mut year, 40, parity);
    bcd_bit(storage, 55, &mut year, 20, parity);
    bcd_bit(storage, 54, &mut year, 10, parity);
    bcd_bit(storage, 53, &mut year, 8, parity);
    bcd_bit(storage, 52, &mut year, 4, parity);
    bcd_bit(storage, 51, &mut year, 2, parity);
    bcd_bit(storage, 50, &mut year, 1, parity);
}

/// A calendar date as the DCF77 telegram carries it.
#[derive(Clone, Copy, Debug, PartialEq, Eq, Structural)]
pub struct Dcf77Date {
    pub day_of_month: u8,
    pub day_of_week: u8,
    pub month: u8,
    pub year_of_century: u8,
}

/// The 64 bits of one minute of the DCF77 time signal.
pub struct Dcf77 {
    storage: BitField<8>,
}

impl View for Dcf77 {
    type V = Seq<bool>;

    closed spec fn view(&self) -> Seq<bool> {
        self.storage@
    }
}

impl Dcf77 {
    /// A telegram holds 64 bits.
    pub proof fn lemma_len(&self)
        ensures
            self@.len() == 64,
    {
        self.storage.lemma_len();
    }

    /// Creates the initial telegram (see [initial_telegram]).
    pub fn new() -> (ret: Self)
        ensures
            ret@ == initial_telegram(),
    {
        let mut storage = BitField::from_bytes([0u8; 8]);
        let bits: [bool; 64] = [false, false, false, false, false, false, false, false, false, false, false, false, false, false, false, false, false, false, true, false, true, false, false, false, false, false, false, false, false, false, false, false, false, false, false, false, true, false, false, false, false, false, false, false, true, true, false, false, false, false, false, false, false, false, true, true, true, false, false, false, false, false, false, false];
        proof { storage.lemma_len(); }
        storage.fill_with_bits(&bits);
        assert(storage@ =~= initial_telegram());
        Dcf77 { storage }
    }

    /// Whether the flag for abnormal transmitter operation (bit 15) is set.
    pub fn is_abnormal_operation(&self) -> (ret: bool)
        ensures
            ret == self@[15],
    {
        proof { self.storage.lemma_len(); }
        self.storage.is_bit_set(15)
    }

    /// Sets or clears the flag for abnormal transmitter operation (bit 15).
    pub fn set_abnormal_operation(&mut self, new_value: bool)
        ensures
            final(self)@ == old(self)@.update(15, new_value),
    {
        proof { self.storage.lemma_len(); }
        if new_value {
            self.storage.set_bit(15);
        } else {
            self.storage.clear_bit(15);
        }
    }
    /// Whether the flag for a summer/winter time changeover on the next hour (bit 16) is set.
    pub fn is_time_switchover_next_hour(&self) -> (ret: bool)
        ensures
            ret == self@[16],
    {
        proof { self.storage.lemma_len(); }
        self.storage.is_bit_set(16)
    }

    /// Sets or clears the flag for a summer/winter time changeover on the next hour (bit 16).
    pub fn set_time_switchover_next_hour(&mut self, new_value: bool)
        ensures
            final(self)@ == old(self)@.update(16, new_value),
    {
        proof { self.storage.lemma_len(); }
        if new_value {
            self.storage.set_bit(16);
        } else {
            self.storage.clear_bit(16);
        }
    }
    /// Whether the flag for summer time being in effect (bit 17) is set.
    pub fn is_summer_time(&self) -> (ret: bool)
        ensures
            ret == self@[17],
    {
        proof { self.storage.lemma_len(); }
        self.storage.is_bit_set(17)
    }

    /// Sets or clears the flag for summer time being in effect (bit 17).
    pub fn set_summer_time(&mut self, new_value: bool)
        ensures
            final(self)@ == old(self)@.update(17, new_value),
    {
        proof { self.storage.lemma_len(); }
        if new_value {
            self.storage.set_bit(17);
        } else {
            self.storage.clear_bit(17);
        }
    }
    /// Whether the flag for winter time being in effect (bit 18) is set.
    pub fn is_winter_time(&self) -> (ret: bool)
        ensures
            ret == self@[18],
    {
        proof { self.storage.lemma_len(); }
        self.storage.is_bit_set(18)
    }

    /// Sets or clears the flag for winter time being in effect (bit 18).
    pub fn set_winter_time(&mut self, new_value: bool)
        ensures
            final(self)@ == old(self)@.update(18, new_value),
    {
        proof { self.storage.lemma_len(); }
        if new_value {
            self.storage.set_bit(18);
        } else {
            self.storage.clear_bit(18);
        }
    }
    /// Whether the flag for a leap second on the next hour (bit 19) is set.
    pub fn is_leap_second(&self) -> (ret: bool)
        ensures
            ret == self@[19],
    {
        proof { self.storage.lemma_len(); }
        self.storage.is_bit_set(19)
    }

    /// Sets or clears the flag for a leap second on the next hour (bit 19).
    pub fn set_leap_second(&mut self, new_value: bool)
        ensures
            final(self)@ == old(self)@.update(19, new_value),
    {
        proof { self.storage.lemma_len(); }
        if new_value {
            self.storage.set_bit(19);
        } else {
            self.storage.clear_bit(19);
        }
    }

    /// The minutes stored in the telegram.
    pub fn get_minutes(&self) -> (ret: u8)
        ensures
            ret == minutes_of(self@),
    {
        proof { self.storage.lemma_len(); }
        let minutes: u8 = bit_weight(&self.storage, 21, 1) + bit_weight(&self.storage, 22, 2) + bit_weight(&self.storage, 23, 4) + bit_weight(&self.storage, 24, 8) + bit_weight(&self.storage, 25, 10) + bit_weight(&self.storage, 26, 20) + bit_weight(&self.storage, 27, 40);
        minutes
    }

    /// Stores the minutes (and their parity) in the telegram.
    pub fn set_minutes(&mut self, minutes: u8)
        requires
            minutes <= 59,
        ensures
            final(self)@ == set_minutes_spec(old(self)@, minutes as int),
    {
        let mut minutes = minutes;
        let mut parity = false;
        bcd_bit(&mut self.storage, 27, &mut minutes, 40, &mut parity);
        bcd_bit(&mut self.storage, 26, &mut minutes, 20, &mut parity);
        bcd_bit(&mut self.storage, 25, &mut minutes, 10, &mut parity);
        bcd_bit(&mut self.storage, 24, &mut minutes, 8, &mut parity);
        bcd_bit(&mut self.storage, 23, &mut minutes, 4, &mut parity);
        bcd_bit(&mut self.storage, 22, &mut minutes, 2, &mut parity);
        bcd_bit(&mut self.storage, 21, &mut minutes, 1, &mut parity);
        proof { self.storage.lemma_len(); }
        if parity {
            self.storage.set_bit(28);
        } else {
            self.storage.clear_bit(28);
        }
    }

    /// The hours stored in the telegram.
    pub fn get_hours(&self) -> (ret: u8)
        ensures
            ret == hours_of(self@),
    {
        proof { self.storage.lemma_len(); }
        let hours: u8 = bit_weight(&self.storage, 29, 1) + bit_weight(&self.storage, 30, 2) + bit_weight(&self.storage, 31, 4) + bit_weight(&self.storage, 32, 8) + bit_weight(&self.storage, 33, 10) + bit_weight(&self.storage, 34, 20);
        hours
    }

    /// Stores the hours (and their parity) in the telegram.
    pub fn set_hours(&mut self, hours: u8)
        requires
            hours <= 23,
        ensures
            final(self)@ == set_hours_spec(old(self)@, hours as int),
    {
        let mut hours = hours;
        let mut parity = false;
        bcd_bit(&mut self.storage, 34, &mut hours, 20, &mut parity);
        bcd_bit(&mut self.storage, 33, &mut hours, 10, &mut parity);
        bcd_bit(&mut self.storage, 32, &mut hours, 8, &mut parity);
        bcd_bit(&mut self.storage, 31, &mut hours, 4, &mut parity);
        bcd_bit(&mut self.storage, 30, &mut hours, 2, &mut parity);
        bcd_bit(&mut self.storage, 29, &mut hours, 1, &mut parity);
        proof { self.storage.lemma_len(); }
        if parity {
            self.storage.set_bit(35);
        } else {
            self.storage.clear_bit(35);
        }
    }

    /// The date stored in the telegram.
    pub fn get_date(&self) -> (ret: Dcf77Date)
        ensures
            ret.day_of_month == day_of(self@),
            ret.day_of_week == dow_of(self@),
            ret.month == month_of(self@),
            ret.year_of_century == year_of(self@),
    {
        proof { self.storage.lemma_len(); }
        let day: u8 = bit_weight(&self.storage, 36, 1) + bit_weight(&self.storage, 37, 2) + bit_weight(&self.storage, 38, 4) + bit_weight(&self.storage, 39, 8) + bit_weight(&self.storage, 40, 10) + bit_weight(&self.storage, 41, 20);
        let dow: u8 = bit_weight(&self.storage, 42, 1) + bit_weight(&self.storage, 43, 2) + bit_weight(&self.storage, 44, 4);
        let month: u8 = bit_weight(&self.storage, 45, 1) + bit_weight(&self.storage, 46, 2) + bit_weight(&self.storage, 47, 4) + bit_weight(&self.storage, 48, 8) + bit_weight(&self.storage, 49, 10);
        let year: u8 = bit_weight(&self.storage, 50, 1) + bit_weight(&self.storage, 51, 2) + bit_weight(&self.storage, 52, 4) + bit_weight(&self.storage, 53, 8) + bit_weight(&self.storage, 54, 10) + bit_weight(&self.storage, 55, 20) + bit_weight(&self.storage, 56, 40) + bit_weight(&self.storage, 57, 80);
        Dcf77Date { day_of_month: day, day_of_week: dow, month, year_of_century: year }
    }

    /// Stores a date (and the parity over it) in the telegram.
    pub fn set_date(&mut self, date: Dcf77Date)
        requires
            1 <= date.day_of_month <= 31,
            1 <= date.day_of_week <= 7,
            1 <= date.month <= 12,
            date.year_of_century <= 99,
        ensures
            final(self)@ == set_date_spec(old(self)@, date),
    {
        let mut parity = false;
        set_day(&mut self.storage, date.day_of_month, &mut parity);
        set_dow(&mut self.storage, date.day_of_week, &mut parity);
        set_month(&mut self.storage, date.month, &mut parity);
        set_year(&mut self.storage, date.year_of_century, &mut parity);
        proof { self.storage.lemma_len(); }
        if parity {
            self.storage.set_bit(58);
        } else {
            self.storage.clear_bit(58);
        }
    }

    /// Advances the telegram by one minute; at the full hour, the hours advance too (wrapping
    /// from 23 to 0). The date is left alone.
    pub fn increment(&mut self)
        requires
            minutes_of(old(self)@) <= 59,
            minutes_of(old(self)@) == 59 ==> hours_of(old(self)@) <= 23,
        ensures
            final(self)@ == if minutes_of(old(self)@) == 59 {
                set_minutes_spec(
                    set_hours_spec(old(self)@, if hours_of(old(self)@) == 23 { 0 } else { hours_of(old(self)@) + 1 }),
                    0,
                )
            } else {
                set_minutes_spec(old(self)@, minutes_of(old(self)@) + 1)
            },
    {
        let mut new_minutes = self.get_minutes() + 1;
        if new_minutes == 60 {
            new_minutes = 0;
            let mut new_hours = self.get_hours() + 1;
            if new_hours == 24 {
                new_hours = 0;
            }
            self.set_hours(new_hours);
        }
        self.set_minutes(new_minutes);
    }

    /// A copy of the telegram bits.
    pub fn get_storage_copy(&self) -> (ret: BitField<8>)
        ensures
            ret@ == self@,
    {
        self.storage
    }
}

/// Returns the ASCII hexadecimal digit of a number below 16, or zero for larger numbers.
pub fn nibble_to_ascii_hex(number: u8) -> (ret: u8)
    ensures
        ret == hex_digit(number),
{
    if number < 0xA {
        0x30 + number
    } else if number < 0x10 {
        0x41 - 10 + number
    } else {
        0x00
    }
}

/// Returns the two ASCII hexadecimal digits of a byte, high digit first.
pub fn u8_to_hex(number: u8) -> (ret: [u8; 2])
    ensures
        ret@ == seq![hex_digit(number / 16), hex_digit(number % 16)],
{
    let upper = nibble_to_ascii_hex(number >> 4u8);
    let lower = nibble_to_ascii_hex(number & 0xFu8);
    assert(number >> 4u8 == number / 16 && number & 0xFu8 == number % 16) by (bit_vector);
    let ret = [upper, lower];
    assert(ret@ =~= seq![hex_digit(number / 16), hex_digit(number % 16)]);
    ret
}

/// Returns the tens digit and the units digit of a byte as ASCII characters (for numbers from
/// 100 on, the tens "digit" is the number divided by ten, shown as a hexadecimal digit or zero).
pub fn u8_to_dec(number: u8) -> (ret: [u8; 2])
    ensures
        ret@ == seq![hex_digit(number / 10), hex_digit(number % 10)],
{
    let upper = number / 10;
    let lower = number % 10;
    let ret = [nibble_to_ascii_hex(upper), nibble_to_ascii_hex(lower)];
    assert(ret@ =~= seq![hex_digit(number / 10), hex_digit(number % 10)]);
    ret
}

} // verus!
