//! RTC (CMOS Real-Time Clock) emulation.
//!
//! The RTC is accessed via I/O ports 0x70 (index) and 0x71 (data).
//! Port 0x70 selects which register to access, port 0x71 reads/writes it.

use vstd::prelude::*;

use crate::vmx::exit_record::hash::{StateHash, Xxh64Hasher};

verus! {

/// Whether a Gregorian year has 366 days.
pub open spec fn is_leap(year: int) -> bool {
    (year % 4 == 0 && year % 100 != 0) || year % 400 == 0
}

/// Number of days in a year.
pub open spec fn days_in_year(year: int) -> int {
    if is_leap(year) {
        366
    } else {
        365
    }
}

/// Number of days in a month (1 to 12) of a year.
pub open spec fn days_in_month(year: int, month: int) -> int {
    if month == 2 {
        if is_leap(year) {
            29
        } else {
            28
        }
    } else if month == 4 || month == 6 || month == 9 || month == 11 {
        30
    } else {
        31
    }
}

/// Days from 1970-01-01 to January 1st of `year`.
pub open spec fn days_before_year(year: int) -> int
    decreases year - 1970,
{
    if year <= 1970 {
        0
    } else {
        days_before_year(year - 1) + days_in_year(year - 1)
    }
}

/// Days from January 1st to the first of `month` of the same year.
pub open spec fn days_before_month(year: int, month: int) -> int
    decreases month,
{
    if month <= 1 {
        0
    } else {
        days_before_month(year, month - 1) + days_in_month(year, month - 1)
    }
}

/// A calendar day.
pub struct Date {
    pub year: int,
    pub month: int,
    pub day: int,
}

impl Date {
    /// A day that the calendar has, from 1970 on.
    pub open spec fn valid(&self) -> bool {
        &&& self.year >= 1970
        &&& 1 <= self.month <= 12
        &&& 1 <= self.day <= days_in_month(self.year, self.month)
    }

    /// Days from 1970-01-01 to this day.
    pub open spec fn days_since_epoch(&self) -> int {
        days_before_year(self.year) + days_before_month(self.year, self.month) + self.day - 1
    }
}

/// The calendar day that many days after 1970-01-01.
pub open spec fn date_of(days: int) -> Date {
    choose|d: Date| #[trigger] d.valid() && d.days_since_epoch() == days
}

/// Day of the week with Sunday = 1; 1970-01-01 was a Thursday.
pub open spec fn day_of_week(days: int) -> int {
    (days + 4) % 7 + 1
}

/// One more than the last day whose year fits in 32 bits.
pub open spec fn calendar_end() -> int {
    days_before_year(0x1_0000_0000)
}

/// The two low decimal digits of `value`, one per nibble, the tens digit truncated to a nibble.
pub open spec fn bcd(value: int) -> u8 {
    (((value / 10) * 16) % 256 + value % 10) as u8
}

/// The number that two BCD digits stand for.
pub open spec fn bcd_value(byte: u8) -> int {
    (byte / 16) * 10 + byte % 16
}

/// The current time: the base time plus the seconds the emulated TSC has run for.
pub open spec fn rtc_seconds(base_time: u64, emulated_tsc: u64, tsc_frequency: u64) -> int {
    base_time + if tsc_frequency == 0 {
        0
    } else {
        emulated_tsc as int / tsc_frequency as int
    }
}

/// What CMOS register `index` reads as, `secs` seconds after 1970-01-01 00:00:00 UTC.
pub open spec fn rtc_register(index: u8, secs: int) -> u8 {
    let date = date_of(secs / 86400);
    let time = secs % 86400;
    if index == 0x00 {
        bcd(time % 60)
    } else if index == 0x02 {
        bcd((time % 3600) / 60)
    } else if index == 0x04 {
        bcd(time / 3600)
    } else if index == 0x06 {
        bcd(day_of_week(secs / 86400))
    } else if index == 0x07 {
        bcd(date.day)
    } else if index == 0x08 {
        bcd(date.month)
    } else if index == 0x09 {
        bcd(date.year % 100)
    } else if index == 0x0B {
        0x02
    } else if index == 0x0D {
        0x80
    } else if index == 0x32 {
        bcd((date.year / 100) % 256)
    } else {
        0x00
    }
}

/// RTC (CMOS clock) state for time emulation.
///
/// Time is derived from the emulated TSC for deterministic execution.
/// The formula is: current_time = base_time + (emulated_tsc / tsc_frequency)
///
/// Register layout (BCD format by default):
/// - 0x00: Seconds (0-59)
/// - 0x02: Minutes (0-59)
/// - 0x04: Hours (0-23)
/// - 0x06: Day of week (1-7, Sunday=1)
/// - 0x07: Day of month (1-31)
/// - 0x08: Month (1-12)
/// - 0x09: Year (0-99, offset from century)
/// - 0x0A: Status Register A (update in progress)
/// - 0x0B: Status Register B (format control)
/// - 0x0C: Status Register C (interrupt flags)
/// - 0x0D: Status Register D (battery status)
/// - 0x32: Century (19-20)
#[derive(Clone, Copy, Debug)]
pub struct RtcState {
    /// Currently selected CMOS register index (set via port 0x70).
    pub index: u8,
    /// Base Unix timestamp (seconds since 1970-01-01 00:00:00 UTC).
    /// The actual time returned is base_time + elapsed seconds from TSC.
    pub base_time: u64,
}

impl Default for RtcState {
    fn default() -> (r: Self)
        ensures
            r == (RtcState { index: 0, base_time: 1704067200 }),
    {
        // 2024-01-01 00:00:00 UTC
        RtcState { index: 0, base_time: 1704067200 }
    }
}

impl RtcState {
    /// Set the base time from a Unix timestamp.
    pub fn set_time(&mut self, timestamp: u64)
        ensures
            *final(self) == (RtcState { base_time: timestamp, ..*old(self) }),
    {
        self.base_time = timestamp;
    }

    /// Convert a value to BCD format.
    pub fn to_bcd(value: u8) -> (r: u8)
        ensures
            r == bcd(value as int),
    {
        assert(((value / 10) << 4) | (value % 10) == ((value / 10) * 16) % 256 + value % 10)
            by (bit_vector);
        ((value / 10) << 4) | (value % 10)
    }

    /// Read the currently selected RTC register.
    ///
    /// Time is derived from the emulated TSC for determinism:
    /// current_time = base_time + (emulated_tsc / tsc_frequency)
    pub fn read_register_with_tsc(&self, emulated_tsc: u64, tsc_frequency: u64) -> (r: u8)
        requires
            rtc_seconds(self.base_time, emulated_tsc, tsc_frequency) <= u64::MAX,
            rtc_seconds(self.base_time, emulated_tsc, tsc_frequency) / 86400 < calendar_end(),
        ensures
            r == rtc_register(
                self.index,
                rtc_seconds(self.base_time, emulated_tsc, tsc_frequency),
            ),
    {
        let elapsed_secs: u64 = if tsc_frequency == 0 {
            0
        } else {
            emulated_tsc / tsc_frequency
        };
        let secs: u64 = self.base_time + elapsed_secs;

        let days: u64 = secs / 86400;
        let time_of_day: u64 = secs % 86400;

        let hours: u8 = (time_of_day / 3600) as u8;
        let minutes: u8 = ((time_of_day % 3600) / 60) as u8;
        let seconds: u8 = (time_of_day % 60) as u8;

        let (year, month, day, week_day) = Self::days_to_date(days);
        let century: u32 = year / 100;
        assert(century as u8 == century % 256) by (bit_vector);

        match self.index {
            0x00 => Self::to_bcd(seconds),
            0x02 => Self::to_bcd(minutes),
            0x04 => Self::to_bcd(hours),
            0x06 => Self::to_bcd(week_day),
            0x07 => Self::to_bcd(day),
            0x08 => Self::to_bcd(month),
            0x09 => Self::to_bcd((year % 100) as u8),
            0x0A => 0x00,
            0x0B => 0x02,
            0x0C => 0x00,
            0x0D => 0x80,
            0x32 => Self::to_bcd(century as u8),
            _ => 0x00,
        }
    }

    /// Convert days since Unix epoch to (year, month, day, day_of_week).
    pub fn days_to_date(days: u64) -> (r: (u32, u8, u8, u8))
        requires
            days < calendar_end(),
        ensures
            (Date { year: r.0 as int, month: r.1 as int, day: r.2 as int }) == date_of(days as int),
            (Date { year: r.0 as int, month: r.1 as int, day: r.2 as int }).valid(),
            (Date { year: r.0 as int, month: r.1 as int, day: r.2 as int }).days_since_epoch()
                == days,
            r.3 == day_of_week(days as int),
    {
        proof {
            lemma_year_bound(0x1_0000_0000);
        }
        let week_day: u8 = (((days + 4) % 7) + 1) as u8;

        let mut year: u32 = 1970;
        let mut remaining_days: u64 = days;
        let mut days_this_year: u64 = 365;
        while remaining_days >= days_this_year
            invariant
                1970 <= year,
                days_this_year == days_in_year(year as int),
                days_before_year(year as int) + remaining_days == days,
                days < calendar_end(),
            decreases remaining_days,
        {
            proof {
                if year == 0xFFFF_FFFF {
                    assert(days_before_year(0x1_0000_0000) == days_before_year(0xFFFF_FFFF)
                        + days_in_year(0xFFFF_FFFF));
                }
            }
            remaining_days -= days_this_year;
            year += 1;
            days_this_year = if Self::is_leap_year(year) {
                366
            } else {
                365
            };
        }

        let leap: bool = Self::is_leap_year(year);
        let mut month: u8 = 1;
        let mut days_this_month: u64 = 31;
        proof {
            lemma_month_sum(year as int);
        }
        while month < 12 && remaining_days >= days_this_month
            invariant
                1970 <= year,
                1 <= month <= 12,
                leap == is_leap(year as int),
                days_this_month == days_in_month(year as int, month as int),
                remaining_days + days_before_month(year as int, month as int) < days_in_year(
                    year as int,
                ),
                days_before_year(year as int) + days_before_month(year as int, month as int)
                    + remaining_days == days,
                days_before_month(year as int, 12) + 31 == days_in_year(year as int),
            decreases 12 - month,
        {
            remaining_days -= days_this_month;
            month += 1;
            days_this_month = if month == 2 {
                if leap {
                    29
                } else {
                    28
                }
            } else if month == 4 || month == 6 || month == 9 || month == 11 {
                30
            } else {
                31
            };
        }

        let day: u8 = (remaining_days + 1) as u8;
        proof {
            let d = Date { year: year as int, month: month as int, day: day as int };
            assert(d.valid() && d.days_since_epoch() == days);
            lemma_date_unique(d, date_of(days as int));
        }
        (year, month, day, week_day)
    }

    /// Check if a year is a leap year.
    pub fn is_leap_year(year: u32) -> (r: bool)
        ensures
            r == is_leap(year as int),
    {
        (year % 4 == 0 && year % 100 != 0) || year % 400 == 0
    }
}

impl StateHash for RtcState {
    open spec fn fed(&self, stream: Seq<u8>) -> Seq<u8> {
        let s = crate::vmx::exit_record::hash::fed_u8(stream, self.index);
        crate::vmx::exit_record::hash::fed_u64(s, self.base_time)
    }

    fn feed(&self, hasher: &mut Xxh64Hasher) {
        hasher.write_u8(self.index);
        hasher.write_u64(self.base_time);
    }
}

proof fn lemma_year_bound(year: int)
    requires
        year >= 1970,
    ensures
        0 <= days_before_year(year) <= 366 * (year - 1970),
    decreases year,
{
    if year > 1970 {
        lemma_year_bound(year - 1);
    }
}

proof fn lemma_year_order(a: int, b: int)
    requires
        1970 <= a < b,
    ensures
        days_before_year(a) + days_in_year(a) <= days_before_year(b),
    decreases b - a,
{
    if a + 1 < b {
        lemma_year_order(a, b - 1);
    }
}

proof fn lemma_month_order(year: int, a: int, b: int)
    requires
        1 <= a < b,
    ensures
        days_before_month(year, a) + days_in_month(year, a) <= days_before_month(year, b),
    decreases b - a,
{
    if a + 1 < b {
        lemma_month_order(year, a, b - 1);
    }
}

/// The months of a year add up to the year.
proof fn lemma_month_sum(year: int)
    ensures
        days_before_month(year, 12) + 31 == days_in_year(year),
{
    reveal_with_fuel(days_before_month, 13);
}

proof fn lemma_month_fits(year: int, month: int)
    requires
        1 <= month <= 12,
    ensures
        days_before_month(year, month) + days_in_month(year, month) <= days_in_year(year),
        0 <= days_before_month(year, month),
{
    lemma_month_sum(year);
    if month < 12 {
        lemma_month_order(year, month, 12);
    }
    if month > 1 {
        lemma_month_order(year, 1, month);
    }
}

/// No two calendar days are the same number of days after 1970-01-01.
pub proof fn lemma_date_unique(a: Date, b: Date)
    requires
        a.valid(),
        b.valid(),
        a.days_since_epoch() == b.days_since_epoch(),
    ensures
        a == b,
{
    lemma_month_fits(a.year, a.month);
    lemma_month_fits(b.year, b.month);
    if a.year < b.year {
        lemma_year_order(a.year, b.year);
    } else if b.year < a.year {
        lemma_year_order(b.year, a.year);
    } else if a.month < b.month {
        lemma_month_order(a.year, a.month, b.month);
    } else if b.month < a.month {
        lemma_month_order(a.year, b.month, a.month);
    }
}

/// The second, minute and hour registers together tell the time of day, and
/// each holds two decimal digits in its range.
#[verifier::rlimit(40)]
pub proof fn clock_registers_tell_the_time_of_day(secs: int)
    requires
        secs >= 0,
    ensures
        bcd_value(rtc_register(0x00, secs)) < 60,
        bcd_value(rtc_register(0x02, secs)) < 60,
        bcd_value(rtc_register(0x04, secs)) < 24,
        bcd_value(rtc_register(0x04, secs)) * 3600 + bcd_value(rtc_register(0x02, secs)) * 60
            + bcd_value(rtc_register(0x00, secs)) == secs % 86400,
{
    lemma_bcd_digits((secs % 86400) % 60);
    lemma_bcd_digits(((secs % 86400) % 3600) / 60);
    lemma_bcd_digits((secs % 86400) / 3600);
}

/// The day, month and year registers tell the date.
#[verifier::rlimit(40)]
pub proof fn date_registers_tell_the_date(secs: int, date: Date)
    requires
        secs >= 0,
        date.valid(),
        date.days_since_epoch() == secs / 86400,
    ensures
        bcd_value(rtc_register(0x07, secs)) == date.day,
        bcd_value(rtc_register(0x08, secs)) == date.month,
        bcd_value(rtc_register(0x09, secs)) == date.year % 100,
        date.year < 10000 ==> bcd_value(rtc_register(0x32, secs)) == date.year / 100,
{
    assert(date_of(secs / 86400) == date) by {
        lemma_date_unique(date, date_of(secs / 86400));
    }
    lemma_bcd_digits(date.day);
    lemma_bcd_digits(date.month);
    lemma_bcd_digits(date.year % 100);
    let century = date.year / 100;
    if date.year < 10000 {
        assert(0 <= century < 100);
        lemma_bcd_digits(century);
        assert(century % 256 == century);
    }
}

/// The last second of the year 9999.
pub const LAST_FOUR_DIGIT_SECOND: u64 = 253_402_300_799;

/// Whether a CMOS register tells the time or the date.
pub open spec fn is_clock_register(index: u8) -> bool {
    index == 0x00 || index == 0x02 || index == 0x04 || index == 0x06 || index == 0x07 || index
        == 0x08 || index == 0x09 || index == 0x32
}

/// Up to the year 9999 every time and date register holds two decimal digits,
/// one per nibble.
#[verifier::rlimit(40)]
pub proof fn clock_registers_hold_decimal_digits(index: u8, secs: int)
    requires
        is_clock_register(index),
        0 <= secs <= LAST_FOUR_DIGIT_SECOND,
    ensures
        rtc_register(index, secs) / 16 <= 9,
        rtc_register(index, secs) % 16 <= 9,
{
    let days = secs / 86400;
    let time = secs % 86400;
    lemma_four_digit_years();
    let date = lemma_date_exists(days);
    assert(date_of(days) == date) by {
        lemma_date_unique(date, date_of(days));
    }
    lemma_month_fits(date.year, date.month);
    if date.year >= 10000 {
        if date.year > 10000 {
            lemma_year_order(10000, date.year);
        }
        assert(date.days_since_epoch() >= 2932897);
    }
    lemma_bcd_digits(time % 60);
    lemma_bcd_digits((time % 3600) / 60);
    lemma_bcd_digits(time / 3600);
    lemma_bcd_digits(day_of_week(days));
    lemma_bcd_digits(date.day);
    lemma_bcd_digits(date.month);
    lemma_bcd_digits(date.year % 100);
    let century = date.year / 100;
    assert(0 <= century < 100);
    assert(century % 256 == century);
    lemma_bcd_digits(century);
}

/// Only the current time and the selected register matter: a clock that was set
/// earlier and has run for a while reads the same as one that was set to the
/// current time just now, whatever the TSC's frequency, 0 included. Every time up
/// to the year 9999 is one that a register can be read at.
pub proof fn only_the_current_time_matters(
    index: u8,
    base_time: u64,
    emulated_tsc: u64,
    tsc_frequency: u64,
)
    requires
        rtc_seconds(base_time, emulated_tsc, tsc_frequency) <= LAST_FOUR_DIGIT_SECOND,
    ensures
        ({
            let now = rtc_seconds(base_time, emulated_tsc, tsc_frequency);
            &&& 0 <= now <= u64::MAX
            &&& now / 86400 < calendar_end()
            &&& rtc_seconds(now as u64, 0, tsc_frequency) == now
            &&& rtc_register(index, rtc_seconds(base_time, emulated_tsc, tsc_frequency))
                == rtc_register(index, rtc_seconds(now as u64, 0, tsc_frequency))
        }),
{
    lemma_four_digit_years();
    lemma_year_order(10000, 0x1_0000_0000);
    let f = tsc_frequency as int;
    if f != 0 {
        vstd::arithmetic::div_mod::lemma_div_pos_is_pos(emulated_tsc as int, f);
        vstd::arithmetic::div_mod::lemma_div_basics(f);
    }
}

/// Leap years up to `year`, counted from the year 1 on.
spec fn leaps_through(year: int) -> int {
    year / 4 - year / 100 + year / 400
}

proof fn lemma_days_in_closed_form(year: int)
    requires
        year >= 1970,
    ensures
        days_before_year(year) == 365 * (year - 1970) + leaps_through(year - 1) - leaps_through(
            1969,
        ),
    decreases year,
{
    if year > 1970 {
        lemma_days_in_closed_form(year - 1);
        let y = year - 1;
        assert(leaps_through(y) - leaps_through(y - 1) == (if is_leap(y) {
            1int
        } else {
            0
        }));
    }
}

proof fn lemma_four_digit_years()
    ensures
        days_before_year(10000) == 2932897,
{
    lemma_days_in_closed_form(10000);
}

/// Every day from 1970-01-01 on has a date.
proof fn lemma_date_exists(days: int) -> (date: Date)
    requires
        days >= 0,
    ensures
        date.valid(),
        date.days_since_epoch() == days,
{
    let year = lemma_year_exists(days, 1970);
    let rest = days - days_before_year(year);
    lemma_month_sum(year);
    let month = lemma_month_exists(year, rest, 1);
    Date { year, month, day: rest - days_before_month(year, month) + 1 }
}

proof fn lemma_year_exists(days: int, from: int) -> (year: int)
    requires
        1970 <= from,
        days_before_year(from) <= days,
    ensures
        year >= from,
        days_before_year(year) <= days < days_before_year(year) + days_in_year(year),
    decreases days - days_before_year(from),
{
    if days < days_before_year(from) + days_in_year(from) {
        from
    } else {
        lemma_year_exists(days, from + 1)
    }
}

proof fn lemma_month_exists(year: int, rest: int, from: int) -> (month: int)
    requires
        1 <= from <= 12,
        days_before_month(year, from) <= rest < days_in_year(year),
        days_before_month(year, 12) + 31 == days_in_year(year),
    ensures
        from <= month <= 12,
        days_before_month(year, month) <= rest < days_before_month(year, month) + days_in_month(
            year,
            month,
        ),
    decreases 12 - from,
{
    if from == 12 || rest < days_before_month(year, from) + days_in_month(year, from) {
        from
    } else {
        lemma_month_exists(year, rest, from + 1)
    }
}

proof fn lemma_bcd_digits(value: int)
    requires
        0 <= value < 100,
    ensures
        bcd_value(bcd(value)) == value,
        bcd(value) / 16 <= 9,
        bcd(value) % 16 <= 9,
{
    let tens = value / 10;
    let ones = value % 10;
    let packed = tens * 16 + ones;
    assert(0 <= tens < 10 && 0 <= ones < 10 && value == tens * 10 + ones);
    assert(packed / 16 == tens && packed % 16 == ones);
    assert(bcd(value) == packed);
}

/// Two clocks with the same stream are the same.
pub proof fn hashed_stream_tells_clocks_apart(a: RtcState, b: RtcState, s: Seq<u8>, t: Seq<u8>)
    requires
        a.fed(s) == b.fed(t),
    ensures
        s == t,
        a == b,
{
    let a0 = crate::vmx::exit_record::hash::fed_u8(s, a.index);
    let b0 = crate::vmx::exit_record::hash::fed_u8(t, b.index);
    crate::vmx::exit_record::hash::last_value_can_be_told(a0, b0);
    assert(a0 == b0 && a.base_time == b.base_time);
    crate::vmx::exit_record::hash::last_value_can_be_told(s, t);
    assert(s == t && a.index == b.index);
}

/// The calendar is the Gregorian one: counted in years that begin in March, each day
/// has its number in closed form.
pub proof fn calendar_is_gregorian(date: Date)
    requires
        date.valid(),
    ensures
        ({
            let y = if date.month <= 2 {
                date.year - 1
            } else {
                date.year
            };
            let m = (date.month + 9) % 12;
            date.days_since_epoch() == 365 * y + y / 4 - y / 100 + y / 400 + (153 * m + 2) / 5
                + date.day - 1 - 719468
        }),
{
    lemma_days_in_closed_form(date.year);
    reveal_with_fuel(days_before_month, 13);
    let y = date.year;
    assert(leaps_through(y) - leaps_through(y - 1) == (if (y % 4 == 0 && y % 100 != 0) || y % 400
        == 0 {
        1int
    } else {
        0
    }));
    let m = date.month;
    assert(m == 1 || m == 2 || m == 3 || m == 4 || m == 5 || m == 6 || m == 7 || m == 8 || m == 9
        || m == 10 || m == 11 || m == 12);
}

/// The day of the week goes from 1, a Sunday, to 7 and round; the first day of 1970
/// was a Thursday, the fifth.
pub proof fn week_days_follow_each_other(secs: int)
    requires
        secs >= 0,
    ensures
        rtc_register(0x06, 0) == 5,
        1 <= rtc_register(0x06, secs) <= 7,
        rtc_register(0x06, secs + 86400) == (if rtc_register(0x06, secs) == 7 {
            1int
        } else {
            rtc_register(0x06, secs) + 1
        }),
{
    let days = secs / 86400;
    assert((secs + 86400) / 86400 == days + 1);
    let w = day_of_week(days);
    assert(1 <= w <= 7 && day_of_week(days + 1) == (if w == 7 {
        1
    } else {
        w + 1
    }));
    assert(bcd(w) == w && bcd(day_of_week(days + 1)) == day_of_week(days + 1));
    assert(bcd(5) == 5 && 0int / 86400 == 0 && day_of_week(0) == 5);
}

/// The status registers never change: no update in progress, 24-hour BCD time, no
/// interrupt, and a good battery. A register that is not there reads 0.
pub proof fn status_registers_are_fixed(index: u8, secs: int)
    ensures
        rtc_register(0x0A, secs) == 0,
        rtc_register(0x0B, secs) == 2,
        rtc_register(0x0C, secs) == 0,
        rtc_register(0x0D, secs) == 0x80,
        index != 0x00 && index != 0x02 && index != 0x04 && index != 0x06 && index != 0x07 && index
            != 0x08 && index != 0x09 && index != 0x0B && index != 0x0D && index != 0x32
            ==> rtc_register(index, secs) == 0,
{
}

/// A second passes when as many ticks as the frequency have; a clock without a
/// frequency stands still.
pub proof fn clock_follows_the_tsc(base_time: u64, emulated_tsc: u64, tsc_frequency: u64)
    ensures
        tsc_frequency == 0 ==> rtc_seconds(base_time, emulated_tsc, tsc_frequency) == base_time,
        tsc_frequency != 0 ==> ({
            let elapsed = rtc_seconds(base_time, emulated_tsc, tsc_frequency) - base_time;
            elapsed * tsc_frequency <= emulated_tsc < (elapsed + 1) * tsc_frequency
        }),
{
    if tsc_frequency != 0 {
        let f = tsc_frequency as int;
        let q = emulated_tsc as int / f;
        vstd::arithmetic::div_mod::lemma_fundamental_div_mod(emulated_tsc as int, f);
        vstd::arithmetic::div_mod::lemma_mod_bound(emulated_tsc as int, f);
        assert(q * f == f * q && (q + 1) * f == f * q + f) by (nonlinear_arith);
    }
}

} // verus!
