//! Text for integers, fixed-point prices and timestamps.
//!
//! All text here is ASCII and is held as bytes.
use vstd::prelude::*;

verus! {

/// The price that stands for no price.
pub const UNDEF_PRICE: i64 = 0x7fff_ffff_ffff_ffff;

/// The timestamp that stands for no timestamp.
pub const UNDEF_TIMESTAMP: u64 = 0xffff_ffff_ffff_ffff;

/// The number of price units in one.
pub const FIXED_PRICE_SCALE: u64 = 1_000_000_000;

/// The number of nanoseconds in a second.
pub const NANOS_PER_SECOND: u64 = 1_000_000_000;

/// The number of seconds in a day.
pub const SECONDS_PER_DAY: u64 = 86_400;

/// The ASCII digit for `d`.
pub open spec fn digit(d: nat) -> u8
    recommends
        d < 10,
{
    (48 + d) as u8
}

/// The decimal digits of `n`, without leading zeros.
pub open spec fn decimal(n: nat) -> Seq<u8>
    decreases n,
{
    if n < 10 {
        seq![digit(n)]
    } else {
        decimal(n / 10).push(digit(n % 10))
    }
}

/// The decimal text of `v`, with a minus sign where it is negative.
pub open spec fn signed_decimal(v: int) -> Seq<u8> {
    if v < 0 {
        seq![45u8] + decimal((-v) as nat)
    } else {
        decimal(v as nat)
    }
}

/// The lowest `width` decimal digits of `n`, with leading zeros.
pub open spec fn padded(n: nat, width: nat) -> Seq<u8>
    decreases width,
{
    if width == 0 {
        Seq::empty()
    } else {
        padded(n / 10, (width - 1) as nat).push(digit(n % 10))
    }
}

/// Appends the decimal digits of `n` to `out`.
pub fn push_decimal(out: &mut Vec<u8>, n: u64)
    ensures
        final(out)@ == old(out)@ + decimal(n as nat),
    decreases n,
{
    if n >= 10 {
        push_decimal(out, n / 10);
    }
    out.push(48 + (n % 10) as u8);
    assert(out@ =~= old(out)@ + decimal(n as nat));
}

/// Appends the lowest `width` decimal digits of `n` to `out`, with leading
/// zeros.
pub fn push_padded(out: &mut Vec<u8>, n: u64, width: usize)
    ensures
        final(out)@ == old(out)@ + padded(n as nat, width as nat),
    decreases width,
{
    if width > 0 {
        push_padded(out, n / 10, width - 1);
        out.push(48 + (n % 10) as u8);
    }
    assert(out@ =~= old(out)@ + padded(n as nat, width as nat));
}

/// The absolute value of `v`.
pub fn magnitude(v: i64) -> (m: u64)
    ensures
        m == (if v < 0 {
            -v
        } else {
            v as int
        }),
{
    if v < 0 {
        ((-(v + 1)) as u64) + 1
    } else {
        v as u64
    }
}

/// The decimal text of `n`.
pub fn fmt_u64(n: u64) -> (out: Vec<u8>)
    ensures
        out@ == decimal(n as nat),
{
    let mut out: Vec<u8> = Vec::new();
    push_decimal(&mut out, n);
    assert(out@ =~= decimal(n as nat));
    out
}

/// The decimal text of `v`.
pub fn fmt_i64(v: i64) -> (out: Vec<u8>)
    ensures
        out@ == signed_decimal(v as int),
{
    let mut out: Vec<u8> = Vec::new();
    if v < 0 {
        out.push(45u8);
    }
    push_decimal(&mut out, magnitude(v));
    assert(out@ =~= signed_decimal(v as int));
    out
}

/// The letters of `UNDEF_PRICE`.
pub open spec fn undef_price_text() -> Seq<u8> {
    seq![85u8, 78u8, 68u8, 69u8, 70u8, 95u8, 80u8, 82u8, 73u8, 67u8, 69u8]
}

/// The text of a price: its whole part, a point, and nine decimals; the
/// words `UNDEF_PRICE` for the price that stands for none.
pub open spec fn px_text(px: i64) -> Seq<u8> {
    let abs: nat = if px < 0 {
        (-px) as nat
    } else {
        px as nat
    };
    if px == UNDEF_PRICE {
        undef_price_text()
    } else {
        (if px < 0 {
            seq![45u8]
        } else {
            Seq::empty()
        }) + decimal(abs / 1_000_000_000) + seq![46u8] + padded(abs % 1_000_000_000, 9)
    }
}

/// The text of a price: see [`px_text`].
pub fn fmt_px(px: i64) -> (out: Vec<u8>)
    ensures
        out@ == px_text(px),
{
    let mut out: Vec<u8> = Vec::new();
    if px == UNDEF_PRICE {
        out.push(85u8);
        out.push(78u8);
        out.push(68u8);
        out.push(69u8);
        out.push(70u8);
        out.push(95u8);
        out.push(80u8);
        out.push(82u8);
        out.push(73u8);
        out.push(67u8);
        out.push(69u8);
        assert(out@ =~= px_text(px));
        return out;
    }
    if px < 0 {
        out.push(45u8);
    }
    let abs = magnitude(px);
    push_decimal(&mut out, abs / FIXED_PRICE_SCALE);
    out.push(46u8);
    push_padded(&mut out, abs % FIXED_PRICE_SCALE, 9);
    assert(out@ =~= px_text(px));
    out
}

/// A day of the calendar.
#[derive(Clone, Copy, Debug, PartialEq, Eq, Structural)]
pub struct Date {
    pub year: u64,
    pub month: u64,
    pub day: u64,
}

/// Whether `year` is a leap year.
pub open spec fn is_leap(year: nat) -> bool {
    year % 4 == 0 && (year % 100 != 0 || year % 400 == 0)
}

/// The number of days of `year`.
pub open spec fn year_days(year: nat) -> nat {
    if is_leap(year) {
        366
    } else {
        365
    }
}

/// The number of days of month `month` of `year`.
pub open spec fn month_days(year: nat, month: nat) -> nat {
    if month == 2 {
        if is_leap(year) {
            29
        } else {
            28
        }
    } else if month == 4 || month == 6 || month == 9 || month == 11 {
        30
    } else {
        31
    }
}

/// The number of days from the first of January 1970 to the first of
/// January of `year`.
pub open spec fn days_before_year(year: nat) -> nat
    decreases year,
{
    if year <= 1970 {
        0
    } else {
        days_before_year((year - 1) as nat) + year_days((year - 1) as nat)
    }
}

/// The number of days from the first of January of `year` to the first of
/// month `month`.
pub open spec fn days_before_month(year: nat, month: nat) -> nat
    decreases month,
{
    if month <= 1 {
        0
    } else {
        days_before_month(year, (month - 1) as nat) + month_days(year, (month - 1) as nat)
    }
}

impl Date {
    /// Whether this is a day of the calendar, not before 1970.
    pub open spec fn valid(self) -> bool {
        &&& 1970 <= self.year
        &&& 1 <= self.month <= 12
        &&& 1 <= self.day <= month_days(self.year as nat, self.month as nat)
    }

    /// The number of days from the first of January 1970 to this day.
    pub open spec fn day_number(self) -> nat {
        (days_before_year(self.year as nat) + days_before_month(
            self.year as nat,
            self.month as nat,
        ) + self.day - 1) as nat
    }
}

/// The year of the day that lies `days` days behind the first of January of
/// `year`.
pub open spec fn year_from(year: nat, days: nat) -> nat
    decreases days,
{
    if days < year_days(year) {
        year
    } else {
        year_from(year + 1, (days - year_days(year)) as nat)
    }
}

/// The number of days from the first of January of its year to the day that
/// lies `days` days behind the first of January of `year`.
pub open spec fn day_of_year_from(year: nat, days: nat) -> nat
    decreases days,
{
    if days < year_days(year) {
        days
    } else {
        day_of_year_from(year + 1, (days - year_days(year)) as nat)
    }
}

/// The month of the day that lies `days` days behind the first of month
/// `month` of `year`.
pub open spec fn month_from(year: nat, month: nat, days: nat) -> nat
    decreases days,
{
    if days < month_days(year, month) {
        month
    } else {
        month_from(year, month + 1, (days - month_days(year, month)) as nat)
    }
}

/// The number of days from the first of its month to the day that lies
/// `days` days behind the first of month `month` of `year`.
pub open spec fn day_of_month_from(year: nat, month: nat, days: nat) -> nat
    decreases days,
{
    if days < month_days(year, month) {
        days
    } else {
        day_of_month_from(year, month + 1, (days - month_days(year, month)) as nat)
    }
}

/// The day of the calendar that lies `days` days behind the first of
/// January 1970.
pub open spec fn date_of(days: nat) -> Date {
    let year = year_from(1970, days);
    let rest = day_of_year_from(1970, days);
    Date {
        year: year as u64,
        month: month_from(year, 1, rest) as u64,
        day: (day_of_month_from(year, 1, rest) + 1) as u64,
    }
}

/// Counting on from a later year gives the same year.
proof fn lemma_year_from(year: nat, days: nat)
    requires
        year >= 1970,
    ensures
        year <= year_from(year, days) <= year + days / 365,
        day_of_year_from(year, days) < year_days(year_from(year, days)),
        days_before_year(year) + days == days_before_year(year_from(year, days))
            + day_of_year_from(year, days),
    decreases days,
{
    if days >= year_days(year) {
        lemma_year_from(year + 1, (days - year_days(year)) as nat);
    }
}

/// Counting on from a later month gives a month of the same year.
proof fn lemma_month_from(year: nat, month: nat, days: nat)
    requires
        1 <= month <= 12,
        days_before_month(year, month) + days < year_days(year),
    ensures
        month <= month_from(year, month, days) <= 12,
        day_of_month_from(year, month, days) < month_days(year, month_from(year, month, days)),
        days_before_month(year, month) + days == days_before_month(
            year,
            month_from(year, month, days),
        ) + day_of_month_from(year, month, days),
    decreases days,
{
    reveal_with_fuel(days_before_month, 13);
    if days >= month_days(year, month) {
        lemma_month_from(year, month + 1, (days - month_days(year, month)) as nat);
    }
}

/// `date_of` gives a day of the calendar, and the day that lies as many
/// days behind the first of January 1970 as it was asked for.
pub proof fn lemma_date_of(days: nat)
    requires
        days <= 0xffff_ffff,
    ensures
        date_of(days).valid(),
        date_of(days).day_number() == days,
        date_of(days).year <= 1970 + days / 365,
{
    lemma_year_from(1970, days);
    let year = year_from(1970, days);
    let rest = day_of_year_from(1970, days);
    lemma_month_from(year, 1, rest);
}

/// The day of the calendar that lies `days` days behind the first of
/// January 1970.
pub fn civil_from_days(days: u32) -> (d: Date)
    ensures
        d == date_of(days as nat),
        d.valid(),
        d.day_number() == days,
{
    proof {
        lemma_date_of(days as nat);
    }
    let mut year: u64 = 1970;
    let mut rest: u64 = days as u64;
    loop
        invariant
            1970 <= year,
            year + rest / 365 <= 1970 + days / 365,
            year_from(year as nat, rest as nat) == year_from(1970, days as nat),
            day_of_year_from(year as nat, rest as nat) == day_of_year_from(1970, days as nat),
        ensures
            1970 <= year,
            year == year_from(1970, days as nat),
            rest == day_of_year_from(1970, days as nat),
            rest < year_days(year as nat),
        decreases rest,
    {
        let leap = year % 4 == 0 && (year % 100 != 0 || year % 400 == 0);
        let length: u64 = if leap {
            366
        } else {
            365
        };
        if rest < length {
            break ;
        }
        rest = rest - length;
        year = year + 1;
    }
    let leap = year % 4 == 0 && (year % 100 != 0 || year % 400 == 0);
    let ghost rest0 = rest;
    let mut month: u64 = 1;
    loop
        invariant
            1 <= month <= 12,
            days_before_month(year as nat, month as nat) + rest == rest0,
            rest0 < year_days(year as nat),
            leap == is_leap(year as nat),
            month_from(year as nat, month as nat, rest as nat) == month_from(
                year as nat,
                1,
                rest0 as nat,
            ),
            day_of_month_from(year as nat, month as nat, rest as nat) == day_of_month_from(
                year as nat,
                1,
                rest0 as nat,
            ),
        ensures
            month == month_from(year as nat, 1, rest0 as nat),
            rest == day_of_month_from(year as nat, 1, rest0 as nat),
            rest < 31,
        decreases rest,
    {
        let length: u64 = if month == 2 {
            if leap {
                29
            } else {
                28
            }
        } else if month == 4 || month == 6 || month == 9 || month == 11 {
            30
        } else {
            31
        };
        if rest < length {
            break ;
        }
        proof {
            reveal_with_fuel(days_before_month, 13);
        }
        rest = rest - length;
        month = month + 1;
    }
    Date { year, month, day: rest + 1 }
}

/// The text of a date and a time of day: `YYYY-MM-DDTHH:MM:SS.nnnnnnnnnZ`.
pub open spec fn date_time_text(d: Date, second_of_day: nat, nanos: nat) -> Seq<u8> {
    padded(d.year as nat, 4) + seq![45u8] + padded(d.month as nat, 2) + seq![45u8] + padded(
        d.day as nat,
        2,
    ) + seq![84u8] + padded(second_of_day / 3600, 2) + seq![58u8] + padded(
        (second_of_day / 60) % 60,
        2,
    ) + seq![58u8] + padded(second_of_day % 60, 2) + seq![46u8] + padded(nanos, 9) + seq![90u8]
}

/// The text of a timestamp in nanoseconds since the UNIX epoch: its date
/// and time of day in UTC; nothing for zero.
pub open spec fn ts_text(ts: u64) -> Seq<u8> {
    let seconds = (ts / 1_000_000_000) as nat;
    if ts == 0 {
        Seq::empty()
    } else {
        date_time_text(date_of(seconds / 86_400), seconds % 86_400, (ts % 1_000_000_000) as nat)
    }
}

/// The text of a timestamp: see [`ts_text`].
pub fn fmt_ts(ts: u64) -> (out: Vec<u8>)
    ensures
        out@ == ts_text(ts),
{
    let mut out: Vec<u8> = Vec::new();
    if ts == 0 {
        return out;
    }
    let seconds = ts / NANOS_PER_SECOND;
    let nanos = ts % NANOS_PER_SECOND;
    let days = seconds / SECONDS_PER_DAY;
    let second_of_day = seconds % SECONDS_PER_DAY;
    let date = civil_from_days(days as u32);
    push_padded(&mut out, date.year, 4);
    out.push(45u8);
    push_padded(&mut out, date.month, 2);
    out.push(45u8);
    push_padded(&mut out, date.day, 2);
    out.push(84u8);
    push_padded(&mut out, second_of_day / 3600, 2);
    out.push(58u8);
    push_padded(&mut out, (second_of_day / 60) % 60, 2);
    out.push(58u8);
    push_padded(&mut out, second_of_day % 60, 2);
    out.push(46u8);
    push_padded(&mut out, nanos, 9);
    out.push(90u8);
    assert(out@ =~= ts_text(ts));
    out
}

} // verus!
