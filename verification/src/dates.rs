//! Calendar arithmetic over plain timestamps.
//!
//! A timestamp is a count of seconds since 1970-01-01 00:00:00 UTC; a day
//! number is a count of whole days since that date. Civil dates are triples
//! `(year, month, day)` with the proleptic Gregorian leap rule. The
//! conversions are defined by recursive specification functions and the
//! executable code is proved against them.

use vstd::prelude::*;

verus! {

/// Seconds in one day.
pub const SECS_PER_DAY: i64 = 86_400;

/// Largest supported day number (within year 9000).
pub const MAX_DAY_NUMBER: i64 = 2_573_351;

/// Largest supported timestamp.
pub const MAX_TIMESTAMP: i64 = 222_337_612_799;

/// The Gregorian leap-year rule.
pub open spec fn leap_year(year: int) -> bool {
    (year % 4 == 0 && year % 100 != 0) || year % 400 == 0
}

/// Days in the given year.
pub open spec fn year_length(year: int) -> int {
    if leap_year(year) {
        366
    } else {
        365
    }
}

/// Days in the given month of the given year; months outside 1..=12 count
/// as thirty days.
pub open spec fn month_length(year: int, month: int) -> int {
    if month == 1 || month == 3 || month == 5 || month == 7 || month == 8 || month == 10
        || month == 12 {
        31
    } else if month == 4 || month == 6 || month == 9 || month == 11 {
        30
    } else if month == 2 {
        if leap_year(year) {
            29
        } else {
            28
        }
    } else {
        30
    }
}

/// Days in all years from 1970 up to, excluding, `year`.
pub open spec fn days_before_year(year: int) -> int
    recommends
        year >= 1970,
    decreases year - 1970,
{
    if year <= 1970 {
        0
    } else {
        days_before_year(year - 1) + year_length(year - 1)
    }
}

/// Days in all months of `year` before `month`.
pub open spec fn days_before_month(year: int, month: int) -> int
    recommends
        1 <= month <= 13,
    decreases month,
{
    if month <= 1 {
        0
    } else {
        days_before_month(year, month - 1) + month_length(year, month - 1)
    }
}

/// Whether the triple is a civil date in the supported range.
pub open spec fn valid_civil(year: int, month: int, day: int) -> bool {
    &&& 1970 <= year <= 9000
    &&& 1 <= month <= 12
    &&& 1 <= day <= month_length(year, month)
}

/// The day number of a civil date.
pub open spec fn day_number(year: int, month: int, day: int) -> int {
    days_before_year(year) + days_before_month(year, month) + (day - 1)
}

/// The year that contains day `n`, counting from `year` with `n` days left.
pub open spec fn year_from(n: int, year: int) -> int
    decreases n,
{
    if n < year_length(year) || n < 365 {
        year
    } else {
        year_from(n - year_length(year), year + 1)
    }
}

/// The days left within the year that contains day `n`.
pub open spec fn year_rem_from(n: int, year: int) -> int
    decreases n,
{
    if n < year_length(year) || n < 365 {
        n
    } else {
        year_rem_from(n - year_length(year), year + 1)
    }
}

/// The month that holds the `rem`-th day (zero-based) of `year`, counting
/// from `month`.
pub open spec fn month_from(rem: int, year: int, month: int) -> int
    decreases 12 - month,
{
    if month >= 12 || rem < month_length(year, month) {
        month
    } else {
        month_from(rem - month_length(year, month), year, month + 1)
    }
}

/// The days left within the month found by `month_from`.
pub open spec fn month_rem_from(rem: int, year: int, month: int) -> int
    decreases 12 - month,
{
    if month >= 12 || rem < month_length(year, month) {
        rem
    } else {
        month_rem_from(rem - month_length(year, month), year, month + 1)
    }
}

/// The civil year of day number `n`.
pub open spec fn year_of_day(n: int) -> int {
    year_from(n, 1970)
}

/// The civil month of day number `n`.
pub open spec fn month_of_day(n: int) -> int {
    month_from(year_rem_from(n, 1970), year_of_day(n), 1)
}

/// The civil day-of-month of day number `n`.
pub open spec fn dom_of_day(n: int) -> int {
    month_rem_from(year_rem_from(n, 1970), year_of_day(n), 1) + 1
}

/// The day number a timestamp falls on.
pub open spec fn day_of_ts(ts: int) -> int {
    ts / (SECS_PER_DAY as int)
}

/// Whole days from `start` to `end`.
pub open spec fn days_between_spec(start: int, end: int) -> int {
    (end - start) / (SECS_PER_DAY as int)
}

/// A timestamp moved forward by one calendar month: by the length of the
/// month it falls in.
pub open spec fn add_one_month(ts: int) -> int {
    ts + month_length(year_of_day(day_of_ts(ts)), month_of_day(day_of_ts(ts)))
        * (SECS_PER_DAY as int)
}

/// A timestamp moved forward by `k` calendar months, one at a time.
pub open spec fn add_months_spec(ts: int, k: nat) -> int
    decreases k,
{
    if k == 0 {
        ts
    } else {
        add_one_month(add_months_spec(ts, (k - 1) as nat))
    }
}

/// The leap-year test.
pub fn is_leap_year(year: i64) -> (r: bool)
    requires
        0 <= year,
    ensures
        r == leap_year(year as int),
{
    (year % 4 == 0 && year % 100 != 0) || year % 400 == 0
}

/// Days in the given month; months outside 1..=12 count as thirty days.
pub fn days_in_month(year: i64, month: u32) -> (r: u32)
    requires
        0 <= year,
    ensures
        r as int == month_length(year as int, month as int),
        28 <= r <= 31,
{
    match month {
        1 | 3 | 5 | 7 | 8 | 10 | 12 => 31,
        4 | 6 | 9 | 11 => 30,
        2 => {
            if is_leap_year(year) {
                29
            } else {
                28
            }
        },
        _ => 30,
    }
}

/// Days in the given year.
pub fn days_in_year(year: i64) -> (r: u32)
    requires
        0 <= year,
    ensures
        r as int == year_length(year as int),
{
    if is_leap_year(year) {
        366
    } else {
        365
    }
}

proof fn lemma_days_before_year_bounds(year: int)
    requires
        1970 <= year,
    ensures
        (year - 1970) * 365 <= days_before_year(year) <= (year - 1970) * 366,
    decreases year - 1970,
{
    if year > 1970 {
        lemma_days_before_year_bounds(year - 1);
    }
}

proof fn lemma_days_before_month_bounds(year: int, month: int)
    requires
        1 <= month <= 13,
    ensures
        (month - 1) * 28 <= days_before_month(year, month) <= (month - 1) * 31,
    decreases month,
{
    if month > 1 {
        lemma_days_before_month_bounds(year, month - 1);
    }
}

/// The twelve months of a year cover it exactly.
proof fn lemma_months_cover_year(year: int)
    ensures
        days_before_month(year, 13) == year_length(year),
{
    assert(days_before_month(year, 13) == year_length(year)) by {
        reveal_with_fuel(days_before_month, 14);
    }
}

/// The day number of a civil date.
pub fn day_number_from_civil(year: i64, month: u32, day: u32) -> (n: i64)
    requires
        valid_civil(year as int, month as int, day as int),
    ensures
        n == day_number(year as int, month as int, day as int),
        0 <= n <= MAX_DAY_NUMBER,
{
    let mut acc: i64 = 0;
    let mut y: i64 = 1970;
    while y < year
        invariant
            1970 <= y <= year <= 9000,
            acc == days_before_year(y as int),
            0 <= acc <= (y - 1970) * 366,
        decreases year - y,
    {
        proof {
            lemma_days_before_year_bounds(y as int + 1);
        }
        acc = acc + days_in_year(y) as i64;
        y = y + 1;
    }
    let mut m: u32 = 1;
    let mut macc: i64 = 0;
    while m < month
        invariant
            1 <= m <= month <= 12,
            1970 <= year <= 9000,
            macc == days_before_month(year as int, m as int),
            0 <= macc <= (m - 1) * 31,
        decreases month - m,
    {
        proof {
            lemma_days_before_month_bounds(year as int, m as int + 1);
        }
        macc = macc + days_in_month(year, m) as i64;
        m = m + 1;
    }
    proof {
        lemma_days_before_year_bounds(year as int);
        lemma_days_before_month_bounds(year as int, month as int);
    }
    acc + macc + (day as i64 - 1)
}

/// The civil date of a day number.
pub fn civil_from_day_number(n: i64) -> (r: (i64, u32, u32))
    requires
        0 <= n <= MAX_DAY_NUMBER,
    ensures
        r.0 == year_of_day(n as int),
        r.1 as int == month_of_day(n as int),
        r.2 as int == dom_of_day(n as int),
        1970 <= r.0 <= 9999,
        1 <= r.1 <= 12,
        1 <= r.2 <= 31,
{
    let mut y: i64 = 1970;
    let mut rem: i64 = n;
    loop
        invariant
            1970 <= y,
            0 <= rem <= n <= MAX_DAY_NUMBER,
            (y - 1970) * 365 <= n - rem,
            year_from(rem as int, y as int) == year_of_day(n as int),
            year_rem_from(rem as int, y as int) == year_rem_from(n as int, 1970),
        ensures
            1970 <= y,
            0 <= rem,
            (y - 1970) * 365 <= n - rem,
            rem < year_length(y as int),
            year_from(rem as int, y as int) == year_of_day(n as int),
            year_rem_from(rem as int, y as int) == year_rem_from(n as int, 1970),
        decreases rem + 1,
    {
        let len = days_in_year(y) as i64;
        if rem < len {
            break;
        }
        rem = rem - len;
        y = y + 1;
    }
    let yr = y;
    proof {
        assert(year_of_day(n as int) == yr as int);
        assert(year_rem_from(n as int, 1970) == rem as int);
        assert((yr - 1970) * 365 <= MAX_DAY_NUMBER);
    }
    let mut m: u32 = 1;
    let mut mrem: i64 = rem;
    loop
        invariant
            1 <= m <= 12,
            0 <= mrem <= rem,
            rem < year_length(yr as int),
            1970 <= yr <= 9999,
            mrem == rem - days_before_month(yr as int, m as int),
            month_from(mrem as int, yr as int, m as int) == month_of_day(n as int),
            month_rem_from(mrem as int, yr as int, m as int) + 1 == dom_of_day(n as int),
        ensures
            1 <= m <= 12,
            0 <= mrem,
            rem < year_length(yr as int),
            mrem == rem - days_before_month(yr as int, m as int),
            m >= 12 || mrem < month_length(yr as int, m as int),
            mrem < month_length(yr as int, m as int) || mrem + days_before_month(yr as int,
                m as int) < year_length(yr as int),
            month_from(mrem as int, yr as int, m as int) == month_of_day(n as int),
            month_rem_from(mrem as int, yr as int, m as int) + 1 == dom_of_day(n as int),
        decreases 12 - m,
    {
        let len = days_in_month(yr, m) as i64;
        if m >= 12 || mrem < len {
            break;
        }
        mrem = mrem - len;
        m = m + 1;
    }
    proof {
        if m == 12 {
            lemma_months_cover_year(yr as int);
        }
        assert(mrem <= 30);
    }
    (yr, m, mrem as u32 + 1)
}

proof fn lemma_year_from_bounds(n: int, y: int)
    requires
        0 <= n,
    ensures
        y <= year_from(n, y),
        (year_from(n, y) - y) * 365 <= n,
    decreases n,
{
    if !(n < year_length(y) || n < 365) {
        lemma_year_from_bounds(n - year_length(y), y + 1);
    }
}

proof fn lemma_month_from_bounds(rem: int, y: int, m: int)
    requires
        0 <= rem,
        1 <= m <= 12,
        rem + days_before_month(y, m) < year_length(y),
    ensures
        m <= month_from(rem, y, m) <= 12,
        0 <= month_rem_from(rem, y, m) <= 30,
    decreases 12 - m,
{
    if m >= 12 || rem < month_length(y, m) {
        if m >= 12 && rem >= month_length(y, m) {
            lemma_months_cover_year(y);
        }
    } else {
        lemma_month_from_bounds(rem - month_length(y, m), y, m + 1);
    }
}

/// Any supported day number has a civil date within the supported ranges.
pub proof fn lemma_civil_ranges(n: int)
    requires
        0 <= n <= MAX_DAY_NUMBER,
    ensures
        1970 <= year_of_day(n) <= 9020,
        1 <= month_of_day(n) <= 12,
        1 <= dom_of_day(n) <= 31,
{
    lemma_year_from_bounds(n, 1970);
    lemma_year_rem_low(n, 1970);
    lemma_month_from_bounds(year_rem_from(n, 1970), year_of_day(n), 1);
}

proof fn lemma_year_rem_low(n: int, y: int)
    requires
        0 <= n,
    ensures
        0 <= year_rem_from(n, y) < year_length(year_from(n, y)),
    decreases n,
{
    if !(n < year_length(y) || n < 365) {
        lemma_year_rem_low(n - year_length(y), y + 1);
    }
}

/// The day count round trip: an interval of exactly `k` days reports
/// exactly `k` days under the actual-day conventions.
pub proof fn lemma_day_count_round_trip(start: int, k: int)
    requires
        0 <= k,
    ensures
        days_between_spec(start, start + k * (SECS_PER_DAY as int)) == k,
{
    assert(start + k * (SECS_PER_DAY as int) - start == (SECS_PER_DAY as int) * k)
        by (nonlinear_arith);
    vstd::arithmetic::div_mod::lemma_div_multiples_vanish(k, SECS_PER_DAY as int);
}

/// The timestamp at midnight of a civil date.
pub fn timestamp_from_ymd(year: i64, month: u32, day: u32) -> (ts: i64)
    requires
        valid_civil(year as int, month as int, day as int),
    ensures
        ts == day_number(year as int, month as int, day as int) * (SECS_PER_DAY as int),
        0 <= ts <= MAX_TIMESTAMP,
{
    day_number_from_civil(year, month, day) * SECS_PER_DAY
}

/// The timestamp at the given time of day of a civil date.
pub fn timestamp_from_ymd_hms(year: i64, month: u32, day: u32, hour: u32, minute: u32,
    second: u32) -> (ts: i64)
    requires
        valid_civil(year as int, month as int, day as int),
        hour < 24,
        minute < 60,
        second < 60,
    ensures
        ts == day_number(year as int, month as int, day as int) * (SECS_PER_DAY as int)
            + hour * 3600 + minute * 60 + second,
        0 <= ts <= MAX_TIMESTAMP,
{
    day_number_from_civil(year, month, day) * SECS_PER_DAY + (hour as i64) * 3600
        + (minute as i64) * 60 + second as i64
}

/// The day number a timestamp falls on.
pub fn day_number_of_timestamp(ts: i64) -> (n: i64)
    requires
        0 <= ts <= MAX_TIMESTAMP,
    ensures
        n == day_of_ts(ts as int),
        0 <= n <= MAX_DAY_NUMBER,
{
    ts / SECS_PER_DAY
}

/// The civil date a timestamp falls on.
pub fn civil_of_timestamp(ts: i64) -> (r: (i64, u32, u32))
    requires
        0 <= ts <= MAX_TIMESTAMP,
    ensures
        r.0 == year_of_day(day_of_ts(ts as int)),
        r.1 as int == month_of_day(day_of_ts(ts as int)),
        r.2 as int == dom_of_day(day_of_ts(ts as int)),
        1970 <= r.0 <= 9999,
        1 <= r.1 <= 12,
        1 <= r.2 <= 31,
{
    civil_from_day_number(day_number_of_timestamp(ts))
}

/// Whole days from `start` to `end`.
pub fn days_between(start: i64, end: i64) -> (r: i64)
    requires
        0 <= start <= end <= MAX_TIMESTAMP,
    ensures
        r == days_between_spec(start as int, end as int),
        0 <= r <= MAX_DAY_NUMBER + 1,
{
    (end - start) / SECS_PER_DAY
}

/// A timestamp moved forward by `months` calendar months: each step adds
/// the length of the month the running date falls in.
pub fn add_months(ts: i64, months: u32) -> (r: i64)
    requires
        0 <= ts,
        ts + months * 31 * (SECS_PER_DAY as int) <= MAX_TIMESTAMP,
    ensures
        r as int == add_months_spec(ts as int, months as nat),
        ts <= r,
{
    let mut cur: i64 = ts;
    let mut i: u32 = 0;
    while i < months
        invariant
            i <= months,
            0 <= ts,
            cur as int == add_months_spec(ts as int, i as nat),
            ts <= cur,
            cur + (months - i) * 31 * (SECS_PER_DAY as int) <= MAX_TIMESTAMP,
        decreases months - i,
    {
        proof {
            assert((months - i) * 31 * (SECS_PER_DAY as int) >= 31 * (SECS_PER_DAY as int));
        }
        let (y, m, _d) = civil_of_timestamp(cur);
        let step = (days_in_month(y, m) as i64) * SECS_PER_DAY;
        proof {
            assert(add_months_spec(ts as int, (i + 1) as nat) == add_one_month(
                add_months_spec(ts as int, i as nat)));
        }
        cur = cur + step;
        i = i + 1;
    }
    cur
}

} // verus!
