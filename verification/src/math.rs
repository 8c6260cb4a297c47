//! Calendar dates and period arithmetic.
//!
//! A [`Date`] is a proleptic-Gregorian civil date held as plain year, month
//! and day fields. Day and week offsets move the date by an exact number of
//! days; month and year offsets move the month index and clamp the day of
//! month to the length of the target month, so that month and year
//! arithmetic share one end-of-month policy. An offset whose target falls
//! outside the supported years fails with a [`TimeMathError`] naming the
//! period and the interval.

use vstd::prelude::*;

use crate::periodic::Periodical;

verus! {

/// First supported year.
pub const MIN_YEAR: i64 = 1;

/// Last supported year.
pub const MAX_YEAR: i64 = 9999;

/// An offset whose target date cannot be represented, together with the
/// period and the interval that produced it.
#[derive(Debug, Clone, Copy, PartialEq, Eq, Structural)]
pub struct TimeMathError(pub Periodical, pub i64);

/// A civil calendar date.
#[derive(Debug, Clone, Copy, PartialEq, Eq, Structural)]
pub struct Date {
    pub year: i64,
    pub month: i64,
    pub day: i64,
}

/// Gregorian leap-year rule.
pub open spec fn is_leap_year(y: int) -> bool {
    y % 4 == 0 && (y % 100 != 0 || y % 400 == 0)
}

/// Days in year `y`.
pub open spec fn year_length(y: int) -> int {
    if is_leap_year(y) {
        366
    } else {
        365
    }
}

/// Days in month `m` of year `y`.
pub open spec fn month_length(y: int, m: int) -> int {
    if m == 2 {
        if is_leap_year(y) {
            29
        } else {
            28
        }
    } else if m == 4 || m == 6 || m == 9 || m == 11 {
        30
    } else {
        31
    }
}

/// Days in all years of the supported range before year `y`.
pub open spec fn days_before_year(y: int) -> int
    decreases y,
{
    if y <= 1 {
        0
    } else {
        days_before_year(y - 1) + year_length(y - 1)
    }
}

/// Days in all months of year `y` before month `m`.
pub open spec fn days_before_month(y: int, m: int) -> int
    decreases m,
{
    if m <= 1 {
        0
    } else {
        days_before_month(y, m - 1) + month_length(y, m - 1)
    }
}

/// The day number of a date: days elapsed since the first supported day.
pub open spec fn date_days(d: Date) -> int {
    days_before_year(d.year as int) + days_before_month(d.year as int, d.month as int) + d.day - 1
}

/// Day numbers run from 0 up to, excluding, this count.
pub open spec fn total_days() -> int {
    days_before_year(MAX_YEAR + 1)
}

/// The month index of a date: months elapsed since the calendar's origin.
pub open spec fn month_index(d: Date) -> int {
    d.year * 12 + d.month - 1
}

/// Whether a day offset by `delta` days stays on a supported day number.
pub open spec fn day_shift_ok(d: Date, delta: int) -> bool {
    0 <= date_days(d) + delta < total_days()
}

/// Whether a month offset by `n` months stays in a supported year.
pub open spec fn month_shift_ok(d: Date, n: int) -> bool {
    MIN_YEAR * 12 <= month_index(d) + n < (MAX_YEAR + 1) * 12
}

/// The date `n` months away: the month index moves by `n` and the day of
/// month is clamped to the length of the target month.
pub open spec fn month_shift(d: Date, n: int) -> Date {
    let idx = month_index(d) + n;
    let y = idx / 12;
    let m = idx % 12 + 1;
    let day = if d.day <= month_length(y, m) {
        d.day as int
    } else {
        month_length(y, m)
    };
    Date { year: y as i64, month: m as i64, day: day as i64 }
}

impl Date {
    /// A well-formed date: every field in range, the day against the length
    /// of its own month.
    pub open spec fn wf(self) -> bool {
        &&& MIN_YEAR <= self.year <= MAX_YEAR
        &&& 1 <= self.month <= 12
        &&& 1 <= self.day <= month_length(self.year as int, self.month as int)
    }
}

/// Executable leap-year test.
pub fn leap_year(y: i64) -> (b: bool)
    requires
        0 <= y,
    ensures
        b == is_leap_year(y as int),
{
    y % 4 == 0 && (y % 100 != 0 || y % 400 == 0)
}

/// Executable month length.
pub fn month_length_of(y: i64, m: i64) -> (n: i64)
    requires
        0 <= y,
    ensures
        n == month_length(y as int, m as int),
{
    if m == 2 {
        if leap_year(y) {
            29
        } else {
            28
        }
    } else if m == 4 || m == 6 || m == 9 || m == 11 {
        30
    } else {
        31
    }
}

/// Executable year length.
fn year_length_of(y: i64) -> (n: i64)
    requires
        0 <= y,
    ensures
        n == year_length(y as int),
{
    if leap_year(y) {
        366
    } else {
        365
    }
}

/// Days before year `y` stay within 366 days per elapsed year.
pub proof fn lemma_days_before_year_bound(y: int)
    requires
        1 <= y,
    ensures
        365 * (y - 1) <= days_before_year(y) <= 366 * (y - 1),
    decreases y,
{
    if y > 1 {
        lemma_days_before_year_bound(y - 1);
    }
}

/// Days before year `a` never exceed days before a later year `b`.
pub proof fn lemma_days_before_year_mono(a: int, b: int)
    requires
        a <= b,
    ensures
        days_before_year(a) <= days_before_year(b),
    decreases b - a,
{
    if a < b {
        lemma_days_before_year_mono(a, b - 1);
    }
}

/// Days before month `a` never exceed days before a later month `b`.
pub proof fn lemma_days_before_month_mono(y: int, a: int, b: int)
    requires
        a <= b,
    ensures
        days_before_month(y, a) <= days_before_month(y, b),
    decreases b - a,
{
    if a < b {
        lemma_days_before_month_mono(y, a, b - 1);
    }
}

/// The months of a year sum to the year's length.
pub proof fn lemma_year_months(y: int)
    ensures
        days_before_month(y, 13) == year_length(y),
{
    reveal_with_fuel(days_before_month, 14);
}

/// A well-formed date's day number is a supported day number.
pub proof fn lemma_date_days_range(d: Date)
    requires
        d.wf(),
    ensures
        0 <= date_days(d) < total_days(),
        days_before_year(d.year as int) <= date_days(d),
        date_days(d) < days_before_year(d.year as int + 1),
{
    let y = d.year as int;
    let m = d.month as int;
    lemma_days_before_year_mono(1, y);
    lemma_days_before_month_mono(y, 1, m);
    lemma_days_before_month_mono(y, m + 1, 13);
    lemma_year_months(y);
    lemma_days_before_year_mono(y + 1, MAX_YEAR + 1);
}

impl Date {
    /// Builds a date from its fields, succeeding exactly on well-formed ones.
    pub fn new(year: i64, month: i64, day: i64) -> (r: Option<Date>)
        ensures
            r is Some <==> (Date { year, month, day }).wf(),
            r matches Some(d) ==> d == (Date { year, month, day }),
    {
        if year < MIN_YEAR || year > MAX_YEAR || month < 1 || month > 12 {
            return None;
        }
        if day < 1 || day > month_length_of(year, month) {
            return None;
        }
        Some(Date { year, month, day })
    }

    /// The date's day number: days elapsed since the first supported day.
    pub fn to_days(self) -> (n: i64)
        requires
            self.wf(),
        ensures
            n == date_days(self),
    {
        let mut acc: i64 = 0;
        let mut y: i64 = 1;
        while y < self.year
            invariant
                self.wf(),
                1 <= y <= self.year,
                acc == days_before_year(y as int),
                0 <= acc <= 366 * (y - 1),
            decreases self.year - y,
        {
            acc = acc + year_length_of(y);
            y = y + 1;
        }
        let mut m: i64 = 1;
        proof {
            lemma_days_before_year_bound(self.year as int);
        }
        while m < self.month
            invariant
                self.wf(),
                y == self.year,
                1 <= m <= self.month,
                acc == days_before_year(y as int) + days_before_month(y as int, m as int),
                0 <= acc <= 366 * (y - 1) + 31 * (m - 1),
            decreases self.month - m,
        {
            acc = acc + month_length_of(y, m);
            m = m + 1;
        }
        acc + self.day - 1
    }

    /// The date with the given day number.
    pub fn from_days(n: i64) -> (r: Date)
        requires
            0 <= n < total_days(),
        ensures
            r.wf(),
            date_days(r) == n,
    {
        proof {
            lemma_days_before_year_bound(MAX_YEAR + 1 as int);
        }
        let mut y: i64 = 1;
        let mut acc: i64 = 0;
        loop
            invariant
                MIN_YEAR <= y <= MAX_YEAR,
                acc == days_before_year(y as int),
                0 <= acc <= n < total_days(),
                total_days() <= 366 * (MAX_YEAR as int),
            ensures
                MIN_YEAR <= y <= MAX_YEAR,
                acc == days_before_year(y as int),
                0 <= acc <= n,
                n < days_before_year(y as int) + year_length(y as int),
            decreases MAX_YEAR - y,
        {
            let yl = year_length_of(y);
            if acc + yl <= n {
                proof {
                    if y == MAX_YEAR {
                        assert(days_before_year(MAX_YEAR + 1 as int) == days_before_year(
                            MAX_YEAR as int,
                        ) + year_length(MAX_YEAR as int));
                        assert(false);
                    }
                }
                acc = acc + yl;
                y = y + 1;
            } else {
                break;
            }
        }
        let mut m: i64 = 1;
        loop
            invariant
                MIN_YEAR <= y <= MAX_YEAR,
                1 <= m <= 12,
                acc == days_before_year(y as int) + days_before_month(y as int, m as int),
                days_before_year(y as int) <= acc <= n,
                n < days_before_year(y as int) + year_length(y as int),
                n < total_days(),
                total_days() <= 366 * (MAX_YEAR as int),
            ensures
                MIN_YEAR <= y <= MAX_YEAR,
                1 <= m <= 12,
                acc == days_before_year(y as int) + days_before_month(y as int, m as int),
                acc <= n,
                n < acc + month_length(y as int, m as int),
            decreases 12 - m,
        {
            let ml = month_length_of(y, m);
            if acc + ml <= n {
                proof {
                    if m == 12 {
                        lemma_year_months(y as int);
                        assert(false);
                    }
                }
                acc = acc + ml;
                m = m + 1;
            } else {
                break;
            }
        }
        let day = n - acc + 1;
        Date { year: y, month: m, day }
    }
}

/// Shifts `date` by `interval` periods: by exact days for days and weeks,
/// by month-index arithmetic with end-of-month clamping for months, and by
/// twelve months per year so that year and month offsets share one policy.
/// Fails, naming the period and the interval, exactly when the target falls
/// outside the supported calendar.
pub fn add_interval(date: Date, period: Periodical, interval: i64) -> (r: Result<
    Date,
    TimeMathError,
>)
    requires
        date.wf(),
    ensures
        match r {
            Ok(d2) => d2.wf() && match period {
                Periodical::Day => day_shift_ok(date, interval as int) && date_days(d2)
                    == date_days(date) + interval,
                Periodical::Week => day_shift_ok(date, 7 * interval) && date_days(d2) == date_days(
                    date,
                ) + 7 * interval,
                Periodical::Month => month_shift_ok(date, interval as int) && d2 == month_shift(
                    date,
                    interval as int,
                ),
                Periodical::Year => month_shift_ok(date, 12 * interval) && d2 == month_shift(
                    date,
                    12 * interval,
                ),
            },
            Err(e) => e == TimeMathError(period, interval) && match period {
                Periodical::Day => !day_shift_ok(date, interval as int),
                Periodical::Week => !day_shift_ok(date, 7 * interval),
                Periodical::Month => !month_shift_ok(date, interval as int),
                Periodical::Year => !month_shift_ok(date, 12 * interval),
            },
        },
{
    match period {
        Periodical::Day => add_days(date, period, interval, 1),
        Periodical::Week => add_days(date, period, interval, 7),
        Periodical::Month => add_months(date, period, interval, 1),
        Periodical::Year => add_months(date, period, interval, 12),
    }
}

/// The number of supported day numbers.
fn supported_day_count() -> (n: i64)
    ensures
        n == total_days(),
{
    let mut acc: i64 = 0;
    let mut y: i64 = 1;
    while y <= MAX_YEAR
        invariant
            1 <= y <= MAX_YEAR + 1,
            acc == days_before_year(y as int),
            0 <= acc <= 366 * (y - 1),
        decreases MAX_YEAR + 1 - y,
    {
        acc = acc + year_length_of(y);
        y = y + 1;
    }
    acc
}

/// Day-exact shift by `interval * step` days.
fn add_days(date: Date, period: Periodical, interval: i64, step: i64) -> (r: Result<
    Date,
    TimeMathError,
>)
    requires
        date.wf(),
        step == 1 || step == 7,
    ensures
        match r {
            Ok(d2) => d2.wf() && day_shift_ok(date, step * interval) && date_days(d2) == date_days(
                date,
            ) + step * interval,
            Err(e) => e == TimeMathError(period, interval) && !day_shift_ok(date, step * interval),
        },
{
    proof {
        lemma_date_days_range(date);
        lemma_days_before_year_bound(MAX_YEAR + 1 as int);
    }
    let t = date.to_days();
    let total = supported_day_count();
    let bound: i64 = 366 * MAX_YEAR;
    if interval > bound || interval < -bound {
        return Err(TimeMathError(period, interval));
    }
    let delta = interval * step;
    let target = t + delta;
    if target < 0 || target >= total {
        return Err(TimeMathError(period, interval));
    }
    Ok(Date::from_days(target))
}

/// Month-index shift by `interval * step` months, clamping the day.
fn add_months(date: Date, period: Periodical, interval: i64, step: i64) -> (r: Result<
    Date,
    TimeMathError,
>)
    requires
        date.wf(),
        step == 1 || step == 12,
    ensures
        match r {
            Ok(d2) => d2.wf() && month_shift_ok(date, step * interval) && d2 == month_shift(
                date,
                step * interval,
            ),
            Err(e) => e == TimeMathError(period, interval) && !month_shift_ok(
                date,
                step * interval,
            ),
        },
{
    let idx = date.year * 12 + (date.month - 1);
    let bound: i64 = (MAX_YEAR + 1) * 12;
    if interval > bound || interval < -bound {
        return Err(TimeMathError(period, interval));
    }
    let delta = interval * step;
    let target = idx + delta;
    if target < MIN_YEAR * 12 || target >= (MAX_YEAR + 1) * 12 {
        return Err(TimeMathError(period, interval));
    }
    let t = target as u64;
    let y2 = (t / 12) as i64;
    let m2 = (t % 12) as i64 + 1;
    proof {
        let tgt = target as int;
        assert(y2 == tgt / 12 && m2 == tgt % 12 + 1);
        assert((MIN_YEAR <= y2 <= MAX_YEAR) && (1 <= m2 <= 12)) by (nonlinear_arith)
            requires
                y2 == tgt / 12,
                m2 == tgt % 12 + 1,
                12 <= tgt,
                tgt < 120000,
        {}
    }
    let ml = month_length_of(y2, m2);
    let day = if date.day <= ml {
        date.day
    } else {
        ml
    };
    Ok(Date { year: y2, month: m2, day })
}

/// Month law: shifting by `n` months and back lands on the starting date,
/// for every date whose day of month is not clamped on the way out.
pub proof fn lemma_month_round_trip(d: Date, n: int)
    requires
        d.wf(),
        month_shift_ok(d, n),
        month_shift(d, n).day == d.day,
    ensures
        month_shift(month_shift(d, n), -n) == d,
{
    let idx = month_index(d) + n;
    let fwd = month_shift(d, n);
    vstd::arithmetic::div_mod::lemma_fundamental_div_mod(idx, 12);
    assert(month_index(fwd) == idx);
    assert(month_index(fwd) + -n == month_index(d));
    vstd::arithmetic::div_mod::lemma_fundamental_div_mod_converse(
        month_index(d),
        12,
        d.year as int,
        d.month - 1 as int,
    );
    let back = month_shift(fwd, -n);
    assert(back.year == d.year && back.month == d.month);
    assert(back.day == d.day);
}

} // verus!
