//! The outside time source: reading today's date and rendering a date
//! through a strftime-style format string. Both go through chrono behind
//! trusted wrappers; everything downstream of them is verified against the
//! contracts stated here.

use vstd::prelude::*;

use chrono::Datelike;
use std::fmt::Write;

use crate::math::Date;

verus! {

/// What chrono's strftime renderer produces for `fmt` applied to the given
/// civil date at midnight, or `None` when the format string cannot be
/// rendered (an invalid specifier, or one that needs a time zone).
pub uninterp spec fn rendered(fmt: Seq<char>, year: int, month: int, day: int) -> Option<
    Seq<char>,
>;

/// The built-in default formats of the four periods.
pub open spec fn is_builtin_format(fmt: Seq<char>) -> bool {
    ||| fmt == "%Y-%m-%d"@
    ||| fmt == "%Y-W%V"@
    ||| fmt == "%Y-%m"@
    ||| fmt == "%Y"@
}

/// Relies on chrono's `NaiveDate::from_ymd_opt`, `NaiveDate::and_hms_opt`
/// and `NaiveDateTime::format`: what the renderer writes depends only on
/// the format string and the date, the output is produced through
/// `fmt::Write` so an unrenderable item surfaces as `Err` rather than a
/// panic, and the four built-in formats use only date specifiers that
/// chrono documents as always supported.
#[verifier::external_body]
pub fn render_format(fmt: &str, date: Date) -> (r: Option<String>)
    requires
        date.wf(),
    ensures
        r matches Some(s) ==> rendered(fmt@, date.year as int, date.month as int, date.day as int)
            == Some(s@),
        r is None ==> rendered(fmt@, date.year as int, date.month as int, date.day as int)
            is None,
        is_builtin_format(fmt@) ==> r is Some,
{
    let nd = chrono::NaiveDate::from_ymd_opt(date.year as i32, date.month as u32, date.day as u32)?;
    let dt = nd.and_hms_opt(0, 0, 0)?;
    let mut out = String::new();
    match write!(out, "{}", dt.format(fmt)) {
        Ok(()) => Some(out),
        Err(_) => None,
    }
}

/// Relies on chrono's `Local::now` and the `Datelike` getters: whatever
/// instant the clock reports, the month lies in 1..=12 and the day in
/// 1..=31.
#[verifier::external_body]
fn now_ymd() -> (r: (i64, i64, i64))
    ensures
        1 <= r.1 <= 12,
        1 <= r.2 <= 31,
{
    let now = chrono::Local::now();
    (now.year() as i64, now.month() as i64, now.day() as i64)
}

/// Today's civil date according to the local clock, when it falls inside
/// the supported year range and names an existing day.
pub fn today() -> (r: Option<Date>)
    ensures
        r matches Some(d) ==> d.wf(),
{
    let (y, m, d) = now_ymd();
    Date::new(y, m, d)
}

} // verus!
