//! The four cadences of periodic notes, with the default file-name format
//! string that each one renders the current date through.

use vstd::prelude::*;

verus! {

/// A cadence for recurring notes: one note per day, week, month or year.
#[derive(Debug, Clone, Copy, PartialEq, Eq, Structural)]
pub enum Periodical {
    Day,
    Week,
    Month,
    Year,
}

impl Periodical {
    /// The built-in strftime-style format a period's note name falls back to
    /// when no format override is configured.
    pub open spec fn default_format(self) -> Seq<char> {
        match self {
            Periodical::Day => "%Y-%m-%d"@,
            Periodical::Week => "%Y-W%V"@,
            Periodical::Month => "%Y-%m"@,
            Periodical::Year => "%Y"@,
        }
    }

    /// Executable counterpart of [`Self::default_format`].
    pub fn default_format_str(self) -> (r: &'static str)
        ensures
            r@ == self.default_format(),
    {
        match self {
            Periodical::Day => "%Y-%m-%d",
            Periodical::Week => "%Y-W%V",
            Periodical::Month => "%Y-%m",
            Periodical::Year => "%Y",
        }
    }
}

impl Default for Periodical {
    /// The period a bare invocation falls back to.
    fn default() -> (r: Self)
        ensures
            r == Periodical::Day,
    {
        Periodical::Day
    }
}

} // verus!
