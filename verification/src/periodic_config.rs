//! Per-period configuration overrides: an optional sub-directory, an
//! optional template file and an optional file-name format, each falling
//! back to the period's default when absent.

use vstd::prelude::*;
use vstd::string::*;

use crate::clock::{render_format, rendered};
use crate::math::Date;
use crate::periodic::Periodical;

verus! {

/// The override entry a period may carry in the configuration: any field
/// may be absent, and absence means the built-in default.
#[derive(Debug, Clone)]
pub struct PeriodConfig {
    pub dir: Option<String>,
    pub template: Option<String>,
    pub fmt: Option<String>,
}

impl PeriodConfig {
    /// The configured sub-directory, if any.
    pub open spec fn dir_spec(self) -> Option<Seq<char>> {
        match self.dir {
            Some(s) => Some(s@),
            None => None,
        }
    }

    /// The configured template path, if any.
    pub open spec fn template_spec(self) -> Option<Seq<char>> {
        match self.template {
            Some(s) => Some(s@),
            None => None,
        }
    }

    /// The configured file-name format, if any.
    pub open spec fn fmt_spec(self) -> Option<Seq<char>> {
        match self.fmt {
            Some(s) => Some(s@),
            None => None,
        }
    }

    /// The format this entry renders file names through for `period`: the
    /// configured one, or the period's built-in default.
    pub open spec fn chosen_format(self, period: Periodical) -> Seq<char> {
        match self.fmt {
            Some(f) => f@,
            None => period.default_format(),
        }
    }

    /// The file name this entry yields for `period` on `date`: the format
    /// rendered on the date, with the fixed `.md` suffix appended. `None`
    /// when the configured format cannot be rendered.
    pub open spec fn spec_file_name(self, period: Periodical, date: Date) -> Option<Seq<char>> {
        match rendered(
            self.chosen_format(period),
            date.year as int,
            date.month as int,
            date.day as int,
        ) {
            Some(base) => Some(base + ".md"@),
            None => None,
        }
    }

    /// Builds an override entry from its three optional fields.
    pub fn new(dir: Option<String>, template: Option<String>, fmt: Option<String>) -> (r:
        PeriodConfig)
        ensures
            r.dir_spec() == (match dir {
                Some(s) => Some(s@),
                None => None,
            }),
            r.template_spec() == (match template {
                Some(s) => Some(s@),
                None => None,
            }),
            r.fmt_spec() == (match fmt {
                Some(s) => Some(s@),
                None => None,
            }),
    {
        PeriodConfig { dir, template, fmt }
    }

    /// The configured parent directory for the periodical note file, if
    /// one was set.
    pub fn get_parent_dir(&self) -> (r: Option<&str>)
        ensures
            r matches Some(s) ==> self.dir_spec() == Some(s@),
            r is None ==> self.dir_spec() is None,
    {
        match &self.dir {
            Some(s) => Some(s.as_str()),
            None => None,
        }
    }

    /// The configured template file location for the periodical note
    /// file, if one was set.
    pub fn get_template_file(&self) -> (r: Option<&str>)
        ensures
            r matches Some(s) ==> self.template_spec() == Some(s@),
            r is None ==> self.template_spec() is None,
    {
        match &self.template {
            Some(s) => Some(s.as_str()),
            None => None,
        }
    }

    /// The file name for this period's note on `date`: the configured
    /// format, or the period's default if none was set, rendered on the
    /// date and suffixed with `.md`. `None` exactly when the configured
    /// format cannot be rendered; an entry without a configured format
    /// always succeeds.
    pub fn format_file_name(&self, period: Periodical, date: Date) -> (r: Option<String>)
        requires
            date.wf(),
        ensures
            r matches Some(s) ==> self.spec_file_name(period, date) == Some(s@),
            r is None ==> self.spec_file_name(period, date) is None,
            self.fmt_spec() is None ==> r is Some,
    {
        let fmt: &str = match &self.fmt {
            Some(f) => f.as_str(),
            None => period.default_format_str(),
        };
        match render_format(fmt, date) {
            Some(base) => Some(base.concat(".md")),
            None => None,
        }
    }
}

impl Default for PeriodConfig {
    /// An empty entry: every field falls back to its default.
    fn default() -> (r: Self)
        ensures
            r.dir_spec() is None,
            r.template_spec() is None,
            r.fmt_spec() is None,
    {
        PeriodConfig { dir: None, template: None, fmt: None }
    }
}

} // verus!
