//! The resolved application configuration: a vault root plus one optional
//! override entry per period, and the resolution of a period into its
//! note directory, file name and template path.
//!
//! Resolution is a pure function of the configuration, the period, the
//! date and the working directory, which makes re-resolving within the
//! same date reproducible.

use vstd::prelude::*;
use vstd::string::*;

use crate::clock::rendered;
use crate::errors::ConfigError;
use crate::math::Date;
use crate::paths::{absolutize_path, is_absolute_path, join_path, spec_absolutize, spec_join};
use crate::periodic::Periodical;
use crate::periodic_config::PeriodConfig;

verus! {

/// One optional override entry per period: the fixed-size table the
/// per-period configuration is kept in.
#[derive(Debug, Clone)]
pub struct PeriodTable {
    pub day: Option<PeriodConfig>,
    pub week: Option<PeriodConfig>,
    pub month: Option<PeriodConfig>,
    pub year: Option<PeriodConfig>,
}

impl PeriodTable {
    /// The entry stored for `period`.
    pub open spec fn entry(self, period: Periodical) -> Option<PeriodConfig> {
        match period {
            Periodical::Day => self.day,
            Periodical::Week => self.week,
            Periodical::Month => self.month,
            Periodical::Year => self.year,
        }
    }

    /// A table with no entry configured.
    pub fn empty() -> (r: PeriodTable)
        ensures
            forall|p: Periodical| r.entry(p) is None,
    {
        PeriodTable { day: None, week: None, month: None, year: None }
    }

    /// Builds a table from its four entries.
    pub fn new(
        day: Option<PeriodConfig>,
        week: Option<PeriodConfig>,
        month: Option<PeriodConfig>,
        year: Option<PeriodConfig>,
    ) -> (r: PeriodTable)
        ensures
            r == (PeriodTable { day, week, month, year }),
    {
        PeriodTable { day, week, month, year }
    }

    /// Looks the entry for `period` up.
    pub fn get(&self, period: Periodical) -> (r: &Option<PeriodConfig>)
        ensures
            *r == self.entry(period),
    {
        match period {
            Periodical::Day => &self.day,
            Periodical::Week => &self.week,
            Periodical::Month => &self.month,
            Periodical::Year => &self.year,
        }
    }
}

/// The raw shape of the vault section of the configuration file.
#[derive(Debug, Clone)]
pub struct TomlVault {
    pub dir: String,
}

/// The raw shape of the whole configuration file, before validation: a
/// vault directory and an optional per-period table.
#[derive(Debug, Clone)]
pub struct TomlConfig {
    pub vault: TomlVault,
    pub periodical: Option<PeriodTable>,
}

impl TomlConfig {
    /// The override entry the raw configuration carries for `period`.
    pub open spec fn entry(self, period: Periodical) -> Option<PeriodConfig> {
        match self.periodical {
            Some(t) => t.entry(period),
            None => None,
        }
    }
}

/// The validated application configuration: the vault root directory and
/// the per-period override table.
#[derive(Debug, Clone)]
pub struct AppConfig {
    pub vault: String,
    pub periodical: PeriodTable,
}

impl AppConfig {
    /// The override entry configured for `period`, if any.
    pub open spec fn override_for(self, period: Periodical) -> Option<PeriodConfig> {
        self.periodical.entry(period)
    }

    /// The parent directory of `period`'s notes: the configured
    /// sub-directory joined under the vault root, or the root itself.
    pub open spec fn spec_parent_dir(self, period: Periodical) -> Seq<char> {
        match self.override_for(period) {
            Some(pc) => match pc.dir {
                Some(d) => spec_join(self.vault@, d@),
                None => self.vault@,
            },
            None => self.vault@,
        }
    }

    /// The parent directory, anchored under the working directory when it
    /// is relative.
    pub open spec fn spec_periodical_dir(self, period: Periodical, cwd: Seq<char>) -> Seq<char> {
        spec_absolutize(self.spec_parent_dir(period), cwd)
    }

    /// The format `period`'s note names are rendered through: the
    /// configured one, or the period's built-in default.
    pub open spec fn spec_chosen_format(self, period: Periodical) -> Seq<char> {
        match self.override_for(period) {
            Some(pc) => pc.chosen_format(period),
            None => period.default_format(),
        }
    }

    /// The note's file name on `date`: the chosen format rendered on the
    /// date, suffixed with `.md`. `None` when the format is unrenderable.
    pub open spec fn spec_file_name(self, period: Periodical, date: Date) -> Option<Seq<char>> {
        match rendered(
            self.spec_chosen_format(period),
            date.year as int,
            date.month as int,
            date.day as int,
        ) {
            Some(base) => Some(base + ".md"@),
            None => None,
        }
    }

    /// The note's full path on `date`: the file name joined onto the
    /// absolutized directory.
    pub open spec fn spec_note_path(self, period: Periodical, date: Date, cwd: Seq<char>) -> Option<
        Seq<char>,
    > {
        match self.spec_file_name(period, date) {
            Some(name) => Some(spec_join(self.spec_periodical_dir(period, cwd), name)),
            None => None,
        }
    }

    /// The template path configured for `period`, absolutized: joined
    /// under the vault root, then anchored under the working directory.
    pub open spec fn spec_template_path(self, period: Periodical, cwd: Seq<char>) -> Option<
        Seq<char>,
    > {
        match self.override_for(period) {
            Some(pc) => match pc.template {
                Some(t) => Some(spec_absolutize(spec_join(self.vault@, t@), cwd)),
                None => None,
            },
            None => None,
        }
    }

    /// Builds a configuration from an already-validated vault root and a
    /// period table.
    pub fn new(vault: String, periodical: PeriodTable) -> (r: AppConfig)
        ensures
            r == (AppConfig { vault, periodical }),
    {
        AppConfig { vault, periodical }
    }

    /// Validates a raw configuration. The caller reports whether the vault
    /// path names an existing directory; acceptance turns the raw shape
    /// into a configuration, rejection reports the vault path as an
    /// invalid directory.
    pub fn try_from(toml: TomlConfig, vault_is_dir: bool) -> (r: Result<AppConfig, ConfigError>)
        ensures
            match r {
                Ok(c) => vault_is_dir && c.vault == toml.vault.dir && forall|p: Periodical|
                    c.override_for(p) == toml.entry(p),
                Err(e) => !vault_is_dir && (e matches ConfigError::InvalidDir(s) && s
                    == toml.vault.dir),
            },
    {
        if !vault_is_dir {
            return Err(ConfigError::InvalidDir(toml.vault.dir));
        }
        let periodical = match toml.periodical {
            Some(t) => t,
            None => PeriodTable::empty(),
        };
        Ok(AppConfig { vault: toml.vault.dir, periodical })
    }

    /// The configured root directory of the vault.
    pub fn get_vault_root(&self) -> (r: &str)
        ensures
            r@ == self.vault@,
    {
        self.vault.as_str()
    }

    /// The parent directory of `period`'s notes, before absolutization:
    /// the configured sub-directory joined under the vault root, or the
    /// vault root itself when none is configured.
    pub fn get_parent_dir(&self, period: Periodical) -> (r: String)
        ensures
            r@ == self.spec_parent_dir(period),
    {
        let dir_opt: Option<&str> = match self.periodical.get(period) {
            Some(pc) => pc.get_parent_dir(),
            None => None,
        };
        match dir_opt {
            Some(d) => join_path(self.vault.as_str(), d),
            None => self.vault.clone(),
        }
    }

    /// The directory `period`'s notes live in, anchored under the working
    /// directory `cwd` when the configured path is relative.
    pub fn get_periodical_dir(&self, period: Periodical, cwd: &str) -> (r: String)
        ensures
            r@ == self.spec_periodical_dir(period, cwd@),
    {
        let parent = self.get_parent_dir(period);
        absolutize_path(parent.as_str(), cwd)
    }

    /// The note's file name for `period` on `date`: the configured format
    /// or the period's default, rendered and suffixed with `.md`. `None`
    /// exactly when a configured format cannot be rendered; without a
    /// configured format the name always resolves.
    pub fn get_file_name(&self, period: Periodical, date: Date) -> (r: Option<String>)
        requires
            date.wf(),
        ensures
            r matches Some(s) ==> self.spec_file_name(period, date) == Some(s@),
            r is None ==> self.spec_file_name(period, date) is None,
            (match self.override_for(period) {
                Some(pc) => pc.fmt_spec() is None,
                None => true,
            }) ==> r is Some,
    {
        match self.periodical.get(period) {
            Some(pc) => pc.format_file_name(period, date),
            None => {
                let def = PeriodConfig::default();
                def.format_file_name(period, date)
            },
        }
    }

    /// The absolute path of `period`'s note on `date`, under the working
    /// directory `cwd`: directory resolution, file-name rendering and the
    /// final join. Fails, naming the offending format pattern, exactly
    /// when a configured format cannot be rendered.
    pub fn try_format_absolute_note_path(&self, period: Periodical, date: Date, cwd: &str) -> (r:
        Result<String, ConfigError>)
        requires
            date.wf(),
        ensures
            match r {
                Ok(s) => self.spec_note_path(period, date, cwd@) == Some(s@),
                Err(e) => {
                    &&& self.spec_note_path(period, date, cwd@) is None
                    &&& e matches ConfigError::InvalidFormat(f) && f@ == self.spec_chosen_format(
                        period,
                    )
                },
            },
            (match self.override_for(period) {
                Some(pc) => pc.fmt_spec() is None,
                None => true,
            }) ==> r is Ok,
    {
        let dir = self.get_periodical_dir(period, cwd);
        match self.get_file_name(period, date) {
            Some(name) => Ok(join_path(dir.as_str(), name.as_str())),
            None => {
                let fmt = match self.periodical.get(period) {
                    Some(pc) => match &pc.fmt {
                        Some(f) => f.clone(),
                        None => period.default_format_str().to_owned(),
                    },
                    None => period.default_format_str().to_owned(),
                };
                Err(ConfigError::InvalidFormat(fmt))
            },
        }
    }

    /// The absolute path of `period`'s template file, when one is
    /// configured: joined under the vault root and anchored under the
    /// working directory `cwd`.
    pub fn try_format_absolute_template_path(&self, period: Periodical, cwd: &str) -> (r: Option<
        String,
    >)
        ensures
            r matches Some(s) ==> self.spec_template_path(period, cwd@) == Some(s@),
            r is None ==> self.spec_template_path(period, cwd@) is None,
    {
        let tpl: Option<&str> = match self.periodical.get(period) {
            Some(pc) => pc.get_template_file(),
            None => None,
        };
        match tpl {
            Some(t) => {
                let joined = join_path(self.vault.as_str(), t);
                Some(absolutize_path(joined.as_str(), cwd))
            },
            None => None,
        }
    }
}

/// Resolution is idempotent: the same configuration, period, date and
/// working directory resolve to the same full path, however often they
/// are resolved.
pub proof fn lemma_resolution_idempotent(
    c: AppConfig,
    p: Periodical,
    d: Date,
    cwd: Seq<char>,
    r1: Seq<char>,
    r2: Seq<char>,
)
    requires
        c.spec_note_path(p, d, cwd) == Some(r1),
        c.spec_note_path(p, d, cwd) == Some(r2),
    ensures
        r1 == r2,
{
}

/// A period with no override entry falls back to every default: the vault
/// root as directory, the built-in format for the file name, and no
/// template.
pub proof fn lemma_unconfigured_defaults(c: AppConfig, p: Periodical, d: Date, cwd: Seq<char>)
    requires
        c.override_for(p) is None,
    ensures
        c.spec_parent_dir(p) == c.vault@,
        c.spec_periodical_dir(p, cwd) == spec_absolutize(c.vault@, cwd),
        c.spec_chosen_format(p) == p.default_format(),
        c.spec_file_name(p, d) == (match rendered(
            p.default_format(),
            d.year as int,
            d.month as int,
            d.day as int,
        ) {
            Some(base) => Some(base + ".md"@),
            None => None::<Seq<char>>,
        }),
        c.spec_template_path(p, cwd) is None,
{
}

/// Anchoring under an absolute working directory yields an absolute path.
pub proof fn lemma_absolutize_absolute(p: Seq<char>, cwd: Seq<char>)
    requires
        is_absolute_path(cwd),
    ensures
        is_absolute_path(spec_absolutize(p, cwd)),
{
}

/// Every full path the resolver produces under an absolute working
/// directory is absolute, and its parent is exactly the resolved
/// directory — provided the rendered file name is a real component (it is
/// nonempty and holds no separator) and the resolved directory does not
/// itself end in a separator.
pub proof fn lemma_note_path_shape(
    c: AppConfig,
    p: Periodical,
    d: Date,
    cwd: Seq<char>,
    name: Seq<char>,
)
    requires
        is_absolute_path(cwd),
        c.spec_file_name(p, d) == Some(name),
        name.len() > 0,
        forall|i: int| 0 <= i < name.len() ==> name[i] != '/',
        c.spec_periodical_dir(p, cwd).last() != '/',
    ensures
        c.spec_note_path(p, d, cwd) matches Some(full) && is_absolute_path(full)
            && crate::paths::parent_of(full) == c.spec_periodical_dir(p, cwd),
{
    let dir = c.spec_periodical_dir(p, cwd);
    lemma_absolutize_absolute(c.spec_parent_dir(p), cwd);
    assert(!is_absolute_path(name));
    let full = spec_join(dir, name);
    assert(full == dir + "/"@ + name);
    crate::paths::lemma_parent_of_join(dir, name);
    assert(is_absolute_path(full));
}

} // verus!
