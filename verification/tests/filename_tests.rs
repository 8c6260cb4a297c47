//! File-name rendering: default and configured formats, the `.md` suffix,
//! and the absolute note and template paths.

use chrono::{Datelike, Local};

use second_brain::app_config::{AppConfig, PeriodTable};
use second_brain::clock::today;
use second_brain::errors::ConfigError;
use second_brain::math::Date;
use second_brain::periodic::Periodical;
use second_brain::periodic_config::PeriodConfig;

fn date_of_now() -> Date {
    let now = Local::now();
    Date::new(now.year() as i64, now.month() as i64, now.day() as i64).unwrap()
}

/// The per-period table of the mixed configuration case: a configured day
/// format, a week sub-directory, and a year format with a template.
fn options_table() -> PeriodTable {
    let day = PeriodConfig::new(
        Some("day".to_string()),
        None,
        Some("%m-%d-%Y".to_string()),
    );
    let week = PeriodConfig::new(Some("period/week".to_string()), None, None);
    let year = PeriodConfig::new(
        None,
        Some("templates/year.md".to_string()),
        Some("%Y".to_string()),
    );
    PeriodTable::new(Some(day), Some(week), None, Some(year))
}

/// The fully-configured day entry.
fn full_table() -> PeriodTable {
    let day = PeriodConfig::new(
        Some("day".to_string()),
        Some("day.md".to_string()),
        Some("%Y-%m-%d".to_string()),
    );
    PeriodTable::new(Some(day), None, None, None)
}

#[test]
fn periodic_config_test_default_filename() {
    let test_cases = [
        (Periodical::Day, "%Y-%m-%d", "test default day config"),
        (Periodical::Week, "%Y-W%V", "test default week config"),
        (Periodical::Month, "%Y-%m", "test default month config"),
        (Periodical::Year, "%Y", "test default year config"),
    ];
    let config = PeriodConfig::default();
    let now = Local::now();
    let date = Date::new(now.year() as i64, now.month() as i64, now.day() as i64).unwrap();
    for (period, fmt, desc) in test_cases {
        let want = format!("{}.md", now.format(fmt));
        let got = config.format_file_name(period, date).unwrap();
        assert_eq!(want, got, "{desc}");
    }
}

#[test]
fn periodic_config_test_mixed_configs_filename() {
    let test_cases = [
        (Periodical::Day, "%m-%d-%Y", "test configured day fmt"),
        (Periodical::Week, "%Y-W%V", "test unconfigured week fmt"),
        (Periodical::Month, "%m", "test fully configured month"),
        (Periodical::Year, "%Y", "test unconfigured year"),
    ];
    let config = [
        PeriodConfig::new(None, None, Some("%m-%d-%Y".to_string())),
        PeriodConfig::default(),
        PeriodConfig::new(None, None, Some("%m".to_string())),
        PeriodConfig::default(),
    ];
    let now = Local::now();
    let date = Date::new(now.year() as i64, now.month() as i64, now.day() as i64).unwrap();
    for ((period, fmt, desc), config) in test_cases.into_iter().zip(config) {
        let want = format!("{}.md", now.format(fmt));
        let got = config.format_file_name(period, date).unwrap();
        assert_eq!(want, got, "{desc}");
    }
}

#[test]
fn mod_test_default_filename() {
    let test_cases = [
        (Periodical::Day, "%Y-%m-%d", "test default day config"),
        (Periodical::Week, "%Y-W%V", "test default week config"),
        (Periodical::Month, "%Y-%m", "test default month config"),
        (Periodical::Year, "%Y", "test default year config"),
    ];
    let app_config = AppConfig::new("./vault".to_string(), PeriodTable::empty());
    let now = Local::now();
    let date = Date::new(now.year() as i64, now.month() as i64, now.day() as i64).unwrap();
    for (period, fmt, desc) in test_cases {
        let want = format!("{}.md", now.format(fmt));
        let got = app_config.get_file_name(period, date).unwrap();
        assert_eq!(want, got, "{desc}");
    }
}

#[test]
fn mod_test_mixed_configs_filename() {
    let test_cases = [
        (Periodical::Day, "%m-%d-%Y", "test configured day fmt"),
        (Periodical::Week, "%Y-W%V", "test unconfigured week fmt"),
        (Periodical::Month, "%m", "test fully configured month"),
        (Periodical::Year, "%Y", "test unconfigured year"),
    ];
    let day = PeriodConfig::new(None, None, Some("%m-%d-%Y".to_string()));
    let week = PeriodConfig::new(Some("period/week".to_string()), None, None);
    let month = PeriodConfig::new(Some("month".to_string()), None, Some("%m".to_string()));
    let table = PeriodTable::new(Some(day), Some(week), Some(month), None);
    let app_config = AppConfig::new("./vault".to_string(), table);
    let now = Local::now();
    let date = Date::new(now.year() as i64, now.month() as i64, now.day() as i64).unwrap();
    for (period, fmt, desc) in test_cases {
        let want = format!("{}.md", now.format(fmt));
        let got = app_config.get_file_name(period, date).unwrap();
        assert_eq!(want, got, "{desc}");
    }
}

#[test]
fn tests_test_absoulute_note_path() {
    let test_cases = [
        (
            PeriodTable::empty(),
            Periodical::Day,
            "%Y-%m-%d",
            "Test unconfigured file names",
        ),
        (
            options_table(),
            Periodical::Day,
            "%m-%d-%Y",
            "Test configured file name.",
        ),
    ];
    let now = Local::now();
    let date = Date::new(now.year() as i64, now.month() as i64, now.day() as i64).unwrap();
    for (table, period, want, desc) in test_cases {
        let config = AppConfig::new("./vaults".to_string(), table);
        let got = config
            .try_format_absolute_note_path(period, date, "/cwd")
            .unwrap();
        let file_name = now.format(want).to_string();
        assert!(got.contains(&file_name), "{desc}");
        assert!(got.contains("vaults"), "{desc}");
    }
}

#[test]
fn tests_test_absolute_template_path() {
    let test_cases = [
        (
            PeriodTable::empty(),
            Periodical::Week,
            None,
            "Case default: test unconfigured template file",
        ),
        (
            options_table(),
            Periodical::Year,
            Some("templates/year.md"),
            "Case options: test configured template file",
        ),
        (
            full_table(),
            Periodical::Day,
            Some("day.md"),
            "Case full: test configured template file",
        ),
    ];
    for (table, period, want, desc) in test_cases {
        let config = AppConfig::new("./vaults".to_string(), table);
        let got = config.try_format_absolute_template_path(period, "/cwd");
        match got {
            None => assert!(want.is_none(), "Expeted None: {desc}"),
            Some(path) => {
                assert!(path.contains(want.unwrap()), "Check want: {desc}");
                assert!(path.contains("vaults"), "Check aubsolute-ish: {desc}");
            }
        }
    }
}

#[test]
fn rendered_day_name_is_exact() {
    let config = PeriodConfig::default();
    let date = Date::new(2004, 2, 29).unwrap();
    let got = config.format_file_name(Periodical::Day, date).unwrap();
    assert_eq!("2004-02-29.md", got);
}

#[test]
fn unrenderable_format_is_reported() {
    let day = PeriodConfig::new(None, None, Some("%".to_string()));
    let table = PeriodTable::new(Some(day), None, None, None);
    let config = AppConfig::new("/vault".to_string(), table);
    let date = Date::new(2004, 2, 29).unwrap();
    let got = config.try_format_absolute_note_path(Periodical::Day, date, "/cwd");
    assert_eq!(Err(ConfigError::InvalidFormat("%".to_string())), got);
}

#[test]
fn today_reports_a_plausible_date() {
    let before = Local::now();
    let d = today().unwrap();
    let after = Local::now();
    assert!(1 <= d.month && d.month <= 12);
    assert!(1 <= d.day && d.day <= 31);
    assert!(before.year() as i64 <= d.year && d.year <= after.year() as i64);
}
