//! Configuration resolution: vault root, per-period directories and
//! validation.

use second_brain::app_config::{AppConfig, PeriodTable, TomlConfig, TomlVault};
use second_brain::config_file::ConfigFileBuilder;
use second_brain::errors::ConfigError;
use second_brain::periodic::Periodical;
use second_brain::periodic_config::PeriodConfig;

fn default_config() -> AppConfig {
    AppConfig::new("./vault".to_string(), PeriodTable::empty())
}

fn mixed_config() -> AppConfig {
    let day = PeriodConfig::new(None, None, Some("%m-%d-%Y".to_string()));
    let week = PeriodConfig::new(Some("period/week".to_string()), None, None);
    let month = PeriodConfig::new(Some("month".to_string()), None, Some("%m".to_string()));
    let table = PeriodTable::new(Some(day), Some(week), Some(month), None);
    AppConfig::new("./vault".to_string(), table)
}

fn period_name(p: Periodical) -> &'static str {
    match p {
        Periodical::Day => "day",
        Periodical::Week => "week",
        Periodical::Month => "month",
        Periodical::Year => "year",
    }
}

#[test]
fn tests_test_parent_dir() {
    let test_cases = [
        ("./vaults", "Test unconfigured sub-directories."),
        ("./vaults/period/week", "Test configured subdirectory"),
    ];
    for (want, desc) in test_cases {
        let config = AppConfig::new(want.to_string(), PeriodTable::empty());
        let got = config.get_vault_root();
        assert_eq!(want, got, "{desc}");
    }
}

#[test]
fn test_default_periodical_dir() {
    let test_cases = [
        Periodical::Day,
        Periodical::Week,
        Periodical::Month,
        Periodical::Year,
    ];
    let app_config = default_config();
    for f in test_cases {
        let want = "/vault";
        let got = app_config.get_periodical_dir(f, "/cwd");
        assert!(got.contains(want), "test default {} config", period_name(f));
    }
}

#[test]
fn test_configured_periodical_dir() {
    let test_cases = [
        (Periodical::Day, "/vault", "test None dayr dir"),
        (
            Periodical::Week,
            "/vault/period/week",
            "test configured week dir",
        ),
        (
            Periodical::Month,
            "/vault/month",
            "test configured month dir",
        ),
        (Periodical::Year, "/vault", "test unconfigured year"),
    ];
    let app_config = mixed_config();
    for (period, want, desc) in test_cases {
        let got = app_config.get_periodical_dir(period, "/cwd");
        assert!(got.contains(want), "{desc}");
    }
}

#[test]
fn test_vault_root() {
    let test_cases = ["day", "month", "week", "year"];
    let app_config = mixed_config();
    for exclude in test_cases {
        let got = app_config.get_vault_root();
        assert!(
            !got.contains(exclude),
            "test if get_vault_root() doesn't use periodic folders"
        );
    }
}

#[test]
fn tests_test_invalid_vault() {
    let desc =
        "Test invalid/non-existant vault directory in the TomlConfig to AppConfig conversion.";
    let want = ConfigError::InvalidDir("invalid".to_string());

    let month = PeriodConfig::new(Some("period/month".to_string()), None, None);
    let year = PeriodConfig::new(
        None,
        Some("year.md".to_string()),
        Some("%Y".to_string()),
    );
    let toml = TomlConfig {
        vault: TomlVault {
            dir: "invalid".to_string(),
        },
        periodical: Some(PeriodTable::new(None, None, Some(month), Some(year))),
    };
    let got = AppConfig::try_from(toml, false);

    match got {
        Ok(e) => panic!("Expected error, got {e:?}."),
        Err(e) => assert_eq!(want, e, "{desc}"),
    }
}

#[test]
fn valid_vault_is_accepted() {
    let toml = TomlConfig {
        vault: TomlVault {
            dir: "/vault".to_string(),
        },
        periodical: None,
    };
    let got = AppConfig::try_from(toml, true).unwrap();
    assert_eq!("/vault", got.get_vault_root());
}

#[test]
fn config_file_builder_accepts_files() {
    let builder = ConfigFileBuilder::new("/etc/sb_config.toml".to_string());
    let got = builder.try_build(true).unwrap();
    assert_eq!("/etc/sb_config.toml", got.0);
}

#[test]
fn config_file_builder_rejects_non_files() {
    let builder = ConfigFileBuilder::new("/nowhere/sb_config.toml".to_string());
    let got = builder.try_build(false);
    assert_eq!(
        Err(ConfigError::InvalidFile("/nowhere/sb_config.toml".to_string())),
        got.map(|f| f.0)
    );
}

#[test]
fn mod_test_parent_dir() {
    let week = PeriodConfig::new(Some("period/week".to_string()), None, None);
    let test_cases = [
        (
            PeriodTable::empty(),
            Periodical::Day,
            "./vaults",
            "Test unconfigured sub-directories.",
        ),
        (
            PeriodTable::new(None, Some(week), None, None),
            Periodical::Week,
            "./vaults/period/week",
            "Test configured subdirectory",
        ),
    ];
    for (table, period, want, desc) in test_cases {
        let config = AppConfig::new("./vaults".to_string(), table);
        let got = config.get_parent_dir(period);
        assert_eq!(want, got, "{desc}");
    }
}
