//! Periodic-note resolution and materialization.
//!
//! A vault of notes is kept on one of four cadences — daily, weekly,
//! monthly, yearly. This library turns a period plus a layered
//! configuration into the note's absolute path, decides whether and with
//! which bytes the note file must be created, and offsets dates by whole
//! periods with calendar-correct month and year arithmetic.
//!
//! All decisions are verified. The callers own the file-system probing and
//! hand its outcome in as plain values; the clock and chrono's strftime
//! renderer stand behind trusted wrappers in [`clock`].

pub mod app_config;
pub mod clock;
pub mod config_file;
pub mod errors;
pub mod math;
pub mod paths;
pub mod periodic;
pub mod periodic_config;
pub mod writer;
