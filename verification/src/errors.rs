//! Error types: everything the resolver and materializer can report.
//!
//! The variants carry plain strings (paths, format patterns, messages) so
//! that contracts can speak about them directly.

use vstd::prelude::*;

verus! {

/// Why a configuration could not be loaded, validated or resolved.
#[derive(Debug, Clone, PartialEq, Eq)]
pub enum ConfigError {
    /// The configuration text could not be deserialized; holds the message.
    De(String),
    /// The path does not exist or is not a directory.
    InvalidDir(String),
    /// The path does not exist or is not a regular file.
    InvalidFile(String),
    /// A file-name format pattern the renderer refuses.
    InvalidFormat(String),
    /// An underlying read failed; holds the I/O message.
    Io(String),
    /// The platform offers no configuration directory.
    SystemDir,
}

/// A failure while acting on an already-resolved note.
#[derive(Debug, Clone, PartialEq, Eq)]
pub enum RuntimeError {
    /// An I/O issue reading or writing a file; holds the message.
    Io(String),
}

/// Top-level error: every failure is either a configuration problem or a
/// runtime problem.
#[derive(Debug, Clone, PartialEq, Eq)]
pub enum Status {
    ConfigError(ConfigError),
    RuntimeError(RuntimeError),
}

impl From<ConfigError> for Status {
    fn from(e: ConfigError) -> (r: Status) {
        Status::ConfigError(e)
    }
}

impl vstd::std_specs::convert::FromSpecImpl<ConfigError> for Status {
    open spec fn obeys_from_spec() -> bool {
        true
    }

    open spec fn from_spec(e: ConfigError) -> Status {
        Status::ConfigError(e)
    }
}

impl From<RuntimeError> for Status {
    fn from(e: RuntimeError) -> (r: Status) {
        Status::RuntimeError(e)
    }
}

impl vstd::std_specs::convert::FromSpecImpl<RuntimeError> for Status {
    open spec fn obeys_from_spec() -> bool {
        true
    }

    open spec fn from_spec(e: RuntimeError) -> Status {
        Status::RuntimeError(e)
    }
}

} // verus!
