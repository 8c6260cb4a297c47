//! The location of the configuration file, validated before use.

use vstd::prelude::*;

use crate::errors::ConfigError;

verus! {

/// A validated configuration-file path: building one goes through
/// [`ConfigFileBuilder::try_build`], so holding a `ConfigFile` means the
/// path was checked to name a regular file.
#[derive(Debug, Clone)]
pub struct ConfigFile(pub String);

/// The yet-unvalidated configuration-file path, as the environment or the
/// platform default supplied it.
#[derive(Debug, Clone)]
pub struct ConfigFileBuilder(pub String);

impl ConfigFileBuilder {
    /// Wraps a candidate path.
    pub fn new(path: String) -> (r: ConfigFileBuilder)
        ensures
            r.0 == path,
    {
        ConfigFileBuilder(path)
    }

    /// Validates the candidate. The caller reports whether the path names
    /// a regular file; acceptance yields the validated `ConfigFile`,
    /// rejection reports the path as an invalid file.
    pub fn try_build(self, is_file: bool) -> (r: Result<ConfigFile, ConfigError>)
        ensures
            match r {
                Ok(f) => is_file && f.0 == self.0,
                Err(e) => !is_file && (e matches ConfigError::InvalidFile(p) && p == self.0),
            },
    {
        if !is_file {
            return Err(ConfigError::InvalidFile(self.0));
        }
        Ok(ConfigFile(self.0))
    }
}

} // verus!
