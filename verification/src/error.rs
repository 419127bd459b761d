//! The error taxonomy of the configuration store.
//!
//! Every failure is returned to the immediate caller as a typed value: an
//! I/O failure (carrying the offending path and the underlying description),
//! a deserialization failure, a failure of the theme-settings command, or a
//! catch-all for the rest (such as an unresolvable home directory).

use vstd::prelude::*;

verus! {

/// A failure of one of the store's operations.
#[derive(Debug, Clone, PartialEq, Eq)]
pub enum ConfigError {
    /// Reading, writing or creating the configuration file failed; the
    /// message names the offending path and the underlying I/O error.
    Io(String),
    /// The configuration document on disk could not be deserialized.
    Deserialize(String),
    /// The theme-settings command could not be spawned or exited non-zero;
    /// the message carries what the command reported.
    Subprocess(String),
    /// Any other failure, such as an unresolvable home directory.
    Other(String),
}

impl ConfigError {
    /// The human-readable description carried by the error.
    pub fn message(&self) -> (r: &String)
        ensures
            r@ == self.message_view(),
    {
        match self {
            ConfigError::Io(m) => m,
            ConfigError::Deserialize(m) => m,
            ConfigError::Subprocess(m) => m,
            ConfigError::Other(m) => m,
        }
    }

    /// The description carried by the error, as a sequence of characters.
    pub open spec fn message_view(&self) -> Seq<char> {
        match self {
            ConfigError::Io(m) => m@,
            ConfigError::Deserialize(m) => m@,
            ConfigError::Subprocess(m) => m@,
            ConfigError::Other(m) => m@,
        }
    }
}

} // verus!
