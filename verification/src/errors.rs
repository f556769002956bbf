//! Error type shared by the library.

use vstd::prelude::*;

verus! {

/// Errors produced by shared Rustle infrastructure.
#[derive(Debug, Clone, PartialEq, Eq)]
pub enum CoreError {
    /// A required XDG or home directory could not be resolved.
    MissingDirectory {
        /// The operation that required the directory.
        purpose: &'static str,
    },
    /// A settings file could not be read.
    ReadSettings {
        /// Settings file path.
        path: String,
        /// Description of the underlying I/O error.
        source: String,
    },
    /// A settings file could not be written.
    WriteSettings {
        /// Settings file path.
        path: String,
        /// Description of the underlying I/O error.
        source: String,
    },
    /// A settings file could not be serialized.
    SerializeSettings(String),
}

impl CoreError {
    /// The error's user-facing message.
    pub fn message(&self) -> (r: String)
        ensures
            self matches CoreError::MissingDirectory { purpose } ==> r@ == "unable to resolve home or XDG directory for "@ + purpose@,
    {
        match self {
            CoreError::MissingDirectory { purpose } => {
                let mut r = "unable to resolve home or XDG directory for ".to_owned();
                r.append(purpose);
                r
            },
            CoreError::ReadSettings { path, source } => {
                let mut r = "failed to read settings from ".to_owned();
                r.append(path.as_str());
                r.append(": ");
                r.append(source.as_str());
                r
            },
            CoreError::WriteSettings { path, source } => {
                let mut r = "failed to write settings to ".to_owned();
                r.append(path.as_str());
                r.append(": ");
                r.append(source.as_str());
                r
            },
            CoreError::SerializeSettings(message) => {
                let mut r = "failed to serialize settings: ".to_owned();
                r.append(message.as_str());
                r
            },
        }
    }
}

} // verus!
