//! The run-level error type: one tagged variant per failure class, each
//! carrying a human-readable message.

use vstd::prelude::*;

verus! {

/// Everything that can stop a batch run: input enumeration problems,
/// configuration problems, file-name or file-type grammar violations, and
/// underlying decode/encode/filesystem failures.
#[derive(Debug)]
pub enum Error {
    InputError(String),
    ConfigError(String),
    FormatError(String),
    IoError(String),
}

impl Error {
    /// The message carried by the error, whatever its kind.
    pub open spec fn spec_message(&self) -> Seq<char> {
        match self {
            Error::InputError(m) => m@,
            Error::ConfigError(m) => m@,
            Error::FormatError(m) => m@,
            Error::IoError(m) => m@,
        }
    }

    /// Returns the carried message.
    pub fn message(&self) -> (r: &String)
        ensures
            r@ == self.spec_message(),
    {
        match self {
            Error::InputError(m) => m,
            Error::ConfigError(m) => m,
            Error::FormatError(m) => m,
            Error::IoError(m) => m,
        }
    }
}

} // verus!
