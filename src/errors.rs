//! The library's errors.

use vstd::prelude::*;

verus! {

/// What can go wrong outside the per-file processing.
#[derive(Debug, Clone, PartialEq)]
pub enum FixMyLibErrors {
    DbInit(String),
    OpenSubprocess(String),
    PathParsing(String),
    InvalidConfigPreset(String),
}

impl FixMyLibErrors {
    /// The error as a log line shows it.
    pub fn message(&self) -> (r: String)
        ensures
            r@ == match self {
                FixMyLibErrors::DbInit(m) => "Error starting DB: "@ + m@,
                FixMyLibErrors::OpenSubprocess(m) => "Error starting subprocess: "@ + m@,
                FixMyLibErrors::PathParsing(m) => "Failure parsing path: "@ + m@,
                FixMyLibErrors::InvalidConfigPreset(m) => "Invalid config preset: "@ + m@,
            },
    {
        match self {
            FixMyLibErrors::DbInit(m) => "Error starting DB: ".to_owned().concat(m.as_str()),
            FixMyLibErrors::OpenSubprocess(m) => "Error starting subprocess: ".to_owned().concat(m.as_str()),
            FixMyLibErrors::PathParsing(m) => "Failure parsing path: ".to_owned().concat(m.as_str()),
            FixMyLibErrors::InvalidConfigPreset(m) => "Invalid config preset: ".to_owned().concat(
                m.as_str(),
            ),
        }
    }
}

} // verus!
