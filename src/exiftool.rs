//! What the metadata tool reports of a file, and how a listing becomes the
//! record of one file.

use vstd::prelude::*;

verus! {

/// The type of a file as the metadata tool reports it.
#[derive(Default, Debug, Clone, PartialEq)]
pub struct Exiftool {
    pub file_type: String,
    pub mime_type: String,
}

impl Exiftool {
    pub fn duplicate(&self) -> (r: Exiftool)
        ensures
            r == *self,
    {
        Exiftool { file_type: self.file_type.clone(), mime_type: self.mime_type.clone() }
    }
}

/// Why a file could not be probed.
#[derive(Debug, Clone, PartialEq)]
pub enum ExiftoolError {
    /// The tool could not be started or read.
    Io(String),
    /// The tool exited with a failure; what it printed.
    Status(String),
    /// Its output was not the expected listing.
    Deserialize(String),
    /// The listing held no record.
    MissingElement,
}

impl ExiftoolError {
    pub open spec fn spec_describe(&self) -> Seq<char> {
        match self {
            ExiftoolError::Io(m) => "Io("@ + m@ + ")"@,
            ExiftoolError::Status(m) => "Status("@ + m@ + ")"@,
            ExiftoolError::Deserialize(m) => "Deserialize("@ + m@ + ")"@,
            ExiftoolError::MissingElement => "MissingElement"@,
        }
    }

    /// The error as a log line shows it.
    pub fn describe(&self) -> (r: String)
        ensures
            r@ == self.spec_describe(),
    {
        match self {
            ExiftoolError::Io(m) => "Io(".to_owned().concat(m.as_str()).concat(")"),
            ExiftoolError::Status(m) => "Status(".to_owned().concat(m.as_str()).concat(")"),
            ExiftoolError::Deserialize(m) => "Deserialize(".to_owned().concat(m.as_str()).concat(")"),
            ExiftoolError::MissingElement => "MissingElement".to_owned(),
        }
    }

    pub fn duplicate(&self) -> (r: ExiftoolError)
        ensures
            r == *self,
    {
        match self {
            ExiftoolError::Io(m) => ExiftoolError::Io(m.clone()),
            ExiftoolError::Status(m) => ExiftoolError::Status(m.clone()),
            ExiftoolError::Deserialize(m) => ExiftoolError::Deserialize(m.clone()),
            ExiftoolError::MissingElement => ExiftoolError::MissingElement,
        }
    }
}

/// The record of one file, from the tool's listing for that file: its first
/// element. An empty listing is `MissingElement`; a failed listing keeps its
/// error.
pub fn exiftool_on_file(listing: Result<Vec<Exiftool>, ExiftoolError>) -> (r: Result<Exiftool, ExiftoolError>)
    ensures
        match listing {
            Ok(v) => if v.len() > 0 {
                r == Ok::<Exiftool, ExiftoolError>(v[0])
            } else {
                r == Err::<Exiftool, ExiftoolError>(ExiftoolError::MissingElement)
            },
            Err(e) => r == Err::<Exiftool, ExiftoolError>(e),
        },
{
    match listing {
        Ok(mut v) => {
            if v.len() > 0 {
                Ok(v.swap_remove(0))
            } else {
                Err(ExiftoolError::MissingElement)
            }
        },
        Err(e) => Err(e),
    }
}

} // verus!
