//! The errors of the application.

use vstd::prelude::*;
use vstd::string::StringExecFns;

verus! {

/// `std::io::Error`, which the library carries and never looks into.
#[verifier::external_type_specification]
#[verifier::external_body]
pub struct ExIoError(std::io::Error);

/// What can go wrong in the application.
#[derive(Debug)]
pub enum Error {
    /// An error of the operating system, such as a file that cannot be read.
    Unknown(std::io::Error),
    /// An error that the application describes in its own words.
    Custom(String),
}

/// How `std::io::Error` displays itself. What the text is depends on the
/// error and on the operating system, so nothing is claimed of it.
#[verifier::external_body]
fn io_error_text(error: &std::io::Error) -> String {
    format!("{}", error)
}

impl Error {
    /// Whether a text is one that the error can be shown as: what went
    /// wrong, behind a heading that tells the two kinds of error apart.
    pub open spec fn shown_as(&self, text: Seq<char>) -> bool {
        match self {
            Error::Unknown(_) => exists|detail: Seq<char>| text == "Unknown Error: "@ + detail,
            Error::Custom(detail) => text == "Error: "@ + detail@,
        }
    }

    /// The text that the error is shown as.
    pub fn message(&self) -> (text: String)
        ensures
            self.shown_as(text@),
    {
        match self {
            Error::Unknown(error) => {
                let detail = io_error_text(error);
                String::from_str("Unknown Error: ").concat(detail.as_str())
            },
            Error::Custom(detail) => String::from_str("Error: ").concat(detail.as_str()),
        }
    }
}

impl From<std::io::Error> for Error {
    fn from(error: std::io::Error) -> (wrapped: Error) {
        Error::Unknown(error)
    }
}

impl vstd::std_specs::convert::FromSpecImpl<std::io::Error> for Error {
    open spec fn obeys_from_spec() -> bool {
        true
    }

    open spec fn from_spec(error: std::io::Error) -> Error {
        Error::Unknown(error)
    }
}

} // verus!
