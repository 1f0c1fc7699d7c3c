//! Errors of the mission state store.

use vstd::prelude::*;
use vstd::string::*;
use vstd::std_specs::convert::FromSpecImpl;
use crate::state::ParseStateError;

verus! {

/// `std::io::Error`, carried through the library as it came from the
/// operating system. Nothing is known of its contents.
#[verifier::external_type_specification]
#[verifier::external_body]
pub struct ExIoError(std::io::Error);

/// Why the last phase could not be loaded.
#[derive(Debug)]
pub enum Error {
    /// The record does not hold a phase name.
    ParseStateError(ParseStateError),
    /// The record could not be read.
    IOError(std::io::Error),
}

impl From<ParseStateError> for Error {
    fn from(e: ParseStateError) -> (error: Error) {
        Error::ParseStateError(e)
    }
}

impl FromSpecImpl<ParseStateError> for Error {
    open spec fn obeys_from_spec() -> bool {
        true
    }

    open spec fn from_spec(e: ParseStateError) -> Error {
        Error::ParseStateError(e)
    }
}

impl From<std::io::Error> for Error {
    fn from(e: std::io::Error) -> (error: Error) {
        Error::IOError(e)
    }
}

impl FromSpecImpl<std::io::Error> for Error {
    open spec fn obeys_from_spec() -> bool {
        true
    }

    open spec fn from_spec(e: std::io::Error) -> Error {
        Error::IOError(e)
    }
}

/// The text that `std::io::Error` displays, through its `to_string`.
/// Nothing is claimed of it.
#[verifier::external_body]
fn io_error_text(e: &std::io::Error) -> String {
    e.to_string()
}

impl Error {
    /// What went wrong, in words. For a rejected record this is the text of
    /// the parse error; for a failed read it is whatever the operating
    /// system's error displays.
    pub fn description(&self) -> (text: String)
        ensures
            self matches Error::ParseStateError(e) ==> text@ == e@,
    {
        match self {
            Error::ParseStateError(e) => e.description().to_owned(),
            Error::IOError(e) => io_error_text(e),
        }
    }
}

} // verus!
