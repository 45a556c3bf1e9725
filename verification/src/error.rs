//! Error types shared by the task stores and the task manager.

use vstd::prelude::*;

verus! {

/// The result of every storage and manager operation.
///
/// `TaskNotFound` is kept apart from `IOError` so that callers can react to a
/// missing task differently from a broken store. A zero row count from a
/// remove or update is a normal outcome, not an error.
#[derive(Debug)]
pub enum Error {
    TaskNotFound,
    IOError(String),
    InquireError,
    ParsingError,
    UserAbort,
}

/// Returned when a selection string names no variant of an option enum.
#[derive(Debug)]
pub struct EnumParseError;

impl From<EnumParseError> for Error {
    /// A selection that names no variant is a parsing failure.
    fn from(err: EnumParseError) -> (r: Error) {
        Error::ParsingError
    }
}

impl vstd::std_specs::convert::FromSpecImpl<EnumParseError> for Error {
    open spec fn obeys_from_spec() -> bool {
        true
    }

    open spec fn from_spec(err: EnumParseError) -> Error {
        Error::ParsingError
    }
}

} // verus!
