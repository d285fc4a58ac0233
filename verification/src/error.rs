//! Errors shared across the library.
use vstd::prelude::*;

verus! {

/// An operation was asked of something not in a state to do it, such as a builder that lacks
/// a required field.
#[derive(Debug, PartialEq)]
pub struct InvalidStateError {
    message: String,
}

impl InvalidStateError {
    /// The description of the error.
    pub closed spec fn spec_message(&self) -> Seq<char> {
        self.message@
    }

    /// An error with the given description.
    pub fn with_message(message: String) -> (e: Self)
        ensures
            e.spec_message() == message@,
    {
        InvalidStateError { message }
    }

    /// The description of the error.
    pub fn message(&self) -> (s: &str)
        ensures
            s@ == self.spec_message(),
    {
        self.message.as_str()
    }
}

} // verus!
