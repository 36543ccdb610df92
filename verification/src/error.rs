//! The single error kind that every fallible operation reports.

use vstd::prelude::*;

verus! {

/// An error with a human-readable message.
#[derive(Debug, PartialEq, Eq)]
pub struct Error {
    message: String,
}

impl View for Error {
    type V = Seq<char>;

    /// The message text.
    closed spec fn view(&self) -> Seq<char> {
        self.message@
    }
}

impl Error {
    /// Builds an error that carries `message`.
    pub fn new(message: String) -> (e: Error)
        ensures
            e@ == message@,
    {
        Error { message }
    }

    /// Gives the message up, consuming the error.
    pub fn into_string(self) -> (s: String)
        ensures
            s@ == self@,
    {
        self.message
    }

    /// A copy of the message.
    pub fn to_string(&self) -> (s: String)
        ensures
            s@ == self@,
    {
        self.message.clone()
    }
}

} // verus!
