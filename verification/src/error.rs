use vstd::prelude::*;
use crate::text::owned;

verus! {

/// The error of every fallible operation of this crate: a message for the user.
#[derive(Debug)]
pub struct FgcError {
    message: String,
}

impl View for FgcError {
    type V = Seq<char>;

    /// The message text.
    closed spec fn view(&self) -> Seq<char> {
        self.message@
    }
}

impl FgcError {
    /// An error with the given message.
    pub fn new(message: String) -> (e: FgcError)
        ensures
            e@ == message@,
    {
        FgcError { message }
    }

    /// An error with the given message text.
    pub fn from_str(message: &str) -> (e: FgcError)
        ensures
            e@ == message@,
    {
        FgcError { message: owned(message) }
    }

    /// The message, as the error is shown to the user.
    pub fn to_string(&self) -> (s: String)
        ensures
            s@ == self@,
    {
        self.message.clone()
    }

    /// A copy of this error.
    pub fn duplicate(&self) -> (e: FgcError)
        ensures
            e@ == self@,
    {
        FgcError { message: self.message.clone() }
    }
}

} // verus!
