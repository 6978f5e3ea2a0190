//! The one error that the operator reports.

use vstd::prelude::*;

verus! {

/// A request that the cluster refused, as a message for the caller.
#[derive(Debug, PartialEq, Eq)]
pub struct OperatorError {
    message: String,
}

impl View for OperatorError {
    type V = Seq<char>;

    /// The message.
    closed spec fn view(&self) -> Seq<char> {
        self.message@
    }
}

impl Clone for OperatorError {
    fn clone(&self) -> (copy: OperatorError)
        ensures
            copy == *self,
    {
        OperatorError { message: self.message.clone() }
    }
}

impl OperatorError {
    /// An error that says `message`.
    pub fn new(message: String) -> (error: OperatorError)
        ensures
            error@ == message@,
    {
        OperatorError { message }
    }

    /// The message, in place of a `Display` impl.
    pub fn message(&self) -> (message: &str)
        ensures
            message@ == self@,
    {
        self.message.as_str()
    }
}

} // verus!
