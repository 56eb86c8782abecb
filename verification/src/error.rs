//! Errors that carry a message for the user and what caused them.

use vstd::prelude::*;

verus! {

/// A message, and the error of the window system behind it.
#[derive(Debug)]
pub struct ErrorMessage<C> {
    pub message: &'static str,
    pub cause: C,
}

impl<C> ErrorMessage<C> {
    pub fn msg_with_cause(message: &'static str, cause: C) -> (error: ErrorMessage<C>)
        ensures
            error.message@ == message@,
            error.cause == cause,
    {
        ErrorMessage { message, cause }
    }
}

/// An event could not be sent.
#[derive(Clone, Copy, Debug, PartialEq, Eq, Structural)]
pub enum EventLoopSendError {
    EventLoopNoLongerExists,
}

} // verus!
