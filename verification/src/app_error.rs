//! The error record the surrounding service hands to its transport
//! layer: any failure of a request, reduced to a message.

use vstd::prelude::*;

verus! {

/// A request-level failure, carrying the message shown to the caller.
#[derive(Debug)]
pub struct AppError(pub String);

impl AppError {
    pub fn new(message: String) -> (r: AppError)
        ensures
            r.0 == message,
    {
        AppError(message)
    }
}

} // verus!
