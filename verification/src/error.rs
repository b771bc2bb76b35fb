//! The library's error type.

use vstd::prelude::*;

verus! {

/// An error reported by the library, carrying its message text.
#[derive(Debug, Clone)]
pub struct ForgerError {
    pub message: String,
}

impl ForgerError {
    /// An error with the given message.
    pub fn new(message: String) -> (e: Self)
        ensures
            e.message@ == message@,
    {
        ForgerError { message }
    }
}

} // verus!
