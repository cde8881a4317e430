//! The error the service reports to its HTTP and GraphQL callers.

use vstd::prelude::*;

verus! {

/// An error with the message shown to the caller.
pub struct DisplexError {
    pub message: String,
}

impl DisplexError {
    /// An error carrying `message`.
    pub fn msg(message: &str) -> (e: Self)
        ensures
            e.message@ == message@,
    {
        DisplexError { message: String::from_str(message) }
    }
}

impl From<String> for DisplexError {
    fn from(message: String) -> (e: DisplexError) {
        DisplexError { message }
    }
}

impl vstd::std_specs::convert::FromSpecImpl<String> for DisplexError {
    open spec fn obeys_from_spec() -> bool {
        true
    }

    open spec fn from_spec(message: String) -> DisplexError {
        DisplexError { message }
    }
}

} // verus!
