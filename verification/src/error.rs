//! Error values of the relay.

use vstd::prelude::*;

verus! {

/// Failure of the relay as a whole.
#[derive(Clone, Copy, Debug, PartialEq, Eq, Structural)]
pub enum ChatError {
    /// The relay could not be started or had to stop.
    GenericError,
}

impl ChatError {
    /// Human-readable description of the error.
    pub fn message(&self) -> (r: String)
        ensures
            r@ == "An unspecified error occurred"@,
    {
        match self {
            ChatError::GenericError => "An unspecified error occurred".to_string(),
        }
    }
}

/// Why a text could not be read as an envelope.
#[derive(Clone, Copy, Debug, PartialEq, Eq, Structural)]
pub enum DecodeError {
    /// The text is not JSON, or its top-level value is not an object.
    Malformed,
    /// The object has no member `content`.
    MissingContent,
    /// The member `content` is not a text.
    ContentNotText,
    /// The member `sender_addr` or `username` is neither a text nor `null`.
    FieldNotText,
}

} // verus!
