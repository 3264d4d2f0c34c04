//! User-facing command errors.
//!
//! Background-loop failures (transport, persistence) are handled by the
//! caller that performs the I/O; the verified core only ever reports the
//! three command errors below.

use vstd::prelude::*;

verus! {

/// Why a user command was rejected.
#[derive(Clone, Copy, Debug, PartialEq, Eq, Structural)]
pub enum HypeError {
    /// The requester does not own the pending draft.
    Authorization,
    /// No pending draft, or no event matched the lookup.
    NotFound,
    /// Malformed input: an unparsable time, or an announcement
    /// message id that is not a decimal number.
    Validation,
}

impl HypeError {
    /// Short description for reporting back to the invoking user.
    pub fn describe(&self) -> (r: &'static str)
        ensures
            self is Authorization ==> r@ == "you do not have a pending event"@,
            self is NotFound ==> r@ == "not found"@,
            self is Validation ==> r@ == "invalid input"@,
    {
        match self {
            HypeError::Authorization => "you do not have a pending event",
            HypeError::NotFound => "not found",
            HypeError::Validation => "invalid input",
        }
    }
}

} // verus!
