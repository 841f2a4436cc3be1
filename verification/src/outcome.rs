//! What a guard is handed and what it hands back.

use validator::ValidationErrors;
use vstd::prelude::*;

verus! {

/// The code of the status that every validation failure ends in.
pub const UNPROCESSABLE_ENTITY: u16 = 422;

/// An HTTP status, by its numeric code.
#[derive(Clone, Copy, Debug, PartialEq, Eq, Structural)]
pub struct Status {
    pub code: u16,
}

impl Status {
    /// The status "422 Unprocessable Entity".
    pub open spec fn unprocessable_entity() -> Status {
        Status { code: UNPROCESSABLE_ENTITY }
    }
}

/// The result of a guard: a value, a failure, or no claim on the request at
/// all, in which case another route may be tried.
#[derive(Debug)]
pub enum Outcome<S, E, F> {
    Success(S),
    Error(E),
    Forward(F),
}

/// A decoded value together with what its validation reported.
#[derive(Debug)]
pub struct Checked<T> {
    pub value: T,
    pub verdict: Result<(), ValidationErrors>,
}

/// A failure to decode a body, together with its rendered text.
#[derive(Debug)]
pub struct Undecoded<E> {
    pub error: E,
    pub text: String,
}

} // verus!
