//! The error slot of a request.

use validator::ValidationErrors;
use vstd::prelude::*;

verus! {

/// The validation failure of one request, if one was recorded.
///
/// The slot starts out empty and is filled at most once: whichever guard fails
/// first records its failure, and what later guards report is dropped.
#[derive(Clone)]
pub struct CachedValidationErrors(pub Option<ValidationErrors>);

impl CachedValidationErrors {
    /// The slot as it is once `errors` was offered to it: an empty slot takes
    /// them, a filled one stays as it is.
    pub open spec fn after_store(self, errors: ValidationErrors) -> Self {
        if self.0 is Some {
            self
        } else {
            CachedValidationErrors(Some(errors))
        }
    }

    /// The empty slot of a request that has just come in.
    pub fn new() -> (cache: Self)
        ensures
            cache.0 is None,
    {
        CachedValidationErrors(None)
    }

    /// Records `errors`, unless a failure was recorded before.
    pub fn store(&mut self, errors: ValidationErrors)
        ensures
            *final(self) == old(self).after_store(errors),
    {
        if self.0.is_none() {
            self.0 = Some(errors);
        }
    }
}

/// The first write wins: after one failure was offered to the slot, offering
/// another changes nothing.
pub proof fn lemma_first_write_wins(
    cache: CachedValidationErrors,
    first: ValidationErrors,
    second: ValidationErrors,
)
    ensures
        cache.after_store(first).after_store(second) == cache.after_store(first),
        cache.0 is None ==> cache.after_store(first).after_store(second).0 == Some(first),
{
}

} // verus!
