use vstd::prelude::*;

verus! {

/// A decoded JSON body: the payload, held as is.
#[derive(Clone, Debug)]
pub struct Json<T>(pub T);

/// A payload that passed validation.
///
/// A value of this type is only produced by the guards of this crate, after
/// the wrapped value was decoded and its validation reported no failure.
#[derive(Clone, Debug)]
pub struct Validated<T>(pub T);

impl<T> Validated<Json<T>> {
    /// Unwraps both layers and returns the JSON payload.
    #[inline]
    pub fn into_deep_inner(self) -> (inner: T)
        ensures
            inner == self.0.0,
    {
        self.0.0
    }
}

impl<T> Validated<T> {
    /// Returns the wrapped value.
    #[inline]
    pub fn into_inner(self) -> (inner: T)
        ensures
            inner == self.0,
    {
        self.0
    }
}

} // verus!
