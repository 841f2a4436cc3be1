//! The guards for bodies and for values built from a request.
//!
//! Decoding and validating are done by the caller, who hands over what came
//! of them. Each guard decides what the handler gets and what is recorded in
//! the request's error slot.

use crate::cache::CachedValidationErrors;
use crate::errors::{entries, Entries};
use crate::outcome::{Checked, Outcome, Status, Undecoded, UNPROCESSABLE_ENTITY};
use crate::validated::{Json, Validated};
use std::borrow::Cow;
use validator::{ValidationError, ValidationErrors};
use vstd::prelude::*;

verus! {

/// The field under which a failure to decode a body is recorded.
pub const PARSER_FIELD: &'static str = "Parser";

/// The code of the failure that stands for a failure to decode a body.
pub const PARSER_CODE: &'static str = "Error";

/// What is recorded for a body that could not be decoded: with
/// `parser_errors`, one failure under [`PARSER_FIELD`] whose message is the
/// decoder's text; without, nothing.
pub open spec fn parser_entries(parser_errors: bool, text: Seq<char>) -> Entries {
    if parser_errors {
        Entries::empty().insert(PARSER_FIELD@, Some(seq![(PARSER_CODE@, Some(text))]))
    } else {
        Entries::empty()
    }
}

/// With parser errors exactly one field is recorded, [`PARSER_FIELD`], and
/// under it exactly one failure: its code is [`PARSER_CODE`] and its message
/// is the decoder's text. Without parser errors no field is recorded.
pub proof fn lemma_parser_entries(text: Seq<char>)
    ensures
        parser_entries(true, text).dom() == set![PARSER_FIELD@],
        parser_entries(true, text)[PARSER_FIELD@] == Some(seq![(PARSER_CODE@, Some(text))]),
        parser_entries(false, text).dom() == Set::<Seq<char>>::empty(),
{
}

impl<T> Validated<T> {
    /// The outcome for a value that was decoded, by what its validation
    /// reported.
    fn settle<E, F>(checked: Checked<T>, cache: &mut CachedValidationErrors) -> (outcome: Outcome<
        Self,
        (Status, Result<ValidationErrors, E>),
        F,
    >)
        ensures
            checked.verdict is Ok
                ==> outcome === Outcome::Success(Validated(checked.value))
                && *final(cache) == *old(cache),
            checked.verdict matches Err(errors)
                ==> outcome === Outcome::Error((Status::unprocessable_entity(), Ok(errors)))
                && *final(cache) == old(cache).after_store(errors),
    {
        match checked.verdict {
            Ok(_) => Outcome::Success(Validated(checked.value)),
            Err(errors) => {
                cache.store(errors.clone());
                Outcome::Error((Status { code: UNPROCESSABLE_ENTITY }, Ok(errors)))
            },
        }
    }

    /// The guard for a value that is built from the request itself.
    ///
    /// `decoded` is what the wrapped type's own guard produced, with the
    /// verdict of the validation where it produced a value. A value that
    /// passed is wrapped and handed on, and the slot is left alone. For one
    /// that did not, the failure is recorded in the slot, unless an earlier
    /// one is there, and the outcome is a 422 that carries it. A failure or a
    /// forward of the wrapped guard is passed on as it came, and the slot is
    /// left alone.
    pub fn from_request<E, F>(
        decoded: Outcome<Checked<T>, (Status, E), F>,
        cache: &mut CachedValidationErrors,
    ) -> (outcome: Outcome<Self, (Status, Result<ValidationErrors, E>), F>)
        ensures
            old(cache).0 is Some ==> *final(cache) == *old(cache),
            decoded matches Outcome::Success(checked) ==> (checked.verdict is Ok
                ==> outcome === Outcome::Success(Validated(checked.value))
                && *final(cache) == *old(cache)),
            decoded matches Outcome::Success(checked) ==> (checked.verdict matches Err(errors)
                ==> outcome === Outcome::Error((Status::unprocessable_entity(), Ok(errors)))
                && *final(cache) == old(cache).after_store(errors)),
            decoded matches Outcome::Error(failure)
                ==> outcome === Outcome::Error((failure.0, Err(failure.1)))
                && *final(cache) == *old(cache),
            decoded matches Outcome::Forward(forward)
                ==> outcome === Outcome::Forward(forward) && *final(cache) == *old(cache),
    {
        match decoded {
            Outcome::Error((status, error)) => Outcome::Error((status, Err(error))),
            Outcome::Forward(forward) => Outcome::Forward(forward),
            Outcome::Success(checked) => Self::settle(checked, cache),
        }
    }
}

impl<D> Validated<Json<D>> {
    /// The guard for a JSON body.
    ///
    /// `decoded` is what the JSON decoder produced: the body with the verdict
    /// of its validation, or the decoder's failure with its rendered text, or
    /// a forward.
    ///
    /// A body that passed validation is wrapped and handed on, and the slot
    /// is left alone. For one that did not, the failure is recorded in the
    /// slot, unless an earlier one is there, and the outcome is a 422 that
    /// carries it. A forward is passed on, and the slot is left alone.
    ///
    /// For a body that could not be decoded, a collection is made up and
    /// recorded in the same way: with `parser_errors` it holds one failure
    /// under [`PARSER_FIELD`] with the decoder's text as its message, without
    /// it is empty. The outcome keeps the decoder's status; it carries the
    /// collection with `parser_errors`, and the decoder's own failure
    /// without.
    pub fn from_data<E, F>(
        decoded: Outcome<Checked<Json<D>>, (Status, Undecoded<E>), F>,
        cache: &mut CachedValidationErrors,
        parser_errors: bool,
    ) -> (outcome: Outcome<Self, (Status, Result<ValidationErrors, E>), F>)
        ensures
            old(cache).0 is Some ==> *final(cache) == *old(cache),
            decoded matches Outcome::Success(checked) ==> (checked.verdict is Ok
                ==> outcome === Outcome::Success(Validated(checked.value))
                && *final(cache) == *old(cache)),
            decoded matches Outcome::Success(checked) ==> (checked.verdict matches Err(errors)
                ==> outcome === Outcome::Error((Status::unprocessable_entity(), Ok(errors)))
                && *final(cache) == old(cache).after_store(errors)),
            decoded matches Outcome::Error(failure) ==> (exists|made: ValidationErrors|
                #![trigger entries(made)]
                entries(made) == parser_entries(parser_errors, failure.1.text@)
                    && *final(cache) == old(cache).after_store(made)
                    && (parser_errors
                        ==> outcome === Outcome::Error((failure.0, Ok(made))))
                    && (!parser_errors
                        ==> outcome === Outcome::Error((failure.0, Err(failure.1.error))))),
            decoded matches Outcome::Forward(forward)
                ==> outcome === Outcome::Forward(forward) && *final(cache) == *old(cache),
    {
        match decoded {
            Outcome::Error((status, failure)) => {
                let mut errors = ValidationErrors::new();
                if parser_errors {
                    errors.add(
                        PARSER_FIELD,
                        ValidationError::new(PARSER_CODE).with_message(Cow::Owned(failure.text)),
                    );
                    cache.store(errors.clone());
                    Outcome::Error((status, Ok(errors)))
                } else {
                    cache.store(errors);
                    Outcome::Error((status, Err(failure.error)))
                }
            },
            Outcome::Forward(forward) => Outcome::Forward(forward),
            Outcome::Success(checked) => Self::settle(checked, cache),
        }
    }
}

} // verus!
