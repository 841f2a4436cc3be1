//! The error collection of the `validator` crate, as this crate sees it.
//!
//! `ValidationErrors` stays the type of `validator`. What it holds is given a
//! name, and the few operations the guards need are stated over that name.
//! None of these statements is proved here: each one restates what the
//! source of `validator` does, and the last one what that of `serde_json`
//! does with it.

use std::borrow::Cow;
use validator::{ValidationError, ValidationErrors};
use vstd::prelude::*;

verus! {

/// `validator::ValidationError`: one failure, with a code and an optional
/// message.
#[verifier::external_type_specification]
#[verifier::external_body]
pub struct ExValidationError(ValidationError);

/// `validator::ValidationErrors`: failures keyed by field name.
#[verifier::external_type_specification]
#[verifier::external_body]
pub struct ExValidationErrors(ValidationErrors);

/// The code and the message of one failure.
pub type Failure = (Seq<char>, Option<Seq<char>>);

/// Field names, each with what is recorded under it.
pub type Entries = Map<Seq<char>, Option<Seq<Failure>>>;

/// The code and the message of a failure.
pub uninterp spec fn failure(error: ValidationError) -> (Seq<char>, Option<Seq<char>>);

/// What a collection holds, by field name.
///
/// A field with field-level failures maps to `Some` of their codes and
/// messages, in the order in which they were added. A field whose entry is
/// the collection of a nested struct or list maps to `None`.
pub uninterp spec fn entries(errors: ValidationErrors) -> Map<
    Seq<char>,
    Option<Seq<(Seq<char>, Option<Seq<char>>)>>,
>;

/// The field-level failures recorded under `field`, empty where there is no
/// entry.
pub open spec fn failures_of(errors: ValidationErrors, field: Seq<char>) -> Seq<Failure> {
    if entries(errors).dom().contains(field) && entries(errors)[field] is Some {
        entries(errors)[field]->0
    } else {
        Seq::empty()
    }
}

/// `ValidationError::new` sets the code and leaves the message unset.
pub assume_specification[ ValidationError::new ](code: &'static str) -> (error: ValidationError)
    ensures
        failure(error) == (code@, None::<Seq<char>>),
;

/// `ValidationError::with_message` sets the message and keeps the code.
pub assume_specification[ ValidationError::with_message ](
    error: ValidationError,
    message: Cow<'static, str>,
) -> (with: ValidationError)
    ensures
        failure(with) == (failure(error).0, Some(message@)),
;

/// `ValidationErrors::new` returns a collection without entries.
pub assume_specification[ ValidationErrors::new ]() -> (errors: ValidationErrors)
    ensures
        entries(errors) == Entries::empty(),
;

/// `ValidationErrors::add` appends a failure to the field's list, which it
/// creates where the field has no entry. It panics where the field holds a
/// nested collection, so that case is excluded.
pub assume_specification[ ValidationErrors::add ](
    errors: &mut ValidationErrors,
    field: &'static str,
    error: ValidationError,
)
    requires
        entries(*old(errors)).dom().contains(field@) ==> entries(*old(errors))[field@] is Some,
    ensures
        entries(*final(errors)) == entries(*old(errors)).insert(
            field@,
            Some(failures_of(*old(errors), field@).push(failure(error))),
        ),
;

/// The derived `Clone` of `ValidationErrors` copies every entry.
pub assume_specification[ <ValidationErrors as Clone>::clone ](errors: &ValidationErrors) -> (copy:
    ValidationErrors)
    ensures
        copy == *errors,
;

/// The field names of a list, as plain text.
pub open spec fn names_of(names: Seq<&'static str>) -> Seq<Seq<char>> {
    names.map_values(|name: &'static str| name@)
}

/// `ValidationErrors::into_errors` hands out the map of the entries, of which
/// the keys are kept: every field name, once. Their order is that in which
/// the map is walked, which is left open.
#[verifier::external_body]
pub(crate) fn into_field_names(errors: ValidationErrors) -> (names: Vec<&'static str>)
    ensures
        names_of(names@).no_duplicates(),
        names_of(names@).to_set() == entries(errors).dom(),
{
    errors.into_errors().into_iter().map(|entry| entry.0).collect()
}

/// Text that a JSON string holds as it is: no quote, no backslash, no
/// control character.
pub open spec fn is_plain(text: Seq<char>) -> bool {
    forall|i: int|
        0 <= i < text.len() ==> #[trigger] text[i] != '"' && text[i] != '\\' && text[i] >= ' '
}

/// `part` stands somewhere in `text`, in one piece.
pub open spec fn occurs_in(text: Seq<char>, part: Seq<char>) -> bool {
    exists|at: int|
        0 <= at && at + part.len() <= text.len() && #[trigger] text.subrange(
            at,
            at + part.len(),
        ) == part
}

/// The way a JSON object names the member `field`, where the name needs no
/// escape: the name in quotes, then a colon.
pub open spec fn member_key(field: Seq<char>) -> Seq<char> {
    seq!['"'] + field + seq!['"', ':']
}

/// The text names every one of the fields that needs no escape, each as the
/// key of a member.
pub open spec fn names_every_field(text: Seq<char>, fields: Set<Seq<char>>) -> bool {
    forall|field: Seq<char>| #[trigger]
        fields.contains(field) && is_plain(field) ==> occurs_in(text, member_key(field))
}

/// The way a JSON object writes the member `name` with the text `value`,
/// where neither needs an escape: the key, then the value in quotes.
pub open spec fn text_member(name: Seq<char>, value: Seq<char>) -> Seq<char> {
    member_key(name) + seq!['"'] + value + seq!['"']
}

/// The text states the failure: its code as the member `code`, and its
/// message, where it has one, as the member `message`; each as far as it
/// needs no escape.
pub open spec fn states_failure(text: Seq<char>, failure: Failure) -> bool {
    &&& is_plain(failure.0) ==> occurs_in(text, text_member("code"@, failure.0))
    &&& failure.1 matches Some(message) ==> (is_plain(message) ==> occurs_in(
        text,
        text_member("message"@, message),
    ))
}

/// The text states every field-level failure of the collection.
pub open spec fn states_every_failure(text: Seq<char>, errors: ValidationErrors) -> bool {
    forall|field: Seq<char>, i: int|
        0 <= i < failures_of(errors, field).len() ==> states_failure(
            text,
            #[trigger] failures_of(errors, field)[i],
        )
}

/// `serde_json::to_string` on a collection: its JSON text.
///
/// There is always a text. The serializer writes into a vector, which takes
/// every byte. It gives up only where a map key is neither text nor a
/// number, or where a value's own way of writing itself does. A collection
/// has text for the keys of its fields and numbers for those of a nested
/// list, and nothing that it holds gives up, down to the parameters of a
/// failure, which are JSON values.
///
/// The collection is written as one object with a member for each field.
/// The serializer writes the key of a member as the field's name in quotes,
/// escaping only quotes, backslashes and control characters, and a colon
/// after it. So a name without any of these stands in the text as it is.
/// A field's failures are written as a list of objects, each with the
/// members `code` and `message`, whose text is written in the same way.
/// The members come in the order in which the map is walked, and nothing is
/// said of it, nor of what else stands in the text.
#[verifier::external_body]
pub(crate) fn serialize(errors: &ValidationErrors) -> (text: Option<String>)
    ensures
        text is Some,
        names_every_field(text->0@, entries(*errors).dom()),
        states_every_failure(text->0@, *errors),
{
    serde_json::to_string(errors).ok()
}

} // verus!
