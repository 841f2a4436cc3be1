//! The answer to a request that ended in "422 Unprocessable Entity".

use crate::cache::CachedValidationErrors;
use crate::errors::{
    entries, failures_of, is_plain, member_key, names_every_field, occurs_in, serialize,
    states_every_failure, states_failure, text_member,
};
use validator::ValidationErrors;
use vstd::prelude::*;
use vstd::string::StringExecFns;

verus! {

/// The code that every envelope carries.
pub const CODE: u128 = 422;

/// The message that every envelope carries.
pub const MESSAGE: &'static str =
    "Unprocessable Entity. The request was well-formed but was unable to be followed due to semantic errors.";

/// The envelope that is sent for a validation failure: the fixed code, the
/// fixed message, and the failure that the request recorded, if it did.
pub struct Error<'a> {
    code: u128,
    message: &'a str,
    errors: Option<&'a ValidationErrors>,
}

/// What an envelope holds.
pub struct ErrorView {
    pub code: u128,
    pub message: Seq<char>,
    pub errors: Option<ValidationErrors>,
}

impl<'a> View for Error<'a> {
    type V = ErrorView;

    closed spec fn view(&self) -> ErrorView {
        ErrorView {
            code: self.code,
            message: self.message@,
            errors: match self.errors {
                Some(errors) => Some(*errors),
                None => None,
            },
        }
    }
}

/// The JSON text of an envelope whose `errors` member has the text `detail`,
/// or is `null` where there is none.
pub open spec fn envelope_text(detail: Option<Seq<char>>) -> Seq<char> {
    "{\"code\":422,\"message\":\""@ + MESSAGE@ + "\",\"errors\":"@ + match detail {
        Some(text) => text,
        None => "null"@,
    } + "}"@
}

/// The message stands in the envelope as it is: nothing in it needs an
/// escape.
pub proof fn lemma_message_is_plain()
    ensures
        is_plain(MESSAGE@),
{
    reveal_strlit(
        "Unprocessable Entity. The request was well-formed but was unable to be followed due to semantic errors.",
    );
}

/// What stands in the recorded failure's text stands in the envelope around
/// it.
pub proof fn lemma_occurs_in_envelope(detail: Seq<char>, part: Seq<char>)
    requires
        occurs_in(detail, part),
    ensures
        occurs_in(envelope_text(Some(detail)), part),
{
    let head = "{\"code\":422,\"message\":\""@ + MESSAGE@ + "\",\"errors\":"@;
    let text = envelope_text(Some(detail));
    assert(text == head + detail + "}"@);
    let at = choose|at: int|
        0 <= at && at + part.len() <= detail.len() && #[trigger] detail.subrange(
            at,
            at + part.len(),
        ) == part;
    let shifted = head.len() + at;
    assert(text.subrange(shifted, shifted + part.len()) =~= detail.subrange(
        at,
        at + part.len(),
    ));
}

/// The fields that the recorded failure's text names, and the failures that
/// it states, the envelope around it names and states too.
pub proof fn lemma_envelope_keeps_detail(detail: Seq<char>, errors: ValidationErrors)
    requires
        names_every_field(detail, entries(errors).dom()),
        states_every_failure(detail, errors),
    ensures
        names_every_field(envelope_text(Some(detail)), entries(errors).dom()),
        states_every_failure(envelope_text(Some(detail)), errors),
{
    let text = envelope_text(Some(detail));
    assert forall|field: Seq<char>| #[trigger]
        entries(errors).dom().contains(field) && is_plain(field) implies occurs_in(
        text,
        member_key(field),
    ) by {
        lemma_occurs_in_envelope(detail, member_key(field));
    }
    assert forall|field: Seq<char>, i: int|
        0 <= i < failures_of(errors, field).len() implies states_failure(
        text,
        #[trigger] failures_of(errors, field)[i],
    ) by {
        let failure = failures_of(errors, field)[i];
        assert(states_failure(detail, failure));
        if is_plain(failure.0) {
            lemma_occurs_in_envelope(detail, text_member("code"@, failure.0));
        }
        match failure.1 {
            Some(message) => {
                if is_plain(message) {
                    lemma_occurs_in_envelope(detail, text_member("message"@, message));
                }
            },
            None => {},
        }
    }
}

/// Puts the envelope around the JSON text of the recorded failure.
pub fn frame(detail: Option<&str>) -> (body: String)
    ensures
        detail matches Some(text) ==> body@ == envelope_text(Some(text@)),
        detail is None ==> body@ == envelope_text(None),
{
    let mut body = String::from_str("{\"code\":422,\"message\":\"");
    body.append(MESSAGE);
    body.append("\",\"errors\":");
    match detail {
        Some(text) => body.append(text),
        None => body.append("null"),
    }
    body.append("}");
    body
}

impl<'a> Error<'a> {
    #[verifier::type_invariant]
    spec fn fixed(self) -> bool {
        self.code == CODE && self.message@ == MESSAGE@
    }

    /// The code: 422.
    pub fn code(&self) -> (code: u128)
        ensures
            code == CODE,
            code == self@.code,
    {
        proof {
            use_type_invariant(self);
        }
        self.code
    }

    /// The message: [`MESSAGE`].
    pub fn message(&self) -> (message: &'a str)
        ensures
            message@ == MESSAGE@,
            message@ == self@.message,
    {
        proof {
            use_type_invariant(self);
        }
        self.message
    }

    /// The failure that the request recorded.
    pub fn errors(&self) -> (errors: Option<&'a ValidationErrors>)
        ensures
            errors is Some <==> self@.errors is Some,
            errors matches Some(carried) ==> self@.errors == Some(*carried),
    {
        self.errors
    }

    /// The body of the response: the envelope as JSON text.
    ///
    /// There is always a body; the result is optional only because the
    /// serializer's is. The code and the message are the same in every
    /// envelope, and so is their text. Without a recorded failure the body is
    /// the envelope with `null` for its errors. With one, the body is the
    /// envelope around the text that the serializer gave for the failure.
    /// That text names every recorded field as the key of a member and
    /// states the code and the message of every field-level failure, each as
    /// far as it needs no escape, and so does the body.
    pub fn to_json(&self) -> (body: Option<String>)
        ensures
            body is Some,
            self@.errors is None ==> body->0@ == envelope_text(None),
            self@.errors matches Some(errors) ==> (exists|detail: Seq<char>|
                #![trigger envelope_text(Some(detail))]
                body->0@ == envelope_text(Some(detail))
                    && names_every_field(detail, entries(errors).dom())
                    && states_every_failure(detail, errors)),
            self@.errors matches Some(errors) ==> names_every_field(
                body->0@,
                entries(errors).dom(),
            ) && states_every_failure(body->0@, errors),
    {
        match self.errors {
            None => Some(frame(None)),
            Some(errors) => match serialize(errors) {
                Some(detail) => {
                    proof {
                        lemma_envelope_keeps_detail(detail@, *errors);
                    }
                    Some(frame(Some(detail.as_str())))
                },
                None => None,
            },
        }
    }
}

/// The envelope for a request that ended in 422: it carries what the
/// request's slot holds, or nothing where no failure was recorded.
pub fn validation_catcher<'a>(cache: &'a CachedValidationErrors) -> (envelope: Error<'a>)
    ensures
        envelope@.code == CODE,
        envelope@.message == MESSAGE@,
        envelope@.errors == cache.0,
{
    Error { code: CODE, message: MESSAGE, errors: cache.0.as_ref() }
}

} // verus!
