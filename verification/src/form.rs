//! The guard for forms.
//!
//! A form is parsed field by field by the wrapped type, which this guard has
//! no part in. It steps in once, when the wrapped type has put the value
//! together, and reports a failed validation in the form's own terms: as a
//! list of form errors, one for each field. The request's error slot is not
//! touched on this path.

use crate::errors::{entries, into_field_names, names_of};
use crate::outcome::Checked;
use crate::validated::Validated;
use vstd::prelude::*;

verus! {

/// The part of a form that an error is about.
#[derive(Clone, Copy, Debug, PartialEq, Eq, Structural)]
pub enum Entity {
    Form,
    Field,
    ValueField,
    DataField,
    Name,
    Value,
    Key,
    Index(usize),
}

/// A form error for a field that failed validation.
#[derive(Debug)]
pub struct FormError {
    /// The name of the field, if it is known.
    pub name: Option<&'static str>,
    /// The value that was rejected, if it is known.
    pub value: Option<String>,
    /// What the validation found fault with.
    pub validation: &'static str,
    /// The part of the form that the error is about.
    pub entity: Entity,
}

impl FormError {
    /// The error for the field `name`: it goes by the field's name, says so
    /// again as what the validation found fault with, is about the field's
    /// value and quotes none.
    pub open spec fn for_field(name: &'static str) -> FormError {
        FormError { name: Some(name), value: None, validation: name, entity: Entity::Value }
    }
}

/// Why a form was turned down.
#[derive(Debug)]
pub enum FormFailure<E> {
    /// The wrapped type could not put its value together.
    Finalize(E),
    /// The value was put together and failed validation.
    Validation(Vec<FormError>),
}

/// The field names that a list of form errors reports, in its order.
pub open spec fn reported(list: Seq<FormError>) -> Seq<Seq<char>> {
    list.map_values(|error: FormError| error.validation@)
}

/// The list holds one error for each of the fields and no other: every error
/// is that of the field it reports, no field is reported twice, and the
/// fields reported are `fields`.
pub open spec fn reports_each_once(list: Seq<FormError>, fields: Set<Seq<char>>) -> bool {
    &&& forall|i: int|
        0 <= i < list.len() ==> #[trigger] list[i] == FormError::for_field(list[i].validation)
    &&& reported(list).no_duplicates()
    &&& reported(list).to_set() == fields
}

/// A list with one error for each field has as many errors as there are
/// fields.
pub proof fn lemma_as_many_errors_as_fields(list: Seq<FormError>, fields: Set<Seq<char>>)
    requires
        reports_each_once(list, fields),
    ensures
        fields.finite(),
        list.len() == fields.len(),
{
    reported(list).unique_seq_to_set();
}

/// One form error for each field name, in the order of the names.
pub fn form_errors(names: Vec<&'static str>) -> (list: Vec<FormError>)
    ensures
        list.len() == names.len(),
        forall|i: int| 0 <= i < list.len() ==> list[i] == FormError::for_field(names[i]),
{
    let mut list: Vec<FormError> = Vec::new();
    let mut i: usize = 0;
    while i < names.len()
        invariant
            i <= names.len(),
            list.len() == i,
            forall|k: int| 0 <= k < i ==> list[k] == FormError::for_field(names[k]),
        decreases names.len() - i,
    {
        let name: &'static str = names[i];
        list.push(
            FormError { name: Some(name), value: None, validation: name, entity: Entity::Value },
        );
        i += 1;
    }
    list
}

impl<T> Validated<T> {
    /// The last step of parsing a form.
    ///
    /// `finalized` is what the wrapped type made of the form, with the
    /// verdict of the validation where it made a value. A value that passed
    /// is wrapped and handed on. A failure of the wrapped type is passed on
    /// as it came. For a value that failed validation the result is a list of
    /// form errors: one for each field that the validation names, each as
    /// [`FormError::for_field`] makes it. Their order is left open.
    pub fn finalize<E>(finalized: Result<Checked<T>, E>) -> (result: Result<Self, FormFailure<E>>)
        ensures
            finalized matches Err(error) ==> result === Err(FormFailure::Finalize(error)),
            finalized matches Ok(checked) ==> (checked.verdict is Ok
                ==> result === Ok(Validated(checked.value))),
            finalized matches Ok(checked) ==> (checked.verdict matches Err(errors)
                ==> (result matches Err(FormFailure::Validation(list))
                && reports_each_once(list@, entries(errors).dom()))),
    {
        match finalized {
            Err(error) => Err(FormFailure::Finalize(error)),
            Ok(checked) => match checked.verdict {
                Ok(_) => Ok(Validated(checked.value)),
                Err(errors) => {
                    let names = into_field_names(errors);
                    let list = form_errors(names);
                    assert(reported(list@) =~= names_of(names@));
                    Err(FormFailure::Validation(list))
                },
            },
        }
    }
}

} // verus!
