use rocket_validation::form::form_errors;
use rocket_validation::{Checked, Entity, FormError, FormFailure, Validated};
use validator::{ValidationError, ValidationErrors};

fn failures(fields: &[(&'static str, &'static str)]) -> ValidationErrors {
    let mut errors = ValidationErrors::new();
    for (field, code) in fields {
        errors.add(field, ValidationError::new(code));
    }
    errors
}

fn assert_is_for_field(error: &FormError, field: &str) {
    assert_eq!(error.name, Some(field));
    assert_eq!(error.validation, field);
    assert!(error.value.is_none());
    assert_eq!(error.entity, Entity::Value);
}

#[test]
fn valid_form_is_handed_on_unchanged() {
    let finalized: Result<Checked<(String, u8)>, String> =
        Ok(Checked { value: ("Ann".to_string(), 30), verdict: Ok(()) });
    match Validated::finalize(finalized) {
        Ok(validated) => assert_eq!(validated.into_inner(), ("Ann".to_string(), 30)),
        Err(_) => panic!("a valid form must pass"),
    }
}

#[test]
fn failure_of_the_wrapped_form_is_passed_on() {
    let finalized: Result<Checked<u8>, Vec<&str>> = Err(vec!["missing", "unexpected"]);
    match Validated::finalize(finalized) {
        Err(FormFailure::Finalize(errors)) => assert_eq!(errors, vec!["missing", "unexpected"]),
        _ => panic!("the failure of the wrapped form is carried"),
    }
}

#[test]
fn invalid_form_reports_each_field_once() {
    let reported = failures(&[("name", "length"), ("age", "range"), ("age", "odd")]);
    let finalized: Result<Checked<u8>, String> = Ok(Checked { value: 1, verdict: Err(reported) });
    let list = match Validated::finalize(finalized) {
        Err(FormFailure::Validation(list)) => list,
        _ => panic!("an invalid form must fail with form errors"),
    };
    assert_eq!(list.len(), 2);
    let mut names: Vec<&str> = list.iter().map(|error| error.validation).collect();
    names.sort();
    assert_eq!(names, vec!["age", "name"]);
    for error in &list {
        assert_is_for_field(error, error.validation);
    }
}

#[test]
fn invalid_form_with_one_field_reports_it() {
    let finalized: Result<Checked<u8>, String> =
        Ok(Checked { value: 1, verdict: Err(failures(&[("email", "email")])) });
    match Validated::finalize(finalized) {
        Err(FormFailure::Validation(list)) => {
            assert_eq!(list.len(), 1);
            assert_is_for_field(&list[0], "email");
        }
        _ => panic!("an invalid form must fail with form errors"),
    }
}

#[test]
fn invalid_form_reports_nested_fields_too() {
    let inner = failures(&[("street", "length")]);
    let reported = ValidationErrors::merge(Err(failures(&[("name", "length")])), "address", Err(inner))
        .unwrap_err();
    let finalized: Result<Checked<u8>, String> = Ok(Checked { value: 1, verdict: Err(reported) });
    match Validated::finalize(finalized) {
        Err(FormFailure::Validation(list)) => {
            let mut names: Vec<&str> = list.iter().map(|error| error.validation).collect();
            names.sort();
            assert_eq!(names, vec!["address", "name"]);
        }
        _ => panic!("an invalid form must fail with form errors"),
    }
}

#[test]
fn empty_collection_gives_an_empty_list() {
    let finalized: Result<Checked<u8>, String> =
        Ok(Checked { value: 1, verdict: Err(ValidationErrors::new()) });
    match Validated::finalize(finalized) {
        Err(FormFailure::Validation(list)) => assert!(list.is_empty()),
        _ => panic!("a reported failure must fail the form"),
    }
}

#[test]
fn form_errors_follow_the_names() {
    let list = form_errors(vec!["name", "age", "name"]);
    assert_eq!(list.len(), 3);
    assert_is_for_field(&list[0], "name");
    assert_is_for_field(&list[1], "age");
    assert_is_for_field(&list[2], "name");
    assert!(form_errors(Vec::new()).is_empty());
}
