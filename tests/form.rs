use form_validation::{ValidationError, ValidationErrors};
use yew_bulma::form::{Form, FormAction, FormMsg};
use yew_bulma::input_field::{InputField, Label, ValidateOn};
use yew_bulma::link::{FieldMsg, FormFieldLink};

fn error(key: &str, kind: &'static str, message: &str) -> ValidationErrors<String> {
    ValidationErrors::new(vec![ValidationError::new(key.to_string(), kind).message(message)])
}

fn registry(keys: &[&str]) -> FormFieldLink<u32, u32> {
    let mut link = FormFieldLink::new();
    for (i, k) in keys.iter().enumerate() {
        link.register_field(k.to_string(), i as u32);
    }
    link
}

fn report(key: &str, errors: ValidationErrors<String>) -> FormMsg {
    FormMsg::FieldValidationUpdate(key.to_string(), errors)
}

#[test]
fn validate_then_submit_starts_pass() {
    let link = registry(&["a", "b"]);
    let mut form = Form::new();
    form.update(report("a", error("a", "E", "bad")), &link);
    let (render, actions) = form.update(FormMsg::ValidateThenSubmit, &link);
    assert!(!render);
    assert_eq!(actions.len(), 2);
    assert!(matches!(actions[0], FormAction::ValidationStarted));
    assert!(matches!(actions[1], FormAction::SendAllFields(FieldMsg::Validate)));
    assert!(form.validating());
    assert!(form.reported(&"a".to_string()).is_none());
    assert!(form.validation_errors().is_empty());
}

#[test]
fn passing_fields_submit_once_with_success() {
    let link = registry(&["a", "b", "c"]);
    let mut form = Form::new();
    form.update(FormMsg::ValidateThenSubmit, &link);
    let mut submissions = 0;
    for (i, k) in ["b", "c", "a"].iter().enumerate() {
        let (render, actions) = form.update(report(k, ValidationErrors::default()), &link);
        assert!(render);
        assert!(matches!(actions[0], FormAction::ValidationUpdated(ref e) if e.is_empty()));
        if i < 2 {
            assert_eq!(actions.len(), 1);
            assert!(form.validating());
        } else {
            assert_eq!(actions.len(), 2);
            assert!(matches!(actions[1], FormAction::Submitted(Ok(()))));
            assert!(!form.validating());
        }
        submissions += actions
            .iter()
            .filter(|a| matches!(a, FormAction::Submitted(_)))
            .count();
    }
    assert_eq!(submissions, 1);
}

#[test]
fn one_failing_field_fails_submission() {
    let link = registry(&["a", "b", "c"]);
    let mut form = Form::new();
    form.update(FormMsg::ValidateThenSubmit, &link);
    form.update(report("a", ValidationErrors::default()), &link);
    form.update(report("b", error("b", "TOO_SHORT", "b is too short")), &link);
    let (_, actions) = form.update(report("c", ValidationErrors::default()), &link);
    assert_eq!(actions.len(), 2);
    match &actions[1] {
        FormAction::Submitted(Err(e)) => {
            assert_eq!(e.len(), 1);
            let b = e.get(&"b".to_string()).unwrap();
            assert_eq!(b.errors[0].type_id, "TOO_SHORT");
            assert_eq!(b.to_string(), "b is too short");
            assert!(e.get(&"a".to_string()).is_none());
            assert!(e.get(&"c".to_string()).is_none());
        }
        _ => panic!("expected a failed submission"),
    }
}

#[test]
fn field_result_replaces_earlier_one() {
    let link = registry(&["a"]);
    let mut form = Form::new();
    form.update(report("a", error("a", "E1", "one")), &link);
    form.update(report("a", error("a", "E2", "two")), &link);
    let a = form.reported(&"a".to_string()).unwrap();
    assert_eq!(a.len(), 1);
    assert_eq!(a.errors[0].type_id, "E2");
    assert_eq!(form.validation_errors().len(), 1);
}

#[test]
fn aggregate_keeps_every_field_error() {
    let link = registry(&["a", "b"]);
    let mut form = Form::new();
    form.update(report("a", error("a", "E1", "one")), &link);
    let (_, actions) = form.update(report("b", error("b", "E2", "two")), &link);
    assert_eq!(actions.len(), 1);
    match &actions[0] {
        FormAction::ValidationUpdated(e) => {
            assert_eq!(e.len(), 2);
            assert_eq!(e.errors[0].type_id, "E1");
            assert_eq!(e.errors[1].type_id, "E2");
        }
        _ => panic!("expected a validation update"),
    }
}

#[test]
fn report_outside_pass_does_not_submit() {
    let link = registry(&["a"]);
    let mut form = Form::new();
    let (render, actions) = form.update(report("a", ValidationErrors::default()), &link);
    assert!(render);
    assert_eq!(actions.len(), 1);
    assert!(!form.validating());
}

#[test]
fn late_report_after_pass_does_not_submit_again() {
    let link = registry(&["a"]);
    let mut form = Form::new();
    form.update(FormMsg::ValidateThenSubmit, &link);
    let (_, first) = form.update(report("a", ValidationErrors::default()), &link);
    assert_eq!(first.len(), 2);
    let (_, late) = form.update(report("a", error("a", "E", "late")), &link);
    assert_eq!(late.len(), 1);
    assert_eq!(form.validation_errors().len(), 1);
}

#[test]
fn field_registered_mid_pass_is_waited_for() {
    let mut link = registry(&["a"]);
    let mut form = Form::new();
    form.update(FormMsg::ValidateThenSubmit, &link);
    link.register_field("b".to_string(), 9);
    let (_, actions) = form.update(report("a", ValidationErrors::default()), &link);
    assert_eq!(actions.len(), 1);
    assert!(form.validating());
    let (_, actions) = form.update(report("b", ValidationErrors::default()), &link);
    assert_eq!(actions.len(), 2);
    assert!(matches!(actions[1], FormAction::Submitted(Ok(()))));
}

#[test]
fn submit_cancel_and_other_messages() {
    let link = registry(&["a"]);
    let mut form = Form::new();
    let (render, actions) = form.update(FormMsg::Submit, &link);
    assert!(render);
    assert!(matches!(actions[0], FormAction::Submitted(Ok(()))));

    form.update(report("a", error("a", "E", "bad")), &link);
    let (_, actions) = form.update(FormMsg::Submit, &link);
    assert!(matches!(actions[0], FormAction::Submitted(Err(ref e)) if e.len() == 1));

    let (render, actions) = form.update(FormMsg::Cancel, &link);
    assert!(render);
    assert_eq!(actions.len(), 1);
    assert!(matches!(actions[0], FormAction::Cancelled));

    let (render, actions) = form.update(FormMsg::FieldValueUpdate("a".to_string()), &link);
    assert!(render);
    assert!(actions.is_empty());

    let (render, actions) = form.update(FormMsg::Ignore, &link);
    assert!(!render);
    assert!(actions.is_empty());
}

#[test]
fn all_validated_follows_registry() {
    let link = registry(&["a", "b"]);
    let mut form = Form::new();
    assert!(!form.all_validated(&link));
    form.update(report("a", ValidationErrors::default()), &link);
    assert!(!form.all_validated(&link));
    form.update(report("b", ValidationErrors::default()), &link);
    assert!(form.all_validated(&link));
    let empty: FormFieldLink<u32, u32> = FormFieldLink::new();
    assert!(Form::new().all_validated(&empty));
}

fn email_validator(value: &str, key: &str) -> ValidationErrors<String> {
    if value.is_empty() {
        error(key, "EMPTY", "Email is required")
    } else {
        ValidationErrors::default()
    }
}

#[test]
fn scenario_a_email_and_age() {
    let link = registry(&["email", "age"]);
    let mut form = Form::new();
    let mut email = InputField::new(
        "email".to_string(),
        String::new(),
        ValidateOn::AnyEvent,
        Label::FieldKey,
        ValidationErrors::default(),
    );
    let mut age = InputField::new(
        "age".to_string(),
        String::new(),
        ValidateOn::Never,
        Label::FieldKey,
        ValidationErrors::default(),
    );
    age.update("30".to_string(), yew_bulma::input_field::UpdateSource::ChangeEvent);

    form.update(FormMsg::ValidateThenSubmit, &link);
    let email_errors = email_validator(email.value(), "email");
    let msg = email.errors_mut().set_validation_errors(email_errors);
    let (_, actions) = form.update(msg, &link);
    assert_eq!(actions.len(), 1);
    let msg = age.errors_mut().set_validation_errors(ValidationErrors::default());
    let (_, actions) = form.update(msg, &link);
    assert_eq!(actions.len(), 2);
    match &actions[1] {
        FormAction::Submitted(Err(e)) => {
            assert_eq!(e.len(), 1);
            let email_only = e.get(&"email".to_string()).unwrap();
            assert_eq!(email_only.to_string(), "Email is required");
            assert!(e.get(&"age".to_string()).is_none());
        }
        _ => panic!("expected a failed submission"),
    }
    assert!(form.reported(&"age".to_string()).unwrap().is_empty());
}
