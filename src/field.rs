//! What every field does with validation results, whatever its control.

use vstd::prelude::*;
use form_validation::ValidationErrors;
use crate::errors::{ErrorEntry, error_list, no_errors, append_errors, copy_errors};
use crate::form::FormMsg;

verus! {

/// What the host does after a field has handled a message.
pub enum FieldAction {
    /// Hand the field's new value to its "value updated" callback.
    EmitValue,
    /// Send this message to the form.
    NotifyForm(FormMsg),
    /// Run the field's validator on its current value; the result comes back
    /// as the field's new validation errors.
    Validate,
}

/// The actions of an accepted update of the field `key`: the value callback,
/// then the notice to the form, then a validation when `validate` holds.
pub open spec fn update_actions(actions: Seq<FieldAction>, key: Seq<char>, validate: bool) -> bool {
    &&& actions.len() == if validate {
        3int
    } else {
        2int
    }
    &&& actions[0] is EmitValue
    &&& actions[1] matches FieldAction::NotifyForm(FormMsg::FieldValueUpdate(k)) && k@ == key
    &&& validate ==> actions[2] is Validate
}

/// A report to the form: field `key` finished validating with `errors`.
pub open spec fn is_report(m: FormMsg, key: Seq<char>, errors: Seq<ErrorEntry>) -> bool {
    m matches FormMsg::FieldValidationUpdate(k, e) && k@ == key && error_list(e) == errors
}

/// A field seen from outside: its key and the errors of its own validator.
pub trait FormField {
    fn validation_errors(&self) -> &ValidationErrors<String>;

    fn field_key(&self) -> &String;
}

/// A field's errors: those of its own validator, which the form sees; the
/// extra ones given to it from outside, which the form never sees; and what
/// it shows, its own followed by the extra ones.
pub struct FieldErrors {
    field_key: String,
    validation_errors: ValidationErrors<String>,
    display_validation_errors: ValidationErrors<String>,
    extra_errors: ValidationErrors<String>,
}

impl FieldErrors {
    pub closed spec fn key(&self) -> Seq<char> {
        self.field_key@
    }

    /// The errors of the field's own validator.
    pub closed spec fn own(&self) -> Seq<ErrorEntry> {
        error_list(self.validation_errors)
    }

    /// The errors given from outside, for display only.
    pub closed spec fn extra(&self) -> Seq<ErrorEntry> {
        error_list(self.extra_errors)
    }

    /// The errors the field shows.
    pub closed spec fn display(&self) -> Seq<ErrorEntry> {
        error_list(self.display_validation_errors)
    }

    /// What the field shows is its own errors followed by the extra ones.
    pub open spec fn wf(&self) -> bool {
        self.display() == self.own() + self.extra()
    }

    /// A field that has not validated yet: it shows the extra errors alone.
    pub fn new(field_key: String, extra_errors: ValidationErrors<String>) -> (r: Self)
        ensures
            r.wf(),
            r.key() == field_key@,
            r.own().len() == 0,
            r.extra() == error_list(extra_errors),
    {
        let display = copy_errors(&extra_errors);
        let r = FieldErrors {
            field_key,
            validation_errors: no_errors(),
            display_validation_errors: display,
            extra_errors,
        };
        assert(r.display() =~= r.own() + r.extra());
        r
    }

    pub fn field_key(&self) -> (r: &String)
        ensures
            r@ == self.key(),
    {
        &self.field_key
    }

    pub fn validation_errors(&self) -> (r: &ValidationErrors<String>)
        ensures
            error_list(*r) == self.own(),
    {
        &self.validation_errors
    }

    pub fn display_validation_errors(&self) -> (r: &ValidationErrors<String>)
        ensures
            error_list(*r) == self.display(),
    {
        &self.display_validation_errors
    }

    pub fn extra_errors(&self) -> (r: &ValidationErrors<String>)
        ensures
            error_list(*r) == self.extra(),
    {
        &self.extra_errors
    }

    /// Takes `errors` as the result of the field's validator; returns the
    /// report to send to the form.
    pub fn set_validation_errors(&mut self, errors: ValidationErrors<String>) -> (r: FormMsg)
        ensures
            final(self).wf(),
            final(self).key() == old(self).key(),
            final(self).own() == error_list(errors),
            final(self).extra() == old(self).extra(),
            is_report(r, old(self).key(), error_list(errors)),
    {
        let mut display = copy_errors(&errors);
        append_errors(&mut display, copy_errors(&self.extra_errors));
        let reported = copy_errors(&errors);
        self.validation_errors = errors;
        self.display_validation_errors = display;
        FormMsg::FieldValidationUpdate(self.field_key.clone(), reported)
    }

    /// Drops the field's own errors; the form still hears from the field,
    /// with no error.
    pub fn clear_validation_errors(&mut self) -> (r: FormMsg)
        ensures
            final(self).wf(),
            final(self).key() == old(self).key(),
            final(self).own().len() == 0,
            final(self).display() == old(self).extra(),
            final(self).extra() == old(self).extra(),
            is_report(r, old(self).key(), Seq::<ErrorEntry>::empty()),
    {
        self.validation_errors = no_errors();
        self.display_validation_errors = copy_errors(&self.extra_errors);
        assert(self.own() + self.extra() =~= self.extra());
        FormMsg::FieldValidationUpdate(self.field_key.clone(), no_errors())
    }

    /// Takes new extra errors: what the field shows changes, its own errors
    /// do not, and the form is not told.
    pub fn set_extra_errors(&mut self, extra_errors: ValidationErrors<String>)
        ensures
            final(self).wf(),
            final(self).key() == old(self).key(),
            final(self).own() == old(self).own(),
            final(self).extra() == error_list(extra_errors),
    {
        let mut display = copy_errors(&self.validation_errors);
        append_errors(&mut display, copy_errors(&extra_errors));
        self.extra_errors = extra_errors;
        self.display_validation_errors = display;
    }
}

} // verus!
