//! A checkbox field.

use vstd::prelude::*;
use form_validation::ValidationErrors;
use crate::errors::error_list;
use crate::field::{FieldAction, FieldErrors, FormField, update_actions};
use crate::form::FormMsg;

verus! {

/// Whether a checkbox is ticked.
#[derive(PartialEq, Eq, Structural, Clone, Copy, Debug)]
pub enum CheckboxState {
    Checked,
    Unchecked,
}

/// The other state.
pub open spec fn toggled(s: CheckboxState) -> CheckboxState {
    match s {
        CheckboxState::Checked => CheckboxState::Unchecked,
        CheckboxState::Unchecked => CheckboxState::Checked,
    }
}

impl CheckboxState {
    pub fn checked(&self) -> (r: bool)
        ensures
            r == (*self == CheckboxState::Checked),
    {
        match self {
            CheckboxState::Checked => true,
            CheckboxState::Unchecked => false,
        }
    }

    pub fn toggle(&self) -> (r: CheckboxState)
        ensures
            r == toggled(*self),
    {
        match self {
            CheckboxState::Checked => CheckboxState::Unchecked,
            CheckboxState::Unchecked => CheckboxState::Checked,
        }
    }
}

impl From<bool> for CheckboxState {
    fn from(checked: bool) -> (r: Self)
        ensures
            r == (if checked {
                CheckboxState::Checked
            } else {
                CheckboxState::Unchecked
            }),
    {
        if checked {
            CheckboxState::Checked
        } else {
            CheckboxState::Unchecked
        }
    }
}

impl vstd::std_specs::convert::FromSpecImpl<bool> for CheckboxState {
    open spec fn obeys_from_spec() -> bool {
        true
    }

    open spec fn from_spec(checked: bool) -> Self {
        if checked {
            CheckboxState::Checked
        } else {
            CheckboxState::Unchecked
        }
    }
}

/// A checkbox field: its state, and whether a change is validated at once.
pub struct CheckboxField {
    value: CheckboxState,
    validate_on_update: bool,
    errors: FieldErrors,
}

impl CheckboxField {
    pub closed spec fn state(&self) -> CheckboxState {
        self.value
    }

    pub closed spec fn validates_on_update(&self) -> bool {
        self.validate_on_update
    }

    pub closed spec fn field_errors(&self) -> FieldErrors {
        self.errors
    }

    pub open spec fn wf(&self) -> bool {
        self.field_errors().wf()
    }

    pub fn new(
        field_key: String,
        initial_state: CheckboxState,
        validate_on_update: bool,
        extra_errors: ValidationErrors<String>,
    ) -> (r: Self)
        ensures
            r.wf(),
            r.state() == initial_state,
            r.validates_on_update() == validate_on_update,
            r.field_errors().key() == field_key@,
            r.field_errors().own().len() == 0,
            r.field_errors().extra() == error_list(extra_errors),
    {
        CheckboxField {
            value: initial_state,
            validate_on_update,
            errors: FieldErrors::new(field_key, extra_errors),
        }
    }

    pub fn value(&self) -> (r: CheckboxState)
        ensures
            r == self.state(),
    {
        self.value
    }

    pub fn errors(&self) -> (r: &FieldErrors)
        ensures
            *r == self.field_errors(),
    {
        &self.errors
    }

    /// The user clicked the checkbox: its state flips, the value callback
    /// and the form hear of it, and a validation follows if so configured.
    pub fn update(&mut self) -> (r: Vec<FieldAction>)
        ensures
            final(self).state() == toggled(old(self).state()),
            final(self).field_errors() == old(self).field_errors(),
            final(self).validates_on_update() == old(self).validates_on_update(),
            update_actions(r@, old(self).field_errors().key(), old(self).validates_on_update()),
    {
        self.value = self.value.toggle();
        let mut actions: Vec<FieldAction> = Vec::new();
        actions.push(FieldAction::EmitValue);
        actions.push(
            FieldAction::NotifyForm(FormMsg::FieldValueUpdate(self.errors.field_key().clone())),
        );
        if self.validate_on_update {
            actions.push(FieldAction::Validate);
        }
        actions
    }

    /// Sets whether a change is validated at once.
    pub fn set_validate_on_update(&mut self, validate_on_update: bool)
        ensures
            final(self).validates_on_update() == validate_on_update,
            final(self).state() == old(self).state(),
            final(self).field_errors() == old(self).field_errors(),
    {
        self.validate_on_update = validate_on_update;
    }

    pub fn errors_mut(&mut self) -> (r: &mut FieldErrors)
        ensures
            *r == old(self).field_errors(),
            final(self).field_errors() == *final(r),
            final(self).state() == old(self).state(),
            final(self).validates_on_update() == old(self).validates_on_update(),
    {
        &mut self.errors
    }
}

impl FormField for CheckboxField {
    fn validation_errors(&self) -> &ValidationErrors<String> {
        self.errors.validation_errors()
    }

    fn field_key(&self) -> &String {
        self.errors.field_key()
    }
}

} // verus!
