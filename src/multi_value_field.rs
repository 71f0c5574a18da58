//! A field that picks one value among options: a select or a radio group.

use vstd::prelude::*;
use vstd::std_specs::cmp::PartialEqSpec;
use form_validation::ValidationErrors;
use crate::errors::error_list;
use crate::field::{FieldAction, FieldErrors, FormField, update_actions};
use crate::form::FormMsg;

verus! {

/// A field whose value is one of its options, or none before a choice.
pub struct MultiValueField<V> {
    value: Option<V>,
    validate_on_update: bool,
    show_label: bool,
    label: Option<String>,
    errors: FieldErrors,
}

impl<V> MultiValueField<V> {
    pub closed spec fn selection(&self) -> Option<V> {
        self.value
    }

    pub closed spec fn validates_on_update(&self) -> bool {
        self.validate_on_update
    }

    pub closed spec fn shows_label(&self) -> bool {
        self.show_label
    }

    pub closed spec fn label_override(&self) -> Option<String> {
        self.label
    }

    pub closed spec fn field_errors(&self) -> FieldErrors {
        self.errors
    }

    pub open spec fn wf(&self) -> bool {
        self.field_errors().wf()
    }

    /// A field with `selected` chosen at first.
    pub fn new(
        field_key: String,
        selected: Option<V>,
        validate_on_update: bool,
        show_label: bool,
        label: Option<String>,
        extra_errors: ValidationErrors<String>,
    ) -> (r: Self)
        ensures
            r.wf(),
            r.selection() == selected,
            r.validates_on_update() == validate_on_update,
            r.shows_label() == show_label,
            r.label_override() == label,
            r.field_errors().key() == field_key@,
            r.field_errors().own().len() == 0,
            r.field_errors().extra() == error_list(extra_errors),
    {
        MultiValueField {
            value: selected,
            validate_on_update,
            show_label,
            label,
            errors: FieldErrors::new(field_key, extra_errors),
        }
    }

    pub fn value(&self) -> (r: &Option<V>)
        ensures
            *r == self.selection(),
    {
        &self.value
    }

    pub fn errors(&self) -> (r: &FieldErrors)
        ensures
            *r == self.field_errors(),
    {
        &self.errors
    }

    pub fn errors_mut(&mut self) -> (r: &mut FieldErrors)
        ensures
            *r == old(self).field_errors(),
            final(self).field_errors() == *final(r),
            final(self).selection() == old(self).selection(),
            final(self).validates_on_update() == old(self).validates_on_update(),
            final(self).shows_label() == old(self).shows_label(),
            final(self).label_override() == old(self).label_override(),
    {
        &mut self.errors
    }

    /// Sets whether a choice is validated at once, and how the field is
    /// labelled.
    pub fn configure(&mut self, validate_on_update: bool, show_label: bool, label: Option<String>)
        ensures
            final(self).validates_on_update() == validate_on_update,
            final(self).shows_label() == show_label,
            final(self).label_override() == label,
            final(self).selection() == old(self).selection(),
            final(self).field_errors() == old(self).field_errors(),
    {
        self.validate_on_update = validate_on_update;
        self.show_label = show_label;
        self.label = label;
    }

    /// The label text: the override if there is one, else the field's key;
    /// none when the label is hidden.
    pub fn label(&self) -> (r: Option<String>)
        ensures
            !self.shows_label() ==> r is None,
            self.shows_label() ==> (r matches Some(t) && t@ == match self.label_override() {
                Some(s) => s@,
                None => self.field_errors().key(),
            }),
    {
        if self.show_label {
            match &self.label {
                Some(label) => Some(label.clone()),
                None => Some(self.errors.field_key().clone()),
            }
        } else {
            None
        }
    }
}

impl<V: PartialEq> MultiValueField<V> {
    /// Whether the field holds a value equal to `value`.
    pub open spec fn holds(&self, value: V) -> bool {
        self.selection() matches Some(c) && c.eq_spec(&value)
    }

    /// The user chose `value`. A value equal to the current one changes
    /// nothing. Another is stored; the value callback and the form hear of
    /// it; a validation follows if so configured.
    pub fn update(&mut self, value: V) -> (r: Vec<FieldAction>)
        ensures
            final(self).field_errors() == old(self).field_errors(),
            final(self).validates_on_update() == old(self).validates_on_update(),
            final(self).shows_label() == old(self).shows_label(),
            final(self).label_override() == old(self).label_override(),
            V::obeys_eq_spec() && old(self).holds(value) ==> final(self).selection() == old(
                self,
            ).selection() && r@.len() == 0,
            V::obeys_eq_spec() && !old(self).holds(value) ==> final(self).selection() == Some(
                value,
            ) && update_actions(
                r@,
                old(self).field_errors().key(),
                old(self).validates_on_update(),
            ),
    {
        let mut actions: Vec<FieldAction> = Vec::new();
        let same = match &self.value {
            Some(current) => current.eq(&value),
            None => false,
        };
        if same {
            return actions;
        }
        self.value = Some(value);
        actions.push(FieldAction::EmitValue);
        actions.push(
            FieldAction::NotifyForm(FormMsg::FieldValueUpdate(self.errors.field_key().clone())),
        );
        if self.validate_on_update {
            actions.push(FieldAction::Validate);
        }
        actions
    }
}

impl<V> FormField for MultiValueField<V> {
    fn validation_errors(&self) -> &ValidationErrors<String> {
        self.errors.validation_errors()
    }

    fn field_key(&self) -> &String {
        self.errors.field_key()
    }
}

} // verus!
