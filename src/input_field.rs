//! A text or password input field.

use vstd::prelude::*;
use vstd::string::*;
use form_validation::ValidationErrors;
use crate::errors::error_list;
use crate::field::{FieldAction, FieldErrors, FormField, update_actions};
use crate::form::FormMsg;

verus! {

/// The kind of an `<input>` element, and how its value is read.
pub trait InputType {
    /// The value of the element's `type` attribute.
    spec fn html_type() -> Seq<char>;

    fn value_from_html_value(html_value: &str) -> (r: String)
        ensures
            r@ == html_value@,
    ;

    fn default_value() -> (r: String)
        ensures
            r@ == Seq::<char>::empty(),
    ;

    fn input_type() -> (r: &'static str)
        ensures
            r@ == Self::html_type(),
    ;
}

/// A plain text input.
pub struct TextInputType;

impl InputType for TextInputType {
    open spec fn html_type() -> Seq<char> {
        "text"@
    }

    fn value_from_html_value(html_value: &str) -> (r: String) {
        String::from_str(html_value)
    }

    fn default_value() -> (r: String) {
        String::new()
    }

    fn input_type() -> (r: &'static str) {
        "text"
    }
}

/// A password input: the text is hidden.
pub struct PasswordInputType;

impl InputType for PasswordInputType {
    open spec fn html_type() -> Seq<char> {
        "password"@
    }

    fn value_from_html_value(html_value: &str) -> (r: String) {
        String::from_str(html_value)
    }

    fn default_value() -> (r: String) {
        String::new()
    }

    fn input_type() -> (r: &'static str) {
        "password"
    }
}

/// Where an update came from.
#[derive(PartialEq, Eq, Structural, Clone, Copy, Debug)]
pub enum UpdateSource {
    /// A change was committed (the `change` event).
    ChangeEvent,
    /// The text changed as the user typed (the `input` event).
    InputEvent,
}

/// Which events update the field.
#[derive(PartialEq, Eq, Structural, Clone, Copy, Debug)]
pub enum UpdateOn {
    /// Only committed changes.
    ChangeEvent,
    /// Typing as well as committed changes.
    InputAndChangeEvent,
}

/// Which updates are followed by a validation.
#[derive(PartialEq, Eq, Structural, Clone, Copy, Debug)]
pub enum ValidateOn {
    /// Updates that come from a committed change.
    ChangeEvent,
    /// Every update.
    AnyEvent,
    /// Never: the field validates only when asked.
    Never,
}

/// Whether an update from `source` is validated under `validate_on`.
pub open spec fn validates(validate_on: ValidateOn, source: UpdateSource) -> bool {
    match validate_on {
        ValidateOn::ChangeEvent => source == UpdateSource::ChangeEvent,
        ValidateOn::AnyEvent => true,
        ValidateOn::Never => false,
    }
}

/// Where the label stands.
#[derive(PartialEq, Eq, Structural, Clone, Copy, Debug)]
pub enum LabelStyle {
    Above,
}

impl Default for LabelStyle {
    fn default() -> (r: Self)
        ensures
            r == LabelStyle::Above,
    {
        LabelStyle::Above
    }
}

/// How the label text is chosen.
#[derive(Clone, Debug, PartialEq, Eq)]
pub enum Label {
    /// The field's key.
    FieldKey,
    /// This text.
    Text(String),
    /// No label.
    Hidden,
}

impl Default for Label {
    fn default() -> (r: Self)
        ensures
            r is FieldKey,
    {
        Label::FieldKey
    }
}

impl Label {
    /// The label text of the field `field_key`, if it has one.
    pub fn text_for(&self, field_key: &String) -> (r: Option<String>)
        ensures
            match self {
                Label::FieldKey => r matches Some(t) && t@ == field_key@,
                Label::Text(s) => r matches Some(t) && t@ == s@,
                Label::Hidden => r is None,
            },
    {
        match self {
            Label::FieldKey => Some(field_key.clone()),
            Label::Text(text) => Some(text.clone()),
            Label::Hidden => None,
        }
    }
}

/// How the placeholder text is chosen.
#[derive(Clone, Debug, PartialEq, Eq)]
pub enum Placeholder {
    /// The field's key.
    FieldKey,
    /// This text.
    Text(String),
    /// No placeholder text.
    Empty,
}

impl Default for Placeholder {
    fn default() -> (r: Self)
        ensures
            r is Empty,
    {
        Placeholder::Empty
    }
}

impl Placeholder {
    /// The placeholder text of the field `field_key`; empty when it has none.
    pub fn text_for(&self, field_key: &String) -> (r: String)
        ensures
            match self {
                Placeholder::FieldKey => r@ == field_key@,
                Placeholder::Text(s) => r@ == s@,
                Placeholder::Empty => r@ == Seq::<char>::empty(),
            },
    {
        match self {
            Placeholder::FieldKey => field_key.clone(),
            Placeholder::Text(text) => text.clone(),
            Placeholder::Empty => String::new(),
        }
    }
}

/// A text input field: its value, when it validates, how it is labelled.
pub struct InputField {
    value: String,
    validate_on: ValidateOn,
    label: Label,
    errors: FieldErrors,
}

impl InputField {
    pub closed spec fn current(&self) -> Seq<char> {
        self.value@
    }

    pub closed spec fn validate_mode(&self) -> ValidateOn {
        self.validate_on
    }

    pub closed spec fn label_choice(&self) -> Label {
        self.label
    }

    pub closed spec fn field_errors(&self) -> FieldErrors {
        self.errors
    }

    pub open spec fn wf(&self) -> bool {
        self.field_errors().wf()
    }

    /// A field holding `value` at first.
    pub fn new(
        field_key: String,
        value: String,
        validate_on: ValidateOn,
        label: Label,
        extra_errors: ValidationErrors<String>,
    ) -> (r: Self)
        ensures
            r.wf(),
            r.current() == value@,
            r.validate_mode() == validate_on,
            r.label_choice() == label,
            r.field_errors().key() == field_key@,
            r.field_errors().own().len() == 0,
            r.field_errors().extra() == error_list(extra_errors),
    {
        InputField { value, validate_on, label, errors: FieldErrors::new(field_key, extra_errors) }
    }

    pub fn value(&self) -> (r: &String)
        ensures
            r@ == self.current(),
    {
        &self.value
    }

    pub fn errors(&self) -> (r: &FieldErrors)
        ensures
            *r == self.field_errors(),
    {
        &self.errors
    }

    pub fn errors_mut(&mut self) -> (r: &mut FieldErrors)
        ensures
            *r == old(self).field_errors(),
            final(self).field_errors() == *final(r),
            final(self).current() == old(self).current(),
            final(self).validate_mode() == old(self).validate_mode(),
            final(self).label_choice() == old(self).label_choice(),
    {
        &mut self.errors
    }

    /// Sets when updates are validated, and how the field is labelled.
    pub fn configure(&mut self, validate_on: ValidateOn, label: Label)
        ensures
            final(self).validate_mode() == validate_on,
            final(self).label_choice() == label,
            final(self).current() == old(self).current(),
            final(self).field_errors() == old(self).field_errors(),
    {
        self.validate_on = validate_on;
        self.label = label;
    }

    /// The label text, if the field has one.
    pub fn label(&self) -> (r: Option<String>)
        ensures
            match self.label_choice() {
                Label::FieldKey => r matches Some(t) && t@ == self.field_errors().key(),
                Label::Text(s) => r matches Some(t) && t@ == s@,
                Label::Hidden => r is None,
            },
    {
        self.label.text_for(self.errors.field_key())
    }

    /// The user entered `value`, reported by an event of kind `source`. A
    /// value equal to the current one changes nothing. Another is stored;
    /// the value callback and the form hear of it; a validation follows when
    /// the field validates updates from that source.
    pub fn update(&mut self, value: String, source: UpdateSource) -> (r: Vec<FieldAction>)
        ensures
            final(self).field_errors() == old(self).field_errors(),
            final(self).validate_mode() == old(self).validate_mode(),
            final(self).label_choice() == old(self).label_choice(),
            value@ == old(self).current() ==> final(self).current() == old(self).current()
                && r@.len() == 0,
            value@ != old(self).current() ==> final(self).current() == value@ && update_actions(
                r@,
                old(self).field_errors().key(),
                validates(old(self).validate_mode(), source),
            ),
    {
        let mut actions: Vec<FieldAction> = Vec::new();
        if value == self.value {
            return actions;
        }
        self.value = value;
        actions.push(FieldAction::EmitValue);
        actions.push(
            FieldAction::NotifyForm(FormMsg::FieldValueUpdate(self.errors.field_key().clone())),
        );
        let validate = match self.validate_on {
            ValidateOn::ChangeEvent => match source {
                UpdateSource::ChangeEvent => true,
                UpdateSource::InputEvent => false,
            },
            ValidateOn::AnyEvent => true,
            ValidateOn::Never => false,
        };
        if validate {
            actions.push(FieldAction::Validate);
        }
        actions
    }
}

impl FormField for InputField {
    fn validation_errors(&self) -> &ValidationErrors<String> {
        self.errors.validation_errors()
    }

    fn field_key(&self) -> &String {
        self.errors.field_key()
    }
}

} // verus!
