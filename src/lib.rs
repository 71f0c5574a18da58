//! Form controls, a form container with field-by-field validation, and
//! style helpers for the Bulma css framework.
//!
//! The library holds the decisions of the components: which fields are
//! registered with a form, how a field reacts to an update or to a
//! validation result, and when a form submits. The host framework runs the
//! components and performs the actions that these decisions return.

pub mod checkbox_field;
pub mod classes;
pub mod errors;
pub mod field;
pub mod form;
pub mod input_field;
pub mod keyed;
pub mod link;
pub mod multi_value_field;
pub mod radio_field;
pub mod select;
pub mod select_field;
