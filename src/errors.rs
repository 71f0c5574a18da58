//! Validation errors, as `form_validation` holds them, and what the library
//! relies on of that crate.

use vstd::prelude::*;

verus! {

use form_validation::ValidationErrors;

/// One validation error as the protocol sees it: the key of the field that it
/// belongs to, and the identifier of its kind.
pub type ErrorEntry = (Seq<char>, Seq<char>);

#[verifier::external_type_specification]
#[verifier::external_body]
#[verifier::reject_recursive_types(Key)]
pub struct ExValidationErrors<Key>(form_validation::ValidationErrors<Key>);

/// The errors that a collection holds, in order: for each, its field key and
/// its `type_id`.
pub uninterp spec fn error_list(e: ValidationErrors<String>) -> Seq<ErrorEntry>;

/// Relies on `ValidationErrors::default`: a collection with no error.
#[verifier::external_body]
pub fn no_errors() -> (r: ValidationErrors<String>)
    ensures
        error_list(r) == Seq::<ErrorEntry>::empty(),
{
    ValidationErrors::default()
}

/// Relies on `ValidationErrors::extend`: the errors of `other` are appended.
#[verifier::external_body]
pub fn append_errors(e: &mut ValidationErrors<String>, other: ValidationErrors<String>)
    ensures
        error_list(*final(e)) == error_list(*old(e)) + error_list(other),
{
    e.extend(other)
}

/// Relies on `ValidationErrors::is_empty`: true when it holds no error.
#[verifier::external_body]
pub fn has_no_errors(e: &ValidationErrors<String>) -> (r: bool)
    ensures
        r == (error_list(*e).len() == 0),
{
    e.is_empty()
}

/// Relies on the `Clone` of `ValidationErrors`: each error is cloned, keys
/// and kinds kept.
#[verifier::external_body]
pub fn copy_errors(e: &ValidationErrors<String>) -> (r: ValidationErrors<String>)
    ensures
        error_list(r) == error_list(*e),
{
    e.clone()
}

} // verus!
