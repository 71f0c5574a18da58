//! A field with a drop-down list.

use vstd::prelude::*;

verus! {

/// Draws a select field through the drop-down component.
pub struct SelectFieldRenderer;

} // verus!
