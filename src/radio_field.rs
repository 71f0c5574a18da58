//! A group of radio buttons.

use vstd::prelude::*;
use vstd::string::*;
use vstd::std_specs::cmp::PartialEqSpec;

verus! {

/// How each radio button and its label are laid out.
#[derive(PartialEq, Eq, Structural, Clone, Copy, Debug)]
pub enum Layout {
    /// The input and its label side by side in a `<div>`.
    SideBySideInDiv,
    /// The input inside its label.
    InputInLabel,
}

impl Default for Layout {
    fn default() -> (r: Self)
        ensures
            r == Layout::InputInLabel,
    {
        Layout::InputInLabel
    }
}

/// Draws a radio group.
pub struct RadioFieldRenderer;

impl RadioFieldRenderer {
    /// Whether a change event of a radio button, carrying `change_value`,
    /// reports that the button was chosen: browsers send `on`.
    pub fn change_selects(change_value: &str) -> (r: bool)
        ensures
            r == (change_value@ == "on"@),
    {
        String::from_str(change_value) == String::from_str("on")
    }

    /// For the radio button of `option`: whether it is the chosen one, given
    /// the field's value `selected`, and whether it is among `disabled`.
    pub fn option_state<V: PartialEq>(selected: &Option<V>, option: &V, disabled: &Vec<V>) -> (r: (
        bool,
        bool,
    ))
        ensures
            V::obeys_eq_spec() ==> r.0 == (*selected matches Some(s) && s.eq_spec(option)),
            V::obeys_eq_spec() ==> r.1 == exists|i: int|
                0 <= i < disabled@.len() && #[trigger] disabled@[i].eq_spec(option),
    {
        let chosen = match selected {
            Some(s) => s.eq(option),
            None => false,
        };
        let mut i: usize = 0;
        while i < disabled.len()
            invariant
                i <= disabled@.len(),
                V::obeys_eq_spec() ==> chosen == (*selected matches Some(s) && s.eq_spec(option)),
                V::obeys_eq_spec() ==> forall|j: int|
                    0 <= j < i ==> !(#[trigger] disabled@[j].eq_spec(option)),
            decreases disabled@.len() - i,
        {
            if disabled[i].eq(option) {
                return (chosen, true);
            }
            i += 1;
        }
        (chosen, false)
    }
}

} // verus!
