//! A drop-down list.

use vstd::prelude::*;

verus! {

/// A message to the drop-down list.
#[derive(PartialEq, Eq, Structural, Clone, Copy, Debug)]
pub enum Msg {
    /// The entry at this position of the list was chosen.
    Selected(Option<usize>),
}

impl Msg {
    /// The option that the message picks among `n_options` options. The
    /// list's first entry is the empty placeholder, so entry `i` is option
    /// `i - 1`; the placeholder and positions past the end pick none.
    pub fn option_index(&self, n_options: usize) -> (r: Option<usize>)
        ensures
            r == match *self {
                Msg::Selected(Some(i)) => if 1 <= i <= n_options {
                    Some((i - 1) as usize)
                } else {
                    None
                },
                Msg::Selected(None) => None,
            },
    {
        match self {
            Msg::Selected(Some(i)) => {
                if 1 <= *i && *i <= n_options {
                    Some(*i - 1)
                } else {
                    None
                }
            },
            Msg::Selected(None) => None,
        }
    }
}

} // verus!
