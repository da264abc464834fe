use vstd::prelude::*;

verus! {

/// Whether keys go to the views or to the text field.
#[derive(Clone, Copy, Debug, PartialEq, Eq, Structural)]
pub enum Mode {
    Normal,
    Input,
}

impl Default for Mode {
    fn default() -> (r: Self)
        ensures
            r == Mode::Normal,
    {
        Mode::Normal
    }
}

} // verus!
