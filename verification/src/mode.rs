use vstd::prelude::*;

verus! {

/// Per-component state that gates how raw key events are interpreted.
///
/// `Normal` consults the key-binding table, `Insert` feeds keys to the
/// line editor, and `Processing` swallows every key while a query to the
/// remote chat service is outstanding.
#[derive(Clone, Copy, Debug, PartialEq, Eq, Structural)]
pub enum Mode {
    Normal,
    Insert,
    Processing,
}

impl Default for Mode {
    fn default() -> (m: Mode)
        ensures
            m == Mode::Normal,
    {
        Mode::Normal
    }
}

} // verus!
