//! The logical input actions the run core reads each tick. The host
//! maps physical keys and mouse buttons onto these.

use vstd::prelude::*;

verus! {

/// A logical player action.
#[derive(Clone, Copy, PartialEq, Eq, Structural, Debug, Hash)]
pub enum GameAction {
    Left,
    Right,
    Brake,
    Continue,
}

} // verus!
