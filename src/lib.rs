//! A falling-block puzzle engine: board, pieces and rotation system, the
//! seven-piece bag with its hold slot, and the tick-driven timing model.
use vstd::prelude::*;

pub mod draw;
pub mod game;
pub mod styling;
pub mod time;

verus! {

/// External actions
#[derive(Debug, Clone, Copy, PartialEq, Eq, Hash, Structural)]
pub enum Action {
    Hold,
    Place,
    Rotate180,
    RotateLeft,
    RotateRight,
    MoveRight,
    MoveLeft,
    MoveDown,
    Exit,
}

impl Action {
    /// The three directions whose key may be held down to repeat.
    pub open spec fn is_repeatable(self) -> bool {
        self is MoveRight || self is MoveLeft || self is MoveDown
    }

    pub fn repeatable(&self) -> (r: bool)
        ensures
            r == self.is_repeatable(),
    {
        matches!(self, Action::MoveRight | Action::MoveLeft | Action::MoveDown)
    }
}

} // verus!
