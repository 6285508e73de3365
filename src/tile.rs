use vstd::prelude::*;

verus! {

/// What one cell of the board holds.
#[derive(Clone, Copy, Debug, PartialEq, Eq, Structural)]
pub enum SquareState {
    Empty,
    X,
    O,
}

/// The signed weight of a cell in a line total: +1 for X, -1 for O, 0 for Empty.
pub open spec fn mark_value(t: SquareState) -> int {
    match t {
        SquareState::X => 1,
        SquareState::O => -1,
        SquareState::Empty => 0,
    }
}

/// The character a cell is shown as.
pub open spec fn symbol_of(t: SquareState) -> char {
    match t {
        SquareState::X => 'X',
        SquareState::O => 'O',
        SquareState::Empty => '_',
    }
}

/// The player who moves after `t` moves; anything but X is followed by X.
pub open spec fn next_turn(t: SquareState) -> SquareState {
    if t == SquareState::X {
        SquareState::O
    } else {
        SquareState::X
    }
}

impl SquareState {
    /// The character this cell is shown as: 'X', 'O', or '_' when empty.
    pub fn symbol(self) -> (r: char)
        ensures
            r == symbol_of(self),
    {
        match self {
            SquareState::X => 'X',
            SquareState::O => 'O',
            SquareState::Empty => '_',
        }
    }
}

} // verus!
