use vstd::prelude::*;

use crate::tile::{symbol_of, SquareState};

verus! {

/// Where the game stands.
#[derive(Clone, Copy, Debug, PartialEq, Eq, Structural)]
pub enum GameState {
    /// The game is over: `Some(m)` when `m` won, `None` for a draw.
    GameOver(Option<SquareState>),
    /// The game goes on; the payload is the player to move.
    Running(SquareState),
}

/// The colours the board is drawn with.
#[derive(Clone, Copy, Debug, PartialEq, Eq, Structural)]
pub enum Hue {
    White,
    Blue,
    Red,
    Gray,
}

/// The colour of the grid lines and of each player's marks.
#[derive(Clone, Copy, Debug, PartialEq, Eq, Structural)]
pub struct Palette {
    pub board: Hue,
    pub x: Hue,
    pub o: Hue,
}

/// The colour that marks a player: blue for X, red for anything else.
pub open spec fn player_hue(m: SquareState) -> Hue {
    if m == SquareState::X {
        Hue::Blue
    } else {
        Hue::Red
    }
}

/// The palette for a state: white lines, blue X and red O while playing; all
/// in the winner's colour once someone has won; all gray after a draw.
pub open spec fn palette_of(s: GameState) -> Palette {
    match s {
        GameState::Running(_) => Palette { board: Hue::White, x: Hue::Blue, o: Hue::Red },
        GameState::GameOver(Some(w)) => Palette {
            board: player_hue(w),
            x: player_hue(w),
            o: player_hue(w),
        },
        GameState::GameOver(None) => Palette { board: Hue::Gray, x: Hue::Gray, o: Hue::Gray },
    }
}

/// The window title for a state: "X's turn", "O wins", "Draw" and the like.
pub open spec fn title_of(s: GameState) -> Seq<char> {
    match s {
        GameState::Running(t) => seq![symbol_of(t)] + "'s turn"@,
        GameState::GameOver(Some(w)) => seq![symbol_of(w)] + " wins"@,
        GameState::GameOver(None) => "Draw"@,
    }
}

impl GameState {
    /// The colours to draw the board with in this state.
    pub fn palette(self) -> (r: Palette)
        ensures
            r == palette_of(self),
    {
        match self {
            GameState::Running(_) => Palette { board: Hue::White, x: Hue::Blue, o: Hue::Red },
            GameState::GameOver(Some(w)) => {
                let hue = if w == SquareState::X {
                    Hue::Blue
                } else {
                    Hue::Red
                };
                Palette { board: hue, x: hue, o: hue }
            },
            GameState::GameOver(None) => Palette { board: Hue::Gray, x: Hue::Gray, o: Hue::Gray },
        }
    }

    /// The window title for this state.
    pub fn title(self) -> (r: String)
        ensures
            r@ == title_of(self),
    {
        proof {
            reveal_strlit("'s turn");
            reveal_strlit(" wins");
            reveal_strlit("X's turn");
            reveal_strlit("O's turn");
            reveal_strlit("_'s turn");
            reveal_strlit("X wins");
            reveal_strlit("O wins");
            reveal_strlit("_ wins");
        }
        match self {
            GameState::Running(SquareState::X) => {
                assert("X's turn"@ =~= seq!['X'] + "'s turn"@);
                String::from_str("X's turn")
            },
            GameState::Running(SquareState::O) => {
                assert("O's turn"@ =~= seq!['O'] + "'s turn"@);
                String::from_str("O's turn")
            },
            GameState::Running(SquareState::Empty) => {
                assert("_'s turn"@ =~= seq!['_'] + "'s turn"@);
                String::from_str("_'s turn")
            },
            GameState::GameOver(Some(SquareState::X)) => {
                assert("X wins"@ =~= seq!['X'] + " wins"@);
                String::from_str("X wins")
            },
            GameState::GameOver(Some(SquareState::O)) => {
                assert("O wins"@ =~= seq!['O'] + " wins"@);
                String::from_str("O wins")
            },
            GameState::GameOver(Some(SquareState::Empty)) => {
                assert("_ wins"@ =~= seq!['_'] + " wins"@);
                String::from_str("_ wins")
            },
            GameState::GameOver(None) => String::from_str("Draw"),
        }
    }
}

} // verus!
