use vstd::prelude::*;

use crate::board::{cell_at, cell_index, Board};
use crate::state::GameState;
use crate::tile::{next_turn, SquareState};

verus! {

/// A mouse button.
#[derive(Clone, Copy, Debug, PartialEq, Eq, Structural)]
pub enum PointerButton {
    Left,
    Right,
    Middle,
    Other,
}

/// An input event from the window, in pixels with the origin at the top left.
#[derive(Clone, Copy, Debug, PartialEq, Eq, Structural)]
pub enum InputEvent {
    /// The window now has this width and height.
    Resized(u32, u32),
    /// The pointer moved to this position.
    CursorMoved(u32, u32),
    /// A mouse button was pressed (`pressed`) or released.
    MouseInput { button: PointerButton, pressed: bool },
    /// Any other event; it is ignored.
    Other,
}

/// The game: the board, whose turn it is or how the game ended, and the last
/// known window size and pointer position.
pub struct TicTacToe {
    board: Board,
    cursor_pos: (u32, u32),
    screen_size: (u32, u32),
    state: GameState,
}

/// The abstract state of a game.
pub struct GameView {
    pub board: Board,
    pub cursor_pos: (u32, u32),
    pub screen_size: (u32, u32),
    pub state: GameState,
}

impl View for TicTacToe {
    type V = GameView;

    closed spec fn view(&self) -> GameView {
        GameView {
            board: self.board,
            cursor_pos: self.cursor_pos,
            screen_size: self.screen_size,
            state: self.state,
        }
    }
}

/// `post` is a fresh game: clear board, X to move, window and pointer kept.
pub open spec fn restarted(pre: GameView, post: GameView) -> bool {
    &&& post.board.is_clear()
    &&& post.state == GameState::Running(SquareState::X)
    &&& post.cursor_pos == pre.cursor_pos
    &&& post.screen_size == pre.screen_size
}

/// `post` follows from `pre` by a click on cell (col, row): after the game is
/// over the click starts a new game; while it runs, an empty cell takes the
/// mark of the player to move, and the game ends if that decided it, else the
/// turn passes; a click on an occupied cell changes nothing.
pub open spec fn click_step(pre: GameView, post: GameView, col: int, row: int) -> bool {
    match pre.state {
        GameState::GameOver(_) => restarted(pre, post),
        GameState::Running(turn) => if pre.board.cell(col, row) == SquareState::Empty {
            &&& post.board.tiles@ == pre.board.tiles@.update(cell_index(col, row), turn)
            &&& post.state == match post.board.outcome() {
                Some(result) => GameState::GameOver(result),
                None => GameState::Running(next_turn(turn)),
            }
            &&& post.cursor_pos == pre.cursor_pos
            &&& post.screen_size == pre.screen_size
        } else {
            post == pre
        },
    }
}

impl Default for TicTacToe {
    /// A new game.
    fn default() -> (r: Self)
        ensures
            r.wf(),
            r@.board.is_clear(),
            r@.state == GameState::Running(SquareState::X),
            r@.cursor_pos == (0u32, 0u32),
            r@.screen_size == (0u32, 0u32),
    {
        Self::new()
    }
}

impl TicTacToe {
    /// The game is well formed: while it runs, the player to move is X or O.
    pub open spec fn wf(&self) -> bool {
        self@.state matches GameState::Running(t) ==> t != SquareState::Empty
    }

    /// A new game: clear board, X to move, no window size or pointer seen yet.
    pub fn new() -> (r: Self)
        ensures
            r.wf(),
            r@.board.is_clear(),
            r@.state == GameState::Running(SquareState::X),
            r@.cursor_pos == (0u32, 0u32),
            r@.screen_size == (0u32, 0u32),
    {
        TicTacToe {
            cursor_pos: (0, 0),
            screen_size: (0, 0),
            state: GameState::Running(SquareState::X),
            board: Board::new(),
        }
    }

    /// Starts over: clear board, X to move.
    pub fn reset_game(&mut self)
        ensures
            final(self).wf(),
            restarted(old(self)@, final(self)@),
    {
        self.board = Board::new();
        self.state = GameState::Running(SquareState::X);
    }

    /// Plays a click on cell (col, row).
    pub fn play_turn(&mut self, clicked: (usize, usize))
        requires
            clicked.0 < 3,
            clicked.1 < 3,
            old(self).wf(),
        ensures
            final(self).wf(),
            click_step(old(self)@, final(self)@, clicked.0 as int, clicked.1 as int),
    {
        match self.state {
            GameState::GameOver(..) => self.reset_game(),
            GameState::Running(turn) => {
                if self.board.get_tile(clicked) == SquareState::Empty {
                    self.board.set_tile(clicked, turn);
                    if let Some(winner) = self.board.check_winner() {
                        self.state = GameState::GameOver(winner);
                    } else if turn == SquareState::X {
                        self.state = GameState::Running(SquareState::O);
                    } else {
                        self.state = GameState::Running(SquareState::X);
                    }
                }
            },
        }
    }

    /// Handles one input event: a resize records the window size, a pointer
    /// move records the position, a press of the left button plays a click on
    /// the cell under the pointer (nothing happens outside the board), and
    /// every other event is ignored.
    pub fn handle_event(&mut self, event: InputEvent)
        requires
            old(self).wf(),
        ensures
            final(self).wf(),
            match event {
                InputEvent::Resized(w, h) => final(self)@ == (GameView {
                    screen_size: (w, h),
                    ..old(self)@
                }),
                InputEvent::CursorMoved(x, y) => final(self)@ == (GameView {
                    cursor_pos: (x, y),
                    ..old(self)@
                }),
                InputEvent::MouseInput { button: PointerButton::Left, pressed: true } => match cell_at(
                    old(self)@.screen_size,
                    old(self)@.cursor_pos,
                ) {
                    Some(cell) => click_step(old(self)@, final(self)@, cell.0, cell.1),
                    None => final(self)@ == old(self)@,
                },
                _ => final(self)@ == old(self)@,
            },
    {
        match event {
            InputEvent::Resized(w, h) => self.screen_size = (w, h),
            InputEvent::CursorMoved(x, y) => self.cursor_pos = (x, y),
            InputEvent::MouseInput { button, pressed } => {
                if button == PointerButton::Left && pressed {
                    if let Some(clicked) = self.board.clicked_tile(
                        self.screen_size,
                        self.cursor_pos,
                    ) {
                        self.play_turn(clicked);
                    }
                }
            },
            InputEvent::Other => {},
        }
    }

    /// The board.
    pub fn board(&self) -> (r: &Board)
        ensures
            *r == self@.board,
    {
        &self.board
    }

    /// Where the game stands.
    pub fn state(&self) -> (r: GameState)
        ensures
            r == self@.state,
    {
        self.state
    }

    /// The last window size seen.
    pub fn screen_size(&self) -> (r: (u32, u32))
        ensures
            r == self@.screen_size,
    {
        self.screen_size
    }

    /// The last pointer position seen.
    pub fn cursor_pos(&self) -> (r: (u32, u32))
        ensures
            r == self@.cursor_pos,
    {
        self.cursor_pos
    }
}

} // verus!
