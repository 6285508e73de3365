use games::state::{GameState, Hue, Palette};
use games::tic_tac_toe::{InputEvent, PointerButton, TicTacToe};
use games::tile::SquareState::{Empty, O, X};

fn left_press() -> InputEvent {
    InputEvent::MouseInput { button: PointerButton::Left, pressed: true }
}

/// Moves the pointer to the centre of cell (col, row) of a 300x300 window and clicks.
fn click_cell(g: &mut TicTacToe, col: u32, row: u32) {
    g.handle_event(InputEvent::CursorMoved(col * 100 + 50, row * 100 + 50));
    g.handle_event(left_press());
}

fn new_game() -> TicTacToe {
    let mut g = TicTacToe::new();
    g.handle_event(InputEvent::Resized(300, 300));
    g
}

#[test]
fn new_game_starts_with_x_on_clear_board() {
    let g = TicTacToe::new();
    assert_eq!(g.state(), GameState::Running(X));
    assert_eq!(g.screen_size(), (0, 0));
    assert_eq!(g.cursor_pos(), (0, 0));
    assert!(g.board().tiles.iter().all(|t| *t == Empty));
    let d = TicTacToe::default();
    assert_eq!(d.state(), GameState::Running(X));
}

#[test]
fn resize_and_pointer_events_are_recorded() {
    let mut g = TicTacToe::new();
    g.handle_event(InputEvent::Resized(640, 480));
    assert_eq!(g.screen_size(), (640, 480));
    g.handle_event(InputEvent::CursorMoved(12, 34));
    assert_eq!(g.cursor_pos(), (12, 34));
    assert_eq!(g.state(), GameState::Running(X));
}

#[test]
fn scenario_turns_and_diagonal_win() {
    let mut g = new_game();
    click_cell(&mut g, 0, 0);
    assert_eq!(g.state(), GameState::Running(O));
    assert_eq!(g.board().get_tile((0, 0)), X);

    click_cell(&mut g, 0, 0);
    assert_eq!(g.state(), GameState::Running(O));
    assert_eq!(g.board().get_tile((0, 0)), X);

    click_cell(&mut g, 0, 1);
    assert_eq!(g.state(), GameState::Running(X));
    assert_eq!(g.board().get_tile((0, 1)), O);
    click_cell(&mut g, 1, 1);
    assert_eq!(g.state(), GameState::Running(O));
    click_cell(&mut g, 0, 2);
    assert_eq!(g.state(), GameState::Running(X));
    click_cell(&mut g, 2, 2);
    assert_eq!(g.state(), GameState::GameOver(Some(X)));
    assert_eq!(g.board().check_winner(), Some(Some(X)));
}

#[test]
fn scenario_second_click_lands_o() {
    let mut g = new_game();
    click_cell(&mut g, 0, 0);
    click_cell(&mut g, 1, 1);
    assert_eq!(g.state(), GameState::Running(X));
    assert_eq!(g.board().get_tile((1, 1)), O);
}

#[test]
fn scenario_full_board_draw() {
    let mut g = new_game();
    // Ends as X O X / X O O / O X X (rows top to bottom).
    let moves = [(0, 0), (1, 0), (2, 0), (1, 1), (0, 1), (2, 1), (1, 2), (0, 2), (2, 2)];
    for (i, &(c, r)) in moves.iter().enumerate() {
        assert!(matches!(g.state(), GameState::Running(_)), "move {}", i);
        click_cell(&mut g, c, r);
    }
    assert_eq!(g.state(), GameState::GameOver(None));
    assert_eq!(g.board().check_winner(), Some(None));
}

#[test]
fn scenario_reset_after_game_over() {
    for (c, r) in [(0, 0), (2, 1), (1, 2)] {
        let mut g = new_game();
        for &(x, y) in [(0, 0), (0, 1), (1, 1), (0, 2), (2, 2)].iter() {
            click_cell(&mut g, x, y);
        }
        assert_eq!(g.state(), GameState::GameOver(Some(X)));
        click_cell(&mut g, c, r);
        assert_eq!(g.state(), GameState::Running(X));
        assert!(g.board().tiles.iter().all(|t| *t == Empty));
        assert_eq!(g.screen_size(), (300, 300));
    }
}

#[test]
fn click_outside_board_is_ignored() {
    let mut g = TicTacToe::new();
    g.handle_event(InputEvent::Resized(500, 300));
    g.handle_event(InputEvent::CursorMoved(50, 150));
    g.handle_event(left_press());
    assert_eq!(g.state(), GameState::Running(X));
    assert!(g.board().tiles.iter().all(|t| *t == Empty));
    g.handle_event(InputEvent::CursorMoved(150, 150));
    g.handle_event(left_press());
    assert_eq!(g.board().get_tile((0, 1)), X);
}

#[test]
fn other_buttons_releases_and_events_are_ignored() {
    let mut g = new_game();
    g.handle_event(InputEvent::CursorMoved(150, 150));
    g.handle_event(InputEvent::MouseInput { button: PointerButton::Right, pressed: true });
    g.handle_event(InputEvent::MouseInput { button: PointerButton::Left, pressed: false });
    g.handle_event(InputEvent::Other);
    assert_eq!(g.state(), GameState::Running(X));
    assert!(g.board().tiles.iter().all(|t| *t == Empty));
}

#[test]
fn play_turn_and_reset_game() {
    let mut g = TicTacToe::new();
    g.play_turn((2, 0));
    assert_eq!(g.board().get_tile((2, 0)), X);
    assert_eq!(g.state(), GameState::Running(O));
    g.play_turn((2, 0));
    assert_eq!(g.state(), GameState::Running(O));
    g.reset_game();
    assert_eq!(g.state(), GameState::Running(X));
    assert_eq!(g.board().get_tile((2, 0)), Empty);
}

#[test]
fn titles() {
    assert_eq!(GameState::Running(X).title(), "X's turn");
    assert_eq!(GameState::Running(O).title(), "O's turn");
    assert_eq!(GameState::Running(Empty).title(), "_'s turn");
    assert_eq!(GameState::GameOver(Some(X)).title(), "X wins");
    assert_eq!(GameState::GameOver(Some(O)).title(), "O wins");
    assert_eq!(GameState::GameOver(None).title(), "Draw");
}

#[test]
fn symbols() {
    assert_eq!(X.symbol(), 'X');
    assert_eq!(O.symbol(), 'O');
    assert_eq!(Empty.symbol(), '_');
}

#[test]
fn palettes() {
    assert_eq!(
        GameState::Running(O).palette(),
        Palette { board: Hue::White, x: Hue::Blue, o: Hue::Red }
    );
    assert_eq!(
        GameState::GameOver(Some(X)).palette(),
        Palette { board: Hue::Blue, x: Hue::Blue, o: Hue::Blue }
    );
    assert_eq!(
        GameState::GameOver(Some(O)).palette(),
        Palette { board: Hue::Red, x: Hue::Red, o: Hue::Red }
    );
    assert_eq!(
        GameState::GameOver(None).palette(),
        Palette { board: Hue::Gray, x: Hue::Gray, o: Hue::Gray }
    );
}
