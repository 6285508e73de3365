use vstd::prelude::*;

use crate::tile::{mark_value, next_turn, SquareState};

verus! {

/// Number of columns of the board.
pub const BOARD_WIDTH: usize = 3;

/// Number of rows of the board.
pub const BOARD_HEIGHT: usize = 3;

/// Number of cells of the board.
pub const BOARD_SIZE: usize = 9;

/// Number of lines that can be swept: three rows, three columns, two diagonals.
pub const LINE_COUNT: usize = 8;

/// A 3x3 grid of cells, stored column-major: cell (col, row) is at `col * 3 + row`.
pub struct Board {
    pub tiles: [SquareState; BOARD_SIZE],
}

/// Position of cell (col, row) in the flat array.
pub open spec fn cell_index(col: int, row: int) -> int {
    col * 3 + row
}

/// The `i`-th cell (col, row) of line `k`. Lines 0..3 hold a fixed column,
/// lines 3..6 a fixed row, line 6 is the diagonal through (0,0) and (2,2),
/// line 7 the one through (0,2) and (2,0).
pub open spec fn line_cell(k: int, i: int) -> (int, int) {
    if k < 3 {
        (k, i)
    } else if k < 6 {
        (i, k - 3)
    } else if k == 6 {
        (i, i)
    } else {
        (i, 2 - i)
    }
}

/// Number of non-empty cells among the first `n` of the flat array.
pub open spec fn filled_upto(tiles: Seq<SquareState>, n: int) -> int
    decreases n,
{
    if n <= 0 {
        0
    } else {
        filled_upto(tiles, n - 1) + if tiles[n - 1] == SquareState::Empty {
            0int
        } else {
            1int
        }
    }
}

/// Side of the square the board is drawn in: the smaller window dimension.
pub open spec fn side_of(size: (u32, u32)) -> int {
    if size.0 <= size.1 {
        size.0 as int
    } else {
        size.1 as int
    }
}

/// Top-left corner of the board's square, centred in the window.
pub open spec fn origin_of(size: (u32, u32)) -> (int, int) {
    ((size.0 - side_of(size)) / 2, (size.1 - side_of(size)) / 2)
}

/// The pixel lies inside the board's square.
pub open spec fn in_square(size: (u32, u32), pixel: (u32, u32)) -> bool {
    &&& origin_of(size).0 <= pixel.0 < origin_of(size).0 + side_of(size)
    &&& origin_of(size).1 <= pixel.1 < origin_of(size).1 + side_of(size)
}

/// Width of one tile along an axis of `side` pixels: a third of it, rounded
/// down, and never less than one pixel.
pub open spec fn tile_span(side: int) -> int {
    if side / 3 == 0 {
        1
    } else {
        side / 3
    }
}

/// The tile index, along one axis, of a pixel `offset` pixels into the square;
/// the last tile takes what the rounding left over.
pub open spec fn axis_cell(offset: int, side: int) -> int {
    if offset / tile_span(side) >= 2 {
        2
    } else {
        offset / tile_span(side)
    }
}

/// Tile `c` covers the pixel `offset` pixels into the square: tiles 0 and 1
/// span `tile_span(side)` pixels each, tile 2 the rest up to `side`.
pub open spec fn axis_span_contains(side: int, c: int, offset: int) -> bool {
    &&& 0 <= c < 3
    &&& c * tile_span(side) <= offset < side
    &&& (c < 2 ==> offset < (c + 1) * tile_span(side))
}

/// The cell (col, row) a pixel falls in, or `None` outside the board's square.
pub open spec fn cell_at(size: (u32, u32), pixel: (u32, u32)) -> Option<(int, int)> {
    if in_square(size, pixel) {
        Some(
            (
                axis_cell(pixel.0 - origin_of(size).0, side_of(size)),
                axis_cell(pixel.1 - origin_of(size).1, side_of(size)),
            ),
        )
    } else {
        None
    }
}

impl Default for Board {
    /// A board with every cell empty.
    fn default() -> (r: Self)
        ensures
            r.is_clear(),
    {
        Self::new()
    }
}

impl Board {
    /// The cell at (col, row).
    pub open spec fn cell(self, col: int, row: int) -> SquareState {
        self.tiles@[cell_index(col, row)]
    }

    /// The `i`-th cell of line `k`.
    pub open spec fn line_at(self, k: int, i: int) -> SquareState {
        self.cell(line_cell(k, i).0, line_cell(k, i).1)
    }

    /// Sum of the weights of the three cells of line `k`.
    pub open spec fn line_total(self, k: int) -> int {
        mark_value(self.line_at(k, 0)) + mark_value(self.line_at(k, 1)) + mark_value(
            self.line_at(k, 2),
        )
    }

    /// Line `k` holds `m` in all three cells.
    pub open spec fn line_swept_by(self, k: int, m: SquareState) -> bool {
        &&& self.line_at(k, 0) == m
        &&& self.line_at(k, 1) == m
        &&& self.line_at(k, 2) == m
    }

    /// Some line holds the same non-empty mark in all three cells.
    pub open spec fn has_sweep(self) -> bool {
        exists|k: int, m: SquareState|
            0 <= k < 8 && m != SquareState::Empty && #[trigger] self.line_swept_by(k, m)
    }

    /// The mark of the first line, in line order from `k` on, whose total is +3 or -3.
    pub open spec fn first_sweep_from(self, k: int) -> Option<SquareState>
        decreases 8 - k,
    {
        if k < 0 || k >= 8 {
            None
        } else if self.line_total(k) == 3 {
            Some(SquareState::X)
        } else if self.line_total(k) == -3 {
            Some(SquareState::O)
        } else {
            self.first_sweep_from(k + 1)
        }
    }

    /// No cell holds a mark.
    pub open spec fn is_clear(self) -> bool {
        forall|i: int| 0 <= i < 9 ==> self.tiles@[i] == SquareState::Empty
    }

    /// Every cell holds a mark.
    pub open spec fn is_full(self) -> bool {
        forall|i: int| 0 <= i < 9 ==> self.tiles@[i] != SquareState::Empty
    }

    /// The result of the game on this board: `Some(Some(m))` when `m` swept a
    /// line (the first swept line in line order decides), `Some(None)` for a
    /// draw on a full board, `None` while the game goes on.
    pub open spec fn outcome(self) -> Option<Option<SquareState>> {
        match self.first_sweep_from(0) {
            Some(m) => Some(Some(m)),
            None => if self.is_full() {
                Some(None)
            } else {
                None
            },
        }
    }

    /// A board with every cell empty.
    pub fn new() -> (r: Self)
        ensures
            r.is_clear(),
    {
        let e = SquareState::Empty;
        Board { tiles: [e, e, e, e, e, e, e, e, e] }
    }

    /// Number of columns.
    pub fn width(&self) -> (r: usize)
        ensures
            r == 3,
    {
        BOARD_WIDTH
    }

    /// Number of rows.
    pub fn height(&self) -> (r: usize)
        ensures
            r == 3,
    {
        BOARD_HEIGHT
    }

    /// Size of the square the board is drawn in: the smaller window dimension, twice.
    pub fn screen_size(&self, size: (u32, u32)) -> (r: (u32, u32))
        ensures
            r.0 as int == side_of(size),
            r.1 == r.0,
    {
        let draw_size = if size.0 <= size.1 {
            size.0
        } else {
            size.1
        };
        (draw_size, draw_size)
    }

    /// Top-left corner of the board's square, centred in the window.
    pub fn screen_pos(&self, size: (u32, u32)) -> (r: (u32, u32))
        ensures
            (r.0 as int, r.1 as int) == origin_of(size),
    {
        let (x, y) = self.screen_size(size);
        ((size.0 - x) / 2, (size.1 - y) / 2)
    }

    /// The cell (col, row) the pixel falls in, or `None` when it lies outside
    /// the board's square. The square is cut into tiles a third of its side
    /// wide (at least one pixel), the last row and column taking the remainder.
    pub fn clicked_tile(&self, size: (u32, u32), pixel: (u32, u32)) -> (r: Option<
        (usize, usize),
    >)
        ensures
            r is None <==> cell_at(size, pixel) is None,
            r matches Some(p) ==> p.0 < 3 && p.1 < 3 && cell_at(size, pixel) == Some(
                (p.0 as int, p.1 as int),
            ),
    {
        let (screen_x, screen_y) = self.screen_pos(size);
        let (width, height) = self.screen_size(size);
        let offset_x: i64 = pixel.0 as i64 - screen_x as i64;
        let offset_y: i64 = pixel.1 as i64 - screen_y as i64;

        if (0 <= offset_x && offset_x < width as i64) && (0 <= offset_y && offset_y < height as i64) {
            let tile_width: u32 = if width / (BOARD_WIDTH as u32) == 0 {
                1
            } else {
                width / (BOARD_WIDTH as u32)
            };
            let tile_height: u32 = if height / (BOARD_HEIGHT as u32) == 0 {
                1
            } else {
                height / (BOARD_HEIGHT as u32)
            };
            let col: usize = offset_x as usize / tile_width as usize;
            let row: usize = offset_y as usize / tile_height as usize;
            Some(
                (
                    if col >= 2 {
                        2
                    } else {
                        col
                    },
                    if row >= 2 {
                        2
                    } else {
                        row
                    },
                ),
            )
        } else {
            None
        }
    }

    /// The cell at (col, row).
    pub fn get_tile(&self, pos: (usize, usize)) -> (r: SquareState)
        requires
            pos.0 < 3,
            pos.1 < 3,
        ensures
            r == self.cell(pos.0 as int, pos.1 as int),
    {
        self.tiles[pos.0 * BOARD_HEIGHT + pos.1]
    }

    /// Overwrites the cell at (col, row), leaving every other cell as it was.
    pub fn set_tile(&mut self, pos: (usize, usize), state: SquareState)
        requires
            pos.0 < 3,
            pos.1 < 3,
        ensures
            final(self).tiles@ == old(self).tiles@.update(
                cell_index(pos.0 as int, pos.1 as int),
                state,
            ),
    {
        self.tiles[pos.0 * BOARD_HEIGHT + pos.1] = state;
    }

    /// The cell (col, row) that is the `i`-th of line `k`.
    fn line_position(k: usize, i: usize) -> (r: (usize, usize))
        requires
            k < 8,
            i < 3,
        ensures
            r.0 < 3,
            r.1 < 3,
            (r.0 as int, r.1 as int) == line_cell(k as int, i as int),
    {
        if k < 3 {
            (k, i)
        } else if k < 6 {
            (i, k - 3)
        } else if k == 6 {
            (i, i)
        } else {
            (i, 2 - i)
        }
    }

    /// Sum of the weights of the cells of line `k`: +3 when X swept it, -3 when O did.
    fn line_sum(&self, k: usize) -> (r: i8)
        requires
            k < 8,
        ensures
            r as int == self.line_total(k as int),
            -3 <= r <= 3,
    {
        let mut total: i8 = 0;
        let mut i: usize = 0;
        while i < 3
            invariant
                k < 8,
                i <= 3,
                -(i as int) <= total <= i as int,
                total as int == if i == 0 {
                    0
                } else if i == 1 {
                    mark_value(self.line_at(k as int, 0))
                } else if i == 2 {
                    mark_value(self.line_at(k as int, 0)) + mark_value(self.line_at(k as int, 1))
                } else {
                    self.line_total(k as int)
                },
            decreases 3 - i,
        {
            let tile: i8 = match self.get_tile(Self::line_position(k, i)) {
                SquareState::X => 1,
                SquareState::O => -1,
                SquareState::Empty => 0,
            };
            total = total + tile;
            i = i + 1;
        }
        total
    }

    /// Number of non-empty cells.
    fn filled_count(&self) -> (r: u8)
        ensures
            r as int == filled_upto(self.tiles@, 9),
    {
        let mut filled: u8 = 0;
        let mut i: usize = 0;
        while i < BOARD_SIZE
            invariant
                i <= 9,
                filled as int == filled_upto(self.tiles@, i as int),
                filled <= i,
            decreases 9 - i,
        {
            if self.tiles[i] != SquareState::Empty {
                filled = filled + 1;
            }
            i = i + 1;
        }
        filled
    }

    /// The result of the game: `Some(Some(m))` when the first line, in line
    /// order, with a total of +3 or -3 was swept by `m`; `Some(None)` when no
    /// line is swept and all nine cells are filled (a draw); `None` otherwise.
    pub fn check_winner(&self) -> (r: Option<Option<SquareState>>)
        ensures
            r == self.outcome(),
    {
        let mut k: usize = 0;
        while k < LINE_COUNT
            invariant
                k <= 8,
                self.first_sweep_from(0) == self.first_sweep_from(k as int),
            decreases 8 - k,
        {
            let lead = self.line_sum(k);
            if lead == 3 {
                return Some(Some(SquareState::X));
            }
            if lead == -3 {
                return Some(Some(SquareState::O));
            }
            k = k + 1;
        }
        let filled = self.filled_count();
        proof {
            lemma_filled_upto_all(self.tiles@, 9);
        }
        if filled as usize == BOARD_SIZE {
            Some(None)
        } else {
            None
        }
    }
}

/// `filled_upto` counts at most `n` cells, and exactly `n` just when none of
/// them is empty.
proof fn lemma_filled_upto_all(tiles: Seq<SquareState>, n: int)
    requires
        0 <= n <= tiles.len(),
    ensures
        0 <= filled_upto(tiles, n) <= n,
        filled_upto(tiles, n) == n <==> forall|i: int| 0 <= i < n ==> tiles[i] != SquareState::Empty,
    decreases n,
{
    if n > 0 {
        lemma_filled_upto_all(tiles, n - 1);
    }
}

/// Walks the line order from `j`: a reported mark has swept some line from
/// `j` on, and when none is reported no line from `j` on is swept.
proof fn lemma_first_sweep_from(b: Board, j: int)
    requires
        0 <= j <= 8,
    ensures
        b.first_sweep_from(j) matches Some(m) ==> m != SquareState::Empty && exists|i: int|
            j <= i < 8 && #[trigger] b.line_swept_by(i, m),
        b.first_sweep_from(j) is None ==> forall|i: int, m: SquareState|
            j <= i < 8 && m != SquareState::Empty ==> !#[trigger] b.line_swept_by(i, m),
    decreases 8 - j,
{
    if j < 8 {
        lemma_line_total_sweep(b, j);
        lemma_first_sweep_from(b, j + 1);
        if b.first_sweep_from(j) is None {
            assert forall|i: int, m: SquareState|
                j <= i < 8 && m != SquareState::Empty implies !#[trigger] b.line_swept_by(i, m) by {
                lemma_line_total_sweep(b, i);
            }
        }
    }
}

/// A line total is +3 exactly when X holds the whole line, and -3 exactly
/// when O does.
proof fn lemma_line_total_sweep(b: Board, k: int)
    ensures
        b.line_total(k) == 3 <==> b.line_swept_by(k, SquareState::X),
        b.line_total(k) == -3 <==> b.line_swept_by(k, SquareState::O),
{
    assert(-1 <= mark_value(b.line_at(k, 0)) <= 1);
    assert(-1 <= mark_value(b.line_at(k, 1)) <= 1);
    assert(-1 <= mark_value(b.line_at(k, 2)) <= 1);
}

/// A board on which one player holds a whole row, column or diagonal, and the
/// other player holds none, is won by the first player.
pub proof fn lemma_sweep_is_win(b: Board, k: int, m: SquareState)
    requires
        0 <= k < 8,
        m != SquareState::Empty,
        b.line_swept_by(k, m),
        forall|j: int| 0 <= j < 8 ==> !#[trigger] b.line_swept_by(j, next_turn(m)),
    ensures
        b.outcome() == Some(Some(m)),
{
    lemma_first_sweep_from(b, 0);
    match b.first_sweep_from(0) {
        Some(w) => {
            if w != m {
                assert(w == next_turn(m));
            }
        },
        None => {
            assert(!b.line_swept_by(k, m));
        },
    }
}

/// A full board on which no line is held by one player is a draw.
pub proof fn lemma_full_without_sweep_is_draw(b: Board)
    requires
        b.is_full(),
        !b.has_sweep(),
    ensures
        b.outcome() == Some(None::<SquareState>),
{
    lemma_first_sweep_from(b, 0);
}

/// The result of the game is a function of the cells alone: asking again
/// about a board whose cells did not change gives the same answer.
pub proof fn lemma_outcome_is_stable(before: Board, after: Board)
    requires
        before.tiles@ == after.tiles@,
    ensures
        before.outcome() == after.outcome(),
{
    assert(before.first_sweep_from(0) == after.first_sweep_from(0)) by {
        lemma_first_sweep_same(before, after, 0);
    }
}

/// Boards with the same cells report the same first swept line from `k` on.
proof fn lemma_first_sweep_same(a: Board, b: Board, k: int)
    requires
        a.tiles@ == b.tiles@,
    ensures
        a.first_sweep_from(k) == b.first_sweep_from(k),
    decreases 8 - k,
{
    if 0 <= k < 8 {
        lemma_first_sweep_same(a, b, k + 1);
    }
}

/// A board with an empty cell on which no line is held by one player has no
/// result yet.
pub proof fn lemma_open_without_sweep_goes_on(b: Board)
    requires
        exists|i: int| 0 <= i < 9 && b.tiles@[i] == SquareState::Empty,
        !b.has_sweep(),
    ensures
        b.outcome() is None,
{
    lemma_first_sweep_from(b, 0);
}

/// Along one axis of `side` pixels the tiles cut the pixels without gap or
/// overlap: the tile `axis_cell` picks covers the pixel, and no other does.
proof fn lemma_axis_partition(side: int, offset: int)
    requires
        0 <= offset < side,
    ensures
        axis_span_contains(side, axis_cell(offset, side), offset),
        forall|c: int| #[trigger] axis_span_contains(side, c, offset) ==> c == axis_cell(offset, side),
{
    let t = tile_span(side);
    let q = offset / t;
    assert(t >= 1);
    assert(t <= side) by {
        if side / 3 != 0 {
            assert(side / 3 <= side) by (nonlinear_arith)
                requires
                    side >= 0,
            ;
        }
    }
    assert(q * t <= offset < (q + 1) * t && q >= 0) by (nonlinear_arith)
        requires
            t >= 1,
            offset >= 0,
            q == offset / t,
    ;
    assert(0 * t == 0 && 1 * t == t && 2 * t == t + t && 3 * t == t + t + t) by (nonlinear_arith);
    if q >= 2 {
        assert(2 * t <= q * t) by (nonlinear_arith)
            requires
                q >= 2,
                t >= 1,
        ;
    } else if q == 1 {
    } else {
        assert(q == 0);
    }
}

/// Tile (col, row) covers the pixel.
pub open spec fn tile_covers(size: (u32, u32), pixel: (u32, u32), col: int, row: int) -> bool {
    &&& in_square(size, pixel)
    &&& axis_span_contains(side_of(size), col, pixel.0 - origin_of(size).0)
    &&& axis_span_contains(side_of(size), row, pixel.1 - origin_of(size).1)
}

/// Every pixel outside the board's square maps to no cell; every pixel inside
/// it maps to one of the nine cells, and a tile covers the pixel exactly when
/// it is the tile of that cell.
pub proof fn lemma_pixel_partition(size: (u32, u32), pixel: (u32, u32))
    ensures
        !in_square(size, pixel) ==> cell_at(size, pixel) is None,
        in_square(size, pixel) ==> exists|c: int, r: int|
            0 <= c < 3 && 0 <= r < 3 && cell_at(size, pixel) == Some((c, r)),
        forall|c: int, r: int|
            #[trigger] tile_covers(size, pixel, c, r) <==> cell_at(size, pixel) == Some((c, r)),
{
    if in_square(size, pixel) {
        let ox = pixel.0 - origin_of(size).0;
        let oy = pixel.1 - origin_of(size).1;
        lemma_axis_partition(side_of(size), ox);
        lemma_axis_partition(side_of(size), oy);
        let c = axis_cell(ox, side_of(size));
        let r = axis_cell(oy, side_of(size));
        assert(0 <= c < 3 && 0 <= r < 3 && cell_at(size, pixel) == Some((c, r)));
    }
}

} // verus!
