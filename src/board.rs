//! The mathematical model of the board: cells addressed by column and row,
//! and the transformations the game applies to it.

use vstd::prelude::*;

verus! {

use vstd::arithmetic::div_mod::{
    lemma_fundamental_div_mod, lemma_fundamental_div_mod_converse, lemma_mod_pos_bound,
};
use crate::block::tetris_blocks::{NONE, WALL};
use crate::block::BlockColor;
use crate::game::{BOARDSIZE, EDGE_WIDTH, TETRIS_HEIGHT, TETRIS_WIDTH};

/// Index of the cell in column `x` of row `y`.
pub open spec fn cell_index(x: int, y: int) -> int {
    y * TETRIS_WIDTH + x
}

/// A column and row of the board.
pub open spec fn on_board(x: int, y: int) -> bool {
    0 <= x < TETRIS_WIDTH && 0 <= y < TETRIS_HEIGHT
}

/// The board whose cell in column `x` of row `y` is `f(x, y)`.
pub open spec fn board_from(f: spec_fn(int, int) -> BlockColor) -> Seq<BlockColor> {
    Seq::new(BOARDSIZE as nat, |i: int| f(i % TETRIS_WIDTH as int, i / TETRIS_WIDTH as int))
}

/// What a fresh board holds in column `x` of row `y`.
pub open spec fn initial_cell(x: int, y: int) -> BlockColor {
    if x == EDGE_WIDTH - 1 || x == TETRIS_WIDTH - EDGE_WIDTH || y == TETRIS_HEIGHT - EDGE_WIDTH {
        WALL
    } else {
        NONE
    }
}

/// `b` is the board of a new game: walls on the two border columns and the
/// bottom border row, every other cell empty.
pub open spec fn is_initial_board(b: Seq<BlockColor>) -> bool {
    &&& b.len() == BOARDSIZE
    &&& forall|x: int, y: int|
        on_board(x, y) ==> #[trigger] b[cell_index(x, y)] == initial_cell(x, y)
}

/// Every cell of the bottom border row is occupied.
pub open spec fn has_floor(b: Seq<BlockColor>) -> bool {
    forall|x: int|
        0 <= x < TETRIS_WIDTH ==> #[trigger] b[cell_index(x, TETRIS_HEIGHT - EDGE_WIDTH)] != NONE
}

/// The occupied cell `(dx, dy)` of `g`, with the grid's top-left corner at
/// `(px, py)`, lies on the board over an occupied board cell.
pub open spec fn cell_hits(
    b: Seq<BlockColor>,
    g: Seq<Seq<usize>>,
    px: int,
    py: int,
    dx: int,
    dy: int,
) -> bool {
    &&& 0 <= dx < 4
    &&& 0 <= dy < 4
    &&& g[dy][dx] != NONE
    &&& px + dx < TETRIS_WIDTH
    &&& py + dy < TETRIS_HEIGHT
    &&& b[cell_index(px + dx, py + dy)] != NONE
}

/// The grid `g`, with its top-left corner at `(px, py)`, overlaps an occupied
/// board cell. Cells of the grid that fall off the board never collide.
pub open spec fn collides(b: Seq<BlockColor>, g: Seq<Seq<usize>>, px: int, py: int) -> bool {
    exists|dx: int, dy: int| #[trigger] cell_hits(b, g, px, py, dx, dy)
}

/// The row where `g`, dropped straight down from row `y` in column `px`, comes
/// to rest: the first row from `y` on whose next row collides. The search
/// stops at the board's last row, below which nothing can collide.
pub open spec fn landing_row(b: Seq<BlockColor>, g: Seq<Seq<usize>>, px: int, y: int) -> int
    decreases TETRIS_HEIGHT - 1 - y,
{
    if y >= TETRIS_HEIGHT - 1 || collides(b, g, px, y + 1) {
        y
    } else {
        landing_row(b, g, px, y + 1)
    }
}

/// The cell in column `x` of row `y` after the occupied cells of `g` are
/// written with the grid's top-left corner at `(px, py)`.
pub open spec fn placed_cell(
    b: Seq<BlockColor>,
    g: Seq<Seq<usize>>,
    px: int,
    py: int,
    x: int,
    y: int,
) -> BlockColor {
    let dx = x - px;
    let dy = y - py;
    if 0 <= dx < 4 && 0 <= dy < 4 && g[dy][dx] != NONE {
        g[dy][dx]
    } else {
        b[cell_index(x, y)]
    }
}

/// `b` with the occupied cells of `g` written at `(px, py)`; cells that fall
/// off the board are dropped.
pub open spec fn placed(b: Seq<BlockColor>, g: Seq<Seq<usize>>, px: int, py: int) -> Seq<
    BlockColor,
> {
    board_from(|x: int, y: int| placed_cell(b, g, px, py, x, y))
}

/// Every playable cell of row `y` is occupied.
pub open spec fn row_full(b: Seq<BlockColor>, y: int) -> bool {
    forall|x: int|
        EDGE_WIDTH <= x < TETRIS_WIDTH - EDGE_WIDTH ==> #[trigger] b[cell_index(x, y)] != NONE
}

/// `b` with row `row` removed: each row from 1 to `row` takes what the row
/// above it held; row 0 and the rows below `row` keep theirs.
pub open spec fn shifted(b: Seq<BlockColor>, row: int) -> Seq<BlockColor> {
    board_from(
        |x: int, y: int|
            if 1 <= y <= row {
                b[cell_index(x, y - 1)]
            } else {
                b[cell_index(x, y)]
            },
    )
}

/// The board and the number of lines cleared after rows 1 up to, not
/// including, `y` are examined from the top, each full one removed as it is
/// met.
pub open spec fn cleared_upto(b: Seq<BlockColor>, y: int) -> (Seq<BlockColor>, nat)
    decreases y,
{
    if y <= 1 {
        (b, 0)
    } else {
        let (b1, n) = cleared_upto(b, y - 1);
        if row_full(b1, y - 1) {
            (shifted(b1, y - 1), n + 1)
        } else {
            (b1, n)
        }
    }
}

/// The last row examined for full lines. Rows 1 to this one are examined:
/// every row above the bottom border but row 0.
pub open spec fn last_clearable_row() -> int {
    TETRIS_HEIGHT - EDGE_WIDTH - 1
}

/// `b` after every full line is cleared.
pub open spec fn cleared(b: Seq<BlockColor>) -> Seq<BlockColor> {
    cleared_upto(b, TETRIS_HEIGHT - EDGE_WIDTH).0
}

/// How many lines clearing `b` removes.
pub open spec fn lines_cleared(b: Seq<BlockColor>) -> nat {
    cleared_upto(b, TETRIS_HEIGHT - EDGE_WIDTH).1
}

/// The landing row is never above the starting row, nor below the board's
/// last row unless the search started there.
pub proof fn lemma_landing_bounds(b: Seq<BlockColor>, g: Seq<Seq<usize>>, px: int, y: int)
    ensures
        y <= landing_row(b, g, px, y),
        landing_row(b, g, px, y) == y || landing_row(b, g, px, y) <= TETRIS_HEIGHT - 1,
    decreases TETRIS_HEIGHT - 1 - y,
{
    if y < TETRIS_HEIGHT - 1 && !collides(b, g, px, y + 1) {
        lemma_landing_bounds(b, g, px, y + 1);
    }
}

/// The board's dimensions as numbers.
pub proof fn lemma_dimensions()
    ensures
        TETRIS_WIDTH == 16,
        TETRIS_HEIGHT == 23,
        BOARDSIZE == 368,
{
}

/// Column and row of a cell, recovered from its index.
pub proof fn lemma_cell_coords(x: int, y: int)
    requires
        0 <= x < TETRIS_WIDTH,
    ensures
        cell_index(x, y) % TETRIS_WIDTH as int == x,
        cell_index(x, y) / TETRIS_WIDTH as int == y,
{
    lemma_fundamental_div_mod_converse(cell_index(x, y), TETRIS_WIDTH as int, y, x);
}

/// Two boards with the same cells are equal.
pub proof fn lemma_boards_equal(b1: Seq<BlockColor>, b2: Seq<BlockColor>)
    requires
        b1.len() == BOARDSIZE,
        b2.len() == BOARDSIZE,
        forall|x: int, y: int|
            on_board(x, y) ==> #[trigger] b1[cell_index(x, y)] == b2[cell_index(x, y)],
    ensures
        b1 == b2,
{
    assert forall|i: int| 0 <= i < BOARDSIZE implies #[trigger] b1[i] == b2[i] by {
        let x = i % TETRIS_WIDTH as int;
        let y = i / TETRIS_WIDTH as int;
        lemma_fundamental_div_mod(i, TETRIS_WIDTH as int);
        lemma_mod_pos_bound(i, TETRIS_WIDTH as int);
        assert(cell_index(x, y) == i);
        assert(on_board(x, y));
    }
    assert(b1 =~= b2);
}

} // verus!
