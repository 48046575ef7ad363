//! Properties that hold across the game's operations.

use vstd::prelude::*;

verus! {

use crate::block::tetris_blocks::NONE;
use crate::block::{BlockColor, TetrisBlocks};
use crate::board::{
    cell_hits, cell_index, cleared, cleared_upto, collides, has_floor, initial_cell,
    is_initial_board, landing_row, last_clearable_row, lemma_cell_coords, lemma_dimensions,
    lemma_landing_bounds, lines_cleared, row_full, shifted,
};
use crate::game::{
    BOARDSIZE, EDGE_WIDTH, LINE_BASE_SCORE, Position, TETRIS_HEIGHT, TETRIS_WIDTH, TetrisBoard,
    line_score, piece_grid,
};

/// On the board of a new game, a piece of any kind and rotation at the spawn
/// position collides with nothing.
pub proof fn lemma_spawn_free_on_new_board(b: Seq<BlockColor>, kind: TetrisBlocks, rotate: u8)
    requires
        is_initial_board(b),
    ensures
        !collides(b, piece_grid(kind, rotate), 4, 0),
{
    lemma_dimensions();
    let g = piece_grid(kind, rotate);
    assert forall|dx: int, dy: int| !cell_hits(b, g, 4, 0, dx, dy) by {
        if 0 <= dx < 4 && 0 <= dy < 4 {
            assert(b[cell_index(4 + dx, dy)] == initial_cell(4 + dx, dy));
        }
    }
}

/// A new game does not start blocked.
pub proof fn lemma_new_game_not_blocked(s: TetrisBoard, current: TetrisBlocks, next: [TetrisBlocks; 3])
    requires
        s.starts_with(current, next),
    ensures
        !s.spawn_blocked(),
{
    lemma_spawn_free_on_new_board(s.tetris_board@, s.block_now_shape, s.block_rotate);
}

proof fn lemma_lands_on_floor(
    b: Seq<BlockColor>,
    g: Seq<Seq<usize>>,
    px: int,
    y: int,
    dx: int,
    dy: int,
)
    requires
        has_floor(b),
        0 <= dx < 4,
        0 <= dy < 4,
        g[dy][dx] != NONE,
        0 <= px,
        px + dx < TETRIS_WIDTH,
        0 <= y,
        y + dy < TETRIS_HEIGHT - EDGE_WIDTH,
    ensures
        collides(b, g, px, landing_row(b, g, px, y) + 1),
    decreases TETRIS_HEIGHT - 1 - y,
{
    lemma_dimensions();
    if !collides(b, g, px, y + 1) {
        if y + 1 + dy < TETRIS_HEIGHT - EDGE_WIDTH {
            lemma_lands_on_floor(b, g, px, y + 1, dx, dy);
        } else {
            assert(b[cell_index(px + dx, TETRIS_HEIGHT - EDGE_WIDTH)] != NONE);
            assert(cell_hits(b, g, px, y + 1, dx, dy));
        }
    }
}

/// The ghost never stands above the falling piece. On a board with a solid
/// floor, for a piece with an occupied cell within the board's columns above
/// the floor, the piece collides one row below the ghost.
pub proof fn lemma_ghost_rests(s: TetrisBoard)
    ensures
        s.landing().x == s.block_position.x,
        s.landing().y >= s.block_position.y,
        has_floor(s.tetris_board@) && s.above_floor() ==> collides(
            s.tetris_board@,
            s.piece(),
            s.landing().x as int,
            s.landing().y + 1,
        ),
{
    let b = s.tetris_board@;
    let g = s.piece();
    let px = s.block_position.x as int;
    let py = s.block_position.y as int;
    lemma_landing_bounds(b, g, px, py);
    if has_floor(b) && s.above_floor() {
        let (dx, dy) = choose|dx: int, dy: int|
            0 <= dx < 4 && 0 <= dy < 4 && #[trigger] s.piece()[dy][dx] != NONE
                && s.block_position.x + dx < TETRIS_WIDTH && s.block_position.y + dy
                < TETRIS_HEIGHT - EDGE_WIDTH;
        lemma_lands_on_floor(b, g, px, py, dx, dy);
    }
}

proof fn lemma_clear_one_upto(b: Seq<BlockColor>, r: int, y: int)
    requires
        b.len() == BOARDSIZE,
        1 <= r <= last_clearable_row(),
        row_full(b, r),
        forall|yy: int| 1 <= yy <= last_clearable_row() && yy != r ==> !row_full(b, yy),
        y <= TETRIS_HEIGHT - EDGE_WIDTH,
    ensures
        y <= r ==> cleared_upto(b, y) == (b, 0nat),
        y > r ==> cleared_upto(b, y) == (shifted(b, r), 1nat),
    decreases y,
{
    if y > 1 {
        lemma_clear_one_upto(b, r, y - 1);
        if y - 1 > r {
            lemma_dimensions();
            let s = shifted(b, r);
            assert forall|x: int| 0 <= x < TETRIS_WIDTH implies #[trigger] s[cell_index(x, y - 1)]
                == b[cell_index(x, y - 1)] by {
                lemma_cell_coords(x, y - 1);
            }
            assert(!row_full(b, y - 1));
            let x = choose|x: int|
                EDGE_WIDTH <= x < TETRIS_WIDTH - EDGE_WIDTH && #[trigger] b[cell_index(x, y - 1)]
                    == NONE;
            assert(s[cell_index(x, y - 1)] == NONE);
        }
    }
}

/// When exactly one of the examined rows is full, clearing removes that row,
/// moves every row above it down by one, and counts one line, which scores
/// `LINE_BASE_SCORE`.
pub proof fn lemma_one_full_row(b: Seq<BlockColor>, r: int)
    requires
        b.len() == BOARDSIZE,
        1 <= r <= last_clearable_row(),
        row_full(b, r),
        forall|y: int| 1 <= y <= last_clearable_row() && y != r ==> !row_full(b, y),
    ensures
        cleared(b) == shifted(b, r),
        lines_cleared(b) == 1,
        line_score(lines_cleared(b)) == LINE_BASE_SCORE,
{
    lemma_clear_one_upto(b, r, TETRIS_HEIGHT - EDGE_WIDTH);
}

/// Holding with the hold slot empty and then holding again brings the first
/// piece back into play, turned as it was before, at the spawn position, and
/// leaves the piece that came in between in the hold slot.
pub proof fn lemma_hold_twice(
    s0: TetrisBoard,
    s1: TetrisBoard,
    s2: TetrisBoard,
    incoming: TetrisBlocks,
)
    requires
        s0.block_hold == TetrisBlocks::NONE,
        s0.block_now_shape != TetrisBlocks::NONE,
        s1.spawned_from(
            (TetrisBoard {
                block_hold: s0.block_now_shape,
                hold_rotate: s0.block_rotate,
                ..s0
            }),
            incoming,
        ),
        s2.swapped_from(s1),
    ensures
        s1.block_hold != TetrisBlocks::NONE,
        s2.block_now_shape == s0.block_now_shape,
        s2.block_rotate == s0.block_rotate,
        s2.block_position == (Position { x: 4, y: 0 }),
        s2.block_hold == s0.block_next_three[0],
        s2.hold_rotate == 0,
        s2.tetris_board == s0.tetris_board,
        s2.score == s0.score,
        s2.block_placed == s0.block_placed + 1,
{
}

/// A rotation that collides where the piece stands and on every wall-kick
/// candidate is undone: after `rotate` and `check_rotate` the piece has its
/// former orientation and position, and nothing but the ghost has changed.
pub proof fn lemma_blocked_rotation_reverts(s0: TetrisBoard, s1: TetrisBoard, s2: TetrisBoard)
    requires
        s0.block_rotate < 4,
        s1 == (TetrisBoard { block_rotate: ((s0.block_rotate + 1) % 4) as u8, ..s0 }),
        collides(
            s1.tetris_board@,
            s1.piece(),
            s1.block_position.x as int,
            s1.block_position.y as int,
        ),
        s1.first_free_kick(0) is None,
        s2 == (TetrisBoard {
            block_rotate: ((s1.block_rotate + 3) % 4) as u8,
            ghost_position: s2.landing(),
            ..s1
        }),
    ensures
        s2.block_rotate == s0.block_rotate,
        s2.block_position == s0.block_position,
        s2 == (TetrisBoard { ghost_position: s2.landing(), ..s0 }),
{
}

} // verus!
