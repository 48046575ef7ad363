//! The game state: a bordered board, the falling piece, the lookahead queue,
//! the hold slot, and the rules that move pieces and clear lines.

use vstd::prelude::*;

verus! {

use crate::block::tetris_blocks::{NONE, WALL};
use crate::block::{
    BlockColor, BlockShape, Rotate, TetrisBlocks, ghost_grid, ghost_shape, grid_of, kind_grid,
    rotate_grid,
};
use crate::board::{
    cell_hits, cell_index, cleared, cleared_upto, collides, initial_cell, is_initial_board,
    landing_row, last_clearable_row, lemma_boards_equal, lemma_cell_coords, lemma_dimensions,
    lemma_landing_bounds,
    lines_cleared, on_board, placed, row_full, shifted,
};

/// Columns of the playable region.
pub const BASE_WIDTH: usize = 10;

/// Rows of the playable region.
pub const BASE_HEIGHT: usize = 20;

/// Margin around the playable region. The innermost margin column on either
/// side and the first margin row below are walls; there is no top border.
pub const EDGE_WIDTH: usize = 3;

/// Columns of the whole board.
pub const TETRIS_WIDTH: usize = BASE_WIDTH + EDGE_WIDTH * 2;

/// Rows of the whole board.
pub const TETRIS_HEIGHT: usize = BASE_HEIGHT + EDGE_WIDTH;

/// Cells of the whole board.
#[verifier::nonlinear]
pub const BOARDSIZE: usize = TETRIS_HEIGHT * TETRIS_WIDTH;

/// Milliseconds between two gravity steps.
pub const DELTA: u64 = 1000;

/// Score for one cleared line; `n` lines cleared at once score `n * n` times
/// this.
pub const LINE_BASE_SCORE: i32 = 100;

/// The board, row after row: the cell in column `x` of row `y` is at
/// `y * TETRIS_WIDTH + x`; row 0 is the top.
pub type Field = [BlockColor; BOARDSIZE];

/// A cell of the board: the top-left corner of a piece's 4x4 box.
#[derive(Clone, Copy, PartialEq, Eq, Structural, Debug)]
pub struct Position {
    pub x: usize,
    pub y: usize,
}

impl Position {
    /// Where a new piece appears.
    pub fn init() -> (p: Self)
        ensures
            p.x == 4,
            p.y == 0,
    {
        Position { x: 4, y: 0 }
    }
}

/// The whole state of one game.
#[derive(Clone, Copy, Debug)]
pub struct TetrisBoard {
    /// The cells, with the pieces fixed so far.
    pub tetris_board: Field,
    pub score: i32,
    /// How many pieces have been brought in after the first.
    pub block_placed: i32,
    /// Quarter turns of the falling piece, counter-clockwise, in `0..4`.
    pub block_rotate: u8,
    /// Kind of the falling piece.
    pub block_now_shape: TetrisBlocks,
    /// The kinds that come next, first to come first.
    pub block_next_three: [TetrisBlocks; 3],
    /// Top-left corner of the falling piece's box.
    pub block_position: Position,
    /// Where the falling piece would come to rest.
    pub ghost_position: Position,
    /// Kind in the hold slot; `NONE` when the slot is empty.
    pub block_hold: TetrisBlocks,
    /// Rotation of the held piece.
    pub hold_rotate: u8,
}

/// Score for clearing `n` lines at once.
pub open spec fn line_score(n: nat) -> int {
    n * n * LINE_BASE_SCORE
}

/// The cells of a kind turned by `rotate` quarter turns.
pub open spec fn piece_grid(kind: TetrisBlocks, rotate: u8) -> Seq<Seq<usize>> {
    rotate_grid(kind_grid(kind), rotate as int)
}

/// Where a kind turned by `rotate` comes to rest when dropped from `pos`.
pub open spec fn ghost_of(board: Seq<BlockColor>, kind: TetrisBlocks, rotate: u8, pos: Position) -> Position {
    Position {
        x: pos.x,
        y: landing_row(board, piece_grid(kind, rotate), pos.x as int, pos.y as int) as usize,
    }
}

/// Whether `shape` with its top-left corner at `pos` overlaps an occupied cell
/// of `board`.
#[verifier::spinoff_prover]
fn shape_collides(board: &Field, shape: &BlockShape, pos: &Position) -> (r: bool)
    ensures
        r == collides(board@, grid_of(*shape), pos.x as int, pos.y as int),
{
    let ghost g = grid_of(*shape);
    for y in 0..4
        invariant
            g == grid_of(*shape),
            forall|dx: int, dy: int|
                0 <= dy < y ==> !cell_hits(board@, g, pos.x as int, pos.y as int, dx, dy),
    {
        for x in 0..4
            invariant
                0 <= y < 4,
                g == grid_of(*shape),
                forall|dx: int, dy: int|
                    0 <= dy < y ==> !cell_hits(board@, g, pos.x as int, pos.y as int, dx, dy),
                forall|dx: int|
                    0 <= dx < x ==> !cell_hits(board@, g, pos.x as int, pos.y as int, dx, y as int),
        {
            if pos.y < TETRIS_HEIGHT - y && pos.x < TETRIS_WIDTH - x {
                if board[board_index(x + pos.x, y + pos.y)] != NONE && shape[y][x] != NONE {
                    assert(cell_hits(board@, g, pos.x as int, pos.y as int, x as int, y as int));
                    return true;
                }
            }
        }
    }
    false
}

impl TetrisBoard {
    /// The cells of the falling piece in its current orientation.
    pub open spec fn piece(&self) -> Seq<Seq<usize>> {
        piece_grid(self.block_now_shape, self.block_rotate)
    }

    /// Where the falling piece comes to rest if dropped straight down.
    pub open spec fn landing(&self) -> Position {
        ghost_of(self.tetris_board@, self.block_now_shape, self.block_rotate, self.block_position)
    }

    /// The score and the count of placed blocks leave room for one more
    /// locked piece and the largest line clear.
    pub open spec fn can_lock(&self) -> bool {
        &&& self.score + line_score(last_clearable_row() as nat) <= i32::MAX
        &&& self.block_placed < i32::MAX
    }

    /// The falling piece can move one row down: the row exists and the piece
    /// does not collide there.
    pub open spec fn can_fall(&self) -> bool {
        &&& self.block_position.y < usize::MAX
        &&& !collides(
            self.tetris_board@,
            self.piece(),
            self.block_position.x as int,
            self.block_position.y + 1,
        )
    }

    /// Some occupied cell of the falling piece lies within the board's
    /// columns, above the bottom border row.
    pub open spec fn above_floor(&self) -> bool {
        exists|dx: int, dy: int|
            0 <= dx < 4 && 0 <= dy < 4 && #[trigger] self.piece()[dy][dx] != NONE
                && self.block_position.x + dx < TETRIS_WIDTH && self.block_position.y + dy
                < TETRIS_HEIGHT - EDGE_WIDTH
    }

    /// The falling piece collides where it stands at the spawn position.
    pub open spec fn spawn_blocked(&self) -> bool {
        collides(self.tetris_board@, self.piece(), 4, 0)
    }

    /// The piece fields of `self` are those of `prev` after the next piece is
    /// brought in: one more block placed, the first kind of the queue falling
    /// unrotated from the spawn position, the queue moved up with `incoming` at
    /// its end, the hold slot kept, and the ghost recomputed.
    pub open spec fn spawn_fields(self, prev: TetrisBoard, incoming: TetrisBlocks) -> bool {
        &&& self.block_placed == prev.block_placed + 1
        &&& self.block_rotate == 0
        &&& self.block_now_shape == prev.block_next_three[0]
        &&& self.block_next_three@ == seq![
            prev.block_next_three[1],
            prev.block_next_three[2],
            incoming,
        ]
        &&& self.block_position == (Position { x: 4, y: 0 })
        &&& self.ghost_position == self.landing()
        &&& self.block_hold == prev.block_hold
        &&& self.hold_rotate == prev.hold_rotate
    }

    /// `self` is `prev` with the next piece brought in, on the same board and
    /// score.
    pub open spec fn spawned_from(self, prev: TetrisBoard, incoming: TetrisBlocks) -> bool {
        &&& self.tetris_board == prev.tetris_board
        &&& self.score == prev.score
        &&& self.spawn_fields(prev, incoming)
    }

    /// `self` is `prev` after its piece locks where it stands: the piece is
    /// fixed into the board, full lines are cleared and scored, and the next
    /// piece is brought in.
    pub open spec fn locked_from(self, prev: TetrisBoard, incoming: TetrisBlocks) -> bool {
        let fixed = placed(
            prev.tetris_board@,
            prev.piece(),
            prev.block_position.x as int,
            prev.block_position.y as int,
        );
        &&& self.tetris_board@ == cleared(fixed)
        &&& self.score == prev.score + line_score(lines_cleared(fixed))
        &&& self.spawn_fields(prev, incoming)
    }

    /// `self` is `prev` after the falling piece and the held one trade places:
    /// kind and rotation swap, the new piece starts at the spawn position, and
    /// the ghost is recomputed.
    pub open spec fn swapped_from(self, prev: TetrisBoard) -> bool {
        &&& self.tetris_board == prev.tetris_board
        &&& self.score == prev.score
        &&& self.block_placed == prev.block_placed
        &&& self.block_now_shape == prev.block_hold
        &&& self.block_rotate == prev.hold_rotate
        &&& self.block_hold == prev.block_now_shape
        &&& self.hold_rotate == prev.block_rotate
        &&& self.block_next_three == prev.block_next_three
        &&& self.block_position == (Position { x: 4, y: 0 })
        &&& self.ghost_position == self.landing()
    }

    /// `self` with the falling piece moved to where it would come to rest.
    pub open spec fn dropped(self) -> TetrisBoard {
        TetrisBoard { block_position: self.landing(), ..self }
    }

    /// The wall-kick candidates, tried in this order when a rotation
    /// collides: up 1, right 1, down 1, left 1, then the same by 2. Moves up
    /// or left stop at 0.
    pub open spec fn kick_candidate(&self, k: int) -> Position {
        let p = self.block_position;
        if k == 0 {
            Position { x: p.x, y: if p.y >= 1 { (p.y - 1) as usize } else { 0 } }
        } else if k == 1 {
            Position { x: (p.x + 1) as usize, y: p.y }
        } else if k == 2 {
            Position { x: p.x, y: (p.y + 1) as usize }
        } else if k == 3 {
            Position { x: if p.x >= 1 { (p.x - 1) as usize } else { 0 }, y: p.y }
        } else if k == 4 {
            Position { x: p.x, y: if p.y >= 2 { (p.y - 2) as usize } else { 0 } }
        } else if k == 5 {
            Position { x: (p.x + 2) as usize, y: p.y }
        } else if k == 6 {
            Position { x: p.x, y: (p.y + 2) as usize }
        } else {
            Position { x: if p.x >= 2 { (p.x - 2) as usize } else { 0 }, y: p.y }
        }
    }

    /// The first wall-kick candidate from the `k`-th on where the falling
    /// piece does not collide, if any.
    pub open spec fn first_free_kick(&self, k: int) -> Option<Position>
        decreases 8 - k,
    {
        if k >= 8 {
            None
        } else if !collides(
            self.tetris_board@,
            self.piece(),
            self.kick_candidate(k).x as int,
            self.kick_candidate(k).y as int,
        ) {
            Some(self.kick_candidate(k))
        } else {
            self.first_free_kick(k + 1)
        }
    }

    /// The piece fields of a new game whose first piece is `current` and
    /// whose queue is `next`.
    pub open spec fn starts_with(self, current: TetrisBlocks, next: [TetrisBlocks; 3]) -> bool {
        &&& is_initial_board(self.tetris_board@)
        &&& self.score == 0
        &&& self.block_placed == 0
        &&& self.block_rotate == 0
        &&& self.block_now_shape == current
        &&& self.block_next_three == next
        &&& self.block_position == (Position { x: 4, y: 0 })
        &&& self.ghost_position == self.landing()
        &&& self.block_hold == TetrisBlocks::NONE
        &&& self.hold_rotate == 0
    }

    /// The board of a new game: empty, with walls on the two border columns
    /// and the bottom border row.
    #[verifier::spinoff_prover]
    pub fn init_board() -> (b: Field)
        ensures
            is_initial_board(b@),
    {
        let mut b: Field = [NONE; BOARDSIZE];
        for y in 0..TETRIS_HEIGHT
            invariant
                forall|xx: int, yy: int|
                    0 <= xx < TETRIS_WIDTH && 0 <= yy < y ==> #[trigger] b@[cell_index(xx, yy)]
                        == initial_cell(xx, yy),
        {
            for x in 0..TETRIS_WIDTH
                invariant
                    0 <= y < TETRIS_HEIGHT,
                    forall|xx: int, yy: int|
                        0 <= xx < TETRIS_WIDTH && 0 <= yy < y ==> #[trigger] b@[cell_index(xx, yy)]
                            == initial_cell(xx, yy),
                    forall|xx: int|
                        0 <= xx < x ==> #[trigger] b@[cell_index(xx, y as int)] == initial_cell(
                            xx,
                            y as int,
                        ),
            {
                let i = board_index(x, y);
                if x == EDGE_WIDTH - 1 || x == TETRIS_WIDTH - EDGE_WIDTH || y == TETRIS_HEIGHT
                    - EDGE_WIDTH {
                    b[i] = WALL;
                } else {
                    b[i] = NONE;
                }
            }
        }
        b
    }

    /// Whether the falling piece, moved to `pos`, would overlap an occupied
    /// cell. Cells of the piece that fall off the board never collide.
    pub fn is_collision(&self, pos: &Position) -> (r: bool)
        ensures
            r == collides(self.tetris_board@, self.piece(), pos.x as int, pos.y as int),
    {
        let b: BlockShape = shape_cells_rotated(self.block_now_shape, self.block_rotate);
        shape_collides(&self.tetris_board, &b, pos)
    }

    /// Where a piece of kind `blks`, turned by `rotate`, comes to rest on
    /// `board` when dropped straight down from `pos`.
    pub fn calc_init_ghost(board: Field, rotate: u8, pos: Position, blks: TetrisBlocks) -> (g:
        Position)
        ensures
            g == ghost_of(board@, blks, rotate, pos),
    {
        let shape: BlockShape = shape_cells_rotated(blks, rotate);
        let ghost gr = piece_grid(blks, rotate);
        let mut y: usize = pos.y;
        loop
            invariant
                grid_of(shape) == gr,
                pos.y <= y,
                landing_row(board@, gr, pos.x as int, y as int) == landing_row(
                    board@,
                    gr,
                    pos.x as int,
                    pos.y as int,
                ),
            ensures
                y == landing_row(board@, gr, pos.x as int, pos.y as int),
            decreases TETRIS_HEIGHT - y,
        {
            if y >= TETRIS_HEIGHT - 1 {
                break;
            }
            let below = Position { x: pos.x, y: y + 1 };
            if shape_collides(&board, &shape, &below) {
                break;
            }
            y = y + 1;
        }
        Position { x: pos.x, y }
    }

    /// Recomputes the ghost: where the falling piece would come to rest.
    pub fn ghost_pos(&mut self)
        ensures
            *final(self) == (TetrisBoard { ghost_position: old(self).landing(), ..*old(self) }),
    {
        self.ghost_position =
        Self::calc_init_ghost(
            self.tetris_board,
            self.block_rotate,
            self.block_position,
            self.block_now_shape,
        );
    }

    /// Turns the falling piece a quarter turn counter-clockwise.
    pub fn rotate(&mut self)
        ensures
            *final(self) == (TetrisBoard {
                block_rotate: ((old(self).block_rotate + 1) % 4) as u8,
                ..*old(self)
            }),
    {
        self.block_rotate = (self.block_rotate % 4 + 1) % 4;
    }

    /// Undoes one `rotate`: a quarter turn clockwise.
    pub fn rotate_undo(&mut self)
        ensures
            *final(self) == (TetrisBoard {
                block_rotate: ((old(self).block_rotate + 3) % 4) as u8,
                ..*old(self)
            }),
    {
        self.block_rotate = (self.block_rotate % 4 + 3) % 4;
    }

    /// Fixes the falling piece into the board at its position; cells of the
    /// piece that fall off the board are dropped.
    pub fn block_fixing(&mut self)
        ensures
            final(self).tetris_board@ == placed(
                old(self).tetris_board@,
                old(self).piece(),
                old(self).block_position.x as int,
                old(self).block_position.y as int,
            ),
            *final(self) == (TetrisBoard { tetris_board: final(self).tetris_board, ..*old(self) }),
    {
        let b: BlockShape = shape_cells_rotated(self.block_now_shape, self.block_rotate);
        let pos = self.block_position;
        place_shape(&mut self.tetris_board, &b, &pos);
    }

    /// Whether every playable cell of row `y` is occupied.
    #[verifier::spinoff_prover]
    pub fn is_row_full(&self, y: usize) -> (r: bool)
        requires
            y < TETRIS_HEIGHT,
        ensures
            r == row_full(self.tetris_board@, y as int),
    {
        for x in EDGE_WIDTH..TETRIS_WIDTH - EDGE_WIDTH
            invariant
                y < TETRIS_HEIGHT,
                forall|xx: int|
                    EDGE_WIDTH <= xx < x ==> #[trigger] self.tetris_board@[cell_index(xx, y as int)]
                        != NONE,
        {
            if self.tetris_board[board_index(x, y)] == NONE {
                assert(self.tetris_board@[cell_index(x as int, y as int)] == NONE);
                return false;
            }
        }
        true
    }

    /// Removes row `row`: every row from 1 to `row` takes what the row above
    /// it held. Row 0 keeps its cells.
    #[verifier::spinoff_prover]
    pub fn clear_row_and_shift(&mut self, row: usize)
        requires
            row < TETRIS_HEIGHT,
        ensures
            final(self).tetris_board@ == shifted(old(self).tetris_board@, row as int),
            *final(self) == (TetrisBoard { tetris_board: final(self).tetris_board, ..*old(self) }),
    {
        let ghost b0 = self.tetris_board@;
        proof {
            lemma_dimensions();
        }
        assert((row + 1) * TETRIS_WIDTH == 16 * row + 16) by (nonlinear_arith)
            requires
                TETRIS_WIDTH == 16,
        ;
        let end: usize = (row + 1) * TETRIS_WIDTH;
        let mut i: usize = end;
        while i > TETRIS_WIDTH
            invariant
                row < TETRIS_HEIGHT,
                end == 16 * row + 16,
                TETRIS_WIDTH <= i <= end,
                b0 == old(self).tetris_board@,
                *self == (TetrisBoard { tetris_board: self.tetris_board, ..*old(self) }),
                forall|j: int| i <= j < end ==> #[trigger] self.tetris_board@[j] == b0[j - TETRIS_WIDTH],
                forall|j: int|
                    0 <= j < i || end <= j < BOARDSIZE ==> #[trigger] self.tetris_board@[j] == b0[j],
            decreases i,
        {
            proof {
                lemma_dimensions();
            }
            i -= 1;
            self.tetris_board[i] = self.tetris_board[i - TETRIS_WIDTH];
        }
        assert forall|cx: int, cy: int| on_board(cx, cy) implies #[trigger] self.tetris_board@[cell_index(cx, cy)]
            == shifted(b0, row as int)[cell_index(cx, cy)] by {
            lemma_dimensions();
            lemma_cell_coords(cx, cy);
        }
        proof {
            lemma_boards_equal(self.tetris_board@, shifted(b0, row as int));
        }
    }

    /// Clears every full line, examining the rows from the top, and adds
    /// `n * n * LINE_BASE_SCORE` to the score for the `n` lines cleared.
    #[verifier::spinoff_prover]
    pub fn erase_lines(&mut self)
        requires
            old(self).score + line_score(last_clearable_row() as nat) <= i32::MAX,
        ensures
            final(self).tetris_board@ == cleared(old(self).tetris_board@),
            final(self).score == old(self).score + line_score(lines_cleared(old(self).tetris_board@)),
            *final(self) == (TetrisBoard {
                tetris_board: final(self).tetris_board,
                score: final(self).score,
                ..*old(self)
            }),
    {
        let mut erase_lines: i32 = 0;
        for y in 1..TETRIS_HEIGHT - EDGE_WIDTH
            invariant
                self.tetris_board@ == cleared_upto(old(self).tetris_board@, y as int).0,
                erase_lines == cleared_upto(old(self).tetris_board@, y as int).1,
                0 <= erase_lines <= y - 1,
                *self == (TetrisBoard { tetris_board: self.tetris_board, ..*old(self) }),
                old(self).score + line_score(last_clearable_row() as nat) <= i32::MAX,
        {
            if self.is_row_full(y) {
                erase_lines += 1;
                self.clear_row_and_shift(y);
            }
        }
        assert(last_clearable_row() == 19);
        assert(line_score(19) == 36100) by (nonlinear_arith);
        assert(erase_lines * erase_lines <= 361) by (nonlinear_arith)
            requires
                0 <= erase_lines <= 19,
        ;
        self.add_score(erase_lines * erase_lines * LINE_BASE_SCORE);
    }

    /// Adds `pts` to the score.
    pub fn add_score(&mut self, pts: i32)
        requires
            i32::MIN <= old(self).score + pts <= i32::MAX,
        ensures
            *final(self) == (TetrisBoard { score: (old(self).score + pts) as i32, ..*old(self) }),
    {
        self.score += pts;
    }

    /// Whether the score and the count of placed blocks leave room for one
    /// more locked piece and the largest line clear.
    pub fn room_to_lock(&self) -> (r: bool)
        ensures
            r == self.can_lock(),
    {
        let rows: i32 = (TETRIS_HEIGHT - EDGE_WIDTH - 1) as i32;
        assert(rows * rows * LINE_BASE_SCORE == line_score(last_clearable_row() as nat))
            by (nonlinear_arith)
            requires
                rows == 19,
                last_clearable_row() == 19,
                LINE_BASE_SCORE == 100,
        ;
        let most: i32 = rows * rows * LINE_BASE_SCORE;
        self.score <= i32::MAX - most && self.block_placed < i32::MAX
    }

    /// Brings in the next piece: counts the block placed, takes the first kind
    /// of the queue as the falling piece, unrotated at the spawn position,
    /// moves the queue up with `incoming` at its end and recomputes the ghost.
    /// Fails when the new piece collides where it spawns: the game is over.
    pub fn next_block_with(&mut self, incoming: TetrisBlocks) -> (r: Result<(), ()>)
        requires
            old(self).block_placed < i32::MAX,
        ensures
            final(self).spawned_from(*old(self), incoming),
            r.is_err() == final(self).spawn_blocked(),
    {
        self.block_placed += 1;
        self.block_rotate = 0;
        self.block_position = Position::init();
        self.block_now_shape = self.block_next_three[0];
        self.block_next_three = [self.block_next_three[1], self.block_next_three[2], incoming];
        self.ghost_pos();
        let pos = self.block_position;
        if self.is_collision(&pos) {
            Err(())
        } else {
            Ok(())
        }
    }

    /// `next_block_with` a kind drawn at random.
    pub fn next_block(&mut self) -> (r: Result<(), ()>)
        requires
            old(self).block_placed < i32::MAX,
        ensures
            final(self).block_next_three[2].is_piece(),
            final(self).spawned_from(*old(self), final(self).block_next_three[2]),
            r.is_err() == final(self).spawn_blocked(),
    {
        let incoming = TetrisBlocks::random();
        self.next_block_with(incoming)
    }

    /// Puts the falling piece aside. With the hold slot empty, the piece and
    /// its rotation go there and the next piece is brought in as by
    /// `next_block_with`. Otherwise the falling piece and the held one trade
    /// places, kind and rotation, and the new piece starts at the spawn
    /// position. Fails when the new piece collides where it spawns.
    pub fn hold_block_with(&mut self, incoming: TetrisBlocks) -> (r: Result<(), ()>)
        requires
            old(self).block_hold == TetrisBlocks::NONE ==> old(self).block_placed < i32::MAX,
        ensures
            old(self).block_hold != TetrisBlocks::NONE ==> final(self).swapped_from(*old(self)),
            old(self).block_hold == TetrisBlocks::NONE ==> final(self).spawned_from(
                (TetrisBoard {
                    block_hold: old(self).block_now_shape,
                    hold_rotate: old(self).block_rotate,
                    ..*old(self)
                }),
                incoming,
            ),
            r.is_err() == final(self).spawn_blocked(),
    {
        if self.block_hold != TetrisBlocks::NONE {
            let held_block = self.block_hold;
            let held_rotate = self.hold_rotate;
            self.block_hold = self.block_now_shape;
            self.hold_rotate = self.block_rotate;
            self.block_now_shape = held_block;
            self.block_rotate = held_rotate;
            self.block_position = Position::init();
            self.ghost_pos();
            let pos = self.block_position;
            if self.is_collision(&pos) {
                Err(())
            } else {
                Ok(())
            }
        } else {
            self.block_hold = self.block_now_shape;
            self.hold_rotate = self.block_rotate;
            self.next_block_with(incoming)
        }
    }

    /// `hold_block_with` a kind drawn at random, used only when the hold
    /// slot is empty.
    pub fn hold_block(&mut self) -> (r: Result<(), ()>)
        requires
            old(self).block_hold == TetrisBlocks::NONE ==> old(self).block_placed < i32::MAX,
        ensures
            old(self).block_hold != TetrisBlocks::NONE ==> final(self).swapped_from(*old(self)),
            old(self).block_hold == TetrisBlocks::NONE ==> final(self).block_next_three[2].is_piece(),
            old(self).block_hold == TetrisBlocks::NONE ==> final(self).spawned_from(
                (TetrisBoard {
                    block_hold: old(self).block_now_shape,
                    hold_rotate: old(self).block_rotate,
                    ..*old(self)
                }),
                final(self).block_next_three[2],
            ),
            r.is_err() == final(self).spawn_blocked(),
    {
        let incoming = TetrisBlocks::random();
        self.hold_block_with(incoming)
    }

    /// Locks the falling piece where it stands: fixes it, clears full lines
    /// and brings in the next piece.
    fn lock_piece_with(&mut self, incoming: TetrisBlocks) -> (r: Result<(), ()>)
        requires
            old(self).can_lock(),
        ensures
            final(self).locked_from(*old(self), incoming),
            r.is_err() == final(self).spawn_blocked(),
    {
        self.block_fixing();
        self.erase_lines();
        self.next_block_with(incoming)
    }

    /// One gravity step: the falling piece moves one row down if it can;
    /// otherwise it locks, full lines are cleared and scored, and the next
    /// piece, with `incoming` joining the queue, is brought in. Fails when
    /// that piece collides where it spawns: the game is over.
    pub fn tick_with(&mut self, incoming: TetrisBlocks) -> (r: Result<(), ()>)
        requires
            old(self).can_fall() || old(self).can_lock(),
        ensures
            old(self).can_fall() ==> r.is_ok() && *final(self) == (TetrisBoard {
                block_position: Position {
                    x: old(self).block_position.x,
                    y: (old(self).block_position.y + 1) as usize,
                },
                ghost_position: final(self).landing(),
                ..*old(self)
            }),
            !old(self).can_fall() ==> final(self).locked_from(*old(self), incoming) && r.is_err()
                == final(self).spawn_blocked(),
    {
        if self.block_position.y < usize::MAX {
            let below = Position { x: self.block_position.x, y: self.block_position.y + 1 };
            if !self.is_collision(&below) {
                self.block_position = below;
                self.ghost_pos();
                return Ok(());
            }
        }
        self.lock_piece_with(incoming)
    }

    /// `tick_with` a kind drawn at random, used only when the piece locks.
    pub fn tick(&mut self) -> (r: Result<(), ()>)
        requires
            old(self).can_fall() || old(self).can_lock(),
        ensures
            old(self).can_fall() ==> r.is_ok() && *final(self) == (TetrisBoard {
                block_position: Position {
                    x: old(self).block_position.x,
                    y: (old(self).block_position.y + 1) as usize,
                },
                ghost_position: final(self).landing(),
                ..*old(self)
            }),
            !old(self).can_fall() ==> final(self).block_next_three[2].is_piece(),
            !old(self).can_fall() ==> final(self).locked_from(
                *old(self),
                final(self).block_next_three[2],
            ) && r.is_err() == final(self).spawn_blocked(),
    {
        let incoming = TetrisBlocks::random();
        self.tick_with(incoming)
    }

    /// Drops the falling piece straight down to where it comes to rest and
    /// locks it there, as a gravity step would.
    pub fn hard_drop_with(&mut self, incoming: TetrisBlocks) -> (r: Result<(), ()>)
        requires
            old(self).can_lock(),
        ensures
            final(self).locked_from(old(self).dropped(), incoming),
            r.is_err() == final(self).spawn_blocked(),
    {
        self.block_position =
        Self::calc_init_ghost(
            self.tetris_board,
            self.block_rotate,
            self.block_position,
            self.block_now_shape,
        );
        self.lock_piece_with(incoming)
    }

    /// `hard_drop_with` a kind drawn at random.
    pub fn hard_drop(&mut self) -> (r: Result<(), ()>)
        requires
            old(self).can_lock(),
        ensures
            final(self).block_next_three[2].is_piece(),
            final(self).locked_from(old(self).dropped(), final(self).block_next_three[2]),
            r.is_err() == final(self).spawn_blocked(),
    {
        let incoming = TetrisBlocks::random();
        self.hard_drop_with(incoming)
    }

    /// The first wall-kick candidate where the falling piece, in its current
    /// orientation, does not collide: up 1, right 1, down 1, left 1, then
    /// the same by 2, moves up or left stopping at 0. Fails when all collide.
    pub fn super_rotation(&self) -> (r: Result<Position, ()>)
        requires
            self.block_position.x <= usize::MAX - 2,
            self.block_position.y <= usize::MAX - 2,
        ensures
            r == (match self.first_free_kick(0) {
                Some(p) => Ok(p),
                None => Err(()),
            }),
    {
        let pos = self.block_position;
        let diff_pos: [Position; 8] = [
            Position { x: pos.x, y: pos.y.saturating_sub(1) },
            Position { x: pos.x + 1, y: pos.y },
            Position { x: pos.x, y: pos.y + 1 },
            Position { x: pos.x.saturating_sub(1), y: pos.y },
            Position { x: pos.x, y: pos.y.saturating_sub(2) },
            Position { x: pos.x + 2, y: pos.y },
            Position { x: pos.x, y: pos.y + 2 },
            Position { x: pos.x.saturating_sub(2), y: pos.y },
        ];
        assert(forall|j: int| 0 <= j < 8 ==> diff_pos@[j] == self.kick_candidate(j));
        for k in 0..8
            invariant
                forall|j: int| 0 <= j < 8 ==> diff_pos@[j] == self.kick_candidate(j),
                self.first_free_kick(k as int) == self.first_free_kick(0),
        {
            let candidate = diff_pos[k];
            if !self.is_collision(&candidate) {
                return Ok(candidate);
            }
        }
        Err(())
    }

    /// Settles a rotation just made by `rotate`: where the piece collides in
    /// its new orientation, it moves to the first free wall-kick candidate
    /// (see `super_rotation`), and with none the rotation is undone. The
    /// ghost is recomputed.
    pub fn check_rotate(&mut self)
        requires
            old(self).block_position.x <= usize::MAX - 2,
            old(self).block_position.y <= usize::MAX - 2,
        ensures
            !collides(
                old(self).tetris_board@,
                old(self).piece(),
                old(self).block_position.x as int,
                old(self).block_position.y as int,
            ) ==> *final(self) == (TetrisBoard {
                ghost_position: final(self).landing(),
                ..*old(self)
            }),
            collides(
                old(self).tetris_board@,
                old(self).piece(),
                old(self).block_position.x as int,
                old(self).block_position.y as int,
            ) ==> (old(self).first_free_kick(0) matches Some(p) ==> *final(self) == (TetrisBoard {
                block_position: p,
                ghost_position: final(self).landing(),
                ..*old(self)
            })),
            collides(
                old(self).tetris_board@,
                old(self).piece(),
                old(self).block_position.x as int,
                old(self).block_position.y as int,
            ) ==> (old(self).first_free_kick(0) is None ==> *final(self) == (TetrisBoard {
                block_rotate: ((old(self).block_rotate + 3) % 4) as u8,
                ghost_position: final(self).landing(),
                ..*old(self)
            })),
    {
        let pos = self.block_position;
        if self.is_collision(&pos) {
            match self.super_rotation() {
                Ok(p) => {
                    self.block_position = p;
                },
                Err(()) => {
                    self.rotate_undo();
                },
            }
        }
        self.ghost_pos();
    }

    /// Moves the falling piece `n` columns left, unless that leaves the board
    /// or collides; recomputes the ghost.
    pub fn move_left(&mut self, n: usize)
        ensures
            final(self).block_position == (if n <= old(self).block_position.x && !collides(
                old(self).tetris_board@,
                old(self).piece(),
                old(self).block_position.x - n,
                old(self).block_position.y as int,
            ) {
                Position { x: (old(self).block_position.x - n) as usize, y: old(self).block_position.y }
            } else {
                old(self).block_position
            }),
            *final(self) == (TetrisBoard {
                block_position: final(self).block_position,
                ghost_position: final(self).landing(),
                ..*old(self)
            }),
    {
        if n <= self.block_position.x {
            let p = Position { x: self.block_position.x - n, y: self.block_position.y };
            if !self.is_collision(&p) {
                self.block_position = p;
            }
        }
        self.ghost_pos();
    }

    /// Moves the falling piece `n` columns right, unless it collides there;
    /// recomputes the ghost.
    pub fn move_right(&mut self, n: usize)
        ensures
            final(self).block_position == (if n <= usize::MAX - old(self).block_position.x
                && !collides(
                old(self).tetris_board@,
                old(self).piece(),
                old(self).block_position.x + n,
                old(self).block_position.y as int,
            ) {
                Position { x: (old(self).block_position.x + n) as usize, y: old(self).block_position.y }
            } else {
                old(self).block_position
            }),
            *final(self) == (TetrisBoard {
                block_position: final(self).block_position,
                ghost_position: final(self).landing(),
                ..*old(self)
            }),
    {
        if n <= usize::MAX - self.block_position.x {
            let p = Position { x: self.block_position.x + n, y: self.block_position.y };
            if !self.is_collision(&p) {
                self.block_position = p;
            }
        }
        self.ghost_pos();
    }

    /// Moves the falling piece `n` rows down, unless it collides there;
    /// recomputes the ghost.
    pub fn move_down(&mut self, n: usize)
        ensures
            final(self).block_position == (if n <= usize::MAX - old(self).block_position.y
                && !collides(
                old(self).tetris_board@,
                old(self).piece(),
                old(self).block_position.x as int,
                old(self).block_position.y + n,
            ) {
                Position { x: old(self).block_position.x, y: (old(self).block_position.y + n) as usize }
            } else {
                old(self).block_position
            }),
            *final(self) == (TetrisBoard {
                block_position: final(self).block_position,
                ghost_position: final(self).landing(),
                ..*old(self)
            }),
    {
        if n <= usize::MAX - self.block_position.y {
            let p = Position { x: self.block_position.x, y: self.block_position.y + n };
            if !self.is_collision(&p) {
                self.block_position = p;
            }
        }
        self.ghost_pos();
    }

    /// A new game whose first piece is `current` and whose queue is `next`.
    pub fn with_blocks(current: TetrisBlocks, next: [TetrisBlocks; 3]) -> (b: TetrisBoard)
        ensures
            b.starts_with(current, next),
    {
        let board = Self::init_board();
        let rotate: u8 = 0;
        let pos = Position::init();
        TetrisBoard {
            tetris_board: board,
            score: 0,
            block_placed: 0,
            block_rotate: rotate,
            block_now_shape: current,
            block_next_three: next,
            block_position: pos,
            ghost_position: Self::calc_init_ghost(board, rotate, pos, current),
            block_hold: TetrisBlocks::NONE,
            hold_rotate: 0,
        }
    }

    /// A new game with the first piece and the queue drawn at random.
    pub fn new() -> (b: TetrisBoard)
        ensures
            b.starts_with(b.block_now_shape, b.block_next_three),
            b.block_now_shape.is_piece(),
            forall|i: int| 0 <= i < 3 ==> (#[trigger] b.block_next_three[i]).is_piece(),
    {
        let first = TetrisBlocks::random();
        let mut next: [TetrisBlocks; 3] = [TetrisBlocks::I; 3];
        for i in 0..3
            invariant
                forall|j: int| 0 <= j < 3 ==> (#[trigger] next[j]).is_piece(),
        {
            next[i] = TetrisBlocks::random();
        }
        Self::with_blocks(first, next)
    }

    /// The board as drawn: the cells of the ghost marked `GHOST`, and the
    /// falling piece over them.
    pub fn frame(&self) -> (f: Field)
        ensures
            f@ == placed(
                placed(
                    self.tetris_board@,
                    ghost_grid(self.piece()),
                    self.ghost_position.x as int,
                    self.ghost_position.y as int,
                ),
                self.piece(),
                self.block_position.x as int,
                self.block_position.y as int,
            ),
    {
        let shape: BlockShape = shape_cells_rotated(self.block_now_shape, self.block_rotate);
        let outline: BlockShape = ghost_shape(&shape);
        let mut f: Field = self.tetris_board;
        place_shape(&mut f, &outline, &self.ghost_position);
        place_shape(&mut f, &shape, &self.block_position);
        f
    }
}

/// Index in a `Field` of the cell in column `x` of row `y`.
fn board_index(x: usize, y: usize) -> (i: usize)
    requires
        x < TETRIS_WIDTH,
        y < TETRIS_HEIGHT,
    ensures
        i == cell_index(x as int, y as int),
        i < BOARDSIZE,
{
    proof {
        lemma_dimensions();
    }
    assert(y * TETRIS_WIDTH <= 22 * 16) by (nonlinear_arith)
        requires
            y < 23,
            TETRIS_WIDTH == 16,
    ;
    y * TETRIS_WIDTH + x
}

/// `placed_cell`, counting only the first `k` cells of the grid in row-major
/// order.
spec fn partly_placed_cell(
    b: Seq<BlockColor>,
    g: Seq<Seq<usize>>,
    px: int,
    py: int,
    k: int,
    x: int,
    y: int,
) -> BlockColor {
    let dx = x - px;
    let dy = y - py;
    if 0 <= dx < 4 && 0 <= dy < 4 && 4 * dy + dx < k && g[dy][dx] != NONE {
        g[dy][dx]
    } else {
        b[cell_index(x, y)]
    }
}

/// Writes the occupied cells of `shape` into `board` with the shape's top-left
/// corner at `pos`, skipping cells that fall off the board.
#[verifier::spinoff_prover]
#[verifier::spinoff_prover]
fn place_shape(board: &mut Field, shape: &BlockShape, pos: &Position)
    ensures
        final(board)@ == placed(old(board)@, grid_of(*shape), pos.x as int, pos.y as int),
{
    let ghost g = grid_of(*shape);
    let ghost b0 = board@;
    let ghost px = pos.x as int;
    let ghost py = pos.y as int;
    for y in 0..4
        invariant
            g == grid_of(*shape),
            b0 == old(board)@,
            px == pos.x,
            py == pos.y,
            forall|cx: int, cy: int|
                on_board(cx, cy) ==> #[trigger] board@[cell_index(cx, cy)] == partly_placed_cell(
                    b0,
                    g,
                    px,
                    py,
                    4 * y as int,
                    cx,
                    cy,
                ),
    {
        for x in 0..4
            invariant
                0 <= y < 4,
                g == grid_of(*shape),
                b0 == old(board)@,
                px == pos.x,
                py == pos.y,
                forall|cx: int, cy: int|
                    on_board(cx, cy) ==> #[trigger] board@[cell_index(cx, cy)]
                        == partly_placed_cell(b0, g, px, py, 4 * y as int + x as int, cx, cy),
        {
            proof {
                lemma_dimensions();
            }
            if shape[y][x] != NONE && pos.y < TETRIS_HEIGHT - y && pos.x < TETRIS_WIDTH - x {
                board[board_index(x + pos.x, y + pos.y)] = shape[y][x];
            }
        }
    }
    assert forall|cx: int, cy: int| on_board(cx, cy) implies #[trigger] board@[cell_index(cx, cy)]
        == placed(b0, g, px, py)[cell_index(cx, cy)] by {
        lemma_cell_coords(cx, cy);
    }
    proof {
        lemma_boards_equal(board@, placed(b0, g, px, py));
    }
}

/// The shape of kind `k` turned by `rotate` quarter turns.
fn shape_cells_rotated(k: TetrisBlocks, rotate: u8) -> (s: BlockShape)
    ensures
        grid_of(s) == piece_grid(k, rotate),
{
    crate::block::shape_cells(k).rotate(rotate)
}

} // verus!
