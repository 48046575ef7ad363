//! The seven tetrominoes, their 4x4 shapes, and rotation of a shape.

pub mod tetris_blocks;

use vstd::prelude::*;

verus! {

use tetris_blocks::{GHOST, I, J, L, NONE, O, S, T, Z};

/// The value held by one board cell (see `tetris_blocks`).
pub type BlockColor = usize;

/// A 4x4 grid of cells, indexed `[row][column]`; a nonzero cell is occupied.
pub type BlockShape = [[usize; 4]; 4];

/// The kinds of block: the seven tetrominoes and three sentinels.
#[derive(Clone, Copy, PartialEq, Eq, Structural, Debug)]
pub enum TetrisBlocks {
    NONE,
    WALL,
    I,
    O,
    S,
    Z,
    T,
    J,
    L,
    GHOST,
}

impl TetrisBlocks {
    /// One of the seven tetrominoes, as opposed to a sentinel.
    pub open spec fn is_piece(self) -> bool {
        !(self is NONE || self is WALL || self is GHOST)
    }

    /// The position of the kind in declaration order.
    pub open spec fn ordinal(self) -> nat {
        match self {
            TetrisBlocks::NONE => 0,
            TetrisBlocks::WALL => 1,
            TetrisBlocks::I => 2,
            TetrisBlocks::O => 3,
            TetrisBlocks::S => 4,
            TetrisBlocks::Z => 5,
            TetrisBlocks::T => 6,
            TetrisBlocks::J => 7,
            TetrisBlocks::L => 8,
            TetrisBlocks::GHOST => 9,
        }
    }

    /// The kind at position `n` in declaration order; numbers past the last
    /// kind give `I`.
    pub fn from_index(n: u8) -> (k: TetrisBlocks)
        ensures
            n <= 9 ==> k.ordinal() == n,
            n > 9 ==> k == TetrisBlocks::I,
    {
        match n {
            0 => TetrisBlocks::NONE,
            1 => TetrisBlocks::WALL,
            2 => TetrisBlocks::I,
            3 => TetrisBlocks::O,
            4 => TetrisBlocks::S,
            5 => TetrisBlocks::Z,
            6 => TetrisBlocks::T,
            7 => TetrisBlocks::J,
            8 => TetrisBlocks::L,
            9 => TetrisBlocks::GHOST,
            _ => TetrisBlocks::I,
        }
    }

    /// A tetromino drawn uniformly at random.
    pub fn random() -> (k: TetrisBlocks)
        ensures
            k.is_piece(),
    {
        let n = random_in(2, 8);
        TetrisBlocks::from_index(n)
    }
}

/// Relies on `rand::thread_rng` and `rand::Rng::gen_range`: a value drawn
/// from the inclusive range `lo..=hi`, which must not be empty.
#[verifier::external_body]
fn random_in(lo: u8, hi: u8) -> (r: u8)
    requires
        lo <= hi,
    ensures
        lo <= r <= hi,
{
    rand::Rng::gen_range(&mut rand::thread_rng(), lo..=hi)
}

/// The cells of a shape as a 4x4 grid of rows.
pub open spec fn grid_of(s: BlockShape) -> Seq<Seq<usize>> {
    Seq::new(4, |y: int| Seq::new(4, |x: int| s[y][x]))
}

/// A grid of four rows of four cells.
pub open spec fn is_grid(g: Seq<Seq<usize>>) -> bool {
    g.len() == 4 && forall|y: int| 0 <= y < 4 ==> #[trigger] g[y].len() == 4
}

/// The cell at row `y`, column `x` of `g` turned counter-clockwise by
/// `quarter` quarter turns (`0 <= quarter < 4`).
pub open spec fn turned_cell(g: Seq<Seq<usize>>, quarter: int, y: int, x: int) -> usize {
    if quarter == 0 {
        g[y][x]
    } else if quarter == 1 {
        g[x][3 - y]
    } else if quarter == 2 {
        g[3 - y][3 - x]
    } else {
        g[3 - x][y]
    }
}

/// `g` turned counter-clockwise by `angle` quarter turns.
pub open spec fn rotate_grid(g: Seq<Seq<usize>>, angle: int) -> Seq<Seq<usize>> {
    Seq::new(4, |y: int| Seq::new(4, |x: int| turned_cell(g, angle % 4, y, x)))
}

/// The unrotated shape of each kind; the sentinels have no cells.
pub open spec fn kind_grid(k: TetrisBlocks) -> Seq<Seq<usize>> {
    match k {
        TetrisBlocks::I => seq![seq![0, 0, 0, 0], seq![0, 0, 0, 0], seq![I, I, I, I], seq![0, 0, 0, 0]],
        TetrisBlocks::O => seq![seq![0, 0, 0, 0], seq![0, O, O, 0], seq![0, O, O, 0], seq![0, 0, 0, 0]],
        TetrisBlocks::S => seq![seq![0, 0, 0, 0], seq![0, S, S, 0], seq![S, S, 0, 0], seq![0, 0, 0, 0]],
        TetrisBlocks::Z => seq![seq![0, 0, 0, 0], seq![Z, Z, 0, 0], seq![0, Z, Z, 0], seq![0, 0, 0, 0]],
        TetrisBlocks::T => seq![seq![0, 0, 0, 0], seq![0, T, 0, 0], seq![T, T, T, 0], seq![0, 0, 0, 0]],
        TetrisBlocks::J => seq![seq![0, 0, 0, 0], seq![J, 0, 0, 0], seq![J, J, J, 0], seq![0, 0, 0, 0]],
        TetrisBlocks::L => seq![seq![0, 0, 0, 0], seq![0, 0, L, 0], seq![L, L, L, 0], seq![0, 0, 0, 0]],
        _ => seq![seq![0, 0, 0, 0], seq![0, 0, 0, 0], seq![0, 0, 0, 0], seq![0, 0, 0, 0]],
    }
}

/// The unrotated shape of a kind.
pub fn shape_cells(k: TetrisBlocks) -> (s: BlockShape)
    ensures
        grid_of(s) == kind_grid(k),
{
    let s: BlockShape = match k {
        TetrisBlocks::I => [[0, 0, 0, 0], [0, 0, 0, 0], [I, I, I, I], [0, 0, 0, 0]],
        TetrisBlocks::O => [[0, 0, 0, 0], [0, O, O, 0], [0, O, O, 0], [0, 0, 0, 0]],
        TetrisBlocks::S => [[0, 0, 0, 0], [0, S, S, 0], [S, S, 0, 0], [0, 0, 0, 0]],
        TetrisBlocks::Z => [[0, 0, 0, 0], [Z, Z, 0, 0], [0, Z, Z, 0], [0, 0, 0, 0]],
        TetrisBlocks::T => [[0, 0, 0, 0], [0, T, 0, 0], [T, T, T, 0], [0, 0, 0, 0]],
        TetrisBlocks::J => [[0, 0, 0, 0], [J, 0, 0, 0], [J, J, J, 0], [0, 0, 0, 0]],
        TetrisBlocks::L => [[0, 0, 0, 0], [0, 0, L, 0], [L, L, L, 0], [0, 0, 0, 0]],
        _ => [[0, 0, 0, 0], [0, 0, 0, 0], [0, 0, 0, 0], [0, 0, 0, 0]],
    };
    assert(grid_of(s) =~~= kind_grid(k));
    s
}

/// `g` with every occupied cell marked `GHOST`.
pub open spec fn ghost_grid(g: Seq<Seq<usize>>) -> Seq<Seq<usize>> {
    Seq::new(4, |y: int| Seq::new(4, |x: int| if g[y][x] != NONE { GHOST } else { NONE }))
}

fn ghost_cell(c: usize) -> (r: usize)
    ensures
        r == if c != NONE { GHOST } else { NONE },
{
    if c != NONE {
        GHOST
    } else {
        NONE
    }
}

fn ghost_row(row: [usize; 4]) -> (r: [usize; 4])
    ensures
        forall|x: int| 0 <= x < 4 ==> #[trigger] r[x] == if row[x] != NONE { GHOST } else { NONE },
{
    [ghost_cell(row[0]), ghost_cell(row[1]), ghost_cell(row[2]), ghost_cell(row[3])]
}

/// `s` with every occupied cell marked `GHOST`: the outline of where a piece
/// will land.
pub fn ghost_shape(s: &BlockShape) -> (r: BlockShape)
    ensures
        grid_of(r) == ghost_grid(grid_of(*s)),
{
    let r: BlockShape = [ghost_row(s[0]), ghost_row(s[1]), ghost_row(s[2]), ghost_row(s[3])];
    assert(grid_of(r) =~~= ghost_grid(grid_of(*s)));
    r
}

/// Rotation of a shape by quarter turns.
pub trait Rotate: Sized {
    /// The value turned counter-clockwise by `rotate_angle` quarter turns.
    fn rotate(&self, rotate_angle: u8) -> Self;
}

impl Rotate for BlockShape {
    fn rotate(&self, rotate_angle: u8) -> (r: BlockShape)
        ensures
            grid_of(r) == rotate_grid(grid_of(*self), rotate_angle as int),
    {
        let s = self;
        let r: BlockShape = match rotate_angle % 4 {
            0 => *s,
            1 => [
                [s[0][3], s[1][3], s[2][3], s[3][3]],
                [s[0][2], s[1][2], s[2][2], s[3][2]],
                [s[0][1], s[1][1], s[2][1], s[3][1]],
                [s[0][0], s[1][0], s[2][0], s[3][0]],
            ],
            2 => [
                [s[3][3], s[3][2], s[3][1], s[3][0]],
                [s[2][3], s[2][2], s[2][1], s[2][0]],
                [s[1][3], s[1][2], s[1][1], s[1][0]],
                [s[0][3], s[0][2], s[0][1], s[0][0]],
            ],
            _ => [
                [s[3][0], s[2][0], s[1][0], s[0][0]],
                [s[3][1], s[2][1], s[1][1], s[0][1]],
                [s[3][2], s[2][2], s[1][2], s[0][2]],
                [s[3][3], s[2][3], s[1][3], s[0][3]],
            ],
        };
        assert(grid_of(r) =~~= rotate_grid(grid_of(*self), rotate_angle as int));
        r
    }
}

/// Four quarter turns bring any grid back to itself.
pub proof fn lemma_four_quarter_turns(g: Seq<Seq<usize>>)
    requires
        is_grid(g),
    ensures
        rotate_grid(rotate_grid(rotate_grid(rotate_grid(g, 1), 1), 1), 1) == g,
{
    let r1 = rotate_grid(g, 1);
    let r2 = rotate_grid(r1, 1);
    let r3 = rotate_grid(r2, 1);
    let r4 = rotate_grid(r3, 1);
    assert(r4 =~~= g);
}

} // verus!
