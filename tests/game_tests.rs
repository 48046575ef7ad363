use tetris::block::tetris_blocks::{GHOST, I, NONE, O, T, WALL};
use tetris::block::TetrisBlocks;
use tetris::game::{
    Field, Position, TetrisBoard, BOARDSIZE, EDGE_WIDTH, LINE_BASE_SCORE, TETRIS_HEIGHT,
    TETRIS_WIDTH,
};

const KINDS: [TetrisBlocks; 7] = [
    TetrisBlocks::I,
    TetrisBlocks::O,
    TetrisBlocks::S,
    TetrisBlocks::Z,
    TetrisBlocks::T,
    TetrisBlocks::J,
    TetrisBlocks::L,
];

fn at(b: &Field, x: usize, y: usize) -> usize {
    b[y * TETRIS_WIDTH + x]
}

fn set(b: &mut Field, x: usize, y: usize, c: usize) {
    b[y * TETRIS_WIDTH + x] = c;
}

/// The ten playable cells of row `y`.
fn row(b: &Field, y: usize) -> Vec<usize> {
    (EDGE_WIDTH..TETRIS_WIDTH - EDGE_WIDTH).map(|x| at(b, x, y)).collect()
}

fn game(current: TetrisBlocks) -> TetrisBoard {
    TetrisBoard::with_blocks(current, [TetrisBlocks::I, TetrisBlocks::O, TetrisBlocks::S])
}

#[test]
fn board_dimensions() {
    assert_eq!(TETRIS_WIDTH, 16);
    assert_eq!(TETRIS_HEIGHT, 23);
    assert_eq!(BOARDSIZE, 368);
}

#[test]
fn init_board_has_walls_on_borders_only() {
    let b = TetrisBoard::init_board();
    for y in 0..TETRIS_HEIGHT {
        for x in 0..TETRIS_WIDTH {
            let border = x == EDGE_WIDTH - 1
                || x == TETRIS_WIDTH - EDGE_WIDTH
                || y == TETRIS_HEIGHT - EDGE_WIDTH;
            assert_eq!(at(&b, x, y), if border { WALL } else { NONE }, "cell {} {}", x, y);
        }
    }
}

#[test]
fn spawn_position_is_free_on_a_new_board() {
    for k in KINDS {
        let mut g = game(k);
        for _ in 0..4 {
            assert!(!g.is_collision(&Position::init()));
            g.rotate();
        }
    }
}

#[test]
fn new_game_starts_clean() {
    let g = TetrisBoard::new();
    assert_eq!(g.tetris_board, TetrisBoard::init_board());
    assert_eq!(g.score, 0);
    assert_eq!(g.block_placed, 0);
    assert_eq!(g.block_rotate, 0);
    assert_eq!(g.block_position, Position { x: 4, y: 0 });
    assert_eq!(g.block_hold, TetrisBlocks::NONE);
    assert!(KINDS.contains(&g.block_now_shape));
    for k in g.block_next_three {
        assert!(KINDS.contains(&k));
    }
}

#[test]
fn position_init_is_spawn() {
    assert_eq!(Position::init(), Position { x: 4, y: 0 });
}

#[test]
fn ghost_of_o_on_empty_board() {
    let g = game(TetrisBlocks::O);
    // The O occupies rows 1 and 2 of its box; the floor is row 20.
    assert_eq!(g.ghost_position, Position { x: 4, y: 17 });
    assert_eq!(
        TetrisBoard::calc_init_ghost(g.tetris_board, 0, Position::init(), TetrisBlocks::O),
        Position { x: 4, y: 17 }
    );
}

#[test]
fn ghost_rests_on_the_stack() {
    for k in KINDS {
        for r in 0..4u8 {
            let mut g = game(k);
            set(&mut g.tetris_board, 6, 12, T);
            g.block_rotate = r;
            g.ghost_pos();
            let gh = g.ghost_position;
            assert_eq!(gh.x, g.block_position.x);
            assert!(gh.y >= g.block_position.y);
            assert!(g.is_collision(&Position { x: gh.x, y: gh.y + 1 }));
            for y in g.block_position.y..=gh.y {
                assert!(!g.is_collision(&Position { x: gh.x, y }));
            }
        }
    }
}

#[test]
fn ghost_pos_keeps_position() {
    let mut g = game(TetrisBlocks::T);
    g.move_down(5);
    let before = g.block_position;
    g.ghost_pos();
    assert_eq!(g.block_position, before);
    assert_eq!(g.ghost_position.y, 17);
}

#[test]
fn is_collision_with_walls() {
    let g = game(TetrisBlocks::I);
    // The I lies in row 2 of its box: at x = 10 it reaches column 13, the wall.
    assert!(g.is_collision(&Position { x: 10, y: 0 }));
    assert!(!g.is_collision(&Position { x: 9, y: 0 }));
    // Column 2 is the left wall.
    assert!(g.is_collision(&Position { x: 0, y: 0 }));
    assert!(!g.is_collision(&Position { x: 3, y: 0 }));
    // Row 20 is the floor.
    assert!(g.is_collision(&Position { x: 4, y: 18 }));
    assert!(!g.is_collision(&Position { x: 4, y: 17 }));
}

#[test]
fn cells_off_the_board_never_collide() {
    let g = game(TetrisBlocks::I);
    assert!(!g.is_collision(&Position { x: 20, y: 0 }));
    assert!(!g.is_collision(&Position { x: 4, y: 40 }));
}

#[test]
fn rotate_and_undo_cycle() {
    let mut g = game(TetrisBlocks::T);
    g.rotate();
    assert_eq!(g.block_rotate, 1);
    g.rotate();
    g.rotate();
    assert_eq!(g.block_rotate, 3);
    g.rotate();
    assert_eq!(g.block_rotate, 0);
    g.rotate_undo();
    assert_eq!(g.block_rotate, 3);
    g.rotate_undo();
    assert_eq!(g.block_rotate, 2);
}

#[test]
fn add_score_accumulates() {
    let mut g = game(TetrisBlocks::T);
    g.add_score(40);
    g.add_score(-15);
    assert_eq!(g.score, 25);
}

#[test]
fn block_fixing_writes_the_piece() {
    let mut g = game(TetrisBlocks::T);
    g.block_position = Position { x: 5, y: 10 };
    g.block_fixing();
    assert_eq!(at(&g.tetris_board, 6, 11), T);
    assert_eq!(at(&g.tetris_board, 5, 12), T);
    assert_eq!(at(&g.tetris_board, 6, 12), T);
    assert_eq!(at(&g.tetris_board, 7, 12), T);
    assert_eq!(at(&g.tetris_board, 5, 11), NONE);
    let count = g.tetris_board.iter().filter(|&&c| c == T).count();
    assert_eq!(count, 4);
}

#[test]
fn block_fixing_drops_cells_off_the_board() {
    let mut g = game(TetrisBlocks::I);
    // Row 2 of the box, columns 14..17: two cells lie past the last column.
    g.block_position = Position { x: 14, y: 0 };
    g.block_fixing();
    assert_eq!(at(&g.tetris_board, 14, 2), I);
    assert_eq!(at(&g.tetris_board, 15, 2), I);
    assert_eq!(at(&g.tetris_board, 0, 3), NONE);
    assert_eq!(at(&g.tetris_board, 1, 3), NONE);
    let count = g.tetris_board.iter().filter(|&&c| c == I).count();
    assert_eq!(count, 2);
}

#[test]
fn is_row_full_checks_playable_cells() {
    let mut g = game(TetrisBlocks::T);
    assert!(!g.is_row_full(19));
    assert!(g.is_row_full(20));
    for x in 3..13 {
        set(&mut g.tetris_board, x, 19, O);
    }
    assert!(g.is_row_full(19));
    set(&mut g.tetris_board, 12, 19, NONE);
    assert!(!g.is_row_full(19));
}

#[test]
fn clear_row_and_shift_moves_rows_down() {
    let mut g = game(TetrisBlocks::T);
    set(&mut g.tetris_board, 5, 0, O);
    set(&mut g.tetris_board, 6, 7, T);
    set(&mut g.tetris_board, 7, 8, I);
    set(&mut g.tetris_board, 8, 9, I);
    g.clear_row_and_shift(8);
    assert_eq!(at(&g.tetris_board, 6, 8), T);
    assert_eq!(at(&g.tetris_board, 6, 7), NONE);
    assert_eq!(at(&g.tetris_board, 7, 8), NONE);
    assert_eq!(at(&g.tetris_board, 8, 9), I);
    // Row 0 keeps its cells and row 1 takes them.
    assert_eq!(at(&g.tetris_board, 5, 0), O);
    assert_eq!(at(&g.tetris_board, 5, 1), O);
    // Walls stay where they are.
    assert_eq!(at(&g.tetris_board, 2, 8), WALL);
    assert_eq!(at(&g.tetris_board, 13, 8), WALL);
}

#[test]
fn erase_lines_scores_quadratically() {
    for n in 0..5usize {
        let mut g = game(TetrisBlocks::T);
        for y in 20 - n..20 {
            for x in 3..13 {
                set(&mut g.tetris_board, x, y, O);
            }
        }
        g.erase_lines();
        assert_eq!(g.score, (n * n) as i32 * LINE_BASE_SCORE);
        assert_eq!(g.tetris_board, TetrisBoard::init_board());
    }
}

#[test]
fn erase_lines_ignores_row_zero() {
    let mut g = game(TetrisBlocks::T);
    for x in 3..13 {
        set(&mut g.tetris_board, x, 0, O);
    }
    let before = g.tetris_board;
    g.erase_lines();
    assert_eq!(g.score, 0);
    assert_eq!(g.tetris_board, before);
}

#[test]
fn erase_lines_keeps_rows_with_a_gap() {
    let mut g = game(TetrisBlocks::T);
    for x in 3..12 {
        set(&mut g.tetris_board, x, 19, O);
    }
    let before = g.tetris_board;
    g.erase_lines();
    assert_eq!(g.score, 0);
    assert_eq!(g.tetris_board, before);
}

#[test]
fn tick_clears_one_line_and_shifts() {
    let mut g = game(TetrisBlocks::I);
    // Row 19 is full but for columns 3..=6; a marker sits on row 18.
    for x in 7..13 {
        set(&mut g.tetris_board, x, 19, O);
    }
    set(&mut g.tetris_board, 9, 18, T);
    g.block_position = Position { x: 3, y: 17 };
    assert_eq!(g.tick_with(TetrisBlocks::Z), Ok(()));
    assert_eq!(g.score, LINE_BASE_SCORE);
    assert_eq!(row(&g.tetris_board, 19), vec![0, 0, 0, 0, 0, 0, T, 0, 0, 0]);
    assert_eq!(row(&g.tetris_board, 18), vec![0; 10]);
    assert_eq!(g.block_placed, 1);
    assert_eq!(g.block_now_shape, TetrisBlocks::I);
    assert_eq!(g.block_next_three, [TetrisBlocks::O, TetrisBlocks::S, TetrisBlocks::Z]);
    assert_eq!(g.block_position, Position::init());
    assert_eq!(g.block_rotate, 0);
}

#[test]
fn tick_clears_four_lines_for_sixteen_times_base() {
    let mut g = game(TetrisBlocks::I);
    for y in 16..20 {
        for x in 4..13 {
            set(&mut g.tetris_board, x, y, O);
        }
    }
    // A vertical I in column 3: column 2 of its box.
    g.block_rotate = 1;
    g.block_position = Position { x: 1, y: 16 };
    assert_eq!(g.tick_with(TetrisBlocks::Z), Ok(()));
    assert_eq!(g.score, LINE_BASE_SCORE * 16);
    assert_eq!(g.tetris_board, TetrisBoard::init_board());
}

#[test]
fn tick_moves_a_free_piece_down() {
    let mut g = game(TetrisBlocks::S);
    let before = g;
    assert_eq!(g.tick_with(TetrisBlocks::Z), Ok(()));
    assert_eq!(g.block_position, Position { x: 4, y: 1 });
    assert_eq!(g.tetris_board, before.tetris_board);
    assert_eq!(g.block_placed, 0);
    assert_eq!(g.block_next_three, before.block_next_three);
    assert_eq!(g.ghost_position, before.ghost_position);
}

#[test]
fn tick_with_random_kind_locks_resting_piece() {
    let mut g = game(TetrisBlocks::O);
    g.block_position = g.ghost_position;
    assert_eq!(g.tick(), Ok(()));
    assert_eq!(g.block_placed, 1);
    assert_eq!(at(&g.tetris_board, 5, 18), O);
    assert_eq!(at(&g.tetris_board, 6, 19), O);
    assert!(KINDS.contains(&g.block_next_three[2]));
}

#[test]
fn spawn_blocked_ends_the_game() {
    let mut g = game(TetrisBlocks::T);
    for x in 3..13 {
        set(&mut g.tetris_board, x, 2, O);
    }
    assert_eq!(g.next_block_with(TetrisBlocks::L), Err(()));
    assert_eq!(g.block_now_shape, TetrisBlocks::I);
    assert_eq!(g.block_next_three, [TetrisBlocks::O, TetrisBlocks::S, TetrisBlocks::L]);
    assert_eq!(g.block_placed, 1);
}

#[test]
fn next_block_shifts_the_queue() {
    let mut g = game(TetrisBlocks::T);
    g.block_rotate = 2;
    g.block_position = Position { x: 7, y: 9 };
    assert_eq!(g.next_block_with(TetrisBlocks::J), Ok(()));
    assert_eq!(g.block_now_shape, TetrisBlocks::I);
    assert_eq!(g.block_next_three, [TetrisBlocks::O, TetrisBlocks::S, TetrisBlocks::J]);
    assert_eq!(g.block_rotate, 0);
    assert_eq!(g.block_position, Position::init());
    assert_eq!(g.ghost_position, Position { x: 4, y: 17 });
    assert_eq!(g.block_placed, 1);
    assert_eq!(g.next_block(), Ok(()));
    assert_eq!(g.block_now_shape, TetrisBlocks::O);
    assert_eq!(g.block_next_three[0], TetrisBlocks::S);
    assert_eq!(g.block_next_three[1], TetrisBlocks::J);
    assert!(KINDS.contains(&g.block_next_three[2]));
}

#[test]
fn hold_then_swap_back() {
    let mut g = game(TetrisBlocks::T);
    g.block_rotate = 1;
    g.block_position = Position { x: 6, y: 5 };
    assert_eq!(g.hold_block_with(TetrisBlocks::Z), Ok(()));
    assert_eq!(g.block_hold, TetrisBlocks::T);
    assert_eq!(g.hold_rotate, 1);
    assert_eq!(g.block_now_shape, TetrisBlocks::I);
    assert_eq!(g.block_rotate, 0);
    assert_eq!(g.block_next_three, [TetrisBlocks::O, TetrisBlocks::S, TetrisBlocks::Z]);
    assert_eq!(g.block_position, Position::init());
    assert_eq!(g.block_placed, 1);

    g.rotate();
    g.block_position = Position { x: 5, y: 3 };
    assert_eq!(g.hold_block_with(TetrisBlocks::L), Ok(()));
    assert_eq!(g.block_now_shape, TetrisBlocks::T);
    assert_eq!(g.block_rotate, 1);
    assert_eq!(g.block_hold, TetrisBlocks::I);
    assert_eq!(g.hold_rotate, 1);
    assert_eq!(g.block_next_three, [TetrisBlocks::O, TetrisBlocks::S, TetrisBlocks::Z]);
    assert_eq!(g.block_position, Position::init());
    assert_eq!(g.block_placed, 1);
    assert_eq!(g.score, 0);
}

#[test]
fn hold_with_random_kind() {
    let mut g = game(TetrisBlocks::T);
    assert_eq!(g.hold_block(), Ok(()));
    assert_eq!(g.block_hold, TetrisBlocks::T);
    assert_eq!(g.block_now_shape, TetrisBlocks::I);
    assert!(KINDS.contains(&g.block_next_three[2]));
    assert_eq!(g.hold_block(), Ok(()));
    assert_eq!(g.block_now_shape, TetrisBlocks::T);
    assert_eq!(g.block_hold, TetrisBlocks::I);
}

#[test]
fn hold_swap_blocked_ends_the_game() {
    let mut g = game(TetrisBlocks::T);
    assert_eq!(g.hold_block_with(TetrisBlocks::Z), Ok(()));
    for x in 3..13 {
        set(&mut g.tetris_board, x, 2, O);
    }
    assert_eq!(g.hold_block_with(TetrisBlocks::L), Err(()));
    assert_eq!(g.block_now_shape, TetrisBlocks::T);
}

#[test]
fn hard_drop_locks_at_the_ghost() {
    let mut g = game(TetrisBlocks::T);
    assert_eq!(g.hard_drop_with(TetrisBlocks::J), Ok(()));
    assert_eq!(row(&g.tetris_board, 19), vec![0, T, T, T, 0, 0, 0, 0, 0, 0]);
    assert_eq!(row(&g.tetris_board, 18), vec![0, 0, T, 0, 0, 0, 0, 0, 0, 0]);
    assert_eq!(g.block_now_shape, TetrisBlocks::I);
    assert_eq!(g.block_next_three, [TetrisBlocks::O, TetrisBlocks::S, TetrisBlocks::J]);
    assert_eq!(g.block_placed, 1);
    assert_eq!(g.score, 0);
}

#[test]
fn hard_drop_with_random_kind() {
    let mut g = game(TetrisBlocks::O);
    assert_eq!(g.hard_drop(), Ok(()));
    assert_eq!(at(&g.tetris_board, 5, 19), O);
    assert!(KINDS.contains(&g.block_next_three[2]));
}

#[test]
fn line_clear_with_o_filling_the_gap() {
    let mut g = TetrisBoard::with_blocks(
        TetrisBlocks::I,
        [TetrisBlocks::I, TetrisBlocks::O, TetrisBlocks::T],
    );
    g.move_left(1);
    assert_eq!(g.hard_drop_with(TetrisBlocks::S), Ok(()));
    g.move_right(3);
    assert_eq!(g.hard_drop_with(TetrisBlocks::S), Ok(()));
    assert_eq!(g.block_now_shape, TetrisBlocks::O);
    assert_eq!(row(&g.tetris_board, 18), vec![0, 0, 0, 0, 0, 0, 0, 0, 0, 0]);
    assert_eq!(row(&g.tetris_board, 19), vec![I, I, I, I, I, I, I, I, 0, 0]);
    g.move_right(6);
    assert_eq!(g.block_position, Position { x: 10, y: 0 });
    assert_eq!(g.hard_drop_with(TetrisBlocks::S), Ok(()));
    assert_eq!(g.score, LINE_BASE_SCORE);
    assert_eq!(row(&g.tetris_board, 17), vec![0, 0, 0, 0, 0, 0, 0, 0, 0, 0]);
    assert_eq!(row(&g.tetris_board, 18), vec![0, 0, 0, 0, 0, 0, 0, 0, 0, 0]);
    assert_eq!(row(&g.tetris_board, 19), vec![0, 0, 0, 0, 0, 0, 0, 0, O, O]);
}

#[test]
fn moves_are_rejected_into_walls() {
    let mut g = game(TetrisBlocks::O);
    g.move_left(2);
    assert_eq!(g.block_position, Position { x: 2, y: 0 });
    g.move_left(1);
    assert_eq!(g.block_position, Position { x: 2, y: 0 });
    g.move_left(5);
    assert_eq!(g.block_position, Position { x: 2, y: 0 });
    g.move_right(8);
    assert_eq!(g.block_position, Position { x: 10, y: 0 });
    g.move_right(1);
    assert_eq!(g.block_position, Position { x: 10, y: 0 });
    g.move_down(17);
    assert_eq!(g.block_position, Position { x: 10, y: 17 });
    g.move_down(1);
    assert_eq!(g.block_position, Position { x: 10, y: 17 });
    assert_eq!(g.ghost_position, Position { x: 10, y: 17 });
}

#[test]
fn move_updates_the_ghost() {
    let mut g = game(TetrisBlocks::O);
    set(&mut g.tetris_board, 8, 10, T);
    g.move_right(3);
    assert_eq!(g.block_position, Position { x: 7, y: 0 });
    assert_eq!(g.ghost_position, Position { x: 7, y: 7 });
}

#[test]
fn wall_kick_moves_left_from_the_right_wall() {
    let mut g = game(TetrisBlocks::I);
    g.rotate();
    g.check_rotate();
    assert_eq!(g.block_rotate, 1);
    g.move_right(6);
    assert_eq!(g.block_position, Position { x: 10, y: 0 });
    // Lying flat in row 1 of the box, the I would reach the wall in column 13.
    g.rotate();
    assert!(g.is_collision(&g.block_position));
    assert_eq!(g.super_rotation(), Ok(Position { x: 9, y: 0 }));
    g.check_rotate();
    assert_eq!(g.block_rotate, 2);
    assert_eq!(g.block_position, Position { x: 9, y: 0 });
    assert_eq!(g.ghost_position, Position { x: 9, y: 18 });
}

#[test]
fn wall_kick_prefers_up_first() {
    let mut g = game(TetrisBlocks::T);
    g.block_position = Position { x: 5, y: 6 };
    // The flat T fills row 2 of its box; block row 8 under its middle.
    set(&mut g.tetris_board, 6, 8, O);
    assert!(g.is_collision(&g.block_position));
    assert_eq!(g.super_rotation(), Ok(Position { x: 5, y: 5 }));
}

#[test]
fn blocked_rotation_is_undone() {
    let mut g = game(TetrisBlocks::I);
    // Every playable cell is filled but for a well in column 7.
    for y in 0..20 {
        for x in 3..13 {
            if x != 7 {
                set(&mut g.tetris_board, x, y, O);
            }
        }
    }
    g.block_rotate = 1;
    g.block_position = Position { x: 5, y: 5 };
    assert!(!g.is_collision(&g.block_position));
    let before = g;
    g.rotate();
    assert_eq!(g.super_rotation(), Err(()));
    g.check_rotate();
    assert_eq!(g.block_rotate, 1);
    assert_eq!(g.block_position, before.block_position);
    assert_eq!(g.tetris_board, before.tetris_board);
}

#[test]
fn free_rotation_stays_in_place() {
    let mut g = game(TetrisBlocks::T);
    g.move_down(4);
    g.rotate();
    g.check_rotate();
    assert_eq!(g.block_rotate, 1);
    assert_eq!(g.block_position, Position { x: 4, y: 4 });
}

#[test]
fn frame_draws_piece_over_ghost() {
    let g = game(TetrisBlocks::O);
    let f = g.frame();
    assert_eq!(at(&f, 5, 1), O);
    assert_eq!(at(&f, 6, 2), O);
    assert_eq!(at(&f, 5, 18), GHOST);
    assert_eq!(at(&f, 6, 19), GHOST);
    assert_eq!(at(&f, 4, 19), NONE);
    assert_eq!(at(&f, 2, 5), WALL);
    assert_eq!(g.tetris_board, TetrisBoard::init_board());
}

#[test]
fn frame_of_resting_piece_shows_the_piece() {
    let mut g = game(TetrisBlocks::O);
    g.move_down(17);
    let f = g.frame();
    assert_eq!(at(&f, 5, 18), O);
    assert_eq!(at(&f, 6, 19), O);
    assert_eq!(f.iter().filter(|&&c| c == GHOST).count(), 0);
}

#[test]
fn tick_reports_game_over_when_spawn_is_blocked() {
    let mut g = game(TetrisBlocks::O);
    // The I that spawns next lies in row 2, columns 4 to 7.
    set(&mut g.tetris_board, 5, 2, T);
    g.block_position = g.ghost_position;
    assert_eq!(g.tick_with(TetrisBlocks::Z), Err(()));
    assert_eq!(at(&g.tetris_board, 5, 18), O);
    assert_eq!(at(&g.tetris_board, 6, 19), O);
    assert_eq!(g.block_now_shape, TetrisBlocks::I);
    assert!(g.is_collision(&g.block_position));
}
