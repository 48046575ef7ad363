//! A Tetris game engine: the bordered board, the seven tetrominoes and their
//! rotation, collision tests, gravity, line clearing, the ghost projection,
//! the hold slot and wall kicks.

pub mod block;
pub mod board;
pub mod game;
pub mod laws;
