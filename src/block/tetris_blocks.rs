//! The value stored in a board cell for each kind of block.

use vstd::prelude::*;

verus! {

use super::BlockColor;

pub const NONE: BlockColor = 0;

pub const WALL: BlockColor = 1;

pub const I: BlockColor = 2;

pub const O: BlockColor = 3;

pub const S: BlockColor = 4;

pub const Z: BlockColor = 5;

pub const J: BlockColor = 6;

pub const L: BlockColor = 7;

pub const T: BlockColor = 8;

pub const GHOST: BlockColor = 9;

} // verus!
