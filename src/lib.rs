//! A falling-block puzzle engine: a 10 by 20 board of cells, seven kinds of
//! piece with four rotation states each, collision tests, gravity, locking
//! and the clearing of complete rows, with the decisions of one tick of play.

pub mod block;
pub mod board;
pub mod game;
pub mod shape;
pub mod tetrimino;
