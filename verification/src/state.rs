pub mod board;
pub mod cell;
pub mod engine;
pub mod game;
