//! Rule engine for a nested ("meta") tic-tac-toe game: a 3x3 grid of
//! mini-boards, each itself a 3x3 grid of cells. The engine owns the data
//! model (boards, cells, turn marker, cached mini-board statuses), validates
//! and applies moves, detects per-mini-board wins and draws, and applies the
//! resulting transitions (claiming a won mini-board, resetting a drawn one).
//! Rendering and input are left to callers, which feed the engine
//! "cell N of mini-board M was selected" events and read its state back.

pub mod engine;
pub mod game;
pub mod laws;
