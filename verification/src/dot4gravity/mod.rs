//! A two-player game on a ten by ten board. Players first hide bombs, then
//! take turns shooting stones in from the sides.

pub mod board;
pub mod slide;
pub mod squares;
pub mod state;
pub mod game;

pub mod placement;
pub mod sealed;
pub mod laws;
