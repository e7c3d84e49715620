//! A game of breeding creatures. Every move is a function from what the
//! host knows to the assets it has to write and the funds it has to move.

pub mod mogwai;
pub mod achievement_table;
pub mod error;
pub mod config;
pub mod asset;
pub mod kernel;
pub mod host;
pub mod transitions;
pub mod laws;
