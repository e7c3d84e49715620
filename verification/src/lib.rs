//! Deterministic cores of two turn-based games that run inside a replicated
//! transaction processor: a board game played with stones and bombs, and a
//! creature breeding game.

pub mod hashing;
pub mod wire;
pub mod dot4gravity;
pub mod battlemogs;
