//! The bytes in which the records of the games are kept and sent.

pub mod format;
pub mod board_records;

pub mod mogwai_records;
