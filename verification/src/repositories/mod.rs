//! The parts of storage access that are decided in Rust rather than in SQL.
pub mod sql;
pub mod game_query;
pub mod genres;
pub mod game_process;
pub mod statistics;
pub mod daily_play;
