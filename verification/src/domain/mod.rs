//! Shared models of the journal.
pub mod achievement;
pub mod automatic_tracking;
pub mod game;
pub mod genre;
pub mod journal;
pub mod play_session;
pub mod settings;
pub mod statistics;
