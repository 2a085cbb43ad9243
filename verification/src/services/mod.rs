//! The rules that the application services apply around storage.
pub mod achievement;
pub mod game;
pub mod journal;
pub mod settings;
pub mod play_session;
pub mod automatic_tracking;
