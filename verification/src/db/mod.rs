//! Database schema versions.
pub mod migrations;
