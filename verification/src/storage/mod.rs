//! Profile files: backups in the sync folder and their checksums.
pub mod digest;
pub mod profile_sync;
pub mod legacy_migration;
