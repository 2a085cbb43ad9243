//! Per-installation configuration.
pub mod device_settings;
pub mod global_shortcut;
