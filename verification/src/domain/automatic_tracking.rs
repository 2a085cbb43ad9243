//! Executable bindings and the state of automatic play tracking.
use vstd::prelude::*;

verus! {

/// An executable linked to a game.
#[derive(Debug, Clone)]
pub struct ExecutableBinding {
    pub id: i64,
    pub game_id: i64,
    pub executable_path: String,
    pub executable_name: String,
    pub created_at: String,
}

/// A process seen on the machine.
#[derive(Debug, Clone)]
pub struct RunningProcess {
    pub pid: u32,
    pub executable_path: String,
    pub executable_name: String,
    pub window_title: Option<String>,
    pub has_visible_window: bool,
}

/// What automatic tracking is doing for a game.
#[derive(Debug, Clone, Copy, PartialEq, Eq, Structural)]
pub enum AutomaticTrackingState {
    Disabled,
    ProcessNotRunning,
    WaitingForActivity,
    Tracking,
    Afk,
    Suppressed,
}

/// Automatic tracking as shown for one game.
#[derive(Debug, Clone, Copy)]
pub struct AutomaticTrackingStatus {
    pub available: bool,
    pub enabled: bool,
    pub state: AutomaticTrackingState,
}

/// What this platform can do.
#[derive(Debug, Clone, Copy)]
pub struct PlatformCapabilities {
    pub automatic_process_tracking: bool,
}

/// A binding of a game whose automatic tracking is enabled, by normalized
/// executable path.
#[derive(Debug, Clone)]
pub struct EnabledBinding {
    pub game_id: i64,
    pub executable_normalized: String,
}

/// A running process as one tracking tick sees it.
#[derive(Debug, Clone)]
pub struct ProcessObservation {
    pub process: RunningProcess,
    pub is_foreground: bool,
    pub is_minimized: bool,
}

} // verus!
