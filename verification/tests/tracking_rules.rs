use xareon::domain::automatic_tracking::{AutomaticTrackingState, EnabledBinding, ProcessObservation, RunningProcess};
use xareon::domain::play_session::{SessionEndReason, TrackingSource};
use xareon::error::AppError;
use xareon::repositories::game_process::{check_binding_owner, check_can_enable, check_executable_name, normalize_path};
use xareon::services::automatic_tracking::{running_games, tracking_status, AutomaticTrackingRuntime, TrackingAction, AFK_GRACE_MS};

fn observation(path: &str, foreground: bool, minimized: bool) -> ProcessObservation {
    ProcessObservation {
        process: RunningProcess {
            pid: 1,
            executable_path: path.into(),
            executable_name: "x.exe".into(),
            window_title: None,
            has_visible_window: true,
        },
        is_foreground: foreground,
        is_minimized: minimized,
    }
}

fn binding(game_id: i64, path: &str) -> EnabledBinding {
    EnabledBinding { game_id, executable_normalized: normalize_path(path) }
}

#[test]
fn paths_are_recognised_case_and_slash_insensitively() {
    assert_eq!(normalize_path("  C:/Games/Hades.EXE "), "c:\\games\\hades.exe");
}

#[test]
fn running_games_are_grouped_by_binding() {
    let observations = vec![
        observation("C:\\Games\\Hades.exe", false, false),
        observation("c:/games/hades.exe", true, false),
        observation("C:\\Games\\Celeste.exe", true, true),
        observation("C:\\Other\\tool.exe", true, false),
    ];
    let bindings = vec![
        binding(1, "C:\\Games\\Hades.exe"),
        binding(2, "C:\\Games\\Celeste.exe"),
        binding(1, "C:\\Games\\HadesLauncher.exe"),
        binding(3, "C:\\Games\\Missing.exe"),
    ];
    assert_eq!(running_games(&observations, &bindings), vec![(1, true), (2, false)]);
}

#[test]
fn fresh_foreground_input_starts_an_automatic_session() {
    let mut rt = AutomaticTrackingRuntime::new();
    rt.begin_tick(&vec![1]);
    assert_eq!(rt.observe_game(1, true, 100, None, 0), None);
    assert_eq!(rt.state(1), Some(AutomaticTrackingState::WaitingForActivity));
    assert_eq!(rt.observe_game(1, true, 100, None, 2_000), None);
    assert_eq!(rt.observe_game(1, true, 150, None, 4_000), Some(TrackingAction::Start(1)));
    rt.started(1);
    assert_eq!(rt.state(1), Some(AutomaticTrackingState::Tracking));
}

#[test]
fn no_start_while_another_session_is_active() {
    let mut rt = AutomaticTrackingRuntime::new();
    rt.observe_game(2, true, 10, None, 0);
    let manual = Some((5, TrackingSource::Manual));
    assert_eq!(rt.observe_game(2, true, 20, manual, 1_000), None);
    assert_eq!(rt.state(2), Some(AutomaticTrackingState::WaitingForActivity));
}

#[test]
fn inactivity_for_the_grace_period_stops_as_afk() {
    let mut rt = AutomaticTrackingRuntime::new();
    let active = Some((1, TrackingSource::Automatic));
    rt.observe_game(1, true, 10, active, 0);
    assert_eq!(rt.observe_game(1, false, 10, active, 1_000), None);
    assert_eq!(rt.observe_game(1, false, 10, active, AFK_GRACE_MS - 1), None);
    assert_eq!(
        rt.observe_game(1, false, 10, active, AFK_GRACE_MS),
        Some(TrackingAction::Stop(1, SessionEndReason::Afk))
    );
    assert_eq!(rt.state(1), Some(AutomaticTrackingState::Afk));
    assert_eq!(rt.observe_game(1, false, 10, None, AFK_GRACE_MS + 3_000), None);
    assert_eq!(rt.state(1), Some(AutomaticTrackingState::Afk));
}

#[test]
fn fresh_input_keeps_an_automatic_session_tracking() {
    let mut rt = AutomaticTrackingRuntime::new();
    let active = Some((1, TrackingSource::Automatic));
    rt.observe_game(1, true, 10, active, 0);
    assert_eq!(rt.observe_game(1, true, 11, active, 700_000), None);
    assert_eq!(rt.state(1), Some(AutomaticTrackingState::Tracking));
}

#[test]
fn a_manual_stop_suppresses_until_the_process_is_gone() {
    let mut rt = AutomaticTrackingRuntime::new();
    rt.observe_game(4, true, 1, None, 0);
    rt.suppress(4);
    rt.begin_tick(&vec![4]);
    assert_eq!(rt.observe_game(4, true, 2, None, 10), None);
    assert_eq!(rt.state(4), Some(AutomaticTrackingState::Suppressed));
    rt.begin_tick(&vec![]);
    assert_eq!(rt.finish_tick(&vec![], None), None);
    assert_eq!(rt.state(4), Some(AutomaticTrackingState::ProcessNotRunning));
    rt.begin_tick(&vec![4]);
    rt.observe_game(4, true, 3, None, 20);
    assert_eq!(rt.observe_game(4, true, 4, None, 30), Some(TrackingAction::Start(4)));
}

#[test]
fn an_exited_process_stops_its_automatic_session() {
    let mut rt = AutomaticTrackingRuntime::new();
    let active = Some((8, TrackingSource::Automatic));
    assert_eq!(
        rt.finish_tick(&vec![1], active),
        Some(TrackingAction::Stop(8, SessionEndReason::ProcessExit))
    );
    assert_eq!(rt.state(8), Some(AutomaticTrackingState::ProcessNotRunning));
    assert_eq!(rt.finish_tick(&vec![8], active), None);
    assert_eq!(rt.finish_tick(&vec![], Some((8, TrackingSource::Manual))), None);
    assert_eq!(rt.state(99), None);
}

#[test]
fn status_reflects_enablement_and_runtime() {
    let off = tracking_status(true, false, Some(AutomaticTrackingState::Tracking));
    assert_eq!(off.state, AutomaticTrackingState::Disabled);
    let idle = tracking_status(true, true, None);
    assert_eq!(idle.state, AutomaticTrackingState::ProcessNotRunning);
    let on = tracking_status(false, true, Some(AutomaticTrackingState::Afk));
    assert_eq!(on.state, AutomaticTrackingState::Afk);
    assert!(!on.available && on.enabled);
}

#[test]
fn binding_checks() {
    let invalid = Err(AppError::Validation("invalid executable path".into()));
    assert_eq!(check_executable_name(None), invalid);
    assert_eq!(check_executable_name(Some("".into())), invalid);
    assert_eq!(
        check_executable_name(Some("game.sh".into())),
        Err(AppError::Validation("the selected process is not an executable".into()))
    );
    assert_eq!(check_executable_name(Some("Game.EXE".into())), Ok("Game.EXE".to_string()));
    assert_eq!(check_binding_owner(None, 1), Ok(()));
    assert_eq!(
        check_binding_owner(Some(1), 1),
        Err(AppError::Validation("this executable is already linked to the game".into()))
    );
    assert_eq!(
        check_binding_owner(Some(2), 1),
        Err(AppError::Validation("this executable is linked to another game".into()))
    );
    assert_eq!(
        check_can_enable(true, 0),
        Err(AppError::Validation("link at least one executable before enabling automatic tracking".into()))
    );
    assert_eq!(check_can_enable(false, 0), Ok(()));
    assert_eq!(check_can_enable(true, 2), Ok(()));
}
