use vwork::lifecycle::{HostEvent, Reaction, Sidecar, Stage, TrayCommand};
use vwork::readiness::Readiness;
use vwork::DEFAULT_PORT;

fn shutdown_child(r: Reaction<u32>) -> (Option<u32>, bool) {
    match r {
        Reaction::Shutdown { child, exit_host } => (child, exit_host),
        _ => panic!("expected a shutdown"),
    }
}

#[test]
fn happy_path_navigates_once_and_quit_kills() {
    let mut s: Sidecar<u32> = Sidecar::new(DEFAULT_PORT);
    assert!(s.spawned(7).is_ok());
    assert_eq!(s.stage(), Stage::Running);
    assert!(s.is_occupied());
    assert_eq!(s.waited(Readiness::Ready), Some("http://localhost:3141".to_string()));
    assert_eq!(s.waited(Readiness::Ready), None);
    let (child, exit) = shutdown_child(s.on_host_event(HostEvent::Menu(TrayCommand::Quit)));
    assert_eq!(child, Some(7));
    assert!(exit);
    assert!(!s.is_occupied());
    assert_eq!(s.stage(), Stage::Reaped);
}

#[test]
fn timeout_skips_navigation_and_quit_still_kills() {
    let mut s: Sidecar<u32> = Sidecar::new(DEFAULT_PORT);
    assert!(s.spawned(3).is_ok());
    assert_eq!(s.waited(Readiness::TimedOut), None);
    assert_eq!(s.stage(), Stage::Running);
    let (child, _) = shutdown_child(s.on_host_event(HostEvent::Menu(TrayCommand::Quit)));
    assert_eq!(child, Some(3));
}

#[test]
fn locate_failure_leaves_shell_usable() {
    let mut s: Sidecar<u32> = Sidecar::new(DEFAULT_PORT);
    s.spawn_failed();
    assert_eq!(s.stage(), Stage::Failed);
    assert!(!s.is_occupied());
    assert_eq!(s.waited(Readiness::TimedOut), None);
    assert!(matches!(s.on_host_event(HostEvent::Menu(TrayCommand::Open)), Reaction::ShowWindow));
    let (child, exit) = shutdown_child(s.on_host_event(HostEvent::Menu(TrayCommand::Quit)));
    assert_eq!(child, None);
    assert!(exit);
}

#[test]
fn externally_started_server_is_adopted_after_spawn_failure() {
    let mut s: Sidecar<u32> = Sidecar::new(4000);
    s.spawn_failed();
    assert_eq!(s.waited(Readiness::Ready), Some("http://localhost:4000".to_string()));
}

#[test]
fn immediate_exit_kills_and_never_navigates() {
    let mut s: Sidecar<u32> = Sidecar::new(DEFAULT_PORT);
    assert!(s.spawned(11).is_ok());
    let (child, exit) = shutdown_child(s.on_host_event(HostEvent::ExitRequested));
    assert_eq!(child, Some(11));
    assert!(!exit);
    assert_eq!(s.waited(Readiness::Ready), None);
    assert!(!s.is_occupied());
}

#[test]
fn double_quit_kills_exactly_once() {
    let mut s: Sidecar<u32> = Sidecar::new(DEFAULT_PORT);
    assert!(s.spawned(5).is_ok());
    let (first, _) = shutdown_child(s.on_host_event(HostEvent::Menu(TrayCommand::Quit)));
    let (second, _) = shutdown_child(s.on_host_event(HostEvent::Menu(TrayCommand::Quit)));
    assert_eq!(first, Some(5));
    assert_eq!(second, None);
    let (third, _) = shutdown_child(s.on_host_event(HostEvent::ExitRequested));
    assert_eq!(third, None);
    assert_eq!(s.terminate(), None);
}

#[test]
fn second_spawn_is_handed_back() {
    let mut s: Sidecar<u32> = Sidecar::new(DEFAULT_PORT);
    assert!(s.spawned(1).is_ok());
    assert_eq!(s.spawned(2), Err(2));
    assert_eq!(s.terminate(), Some(1));
    assert_eq!(s.spawned(3), Err(3));
    assert!(!s.is_occupied());
}

#[test]
fn spawn_after_failure_is_refused() {
    let mut s: Sidecar<u32> = Sidecar::new(DEFAULT_PORT);
    s.spawn_failed();
    assert_eq!(s.spawned(9), Err(9));
    assert_eq!(s.stage(), Stage::Failed);
}

#[test]
fn window_close_never_drains_the_slot() {
    let mut s: Sidecar<u32> = Sidecar::new(DEFAULT_PORT);
    assert!(s.spawned(4).is_ok());
    assert!(matches!(s.on_host_event(HostEvent::CloseRequested { hide_on_close: true }), Reaction::HideWindow));
    assert!(matches!(s.on_host_event(HostEvent::CloseRequested { hide_on_close: false }), Reaction::Nothing));
    assert!(s.is_occupied());
    assert_eq!(s.stage(), Stage::Running);
}

#[test]
fn tray_items_map_to_reactions() {
    let mut s: Sidecar<u32> = Sidecar::new(DEFAULT_PORT);
    assert!(matches!(s.on_host_event(HostEvent::TrayClicked), Reaction::ShowWindow));
    assert!(matches!(s.on_host_event(HostEvent::Menu(TrayCommand::GenerateReport)), Reaction::TriggerReport));
    assert!(matches!(s.on_host_event(HostEvent::Menu(TrayCommand::ToggleAutostart)), Reaction::ToggleAutostart));
    assert_eq!(s.stage(), Stage::Unstarted);
}

#[test]
fn menu_ids_round_trip() {
    assert_eq!(TrayCommand::from_id("open"), Some(TrayCommand::Open));
    assert_eq!(TrayCommand::from_id("generate_report"), Some(TrayCommand::GenerateReport));
    assert_eq!(TrayCommand::from_id("autolaunch"), Some(TrayCommand::ToggleAutostart));
    assert_eq!(TrayCommand::from_id("quit"), Some(TrayCommand::Quit));
    assert_eq!(TrayCommand::from_id("Quit"), None);
    assert_eq!(TrayCommand::from_id(""), None);
    for c in [TrayCommand::Open, TrayCommand::GenerateReport, TrayCommand::ToggleAutostart, TrayCommand::Quit] {
        assert_eq!(TrayCommand::from_id(c.id()), Some(c));
    }
}
