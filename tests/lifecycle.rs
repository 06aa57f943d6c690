use tray_shell::{
    create_tray_menu, menu_action, update_check_result, update_notice, Command, Event,
    MenuEntry, Phase, ProcessSlot, Runtime, ServiceSupervisor, TrayAction, UpdateOutcome,
    WindowState, EXIT_OK, GRACE_PERIOD_MS,
};

/// A stand-in host: performs commands by counting them, as a fake process
/// handle would count its calls.
#[derive(Default)]
struct FakeHost {
    spawns: usize,
    terminations: usize,
    shows: usize,
    exits: Vec<i32>,
    aborts: Vec<String>,
    notices: Vec<String>,
}

impl FakeHost {
    fn perform(&mut self, cmds: &[Command]) {
        for c in cmds {
            match c {
                Command::SpawnService => self.spawns += 1,
                Command::TerminateService(_) => {
                    assert!(self.exits.is_empty(), "terminate after exit");
                    self.terminations += 1
                }
                Command::ShowWindow => self.shows += 1,
                Command::ExitProcess(code) => self.exits.push(*code),
                Command::Abort(reason) => self.aborts.push(reason.clone()),
                Command::NotifyUpdate(v) => self.notices.push(v.clone()),
                _ => {}
            }
        }
    }
}

fn started(pid: u32) -> Runtime {
    let mut rt = Runtime::new("1.0.0".to_string());
    rt.handle(Event::Launch);
    rt.handle(Event::SpawnSucceeded(pid));
    rt
}

fn click(id: &str) -> Event {
    Event::MenuItemClick(id.to_string())
}

#[test]
fn tray_menu_has_fixed_layout() {
    let m = create_tray_menu();
    assert_eq!(m.len(), 8);
    let expect = [
        Some(("show", "Show Window")),
        Some(("hide", "Hide Window")),
        None,
        Some(("auto_start", "Auto-Start on Boot")),
        None,
        Some(("update", "Check for Updates")),
        None,
        Some(("quit", "Quit")),
    ];
    for (entry, want) in m.iter().zip(expect.iter()) {
        match (entry, want) {
            (MenuEntry::Item { id, label }, Some((i, l))) => {
                assert_eq!(id, i);
                assert_eq!(label, l);
            }
            (MenuEntry::Separator, None) => {}
            _ => panic!("unexpected entry {:?}", entry),
        }
    }
}

#[test]
fn menu_ids_map_to_actions() {
    assert_eq!(menu_action(&"show".to_string()), Some(TrayAction::ShowWindow));
    assert_eq!(menu_action(&"hide".to_string()), Some(TrayAction::HideWindow));
    assert_eq!(menu_action(&"auto_start".to_string()), Some(TrayAction::ToggleAutoStart));
    assert_eq!(menu_action(&"update".to_string()), Some(TrayAction::CheckForUpdates));
    assert_eq!(menu_action(&"quit".to_string()), Some(TrayAction::Quit));
    assert_eq!(menu_action(&"settings".to_string()), None);
    assert_eq!(menu_action(&"".to_string()), None);
    assert_eq!(menu_action(&"Quit".to_string()), None);
}

#[test]
fn newer_version_is_announced() {
    let current = "1.0.0".to_string();
    let r = update_notice(&current, UpdateOutcome::Available("2.0.0".to_string()));
    assert_eq!(r, Some("2.0.0".to_string()));
}

#[test]
fn same_version_is_not_announced() {
    let current = "1.0.0".to_string();
    assert_eq!(update_notice(&current, UpdateOutcome::Available("1.0.0".to_string())), None);
    assert_eq!(update_notice(&current, UpdateOutcome::UpToDate), None);
    assert_eq!(update_notice(&current, UpdateOutcome::Failed("offline".to_string())), None);
}

#[test]
fn update_check_result_reports_failure_reason() {
    assert_eq!(update_check_result(&UpdateOutcome::UpToDate), Ok(()));
    assert_eq!(update_check_result(&UpdateOutcome::Available("2.0.0".to_string())), Ok(()));
    assert_eq!(
        update_check_result(&UpdateOutcome::Failed("timeout".to_string())),
        Err("Update check failed: timeout".to_string())
    );
}

#[test]
fn startup_spawns_waits_then_shows() {
    let mut rt = Runtime::new("1.0.0".to_string());
    assert_eq!(rt.phase, Phase::Uninitialized);
    assert!(!rt.window.is_visible());
    let c = rt.handle(Event::Launch);
    assert!(matches!(c.as_slice(), [Command::SpawnService]));
    assert_eq!(rt.phase, Phase::Uninitialized);
    let c = rt.handle(Event::SpawnSucceeded(42));
    assert!(matches!(
        c.as_slice(),
        [Command::WaitGracePeriod(GRACE_PERIOD_MS), Command::ShowWindow, Command::FocusWindow]
    ));
    assert_eq!(GRACE_PERIOD_MS, 2000);
    assert_eq!(rt.phase, Phase::Running);
    assert_eq!(rt.supervisor.slot, ProcessSlot::Live(42));
    assert!(rt.window.is_visible());
    assert!(rt.window.focused);
}

#[test]
fn tray_events_never_spawn_twice() {
    let mut host = FakeHost::default();
    let mut rt = Runtime::new("1.0.0".to_string());
    host.perform(&rt.handle(Event::Launch));
    host.perform(&rt.handle(Event::Launch));
    host.perform(&rt.handle(Event::SpawnSucceeded(7)));
    let events = vec![
        Event::Launch,
        Event::TrayLeftClick,
        click("hide"),
        click("show"),
        click("auto_start"),
        click("update"),
        click("unknown"),
        Event::SpawnSucceeded(8),
        Event::Launch,
        Event::CloseRequested,
        Event::MinimizeRequested,
        click("quit"),
        Event::Launch,
        Event::TerminationFinished(true),
        Event::Launch,
    ];
    for e in events {
        host.perform(&rt.handle(e));
    }
    assert_eq!(host.spawns, 1);
    assert_eq!(rt.supervisor.spawn_requests, 1);
}

#[test]
fn close_request_hides_and_show_still_works() {
    let mut rt = started(42);
    let c = rt.handle(Event::CloseRequested);
    assert!(matches!(c.as_slice(), [Command::HideWindow, Command::PreventClose]));
    assert_eq!(rt.window, WindowState { visible: false, focused: false });
    assert_eq!(rt.phase, Phase::Running);
    assert_eq!(rt.supervisor.slot, ProcessSlot::Live(42));
    let c = rt.handle(click("show"));
    assert!(matches!(c.as_slice(), [Command::ShowWindow, Command::FocusWindow]));
    assert!(rt.window.is_visible());
    rt.handle(Event::CloseRequested);
    let c = rt.handle(Event::TrayLeftClick);
    assert!(matches!(c.as_slice(), [Command::ShowWindow, Command::FocusWindow]));
    assert!(rt.window.is_visible());
}

#[test]
fn quit_terminates_exactly_once_before_exit() {
    let mut host = FakeHost::default();
    let mut rt = Runtime::new("1.0.0".to_string());
    host.perform(&rt.handle(Event::Launch));
    host.perform(&rt.handle(Event::SpawnSucceeded(42)));
    let c = rt.handle(click("quit"));
    assert!(matches!(c.as_slice(), [Command::TerminateService(42)]));
    assert_eq!(rt.phase, Phase::ShuttingDown);
    host.perform(&c);
    host.perform(&rt.handle(click("quit")));
    host.perform(&rt.handle(Event::ExitRequested));
    let c = rt.handle(Event::TerminationFinished(true));
    assert!(matches!(c.as_slice(), [Command::ExitProcess(EXIT_OK)]));
    host.perform(&c);
    host.perform(&rt.handle(Event::ExitRequested));
    host.perform(&rt.handle(click("quit")));
    assert_eq!(host.terminations, 1);
    assert_eq!(host.spawns, 1);
    assert_eq!(host.exits, vec![0]);
    assert_eq!(rt.phase, Phase::Terminated);
}

#[test]
fn exit_request_terminates_service() {
    let mut rt = started(5);
    let c = rt.handle(Event::ExitRequested);
    assert!(matches!(c.as_slice(), [Command::PreventExit, Command::TerminateService(5)]));
    assert_eq!(rt.supervisor.slot, ProcessSlot::Reaped);
    let c = rt.handle(Event::TerminationFinished(false));
    assert!(matches!(
        c.as_slice(),
        [Command::ReportTerminationFailure, Command::ExitProcess(0)]
    ));
    assert_eq!(rt.phase, Phase::Terminated);
}

#[test]
fn update_result_in_running_shell() {
    let mut host = FakeHost::default();
    let mut rt = started(3);
    let c = rt.handle(click("update"));
    assert!(matches!(c.as_slice(), [Command::StartUpdateCheck]));
    host.perform(&rt.handle(Event::UpdateFinished(UpdateOutcome::Available("2.0.0".to_string()))));
    assert_eq!(host.notices, vec!["2.0.0".to_string()]);
    let c = rt.handle(Event::UpdateFinished(UpdateOutcome::Available("1.0.0".to_string())));
    assert!(c.is_empty());
    let c = rt.handle(Event::UpdateFinished(UpdateOutcome::UpToDate));
    assert!(c.is_empty());
    let c = rt.handle(Event::UpdateFinished(UpdateOutcome::Failed("dns".to_string())));
    assert!(matches!(c.as_slice(), [Command::ReportUpdateFailure(r)] if r == "dns"));
    assert_eq!(rt.phase, Phase::Running);
}

#[test]
fn spawn_failure_never_shows_window() {
    let mut host = FakeHost::default();
    let mut rt = Runtime::new("1.0.0".to_string());
    host.perform(&rt.handle(Event::Launch));
    let c = rt.handle(Event::SpawnFailed("node: not found".to_string()));
    assert!(matches!(c.as_slice(), [Command::Abort(r)] if r == "node: not found"));
    host.perform(&c);
    assert_eq!(rt.phase, Phase::Terminated);
    for e in [
        Event::TrayLeftClick,
        click("show"),
        Event::SpawnSucceeded(9),
        Event::Launch,
        Event::CloseRequested,
        Event::ExitRequested,
    ] {
        host.perform(&rt.handle(e));
    }
    assert_eq!(host.shows, 0);
    assert_eq!(host.aborts, vec!["node: not found".to_string()]);
    assert_eq!(host.terminations, 0);
    assert!(!rt.window.is_visible());
}

#[test]
fn exit_during_update_check_discards_late_result() {
    let mut host = FakeHost::default();
    let mut rt = started(11);
    host.perform(&rt.handle(click("update")));
    let c = rt.handle(Event::ExitRequested);
    assert!(matches!(c.as_slice(), [Command::PreventExit, Command::TerminateService(11)]));
    host.perform(&c);
    let c = rt.handle(Event::UpdateFinished(UpdateOutcome::Available("2.0.0".to_string())));
    assert!(c.is_empty());
    host.perform(&rt.handle(Event::TerminationFinished(true)));
    let c = rt.handle(Event::UpdateFinished(UpdateOutcome::Failed("late".to_string())));
    assert!(c.is_empty());
    assert_eq!(host.terminations, 1);
    assert_eq!(host.exits, vec![0]);
    assert!(host.notices.is_empty());
    assert_eq!(rt.phase, Phase::Terminated);
}

#[test]
fn tray_actions_in_running_shell() {
    let mut rt = started(1);
    let c = rt.handle(click("hide"));
    assert!(matches!(c.as_slice(), [Command::HideWindow]));
    assert!(!rt.window.is_visible());
    let c = rt.handle(click("auto_start"));
    assert!(matches!(c.as_slice(), [Command::LogAutoStartToggled]));
    let c = rt.handle(click("no_such_item"));
    assert!(c.is_empty());
    rt.handle(click("show"));
    let c = rt.handle(Event::MinimizeRequested);
    assert!(matches!(c.as_slice(), [Command::HideWindow]));
    assert!(!rt.window.is_visible());
    assert_eq!(rt.phase, Phase::Running);
}

#[test]
fn events_before_startup_are_ignored() {
    let mut rt = Runtime::new("1.0.0".to_string());
    assert!(rt.handle(Event::SpawnSucceeded(3)).is_empty());
    assert!(rt.handle(Event::TrayLeftClick).is_empty());
    assert!(rt.handle(Event::ExitRequested).is_empty());
    assert_eq!(rt.phase, Phase::Uninitialized);
    assert_eq!(rt.supervisor.slot, ProcessSlot::Empty);
}

#[test]
fn supervisor_terminates_idempotently() {
    let mut s = ServiceSupervisor::new();
    assert!(!s.is_live());
    assert_eq!(s.take_for_termination(), None);
    assert!(s.request_spawn());
    assert!(!s.request_spawn());
    s.record_spawned(99);
    assert!(s.is_live());
    assert_eq!(s.take_for_termination(), Some(99));
    assert_eq!(s.take_for_termination(), None);
    assert_eq!(s.slot, ProcessSlot::Reaped);
    assert_eq!(s.terminate_requests, 1);
    assert_eq!(s.spawn_requests, 1);
}

#[test]
fn window_show_and_conceal() {
    let mut w = WindowState::new();
    assert!(!w.is_visible());
    w.show();
    assert_eq!(w, WindowState { visible: true, focused: true });
    w.conceal();
    assert_eq!(w, WindowState { visible: false, focused: false });
}
