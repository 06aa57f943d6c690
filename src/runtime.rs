use vstd::prelude::*;
use crate::supervisor::{ProcessSlot, ServiceSupervisor};
use crate::tray::{menu_action, menu_action_of, TrayAction};
use crate::update::{notice_of, update_notice, UpdateOutcome};
use crate::window::WindowState;

verus! {

/// Wait after a successful spawn before the UI is considered ready, in
/// milliseconds. A fixed delay, not a health check.
pub const GRACE_PERIOD_MS: u64 = 2000;

/// Status the shell exits with after a normal shutdown.
pub const EXIT_OK: i32 = 0;

/// Lifecycle of a run; it only ever moves forward.
#[derive(Clone, Copy, Debug, PartialEq, Eq, Structural)]
pub enum Phase {
    Uninitialized,
    Running,
    ShuttingDown,
    Terminated,
}

/// What the host delivers to the controller.
#[derive(Clone, Debug)]
pub enum Event {
    /// The shell process has started.
    Launch,
    /// The service process was created; its OS identifier.
    SpawnSucceeded(u32),
    /// The service process could not be created; the reason.
    SpawnFailed(String),
    /// Left click on the tray icon itself.
    TrayLeftClick,
    /// Click on a tray menu item; the item's identifier.
    MenuItemClick(String),
    /// The window system asked to close the main window.
    CloseRequested,
    /// The UI layer asked to minimise the main window to the tray.
    MinimizeRequested,
    /// An update check started earlier has finished.
    UpdateFinished(UpdateOutcome),
    /// The host runtime asked the whole application to exit.
    ExitRequested,
    /// The termination attempt on the service has returned; whether it
    /// succeeded.
    TerminationFinished(bool),
}

/// What the host must carry out, in the order given.
#[derive(Clone, Debug)]
pub enum Command {
    /// Start the background service as a child process.
    SpawnService,
    /// Block for the given number of milliseconds.
    WaitGracePeriod(u64),
    ShowWindow,
    FocusWindow,
    HideWindow,
    /// Cancel the default destroy behaviour of the pending close request.
    PreventClose,
    /// The auto-start toggle has no behaviour yet; it is only logged.
    LogAutoStartToggled,
    /// Start an update check in the background.
    StartUpdateCheck,
    /// Tell the user that this version can be installed.
    NotifyUpdate(String),
    /// Log that an update check failed, with its reason; not fatal.
    ReportUpdateFailure(String),
    /// Abort startup with a fatal diagnostic; the reason.
    Abort(String),
    /// Hold back the pending exit until cleanup is done.
    PreventExit,
    /// Make the one termination attempt on the service process.
    TerminateService(u32),
    /// Log that terminating the service failed; nothing else is done.
    ReportTerminationFailure,
    /// Exit the shell process with the given status.
    ExitProcess(i32),
}

/// The state of one run: the supervised service, the main window and the
/// version of the running build.
pub struct Runtime {
    pub phase: Phase,
    pub supervisor: ServiceSupervisor,
    pub window: WindowState,
    pub current_version: String,
}

pub open spec fn show_step(s: Runtime) -> (Runtime, Seq<Command>) {
    (Runtime { window: WindowState::shown(), ..s }, seq![Command::ShowWindow, Command::FocusWindow])
}

pub open spec fn conceal_step(s: Runtime) -> (Runtime, Seq<Command>) {
    (Runtime { window: WindowState::hidden(), ..s }, seq![Command::HideWindow])
}

/// Both ways to shut down (tray Quit, exit request) end here: the live
/// service is handed out for its one termination attempt.
pub open spec fn shutdown_step(s: Runtime, first: Seq<Command>) -> (Runtime, Seq<Command>) {
    match s.supervisor.slot {
        ProcessSlot::Live(pid) => (
            Runtime {
                phase: Phase::ShuttingDown,
                supervisor: ServiceSupervisor {
                    slot: ProcessSlot::Reaped,
                    terminate_requests: 1,
                    ..s.supervisor
                },
                ..s
            },
            first.push(Command::TerminateService(pid)),
        ),
        _ => (Runtime { phase: Phase::Terminated, ..s }, first.push(Command::ExitProcess(EXIT_OK))),
    }
}

pub open spec fn update_commands(current: Seq<char>, o: UpdateOutcome) -> Seq<Command> {
    match o {
        UpdateOutcome::Failed(reason) => seq![Command::ReportUpdateFailure(reason)],
        _ => match notice_of(current, o) {
            Some(v) => seq![Command::NotifyUpdate(v)],
            None => seq![],
        },
    }
}

pub open spec fn startup_step(s: Runtime, e: Event) -> (Runtime, Seq<Command>) {
    match e {
        Event::Launch => if s.supervisor.spawn_requests == 0 {
            (
                Runtime { supervisor: ServiceSupervisor { spawn_requests: 1, ..s.supervisor }, ..s },
                seq![Command::SpawnService],
            )
        } else {
            (s, seq![])
        },
        Event::SpawnSucceeded(pid) => if s.supervisor.spawn_requests == 1 {
            (
                Runtime {
                    phase: Phase::Running,
                    supervisor: ServiceSupervisor { slot: ProcessSlot::Live(pid), ..s.supervisor },
                    window: WindowState::shown(),
                    ..s
                },
                seq![
                    Command::WaitGracePeriod(GRACE_PERIOD_MS),
                    Command::ShowWindow,
                    Command::FocusWindow,
                ],
            )
        } else {
            (s, seq![])
        },
        Event::SpawnFailed(reason) => if s.supervisor.spawn_requests == 1 {
            (Runtime { phase: Phase::Terminated, ..s }, seq![Command::Abort(reason)])
        } else {
            (s, seq![])
        },
        _ => (s, seq![]),
    }
}

pub open spec fn running_step(s: Runtime, e: Event) -> (Runtime, Seq<Command>) {
    match e {
        Event::TrayLeftClick => show_step(s),
        Event::MenuItemClick(id) => match menu_action_of(id@) {
            Some(TrayAction::ShowWindow) => show_step(s),
            Some(TrayAction::HideWindow) => conceal_step(s),
            Some(TrayAction::ToggleAutoStart) => (s, seq![Command::LogAutoStartToggled]),
            Some(TrayAction::CheckForUpdates) => (s, seq![Command::StartUpdateCheck]),
            Some(TrayAction::Quit) => shutdown_step(s, seq![]),
            None => (s, seq![]),
        },
        Event::MinimizeRequested => conceal_step(s),
        Event::UpdateFinished(o) => (s, update_commands(s.current_version@, o)),
        Event::ExitRequested => shutdown_step(s, seq![Command::PreventExit]),
        _ => (s, seq![]),
    }
}

pub open spec fn shutting_down_step(s: Runtime, e: Event) -> (Runtime, Seq<Command>) {
    match e {
        Event::TerminationFinished(ok) => (
            Runtime { phase: Phase::Terminated, ..s },
            if ok {
                seq![Command::ExitProcess(EXIT_OK)]
            } else {
                seq![Command::ReportTerminationFailure, Command::ExitProcess(EXIT_OK)]
            },
        ),
        _ => (s, seq![]),
    }
}

/// The controller's transition: the next state and the commands for one
/// event. A close request is always turned into hiding, in every phase.
pub open spec fn step(s: Runtime, e: Event) -> (Runtime, Seq<Command>) {
    match e {
        Event::CloseRequested => (
            Runtime { window: WindowState::hidden(), ..s },
            seq![Command::HideWindow, Command::PreventClose],
        ),
        _ => match s.phase {
            Phase::Uninitialized => startup_step(s, e),
            Phase::Running => running_step(s, e),
            Phase::ShuttingDown => shutting_down_step(s, e),
            Phase::Terminated => (s, seq![]),
        },
    }
}

impl Runtime {
    pub open spec fn wf(self) -> bool {
        &&& self.supervisor.wf()
        &&& match self.phase {
            Phase::Uninitialized => self.supervisor.slot is Empty && self.window
                == WindowState::hidden(),
            Phase::Running => self.supervisor.slot is Live,
            Phase::ShuttingDown => self.supervisor.slot is Reaped,
            Phase::Terminated => self.supervisor.spawn_requests == 1 && (self.supervisor.slot is Reaped
                || (self.supervisor.slot is Empty && self.window == WindowState::hidden())),
        }
    }

    /// A run that has not started yet, for a build of the given version.
    pub fn new(current_version: String) -> (r: Runtime)
        ensures
            r.wf(),
            r.phase == Phase::Uninitialized,
            r.supervisor == ServiceSupervisor::initial(),
            r.window == WindowState::hidden(),
            r.current_version == current_version,
    {
        Runtime {
            phase: Phase::Uninitialized,
            supervisor: ServiceSupervisor::new(),
            window: WindowState::new(),
            current_version,
        }
    }

    fn show_window(&mut self) -> (cmds: Vec<Command>)
        ensures
            (*final(self), cmds@) == show_step(*old(self)),
    {
        self.window.show();
        vec![Command::ShowWindow, Command::FocusWindow]
    }

    fn conceal_window(&mut self) -> (cmds: Vec<Command>)
        ensures
            (*final(self), cmds@) == conceal_step(*old(self)),
    {
        self.window.conceal();
        vec![Command::HideWindow]
    }

    fn shut_down(&mut self, first: Vec<Command>) -> (cmds: Vec<Command>)
        requires
            old(self).wf(),
        ensures
            (*final(self), cmds@) == shutdown_step(*old(self), first@),
    {
        let mut cmds = first;
        match self.supervisor.take_for_termination() {
            Some(pid) => {
                self.phase = Phase::ShuttingDown;
                cmds.push(Command::TerminateService(pid));
            },
            None => {
                self.phase = Phase::Terminated;
                cmds.push(Command::ExitProcess(EXIT_OK));
            },
        }
        cmds
    }

    fn handle_startup(&mut self, e: Event) -> (cmds: Vec<Command>)
        requires
            old(self).wf(),
            old(self).phase == Phase::Uninitialized,
        ensures
            (*final(self), cmds@) == startup_step(*old(self), e),
    {
        match e {
            Event::Launch => {
                if self.supervisor.request_spawn() {
                    vec![Command::SpawnService]
                } else {
                    Vec::new()
                }
            },
            Event::SpawnSucceeded(pid) => {
                if self.supervisor.spawn_requests == 1 {
                    self.supervisor.record_spawned(pid);
                    self.window.show();
                    self.phase = Phase::Running;
                    vec![
                        Command::WaitGracePeriod(GRACE_PERIOD_MS),
                        Command::ShowWindow,
                        Command::FocusWindow,
                    ]
                } else {
                    Vec::new()
                }
            },
            Event::SpawnFailed(reason) => {
                if self.supervisor.spawn_requests == 1 {
                    self.phase = Phase::Terminated;
                    vec![Command::Abort(reason)]
                } else {
                    Vec::new()
                }
            },
            _ => Vec::new(),
        }
    }

    fn handle_running(&mut self, e: Event) -> (cmds: Vec<Command>)
        requires
            old(self).wf(),
            old(self).phase == Phase::Running,
        ensures
            (*final(self), cmds@) == running_step(*old(self), e),
    {
        match e {
            Event::TrayLeftClick => self.show_window(),
            Event::MenuItemClick(id) => match menu_action(&id) {
                Some(TrayAction::ShowWindow) => self.show_window(),
                Some(TrayAction::HideWindow) => self.conceal_window(),
                Some(TrayAction::ToggleAutoStart) => vec![Command::LogAutoStartToggled],
                Some(TrayAction::CheckForUpdates) => vec![Command::StartUpdateCheck],
                Some(TrayAction::Quit) => self.shut_down(Vec::new()),
                None => Vec::new(),
            },
            Event::MinimizeRequested => self.conceal_window(),
            Event::UpdateFinished(o) => match o {
                UpdateOutcome::Failed(reason) => vec![Command::ReportUpdateFailure(reason)],
                other => match update_notice(&self.current_version, other) {
                    Some(v) => vec![Command::NotifyUpdate(v)],
                    None => Vec::new(),
                },
            },
            Event::ExitRequested => self.shut_down(vec![Command::PreventExit]),
            _ => Vec::new(),
        }
    }

    fn handle_shutting_down(&mut self, e: Event) -> (cmds: Vec<Command>)
        ensures
            (*final(self), cmds@) == shutting_down_step(*old(self), e),
    {
        match e {
            Event::TerminationFinished(ok) => {
                self.phase = Phase::Terminated;
                if ok {
                    vec![Command::ExitProcess(EXIT_OK)]
                } else {
                    vec![Command::ReportTerminationFailure, Command::ExitProcess(EXIT_OK)]
                }
            },
            _ => Vec::new(),
        }
    }

    /// Handles one event: updates the state and returns the commands that
    /// the host must carry out, in order.
    pub fn handle(&mut self, event: Event) -> (cmds: Vec<Command>)
        requires
            old(self).wf(),
        ensures
            final(self).wf(),
            (*final(self), cmds@) == step(*old(self), event),
    {
        let cmds = match event {
            Event::CloseRequested => {
                self.window.conceal();
                vec![Command::HideWindow, Command::PreventClose]
            },
            other => match self.phase {
                Phase::Uninitialized => self.handle_startup(other),
                Phase::Running => self.handle_running(other),
                Phase::ShuttingDown => self.handle_shutting_down(other),
                Phase::Terminated => Vec::new(),
            },
        };
        proof {
            lemma_step_wf(*old(self), event);
        }
        cmds
    }
}

/// Every transition keeps the state well formed.
pub proof fn lemma_step_wf(s: Runtime, e: Event)
    requires
        s.wf(),
    ensures
        step(s, e).0.wf(),
{
}

} // verus!
