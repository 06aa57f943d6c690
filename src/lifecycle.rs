use vstd::prelude::*;
use crate::runtime::{step, Command, Event, Phase, Runtime, EXIT_OK};
use crate::tray::menu_action_of;
use crate::update::UpdateOutcome;
use crate::window::WindowState;

verus! {

broadcast use Seq::filter_distributes_over_add;

/// The controller run over a sequence of events: the final state and every
/// command issued, in order.
pub open spec fn run(s: Runtime, evs: Seq<Event>) -> (Runtime, Seq<Command>)
    decreases evs.len(),
{
    if evs.len() == 0 {
        (s, seq![])
    } else {
        let (t, c) = step(s, evs[0]);
        let (u, d) = run(t, evs.drop_first());
        (u, c + d)
    }
}

/// How many spawns of the service the commands ask for.
pub open spec fn spawns(cmds: Seq<Command>) -> nat {
    cmds.filter(|c: Command| c is SpawnService).len()
}

/// How many termination attempts on the service the commands ask for.
pub open spec fn terminations(cmds: Seq<Command>) -> nat {
    cmds.filter(|c: Command| c is TerminateService).len()
}

/// How many times the commands show the main window.
pub open spec fn shows(cmds: Seq<Command>) -> nat {
    cmds.filter(|c: Command| c is ShowWindow).len()
}

pub open spec fn phase_rank(p: Phase) -> nat {
    match p {
        Phase::Uninitialized => 0,
        Phase::Running => 1,
        Phase::ShuttingDown => 2,
        Phase::Terminated => 3,
    }
}

proof fn lemma_empty_counts()
    ensures
        spawns(seq![]) == 0,
        terminations(seq![]) == 0,
        shows(seq![]) == 0,
{
    reveal_with_fuel(Seq::filter, 1);
}

proof fn lemma_step_counts(s: Runtime, e: Event)
    requires
        s.wf(),
    ensures
        spawns(step(s, e).1) + s.supervisor.spawn_requests == step(s, e).0.supervisor.spawn_requests,
        terminations(step(s, e).1) + s.supervisor.terminate_requests == step(
            s,
            e,
        ).0.supervisor.terminate_requests,
{
    lemma_empty_counts();
    reveal_with_fuel(Seq::filter, 4);
}

/// The lifecycle only moves forward: no transition goes back to an earlier
/// phase.
pub proof fn lemma_phase_monotonic(s: Runtime, e: Event)
    requires
        s.wf(),
    ensures
        phase_rank(s.phase) <= phase_rank(step(s, e).0.phase),
{
}

proof fn lemma_run_counts(s: Runtime, evs: Seq<Event>)
    requires
        s.wf(),
    ensures
        run(s, evs).0.wf(),
        spawns(run(s, evs).1) + s.supervisor.spawn_requests == run(
            s,
            evs,
        ).0.supervisor.spawn_requests,
        terminations(run(s, evs).1) + s.supervisor.terminate_requests == run(
            s,
            evs,
        ).0.supervisor.terminate_requests,
    decreases evs.len(),
{
    lemma_empty_counts();
    if evs.len() > 0 {
        let (t, c) = step(s, evs[0]);
        crate::runtime::lemma_step_wf(s, evs[0]);
        lemma_step_counts(s, evs[0]);
        lemma_run_counts(t, evs.drop_first());
    }
}

/// Whatever events arrive, the controller asks for at most one spawn of the
/// service process over a whole run.
pub proof fn lemma_at_most_one_spawn(s: Runtime, evs: Seq<Event>)
    requires
        s.wf(),
    ensures
        spawns(run(s, evs).1) + s.supervisor.spawn_requests <= 1,
        s.supervisor.spawn_requests == 0 ==> spawns(run(s, evs).1) <= 1,
{
    lemma_run_counts(s, evs);
}

/// Whatever events arrive, the controller makes at most one termination
/// attempt on the service process over a whole run.
pub proof fn lemma_at_most_one_termination(s: Runtime, evs: Seq<Event>)
    requires
        s.wf(),
    ensures
        terminations(run(s, evs).1) + s.supervisor.terminate_requests <= 1,
{
    lemma_run_counts(s, evs);
}

/// A close request from the window system only hides the main window: the
/// window is not destroyed, the service is left alone, and while the shell
/// is running, showing the window again from the tray still works.
pub proof fn lemma_close_only_hides(s: Runtime, show_id: String)
    requires
        s.wf(),
        show_id@ == "show"@,
    ensures
        ({
            let (t, c) = step(s, Event::CloseRequested);
            &&& c == seq![Command::HideWindow, Command::PreventClose]
            &&& terminations(c) == 0
            &&& t == (Runtime { window: WindowState::hidden(), ..s })
            &&& s.phase == Phase::Running ==> {
                &&& step(t, Event::MenuItemClick(show_id)) == (
                    Runtime { window: WindowState::shown(), ..s },
                    seq![Command::ShowWindow, Command::FocusWindow],
                )
                &&& step(t, Event::TrayLeftClick) == (
                    Runtime { window: WindowState::shown(), ..s },
                    seq![Command::ShowWindow, Command::FocusWindow],
                )
            }
        }),
{
    reveal_with_fuel(Seq::filter, 3);
    assert(menu_action_of(show_id@) == Some(crate::tray::TrayAction::ShowWindow));
}

/// Quitting from the tray makes exactly one termination attempt on the
/// service, as the very next command, and none afterwards; no other process
/// is ever spawned; once the attempt returns, the shell exits normally.
pub proof fn lemma_quit_terminates_once(s: Runtime, quit_id: String, ok: bool, evs: Seq<Event>)
    requires
        s.wf(),
        s.phase == Phase::Running,
        quit_id@ == "quit"@,
    ensures
        ({
            let (t, c) = step(s, Event::MenuItemClick(quit_id));
            let (u, d) = run(t, evs);
            &&& c == seq![Command::TerminateService(s.supervisor.slot->Live_0)]
            &&& t.phase == Phase::ShuttingDown
            &&& terminations(c + d) == 1
            &&& spawns(c + d) == 0
            &&& s.supervisor.spawn_requests == 1
            &&& step(t, Event::TerminationFinished(ok)).0.phase == Phase::Terminated
            &&& step(t, Event::TerminationFinished(ok)).1.last() == Command::ExitProcess(EXIT_OK)
        }),
{
    reveal_strlit("show");
    reveal_strlit("hide");
    reveal_strlit("auto_start");
    reveal_strlit("update");
    reveal_strlit("quit");
    assert("quit"@[0] == 'q' && "show"@[0] == 's' && "hide"@[0] == 'h');
    assert("auto_start"@[0] == 'a' && "update"@[0] == 'u');
    assert(menu_action_of(quit_id@) == Some(crate::tray::TrayAction::Quit));
    let (t, c) = step(s, Event::MenuItemClick(quit_id));
    lemma_step_counts(s, Event::MenuItemClick(quit_id));
    crate::runtime::lemma_step_wf(s, Event::MenuItemClick(quit_id));
    lemma_run_counts(t, evs);
}

proof fn lemma_failed_start_stays_dark(s: Runtime, evs: Seq<Event>)
    requires
        s.wf(),
        s.phase == Phase::Terminated,
        s.window == WindowState::hidden(),
    ensures
        shows(run(s, evs).1) == 0,
        run(s, evs).0.window == WindowState::hidden(),
        run(s, evs).0.phase == Phase::Terminated,
    decreases evs.len(),
{
    lemma_empty_counts();
    if evs.len() > 0 {
        reveal_with_fuel(Seq::filter, 3);
        let (t, c) = step(s, evs[0]);
        assert(shows(c) == 0);
        lemma_failed_start_stays_dark(t, evs.drop_first());
    }
}

/// A failed spawn aborts startup with a diagnostic, and the main window is
/// never shown afterwards, whatever events still arrive.
pub proof fn lemma_spawn_failure_never_shows(s: Runtime, reason: String, evs: Seq<Event>)
    requires
        s.wf(),
        s.phase == Phase::Uninitialized,
        s.supervisor.spawn_requests == 1,
    ensures
        ({
            let (t, c) = step(s, Event::SpawnFailed(reason));
            let (u, d) = run(t, evs);
            &&& c == seq![Command::Abort(reason)]
            &&& t.phase == Phase::Terminated
            &&& shows(c + d) == 0
            &&& !u.window.visible
        }),
{
    reveal_with_fuel(Seq::filter, 2);
    let (t, c) = step(s, Event::SpawnFailed(reason));
    assert(shows(c) == 0);
    lemma_failed_start_stays_dark(t, evs);
}

/// A late update result, once shutdown has begun, is dropped: it changes
/// nothing and issues nothing.
pub proof fn lemma_late_update_discarded(s: Runtime, o: UpdateOutcome)
    requires
        s.phase == Phase::ShuttingDown || s.phase == Phase::Terminated,
    ensures
        step(s, Event::UpdateFinished(o)) == (s, Seq::<Command>::empty()),
{
}

/// An exit request while update checks may still be in flight goes straight
/// to the termination attempt: nothing waits for the checks, their results
/// are dropped, and the shell then exits normally.
pub proof fn lemma_exit_ignores_pending_updates(s: Runtime, o: UpdateOutcome, ok: bool)
    requires
        s.wf(),
        s.phase == Phase::Running,
    ensures
        ({
            let (t, c) = step(s, Event::ExitRequested);
            let (u, d) = step(t, Event::TerminationFinished(ok));
            &&& c == seq![Command::PreventExit, Command::TerminateService(s.supervisor.slot->Live_0)]
            &&& t.phase == Phase::ShuttingDown
            &&& step(t, Event::UpdateFinished(o)) == (t, Seq::<Command>::empty())
            &&& u.phase == Phase::Terminated
            &&& d.last() == Command::ExitProcess(EXIT_OK)
            &&& step(u, Event::UpdateFinished(o)) == (u, Seq::<Command>::empty())
        }),
{
    let (t, c) = step(s, Event::ExitRequested);
    assert(c =~= seq![Command::PreventExit, Command::TerminateService(s.supervisor.slot->Live_0)]);
}

} // verus!
