//! Process-lifecycle model of the tray shell: how the quitting flag,
//! the primary window and the process react to menu clicks, tray
//! clicks, reopen gestures and window-close requests, with the laws
//! that hold over every event sequence.

use vstd::prelude::*;
use crate::controller::{CloseDecision, TrayAction, TrayButton};
use crate::controller::{close_decision_spec, menu_action_spec, tray_click_spec};

verus! {

/// Observable state of the shell: the quitting flag, whether the
/// primary window is visible, whether it has been destroyed, and the
/// exit code once the process has begun terminating.
pub struct ShellState {
    pub quitting: bool,
    pub window_visible: bool,
    pub window_destroyed: bool,
    pub exit_code: Option<i64>,
}

/// Events delivered serially by the host windowing system.
pub enum ShellEvent {
    /// A tray-menu item was clicked; carries the item id.
    Menu(Seq<char>),
    /// The tray icon was clicked with the given button.
    TrayClick(TrayButton),
    /// Some mechanism asked to close the primary window.
    CloseRequested,
    /// Reopen gesture on platforms with a persistent dock icon.
    Reopen,
}

/// State at startup: not quitting, window visible, process running.
pub open spec fn initial_shell() -> ShellState {
    ShellState { quitting: false, window_visible: true, window_destroyed: false, exit_code: None }
}

/// A show request: visible and focused if the window still exists,
/// silently dropped otherwise.
pub open spec fn show_window(s: ShellState) -> ShellState {
    if s.window_destroyed {
        s
    } else {
        ShellState { window_visible: true, ..s }
    }
}

/// A close request: nothing if the window is already gone; otherwise
/// the close-decision rule either hides the window (veto) or lets the
/// close destroy it.
pub open spec fn close_step(s: ShellState) -> ShellState {
    if s.window_destroyed {
        s
    } else {
        match close_decision_spec(s.quitting) {
            CloseDecision::HideAndVeto => ShellState { window_visible: false, ..s },
            CloseDecision::AllowClose => ShellState {
                window_visible: false,
                window_destroyed: true,
                ..s
            },
        }
    }
}

/// One event of the shell: menu and tray clicks are routed by the
/// controller's dispatch rules; an explicit quit sets the flag and
/// begins process exit with code 0.
pub open spec fn shell_step(s: ShellState, e: ShellEvent) -> ShellState {
    match e {
        ShellEvent::Menu(id) => match menu_action_spec(id) {
            TrayAction::ExitApp => ShellState { quitting: true, exit_code: Some(0i64), ..s },
            TrayAction::ShowWindow => show_window(s),
            TrayAction::Ignore => s,
        },
        ShellEvent::TrayClick(b) => match tray_click_spec(b) {
            TrayAction::ShowWindow => show_window(s),
            _ => s,
        },
        ShellEvent::CloseRequested => close_step(s),
        ShellEvent::Reopen => show_window(s),
    }
}

/// The shell after a whole sequence of events.
pub open spec fn shell_run(s: ShellState, events: Seq<ShellEvent>) -> ShellState
    decreases events.len(),
{
    if events.len() == 0 {
        s
    } else {
        shell_run(shell_step(s, events[0]), events.subrange(1, events.len() as int))
    }
}

/// A close request that is allowed to proceed (destroys the window):
/// the window still exists and the decision rule does not veto.
pub open spec fn close_proceeds(s: ShellState, e: ShellEvent) -> bool {
    &&& e is CloseRequested
    &&& !s.window_destroyed
    &&& close_decision_spec(s.quitting) is AllowClose
}

/// How many close requests of the sequence are allowed to proceed.
pub open spec fn closes_allowed(s: ShellState, events: Seq<ShellEvent>) -> nat
    decreases events.len(),
{
    if events.len() == 0 {
        0
    } else {
        (if close_proceeds(s, events[0]) {
            1nat
        } else {
            0nat
        }) + closes_allowed(shell_step(s, events[0]), events.subrange(1, events.len() as int))
    }
}

/// A show request is idempotent: asking again when the window is
/// already visible changes nothing.
pub proof fn lemma_show_idempotent(s: ShellState)
    ensures
        show_window(show_window(s)) == show_window(s),
{
}

/// No single event clears the quitting flag.
pub proof fn lemma_quitting_never_cleared(s: ShellState, e: ShellEvent)
    ensures
        s.quitting ==> shell_step(s, e).quitting,
{
}

/// The quitting flag never transitions from true back to false, over
/// any sequence of events.
pub proof fn lemma_quitting_monotone(s: ShellState, events: Seq<ShellEvent>)
    ensures
        s.quitting ==> shell_run(s, events).quitting,
    decreases events.len(),
{
    if events.len() > 0 {
        lemma_quitting_never_cleared(s, events[0]);
        lemma_quitting_monotone(shell_step(s, events[0]), events.subrange(1, events.len() as int));
    }
}

/// While quitting is false, any sequence of close requests leaves the
/// window hidden but never destroyed, and the process alive.
pub proof fn lemma_closes_only_hide(s: ShellState, events: Seq<ShellEvent>)
    requires
        !s.quitting,
        !s.window_destroyed,
        s.exit_code is None,
        forall|i: int| 0 <= i < events.len() ==> events[i] is CloseRequested,
    ensures
        !shell_run(s, events).quitting,
        !shell_run(s, events).window_destroyed,
        shell_run(s, events).exit_code is None,
        events.len() > 0 ==> !shell_run(s, events).window_visible,
    decreases events.len(),
{
    if events.len() > 0 {
        let s1 = shell_step(s, events[0]);
        let rest = events.subrange(1, events.len() as int);
        assert(forall|i: int| 0 <= i < rest.len() ==> rest[i] is CloseRequested);
        lemma_closes_only_hide(s1, rest);
    }
}

/// From startup, close requests alone leave the window hidden but
/// intact and the process alive.
pub proof fn lemma_startup_closes_only_hide(events: Seq<ShellEvent>)
    requires
        forall|i: int| 0 <= i < events.len() ==> events[i] is CloseRequested,
    ensures
        !shell_run(initial_shell(), events).window_destroyed,
        shell_run(initial_shell(), events).exit_code is None,
        events.len() > 0 ==> !shell_run(initial_shell(), events).window_visible,
{
    lemma_closes_only_hide(initial_shell(), events);
}

/// An explicit quit from the tray menu sets the quitting flag and
/// begins process exit with code 0.
pub proof fn lemma_quit_sets_flag_and_exits(s: ShellState)
    ensures
        shell_step(s, ShellEvent::Menu("quit"@)).quitting,
        shell_step(s, ShellEvent::Menu("quit"@)).exit_code == Some(0i64),
{
}

/// Once the window is destroyed it stays destroyed, and no further
/// close request proceeds.
pub proof fn lemma_no_close_after_destroy(s: ShellState, events: Seq<ShellEvent>)
    requires
        s.window_destroyed,
    ensures
        closes_allowed(s, events) == 0,
        shell_run(s, events).window_destroyed,
    decreases events.len(),
{
    if events.len() > 0 {
        lemma_no_close_after_destroy(
            shell_step(s, events[0]),
            events.subrange(1, events.len() as int),
        );
    }
}

/// After quitting has begun, exactly one subsequent close request (if
/// any arrives) is allowed to proceed; every later one finds the
/// window already gone.
pub proof fn lemma_one_close_proceeds_after_quit(s: ShellState, events: Seq<ShellEvent>)
    requires
        s.quitting,
        !s.window_destroyed,
    ensures
        closes_allowed(s, events) <= 1,
        (exists|i: int| 0 <= i < events.len() && events[i] is CloseRequested) ==> closes_allowed(
            s,
            events,
        ) == 1,
    decreases events.len(),
{
    if events.len() > 0 {
        let s1 = shell_step(s, events[0]);
        let rest = events.subrange(1, events.len() as int);
        if events[0] is CloseRequested {
            assert(close_proceeds(s, events[0]));
            lemma_no_close_after_destroy(s1, rest);
        } else {
            lemma_quitting_never_cleared(s, events[0]);
            assert(!s1.window_destroyed);
            lemma_one_close_proceeds_after_quit(s1, rest);
            if exists|i: int| 0 <= i < events.len() && events[i] is CloseRequested {
                let i = choose|i: int| 0 <= i < events.len() && events[i] is CloseRequested;
                assert(rest[i - 1] is CloseRequested);
            }
        }
    }
}

} // verus!
