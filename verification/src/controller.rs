//! Tray/window controller: decides, on every window-close request,
//! whether the process really exits or the window is merely hidden to
//! the tray, and routes tray-menu and tray-icon events to actions.

use vstd::prelude::*;
use crate::text::str_eq;

verus! {

/// Process-wide quitting flag, owned by the application state container.
/// It starts false and is set (never cleared) when the user explicitly
/// asks to quit.
pub struct AppState {
    pub quitting: bool,
}

/// What the close-request handler tells the windowing layer to do.
#[derive(PartialEq, Eq, Structural, Clone, Copy, Debug)]
pub enum CloseDecision {
    /// Veto the close and hide the window instead: the process stays alive.
    HideAndVeto,
    /// Let the close proceed; only reached once quitting has begun.
    AllowClose,
}

/// Action that a tray-menu or tray-icon event resolves to.
#[derive(PartialEq, Eq, Structural, Clone, Copy, Debug)]
pub enum TrayAction {
    /// Terminate the process with exit code 0.
    ExitApp,
    /// Make the primary window visible and give it focus.
    ShowWindow,
    /// Not an event this controller reacts to.
    Ignore,
}

/// Mouse button of a tray-icon click, as delivered by the host.
#[derive(PartialEq, Eq, Structural, Clone, Copy, Debug)]
pub enum TrayButton {
    Left,
    Right,
    Middle,
}

/// What a close request does given the current quitting flag.
pub open spec fn close_decision_spec(quitting: bool) -> CloseDecision {
    if quitting {
        CloseDecision::AllowClose
    } else {
        CloseDecision::HideAndVeto
    }
}

/// How a tray-menu item id is routed: "quit" exits, "show" shows the
/// window, anything else is ignored.
pub open spec fn menu_action_spec(id: Seq<char>) -> TrayAction {
    if id == "quit"@ {
        TrayAction::ExitApp
    } else if id == "show"@ {
        TrayAction::ShowWindow
    } else {
        TrayAction::Ignore
    }
}

/// How a tray-icon click is routed: a primary (left) click shows the
/// window, any other button is ignored.
pub open spec fn tray_click_spec(button: TrayButton) -> TrayAction {
    match button {
        TrayButton::Left => TrayAction::ShowWindow,
        _ => TrayAction::Ignore,
    }
}

impl AppState {
    /// Fresh state at startup: not quitting.
    pub fn new() -> (s: AppState)
        ensures
            !s.quitting,
    {
        AppState { quitting: false }
    }

    /// Records that an explicit quit was requested. The flag is never
    /// cleared again.
    pub fn request_quit(&mut self)
        ensures
            final(self).quitting,
    {
        self.quitting = true;
    }

    /// Reads the quitting flag.
    pub fn is_quitting(&self) -> (b: bool)
        ensures
            b == self.quitting,
    {
        self.quitting
    }
}

/// Close-request handler decision: while not quitting the close is
/// vetoed and the window hidden; once quitting it proceeds.
pub fn on_close_requested(state: &AppState) -> (d: CloseDecision)
    ensures
        d == close_decision_spec(state.quitting),
{
    if state.is_quitting() {
        CloseDecision::AllowClose
    } else {
        CloseDecision::HideAndVeto
    }
}

/// Tray-menu dispatcher: routes "quit" to the quit action (setting the
/// quitting flag first) and "show" to the show action. The flag is set
/// exactly on a "quit" click and never cleared.
pub fn on_menu_event(state: &mut AppState, menu_id: &str) -> (a: TrayAction)
    ensures
        a == menu_action_spec(menu_id@),
        final(state).quitting == (old(state).quitting || menu_id@ == "quit"@),
{
    if str_eq(menu_id, "quit") {
        state.request_quit();
        TrayAction::ExitApp
    } else if str_eq(menu_id, "show") {
        TrayAction::ShowWindow
    } else {
        TrayAction::Ignore
    }
}

/// Tray-icon click dispatcher: a left click shows the window.
pub fn on_tray_icon_click(button: TrayButton) -> (a: TrayAction)
    ensures
        a == tray_click_spec(button),
{
    match button {
        TrayButton::Left => TrayAction::ShowWindow,
        _ => TrayAction::Ignore,
    }
}

/// Reopen gesture (persistent dock/launcher platforms): always a show.
pub fn on_reopen() -> (a: TrayAction)
    ensures
        a == TrayAction::ShowWindow,
{
    TrayAction::ShowWindow
}

} // verus!
