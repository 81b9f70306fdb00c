use tada_core::controller::{
    on_close_requested, on_menu_event, on_reopen, on_tray_icon_click, AppState, CloseDecision,
    TrayAction, TrayButton,
};

#[test]
fn close_requests_only_hide_while_active() {
    let st = AppState::new();
    assert!(!st.is_quitting());
    // every close request while not quitting is vetoed and hides the window
    for _ in 0..5 {
        assert_eq!(on_close_requested(&st), CloseDecision::HideAndVeto);
    }
    assert!(!st.is_quitting());
}

#[test]
fn quit_then_close_is_allowed() {
    let mut st = AppState::new();
    let action = on_menu_event(&mut st, "quit");
    assert_eq!(action, TrayAction::ExitApp);
    assert!(st.is_quitting());
    // the one close request arriving during teardown proceeds
    assert_eq!(on_close_requested(&st), CloseDecision::AllowClose);
}

#[test]
fn quitting_flag_is_never_cleared() {
    let mut st = AppState::new();
    on_menu_event(&mut st, "quit");
    assert!(st.is_quitting());
    on_menu_event(&mut st, "show");
    assert!(st.is_quitting());
    on_menu_event(&mut st, "anything-else");
    assert!(st.is_quitting());
    assert_eq!(on_close_requested(&st), CloseDecision::AllowClose);
    assert!(st.is_quitting());
}

#[test]
fn menu_dispatch_routes_ids() {
    let mut st = AppState::new();
    assert_eq!(on_menu_event(&mut st, "show"), TrayAction::ShowWindow);
    assert!(!st.is_quitting());
    assert_eq!(on_menu_event(&mut st, "unknown"), TrayAction::Ignore);
    assert!(!st.is_quitting());
    assert_eq!(on_menu_event(&mut st, ""), TrayAction::Ignore);
    assert_eq!(on_menu_event(&mut st, "quit"), TrayAction::ExitApp);
    assert!(st.is_quitting());
}

#[test]
fn tray_click_routes_buttons() {
    assert_eq!(on_tray_icon_click(TrayButton::Left), TrayAction::ShowWindow);
    assert_eq!(on_tray_icon_click(TrayButton::Right), TrayAction::Ignore);
    assert_eq!(on_tray_icon_click(TrayButton::Middle), TrayAction::Ignore);
}

#[test]
fn reopen_shows_window() {
    assert_eq!(on_reopen(), TrayAction::ShowWindow);
}

#[test]
fn request_quit_sets_flag() {
    let mut st = AppState::new();
    st.request_quit();
    assert!(st.is_quitting());
    st.request_quit();
    assert!(st.is_quitting());
}
