use playform::view_loop::{ViewAction, ViewEvent, ViewState};

#[test]
fn starts_focused_and_forwards() {
    let mut s = ViewState::new();
    assert!(s.has_focus);
    assert_eq!(s.on_event(ViewEvent::Other), ViewAction::Forward);
    assert_eq!(s.on_event(ViewEvent::OtherWindow), ViewAction::Ignore);
}

#[test]
fn focus_changes_show_cursor() {
    let mut s = ViewState::new();
    assert_eq!(s.on_event(ViewEvent::FocusLost), ViewAction::ShowCursor { visible: true });
    assert!(!s.has_focus);
    assert_eq!(s.on_event(ViewEvent::FocusGained), ViewAction::ShowCursor { visible: false });
    assert!(s.has_focus);
}

#[test]
fn unfocused_window_forwards_nothing() {
    let mut s = ViewState::new();
    s.on_event(ViewEvent::FocusLost);
    for e in [ViewEvent::Other, ViewEvent::OtherWindow, ViewEvent::FocusLost, ViewEvent::Other] {
        assert_ne!(s.on_event(e), ViewAction::Forward);
    }
    assert!(!s.has_focus);
    s.on_event(ViewEvent::FocusGained);
    assert_eq!(s.on_event(ViewEvent::Other), ViewAction::Forward);
}

#[test]
fn quit_with_or_without_focus() {
    let mut s = ViewState::new();
    assert_eq!(s.on_event(ViewEvent::Quit), ViewAction::Quit);
    s.on_event(ViewEvent::FocusLost);
    assert_eq!(s.on_event(ViewEvent::Quit), ViewAction::Quit);
    assert_eq!(s.on_event(ViewEvent::AppTerminating), ViewAction::Quit);
}

#[test]
fn focused_window_forwards_every_game_event() {
    let mut s = ViewState::new();
    for e in [ViewEvent::Other, ViewEvent::OtherWindow, ViewEvent::FocusGained, ViewEvent::Other] {
        let a = s.on_event(e);
        assert_eq!(a == ViewAction::Forward, e == ViewEvent::Other);
    }
    assert!(s.has_focus);
}
