use sample_app::lifecycle::App;
use sample_app::lifecycle::EventAction;
use sample_app::lifecycle::WindowEventKind;

#[test]
fn starts_uninitialized() {
    let a = App::new();
    assert_eq!(a, App::Uninit);
    assert!(a.wants_window());
    assert_eq!(a.current_window(), None);
}

#[test]
fn events_before_resume_leave_state_unchanged() {
    let mut a = App::new();
    assert_eq!(
        a.on_window_event(1, WindowEventKind::CloseRequested),
        EventAction::WarnNotInitialized
    );
    assert_eq!(
        a.on_window_event(2, WindowEventKind::RedrawRequested),
        EventAction::WarnNotInitialized
    );
    assert_eq!(a.on_window_event(3, WindowEventKind::Other), EventAction::WarnNotInitialized);
    assert_eq!(a, App::Uninit);
    assert_eq!(a.current_window(), None);
}

#[test]
fn successful_resume_owns_created_window() {
    let mut a = App::new();
    assert!(a.wants_window());
    let exit = a.apply_resume_outcome(Some(41));
    assert!(!exit);
    assert_eq!(a, App::Init { win: 41 });
    assert_eq!(a.current_window(), Some(41));
    assert!(!a.wants_window());
}

#[test]
fn redraw_keeps_window() {
    let mut a = App::new();
    a.apply_resume_outcome(Some(1));
    let act = a.on_window_event(1, WindowEventKind::RedrawRequested);
    assert_eq!(act, EventAction::Ignore);
    assert_eq!(a, App::Init { win: 1 });
}

#[test]
fn close_requested_destroys_and_exits_once() {
    let mut a = App::new();
    let mut exits: usize = 0;
    if a.apply_resume_outcome(Some(1)) {
        exits += 1;
    }
    let act = a.on_window_event(1, WindowEventKind::CloseRequested);
    assert_eq!(act, EventAction::HideAndExit);
    if act == EventAction::HideAndExit {
        exits += 1;
    }
    assert_eq!(a, App::Destroyed);
    // Later events ask for nothing more: the exit was requested exactly once.
    if a.on_window_event(1, WindowEventKind::CloseRequested) == EventAction::HideAndExit {
        exits += 1;
    }
    if a.on_window_event(2, WindowEventKind::Other) == EventAction::HideAndExit {
        exits += 1;
    }
    assert_eq!(exits, 1);
}

#[test]
fn failed_creation_requests_exit() {
    let mut a = App::new();
    assert!(a.wants_window());
    let exit = a.apply_resume_outcome(None);
    assert!(exit);
    assert_eq!(a, App::Uninit);
    assert_eq!(a.current_window(), None);
}

#[test]
fn mismatched_window_is_warned_and_ignored() {
    let mut a = App::new();
    a.apply_resume_outcome(Some(1));
    let act = a.on_window_event(2, WindowEventKind::CloseRequested);
    assert_eq!(act, EventAction::WarnUnknownWindow);
    assert_eq!(a, App::Init { win: 1 });
    assert_eq!(a.current_window(), Some(1));
}

#[test]
fn resume_after_init_is_ignored() {
    let mut a = App::new();
    a.apply_resume_outcome(Some(9));
    assert!(!a.wants_window());
    let mut d = App::new();
    d.apply_resume_outcome(Some(9));
    d.on_window_event(9, WindowEventKind::CloseRequested);
    assert!(!d.wants_window());
}

#[test]
fn destroyed_ignores_all_events() {
    let mut a = App::new();
    a.apply_resume_outcome(Some(5));
    a.on_window_event(5, WindowEventKind::CloseRequested);
    assert_eq!(a, App::Destroyed);
    assert_eq!(a.on_window_event(5, WindowEventKind::CloseRequested), EventAction::Ignore);
    assert_eq!(a.on_window_event(5, WindowEventKind::RedrawRequested), EventAction::Ignore);
    assert_eq!(a.on_window_event(7, WindowEventKind::Other), EventAction::Ignore);
    assert_eq!(a, App::Destroyed);
    assert_eq!(a.current_window(), None);
}
