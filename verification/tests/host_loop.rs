use surface_host::host::{Host, HostAction, ResumeAction, WinEvent};

#[test]
fn first_activation_creates_the_surface() {
    let mut h = Host::new();
    assert!(!h.surface);
    assert!(!h.exited);
    assert_eq!(h.resumed(), ResumeAction::CreateSurface);
    assert!(h.surface);
}

#[test]
fn second_activation_creates_nothing() {
    let mut h = Host::new();
    assert_eq!(h.resumed(), ResumeAction::CreateSurface);
    assert_eq!(h.resumed(), ResumeAction::KeepSurface);
    assert_eq!(h.resumed(), ResumeAction::KeepSurface);
    assert!(h.surface);
}

#[test]
fn close_request_terminates_the_loop() {
    let mut h = Host::new();
    h.resumed();
    assert_eq!(h.window_event(WinEvent::CloseRequested), HostAction::ExitLoop);
    assert!(h.exited);
}

#[test]
fn redraw_request_schedules_exactly_one_redraw() {
    let mut h = Host::new();
    h.resumed();
    assert_eq!(h.window_event(WinEvent::RedrawRequested), HostAction::ScheduleRedraw);
    assert!(!h.exited);
    assert!(h.surface);
    assert_eq!(h.window_event(WinEvent::RedrawRequested), HostAction::ScheduleRedraw);
}

#[test]
fn other_events_are_ignored() {
    let mut h = Host::new();
    h.resumed();
    assert_eq!(h.window_event(WinEvent::Other), HostAction::Ignore);
    assert!(!h.exited);
    assert!(h.surface);
}
