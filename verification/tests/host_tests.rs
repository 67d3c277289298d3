//! Tests of the host loops' decisions.

use physics_core::host::{
    extent_from_signed, on_window_event, HostCommand, HostEvent, HostLoop, WindowCommand, WindowEvent, WindowInfo,
};

const WINDOW: WindowInfo = WindowInfo { id: 0x7000_1000, width: 1080, height: 2400 };
const OTHER: WindowInfo = WindowInfo { id: 0x7000_2000, width: 2400, height: 1080 };

#[test]
fn host_loop_starts_running() {
    let state = HostLoop::new();
    assert!(!state.quit);
    assert!(!state.suspended);
    assert!(state.redraw_requested);
    assert!(!state.waiting_logged);
}

#[test]
fn destroy_shuts_down_and_ends_the_loop() {
    let mut state = HostLoop::new();
    assert_eq!(state.on_event(HostEvent::Destroy, Some(WINDOW.id)), HostCommand::Shutdown);
    assert!(state.quit);
    for event in [HostEvent::Resume, HostEvent::Pause, HostEvent::RedrawNeeded, HostEvent::Other] {
        state.on_event(event, None);
        assert!(state.quit);
    }
}

#[test]
fn terminate_window_shuts_down_and_goes_on() {
    let mut state = HostLoop::new();
    let before = state;
    assert_eq!(state.on_event(HostEvent::TerminateWindow, Some(WINDOW.id)), HostCommand::Shutdown);
    assert_eq!(state, before);
}

#[test]
fn pause_and_resume_suspend_the_frames() {
    let mut state = HostLoop::new();
    assert!(state.frame_due(true));
    assert_eq!(state.on_event(HostEvent::Pause, None), HostCommand::Nothing);
    assert!(state.suspended);
    assert!(!state.frame_due(true));
    assert_eq!(state.on_event(HostEvent::Resume, None), HostCommand::Nothing);
    assert!(!state.suspended);
    assert!(state.frame_due(true));
    assert!(!state.frame_due(false));
}

#[test]
fn new_window_initializes_and_resumes() {
    let mut state = HostLoop::new();
    state.on_event(HostEvent::Pause, None);
    assert_eq!(
        state.on_event(HostEvent::InitWindow { window: Some(WINDOW) }, None),
        HostCommand::Initialize { window: WINDOW }
    );
    assert!(!state.suspended);
    state.on_event(HostEvent::Pause, None);
    assert_eq!(
        state.on_event(HostEvent::InitWindow { window: None }, None),
        HostCommand::Nothing
    );
    assert!(!state.suspended);
}

#[test]
fn resize_of_the_same_window_resizes() {
    let mut state = HostLoop::new();
    let before = state;
    assert_eq!(
        state.on_event(HostEvent::WindowResized { window: Some(WINDOW) }, Some(WINDOW.id)),
        HostCommand::Resize { width: 1080, height: 2400 }
    );
    assert_eq!(state, before);
}

#[test]
fn resize_of_another_window_makes_a_new_surface() {
    let mut state = HostLoop::new();
    assert_eq!(
        state.on_event(HostEvent::WindowResized { window: Some(OTHER) }, Some(WINDOW.id)),
        HostCommand::Initialize { window: OTHER }
    );
}

#[test]
fn resize_without_a_surface_resizes() {
    let mut state = HostLoop::new();
    assert_eq!(
        state.on_event(HostEvent::WindowResized { window: Some(OTHER) }, None),
        HostCommand::Resize { width: 2400, height: 1080 }
    );
    assert_eq!(
        state.on_event(HostEvent::WindowResized { window: None }, Some(WINDOW.id)),
        HostCommand::Nothing
    );
}

#[test]
fn redraw_is_noted() {
    let mut state = HostLoop { redraw_requested: false, ..HostLoop::new() };
    assert_eq!(state.on_event(HostEvent::RedrawNeeded, None), HostCommand::Nothing);
    assert!(state.redraw_requested);
    assert_eq!(state.on_event(HostEvent::Other, None), HostCommand::Nothing);
}

#[test]
fn waiting_is_reported_once() {
    let mut state = HostLoop::new();
    assert!(!state.report_waiting(true));
    assert!(!state.waiting_logged);
    assert!(state.report_waiting(false));
    assert!(state.waiting_logged);
    assert!(!state.report_waiting(false));
    assert!(!state.report_waiting(true));
}

#[test]
fn desktop_window_events() {
    assert_eq!(on_window_event(WindowEvent::CloseRequested), WindowCommand::Exit);
    assert_eq!(
        on_window_event(WindowEvent::Resized { width: 800, height: 600 }),
        WindowCommand::Resize { width: 800, height: 600 }
    );
    assert_eq!(
        on_window_event(WindowEvent::Resized { width: 0, height: 600 }),
        WindowCommand::Nothing
    );
    assert_eq!(
        on_window_event(WindowEvent::Resized { width: 800, height: 0 }),
        WindowCommand::Nothing
    );
    assert_eq!(on_window_event(WindowEvent::RedrawRequested), WindowCommand::Frame);
    assert_eq!(on_window_event(WindowEvent::AboutToWait), WindowCommand::RequestRedraw);
    assert_eq!(on_window_event(WindowEvent::Other), WindowCommand::Nothing);
}

#[test]
fn signed_sizes_are_read_as_unsigned() {
    assert_eq!(extent_from_signed(0), 0);
    assert_eq!(extent_from_signed(1024), 1024);
    assert_eq!(extent_from_signed(i32::MAX), i32::MAX as u32);
    assert_eq!(extent_from_signed(-1), u32::MAX);
    assert_eq!(extent_from_signed(i32::MIN), 0x8000_0000);
    for signed in [-768, -1, 0, 1, 768, i32::MIN, i32::MAX] {
        assert_eq!(extent_from_signed(signed), signed as u32);
    }
}
