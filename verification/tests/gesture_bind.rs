use tty_sender::gesture::{DragController, GestureEvent};
use tty_sender::notify::{MessageLog, Severity};
use tty_sender::session::SessionState;

#[test]
fn press_starts_the_drag_and_captures_the_pointer() {
    let mut c = DragController::new();
    let mut s = SessionState::new();
    let mut log = MessageLog::new();
    let r = c.handle_gesture(&mut s, GestureEvent::PrimaryDown, &mut log);
    assert!(c.dragging);
    assert!(r.capture);
    assert!(!r.release_capture);
    assert!(r.pass_through);
    assert_eq!(log.len(), 0);
}

#[test]
fn moves_during_a_drag_are_consumed() {
    let mut c = DragController::new();
    let mut s = SessionState::new();
    let mut log = MessageLog::new();
    c.handle_gesture(&mut s, GestureEvent::PrimaryDown, &mut log);
    let r = c.handle_gesture(&mut s, GestureEvent::PointerMove, &mut log);
    assert!(!r.pass_through);
    assert!(c.dragging);
}

#[test]
fn moves_outside_a_drag_pass_through() {
    let mut c = DragController::new();
    let mut s = SessionState::new();
    let mut log = MessageLog::new();
    let r = c.handle_gesture(&mut s, GestureEvent::PointerMove, &mut log);
    assert!(r.pass_through);
}

#[test]
fn release_over_a_window_binds_it() {
    let mut c = DragController::new();
    let mut s = SessionState::new();
    let mut log = MessageLog::new();
    c.handle_gesture(&mut s, GestureEvent::PrimaryDown, &mut log);
    let r = c.handle_gesture(
        &mut s,
        GestureEvent::PrimaryUp { resolved: Some(42) },
        &mut log,
    );
    assert!(!c.dragging);
    assert!(r.release_capture);
    assert_eq!(r.detach, None);
    assert_eq!(s.target, Some(42));
    assert_eq!(log.len(), 1);
    assert_eq!(log.entry(0).severity, Severity::Info);
    assert_eq!(log.entry(0).text.as_str(), "target window bound");
}

#[test]
fn failed_resolution_leaves_the_target_unchanged() {
    let mut c = DragController::new();
    let mut s = SessionState::new();
    s.target = Some(7);
    let mut log = MessageLog::new();
    c.handle_gesture(&mut s, GestureEvent::PrimaryDown, &mut log);
    let r = c.handle_gesture(&mut s, GestureEvent::PrimaryUp { resolved: None }, &mut log);
    assert!(!c.dragging);
    assert!(r.release_capture);
    assert_eq!(s.target, Some(7));
    assert_eq!(log.len(), 1);
    assert_eq!(log.entry(0).severity, Severity::Error);
    assert_eq!(log.entry(0).text.as_str(), "no window under the release point");
}

#[test]
fn rebinding_detaches_the_old_thread_exactly_once() {
    let mut c = DragController::new();
    let mut s = SessionState::new();
    s.target = Some(7);
    s.attached = Some(5);
    let mut log = MessageLog::new();
    c.handle_gesture(&mut s, GestureEvent::PrimaryDown, &mut log);
    let r = c.handle_gesture(
        &mut s,
        GestureEvent::PrimaryUp { resolved: Some(42) },
        &mut log,
    );
    // Exactly one detach of the old thread; nothing is attached afterwards.
    assert_eq!(r.detach, Some(5));
    assert_eq!(s.attached, None);
    assert_eq!(s.target, Some(42));

    // The next focus pass requests at most one attach, of the new thread,
    // and no further detach.
    let plan = s.begin_attach(1, 9);
    assert_eq!(plan.detach, None);
    assert_eq!(plan.attach, Some(9));
}

#[test]
fn release_without_a_drag_passes_through_without_binding() {
    let mut c = DragController::new();
    let mut s = SessionState::new();
    let mut log = MessageLog::new();
    let r = c.handle_gesture(
        &mut s,
        GestureEvent::PrimaryUp { resolved: Some(42) },
        &mut log,
    );
    assert!(r.pass_through);
    assert!(!r.release_capture);
    assert_eq!(s.target, None);
    assert_eq!(log.len(), 0);
}

#[test]
fn other_gestures_pass_through() {
    let mut c = DragController::new();
    let mut s = SessionState::new();
    let mut log = MessageLog::new();
    let r = c.handle_gesture(&mut s, GestureEvent::Other, &mut log);
    assert!(r.pass_through);
    assert!(!c.dragging);
}
