use mini_gl_fb::events::close_requested;
use mini_gl_fb::{BasicInput, FlowCommand, InputEvent, Modifiers};

#[test]
fn default_snapshot_is_empty() {
    let input = BasicInput::default();
    assert!(input.mouse.is_empty());
    assert!(input.keys.is_empty());
    assert_eq!(input.modifiers, Modifiers::none());
    assert!(!input.resized);
    assert!(!input.wait);
    assert!(input.wakeups.is_empty());
    assert_eq!(input.wakeup, None);
    assert_eq!(input.next_wakeup_id, 0);
}

#[test]
fn key_press_release_cycle() {
    let mut input = BasicInput::new();
    input.apply_event(&InputEvent::Key { code: 5, pressed: true });
    assert!(input.key_pressed(5));
    assert!(input.key_is_down(5));
    assert!(!input.key_released(5));
    assert!(!input.key_pressed(6));

    input.begin_frame();
    assert!(!input.key_pressed(5));
    assert!(input.key_is_down(5));

    input.apply_event(&InputEvent::Key { code: 5, pressed: false });
    assert!(input.key_released(5));
    assert!(!input.key_is_down(5));

    input.begin_frame();
    assert!(!input.key_released(5));
}

#[test]
fn mouse_press_release_cycle() {
    let mut input = BasicInput::new();
    input.apply_event(&InputEvent::MouseButton { button: 0, pressed: true });
    assert!(input.mouse_pressed(0));
    assert!(input.mouse_is_down(0));
    assert!(!input.mouse_released(0));
    assert!(!input.mouse_pressed(1));

    input.begin_frame();
    assert!(!input.mouse_pressed(0));
    assert!(input.mouse_is_down(0));

    input.apply_event(&InputEvent::MouseButton { button: 0, pressed: false });
    assert!(input.mouse_released(0));

    input.begin_frame();
    assert!(!input.mouse_released(0));
    assert!(!input.mouse_is_down(0));
}

#[test]
fn unseen_buttons_read_as_never_pressed() {
    let input = BasicInput::new();
    assert!(!input.key_pressed(1));
    assert!(!input.key_is_down(1));
    assert!(!input.key_released(1));
    assert!(!input.mouse_pressed(1));
    assert!(!input.mouse_is_down(1));
    assert!(!input.mouse_released(1));
}

#[test]
fn modifiers_event_replaces_the_set() {
    let mut input = BasicInput::new();
    let modifiers = Modifiers { shift: true, ctrl: false, alt: true, logo: false };
    let resize = input.apply_event(&InputEvent::ModifiersChanged { modifiers });
    assert_eq!(resize, None);
    assert_eq!(input.modifiers, modifiers);
}

#[test]
fn resize_event_reports_the_size_and_sets_the_flag() {
    let mut input = BasicInput::new();
    let resize = input.apply_event(&InputEvent::Resized { width: 640, height: 480 });
    assert_eq!(resize, Some((640, 480)));
    assert!(input.resized);
}

#[test]
fn close_requests_are_recognized() {
    assert!(close_requested(&InputEvent::CloseRequested));
    assert!(!close_requested(&InputEvent::Other));
    assert!(!close_requested(&InputEvent::Key { code: 1, pressed: true }));
    assert!(!close_requested(&InputEvent::Resized { width: 1, height: 1 }));
}

#[test]
fn close_and_other_events_change_nothing() {
    let mut input = BasicInput::new();
    input.apply_event(&InputEvent::Key { code: 3, pressed: true });
    let before = input.clone();
    assert_eq!(input.apply_event(&InputEvent::CloseRequested), None);
    assert_eq!(input, before);
    assert_eq!(input.apply_event(&InputEvent::Other), None);
    assert_eq!(input, before);
}

#[test]
fn should_notify_always_when_not_waiting() {
    let input = BasicInput::new();
    let previous = Some(input.clone());
    assert!(input.should_notify(&previous));
}

#[test]
fn should_notify_when_waiting_only_on_change() {
    let mut input = BasicInput::new();
    input.wait = true;
    assert!(input.should_notify(&None));
    let unchanged = Some(input.clone());
    assert!(!input.should_notify(&unchanged));
    input.apply_event(&InputEvent::Key { code: 2, pressed: true });
    assert!(input.should_notify(&unchanged));
}

#[test]
fn resolve_flow_follows_the_handler_and_the_wait_flag() {
    let mut input = BasicInput::new();
    assert_eq!(input.resolve_flow(true, false), FlowCommand::Exit);
    assert_eq!(input.resolve_flow(true, true), FlowCommand::Poll);
    assert_eq!(input.resolve_flow(false, true), FlowCommand::Poll);
    input.wait = true;
    assert_eq!(input.resolve_flow(true, true), FlowCommand::Wait);
    assert_eq!(input.resolve_flow(false, true), FlowCommand::Wait);
    assert_eq!(input.resolve_flow(true, false), FlowCommand::Exit);
}

#[test]
fn snapshots_compare_by_state() {
    let mut a = BasicInput::new();
    let mut b = BasicInput::new();
    assert_eq!(a, b);
    a.apply_event(&InputEvent::Key { code: 9, pressed: true });
    assert_ne!(a, b);
    b.apply_event(&InputEvent::Key { code: 9, pressed: true });
    assert_eq!(a, b);
    a.schedule_wakeup(4);
    assert_ne!(a, b);
}
