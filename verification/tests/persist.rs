use mini_gl_fb::events::{persist_decision, KEY_CODE_ESCAPE};
use mini_gl_fb::InputEvent;

#[test]
fn close_request_exits() {
    let step = persist_decision(&InputEvent::CloseRequested, false);
    assert!(step.exit);
    assert_eq!(step.resize, None);
    assert!(!step.redraw);
}

#[test]
fn escape_press_exits() {
    let step = persist_decision(&InputEvent::Key { code: KEY_CODE_ESCAPE, pressed: true }, false);
    assert!(step.exit);
}

#[test]
fn escape_release_does_not_exit() {
    let step = persist_decision(&InputEvent::Key { code: KEY_CODE_ESCAPE, pressed: false }, false);
    assert!(!step.exit);
}

#[test]
fn other_keys_do_not_exit() {
    let step = persist_decision(&InputEvent::Key { code: 10, pressed: true }, false);
    assert!(!step.exit);
    assert!(!step.redraw);
}

#[test]
fn resize_resizes_and_redraws() {
    let step = persist_decision(&InputEvent::Resized { width: 800, height: 600 }, false);
    assert!(!step.exit);
    assert_eq!(step.resize, Some((800, 600)));
    assert!(step.redraw);
}

#[test]
fn always_redraw_redraws_on_any_event() {
    let step = persist_decision(&InputEvent::Other, true);
    assert!(!step.exit);
    assert_eq!(step.resize, None);
    assert!(step.redraw);
}

#[test]
fn quiet_events_do_nothing() {
    let step = persist_decision(&InputEvent::Other, false);
    assert!(!step.exit);
    assert_eq!(step.resize, None);
    assert!(!step.redraw);
}
