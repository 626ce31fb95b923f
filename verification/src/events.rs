//! Window and input events as plain values, and the per-event decisions of
//! the window-persist loop.

use vstd::prelude::*;

verus! {

/// The numeric code of the Escape key, as the windowing toolkit numbers its
/// key codes.
pub const KEY_CODE_ESCAPE: u64 = 36;

/// The modifier keys that are currently pressed.
#[derive(Copy, Clone, PartialEq, Eq, Structural, Debug)]
pub struct Modifiers {
    /// The "shift" key.
    pub shift: bool,

    /// The "control" key.
    pub ctrl: bool,

    /// The "alt" key.
    pub alt: bool,

    /// The "windows" key on PC and "command" key on Mac.
    pub logo: bool,
}

impl Modifiers {
    /// No modifier key pressed.
    pub open spec fn none_spec() -> Modifiers {
        Modifiers { shift: false, ctrl: false, alt: false, logo: false }
    }

    /// Returns the state with no modifier key pressed.
    pub fn none() -> (r: Modifiers)
        ensures
            r == Modifiers::none_spec(),
    {
        Modifiers { shift: false, ctrl: false, alt: false, logo: false }
    }
}

impl Default for Modifiers {
    /// No modifier key pressed.
    fn default() -> (r: Modifiers)
        ensures
            r == Modifiers::none_spec(),
    {
        Modifiers::none()
    }
}

/// One window or input event, reduced to the plain values the input
/// summarization reads. Keys and mouse buttons carry the numeric code the
/// caller assigned them.
#[derive(Copy, Clone, PartialEq, Eq, Structural, Debug)]
pub enum InputEvent {
    /// The user asked to close the window.
    CloseRequested,
    /// A key with a recognized key code changed state.
    Key { code: u64, pressed: bool },
    /// A mouse button changed state.
    MouseButton { button: u64, pressed: bool },
    /// The set of pressed modifier keys changed.
    ModifiersChanged { modifiers: Modifiers },
    /// The window was resized to the given physical size.
    Resized { width: u32, height: u32 },
    /// Any other event; the input summarization ignores it.
    Other,
}

/// What an event loop iteration should do next: stop, sleep until the next
/// event, or run again immediately.
#[derive(Copy, Clone, PartialEq, Eq, Structural, Debug)]
pub enum FlowCommand {
    /// Leave the event loop.
    Exit,
    /// Block until the next event arrives.
    Wait,
    /// Run the loop again without waiting.
    Poll,
}

/// What the window-persist loop does with one event.
#[derive(Copy, Clone, PartialEq, Eq, Debug)]
pub struct PersistStep {
    /// Leave the event loop: the window was closed or Escape was pressed.
    pub exit: bool,

    /// The viewport must be resized to this physical size before redrawing.
    pub resize: Option<(u32, u32)>,

    /// The buffer must be drawn again.
    pub redraw: bool,
}

/// Holds when `event` asks the persist loop to exit: a close request, or
/// Escape going down.
pub open spec fn persist_exit(event: InputEvent) -> bool {
    ||| event is CloseRequested
    ||| (event matches InputEvent::Key { code, pressed } && code == KEY_CODE_ESCAPE && pressed)
}

/// The viewport size carried by a resize event, if `event` is one.
pub open spec fn persist_resize(event: InputEvent) -> Option<(u32, u32)> {
    match event {
        InputEvent::Resized { width, height } => Some((width, height)),
        _ => None,
    }
}

/// Whether `event` is a request to close the window. The input-polling loop
/// exits on such an event, whatever its callback answers that frame.
pub fn close_requested(event: &InputEvent) -> (r: bool)
    ensures
        r == (*event is CloseRequested),
{
    match *event {
        InputEvent::CloseRequested => true,
        _ => false,
    }
}

/// Decides what the window-persist loop does with one event: exit on a close
/// request or Escape, resize and redraw on a resize, and otherwise redraw
/// only when `always_redraw` asks for it.
pub fn persist_decision(event: &InputEvent, always_redraw: bool) -> (r: PersistStep)
    ensures
        r.exit == persist_exit(*event),
        r.resize == persist_resize(*event),
        r.redraw == (persist_resize(*event) is Some || always_redraw),
{
    let mut exit = false;
    let mut resize: Option<(u32, u32)> = None;
    match *event {
        InputEvent::CloseRequested => {
            exit = true;
        },
        InputEvent::Key { code, pressed } => {
            if code == KEY_CODE_ESCAPE && pressed {
                exit = true;
            }
        },
        InputEvent::Resized { width, height } => {
            resize = Some((width, height));
        },
        _ => {},
    }
    let redraw = resize.is_some() || always_redraw;
    PersistStep { exit, resize, redraw }
}

} // verus!
