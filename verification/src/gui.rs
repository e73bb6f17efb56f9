//! The GUI library's side: the input that it takes and the output that it
//! hands back.

use vstd::prelude::*;
use crate::units::{Pos2, Scalar, Vec2};

verus! {

/// The keyboard keys that the GUI library knows.
#[derive(Clone, Copy, Debug, PartialEq, Eq, Structural)]
pub enum Key {
    ArrowDown,
    ArrowLeft,
    ArrowRight,
    ArrowUp,
    Escape,
    Tab,
    Backspace,
    Enter,
    Space,
    Insert,
    Delete,
    Home,
    End,
    PageUp,
    PageDown,
    Num0,
    Num1,
    Num2,
    Num3,
    Num4,
    Num5,
    Num6,
    Num7,
    Num8,
    Num9,
    A,
    B,
    C,
    D,
    E,
    F,
    G,
    H,
    I,
    J,
    K,
    L,
    M,
    N,
    O,
    P,
    Q,
    R,
    S,
    T,
    U,
    V,
    W,
    X,
    Y,
    Z,
}

/// The buttons of a pointer.
#[derive(Clone, Copy, Debug, PartialEq, Eq, Structural)]
pub enum PointerButton {
    /// Usually the left button.
    Primary,
    /// Usually the right button.
    Secondary,
    /// Usually the middle button.
    Middle,
}

/// The state of the modifier keys as the GUI library sees it.
#[derive(Clone, Copy, Debug, PartialEq, Eq, Structural)]
pub struct Modifiers {
    pub alt: bool,
    pub ctrl: bool,
    pub shift: bool,
    /// The command key of a Mac; always `false` elsewhere.
    pub mac_cmd: bool,
    /// The key for shortcuts: the command key on a Mac, control elsewhere.
    pub command: bool,
}

impl Modifiers {
    /// No modifier key is held down.
    pub open spec fn spec_none() -> Modifiers {
        Modifiers { alt: false, ctrl: false, shift: false, mac_cmd: false, command: false }
    }

    #[verifier::when_used_as_spec(spec_none)]
    pub fn none() -> (m: Modifiers)
        ensures
            m == Modifiers::spec_none(),
    {
        Modifiers { alt: false, ctrl: false, shift: false, mac_cmd: false, command: false }
    }
}

/// The phase of a touch.
#[derive(Clone, Copy, Debug, PartialEq, Eq, Structural)]
pub enum TouchPhase {
    Start,
    Move,
    End,
    Cancel,
}

/// The cursor shapes that the GUI library can ask for.
#[derive(Clone, Copy, Debug, PartialEq, Eq, Structural)]
pub enum CursorIcon {
    Default,
    /// No cursor is shown.
    NoCursor,
    ContextMenu,
    Help,
    PointingHand,
    Progress,
    Wait,
    Cell,
    Crosshair,
    Text,
    VerticalText,
    Alias,
    Copy,
    Move,
    NoDrop,
    NotAllowed,
    Grab,
    Grabbing,
    AllScroll,
    ResizeHorizontal,
    ResizeNeSw,
    ResizeNwSe,
    ResizeVertical,
    ZoomIn,
    ZoomOut,
}

/// An input event for the GUI library.
#[derive(Clone, Debug, PartialEq, Eq)]
pub enum Event {
    /// The user asked to copy the selection.
    Copy,
    /// The user asked to cut the selection.
    Cut,
    /// Text was typed or pasted.
    Text(String),
    /// A key went down or up.
    Key { key: Key, pressed: bool, modifiers: Modifiers },
    /// The pointer moved.
    PointerMoved(Pos2),
    /// A pointer button went down or up.
    PointerButton { pos: Pos2, button: PointerButton, pressed: bool, modifiers: Modifiers },
    /// The pointer left the window.
    PointerGone,
    /// A finger or pen touched the screen.
    Touch { device_id: u64, id: u64, phase: TouchPhase, pos: Pos2, force: Scalar },
}

/// An input event as a mathematical value: text is a sequence of characters.
pub enum EventView {
    Copy,
    Cut,
    Text(Seq<char>),
    Key { key: Key, pressed: bool, modifiers: Modifiers },
    PointerMoved(Pos2),
    PointerButton { pos: Pos2, button: PointerButton, pressed: bool, modifiers: Modifiers },
    PointerGone,
    Touch { device_id: u64, id: u64, phase: TouchPhase, pos: Pos2, force: Scalar },
}

impl View for Event {
    type V = EventView;

    open spec fn view(&self) -> EventView {
        match *self {
            Event::Copy => EventView::Copy,
            Event::Cut => EventView::Cut,
            Event::Text(text) => EventView::Text(text@),
            Event::Key { key, pressed, modifiers } => EventView::Key { key, pressed, modifiers },
            Event::PointerMoved(pos) => EventView::PointerMoved(pos),
            Event::PointerButton { pos, button, pressed, modifiers } => EventView::PointerButton {
                pos,
                button,
                pressed,
                modifiers,
            },
            Event::PointerGone => EventView::PointerGone,
            Event::Touch { device_id, id, phase, pos, force } => EventView::Touch {
                device_id,
                id,
                phase,
                pos,
                force,
            },
        }
    }
}

/// The input that has gathered for the next frame.
#[derive(Clone, Debug, PartialEq, Eq)]
pub struct RawInput {
    /// How far the user scrolled, in points.
    pub scroll_delta: Vec2,
    /// The size of the screen in points, where it changed.
    pub screen_size: Option<Vec2>,
    /// Physical pixels per point, where it changed.
    pub pixels_per_point: Option<Scalar>,
    /// The events, oldest first.
    pub events: Vec<Event>,
}

/// The gathered input as a mathematical value.
pub struct RawInputView {
    pub scroll_delta: Vec2,
    pub screen_size: Option<Vec2>,
    pub pixels_per_point: Option<Scalar>,
    pub events: Seq<EventView>,
}

impl View for RawInput {
    type V = RawInputView;

    open spec fn view(&self) -> RawInputView {
        RawInputView {
            scroll_delta: self.scroll_delta,
            screen_size: self.screen_size,
            pixels_per_point: self.pixels_per_point,
            events: self.events@.map_values(|e: Event| e@),
        }
    }
}

impl RawInputView {
    /// No input at all.
    pub open spec fn empty() -> RawInputView {
        RawInputView {
            scroll_delta: Vec2::spec_zero(),
            screen_size: None,
            pixels_per_point: None,
            events: Seq::empty(),
        }
    }
}

/// What the GUI library asks for at the end of a frame.
#[derive(Clone, Debug, PartialEq, Eq)]
pub struct Output {
    /// The cursor shape to show.
    pub cursor_icon: CursorIcon,
    /// A URL to open, if any.
    pub open_url: Option<String>,
    /// Text to put on the clipboard; empty where there is none.
    pub copied_text: String,
    /// Whether the GUI wants to be painted again soon.
    pub needs_repaint: bool,
}

} // verus!
