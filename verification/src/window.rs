//! The windowing library's side of the input: the events and values that the
//! window hands in.

use vstd::prelude::*;
use crate::units::{Pos2, Scalar, Vec2};

verus! {

/// The symbolic name of a keyboard key.
#[derive(Clone, Copy, Debug, PartialEq, Eq, Structural)]
pub enum VirtualKeyCode {
    Key1,
    Key2,
    Key3,
    Key4,
    Key5,
    Key6,
    Key7,
    Key8,
    Key9,
    Key0,
    A,
    B,
    C,
    D,
    E,
    F,
    G,
    H,
    I,
    J,
    K,
    L,
    M,
    N,
    O,
    P,
    Q,
    R,
    S,
    T,
    U,
    V,
    W,
    X,
    Y,
    Z,
    Escape,
    F1,
    F2,
    F3,
    F4,
    F5,
    F6,
    F7,
    F8,
    F9,
    F10,
    F11,
    F12,
    F13,
    F14,
    F15,
    F16,
    F17,
    F18,
    F19,
    F20,
    F21,
    F22,
    F23,
    F24,
    Snapshot,
    Scroll,
    Pause,
    Insert,
    Home,
    Delete,
    End,
    PageDown,
    PageUp,
    Left,
    Up,
    Right,
    Down,
    Back,
    Return,
    Space,
    Compose,
    Caret,
    Numlock,
    Numpad0,
    Numpad1,
    Numpad2,
    Numpad3,
    Numpad4,
    Numpad5,
    Numpad6,
    Numpad7,
    Numpad8,
    Numpad9,
    NumpadAdd,
    NumpadDivide,
    NumpadDecimal,
    NumpadComma,
    NumpadEnter,
    NumpadEquals,
    NumpadMultiply,
    NumpadSubtract,
    AbntC1,
    AbntC2,
    Apostrophe,
    Apps,
    Asterisk,
    At,
    Ax,
    Backslash,
    Calculator,
    Capital,
    Colon,
    Comma,
    Convert,
    Equals,
    Grave,
    Kana,
    Kanji,
    LAlt,
    LBracket,
    LControl,
    LShift,
    LWin,
    Mail,
    MediaSelect,
    MediaStop,
    Minus,
    Mute,
    MyComputer,
    NavigateForward,
    NavigateBackward,
    NextTrack,
    NoConvert,
    OEM102,
    Period,
    PlayPause,
    Plus,
    Power,
    PrevTrack,
    RAlt,
    RBracket,
    RControl,
    RShift,
    RWin,
    Semicolon,
    Slash,
    Sleep,
    Stop,
    Sysrq,
    Tab,
    Underline,
    Unlabeled,
    VolumeDown,
    VolumeUp,
    Wake,
    WebBack,
    WebFavorites,
    WebForward,
    WebHome,
    WebRefresh,
    WebSearch,
    WebStop,
    Yen,
    Copy,
    Paste,
    Cut,
}

/// Whether a key or button went down or up.
#[derive(Clone, Copy, Debug, PartialEq, Eq, Structural)]
pub enum ElementState {
    Pressed,
    Released,
}

/// A button of a mouse.
#[derive(Clone, Copy, Debug, PartialEq, Eq, Structural)]
pub enum MouseButton {
    Left,
    Right,
    Middle,
    Other(u16),
}

/// Which modifier keys are held down.
#[derive(Clone, Copy, Debug, PartialEq, Eq, Structural)]
pub struct ModifiersState {
    pub shift: bool,
    pub ctrl: bool,
    pub alt: bool,
    /// The "logo" key: the Windows key, or the command key on a Mac.
    pub logo: bool,
}

impl ModifiersState {
    /// No modifier key is held down.
    pub open spec fn spec_empty() -> ModifiersState {
        ModifiersState { shift: false, ctrl: false, alt: false, logo: false }
    }

    #[verifier::when_used_as_spec(spec_empty)]
    pub fn empty() -> (m: ModifiersState)
        ensures
            m == ModifiersState::spec_empty(),
    {
        ModifiersState { shift: false, ctrl: false, alt: false, logo: false }
    }
}

/// The phase of a touch.
#[derive(Clone, Copy, Debug, PartialEq, Eq, Structural)]
pub enum TouchPhase {
    Started,
    Moved,
    Ended,
    Cancelled,
}

/// The shapes that the window can give the mouse cursor.
#[derive(Clone, Copy, Debug, PartialEq, Eq, Structural)]
pub enum CursorIcon {
    Default,
    Crosshair,
    Hand,
    Arrow,
    Move,
    Text,
    Wait,
    Help,
    Progress,
    NotAllowed,
    ContextMenu,
    Cell,
    VerticalText,
    Alias,
    Copy,
    NoDrop,
    Grab,
    Grabbing,
    AllScroll,
    ZoomIn,
    ZoomOut,
    EResize,
    NResize,
    NeResize,
    NwResize,
    SResize,
    SeResize,
    SwResize,
    WResize,
    EwResize,
    NsResize,
    NeswResize,
    NwseResize,
    ColResize,
    RowResize,
}

/// An event of the window, with its positions and sizes already in the GUI
/// library's points.
#[derive(Clone, Copy, Debug, PartialEq, Eq, Structural)]
pub enum WindowEvent {
    /// The window was resized; `size` is its new inner size.
    Resized { size: Vec2 },
    /// The window moved to a display with another scale factor; `size` is
    /// its new inner size.
    ScaleFactorChanged { scale_factor: Scalar, size: Vec2 },
    /// A mouse button went down or up.
    MouseInput { state: ElementState, button: MouseButton },
    /// The mouse wheel or the touchpad scrolled by `delta`.
    MouseWheel { delta: Vec2 },
    /// A finger or pen touched the screen. `device_id` is a hash of the
    /// device's identifier, `force` the pressure between zero and one.
    Touch { device_id: u64, id: u64, phase: TouchPhase, pos: Pos2, force: Scalar },
    /// The cursor moved to `pos`.
    CursorMoved { pos: Pos2 },
    /// The cursor left the window.
    CursorLeft,
    /// The set of modifier keys that are held down changed.
    ModifiersChanged(ModifiersState),
    /// A key went down or up; `key` is `None` where the key has no symbolic
    /// name.
    KeyboardInput { key: Option<VirtualKeyCode>, state: ElementState },
    /// The window received a character.
    ReceivedCharacter(char),
    /// Any other event.
    Other,
}

} // verus!
