//! Translating values between the windowing library and the GUI library.
//!
//! **e2w**: GUI library to windowing library; **w2e**: windowing library to
//! GUI library.

use vstd::prelude::*;
use crate::gui;
use crate::gui::{Key, Modifiers, PointerButton};
use crate::units::{LogicalPosition, LogicalSize, Pos2, Vec2};
use crate::window;
use crate::window::{ModifiersState, MouseButton, VirtualKeyCode};

verus! {

/// Whether a character lies in one of the three private use areas of Unicode.
pub open spec fn is_private_use(chr: char) -> bool {
    ||| 0xe000 <= chr as u32 <= 0xf8ff
    ||| 0xf0000 <= chr as u32 <= 0xffffd
    ||| 0x100000 <= chr as u32 <= 0x10fffd
}

/// Whether a character is an ASCII control character: one below the space,
/// or the delete character.
pub open spec fn is_ascii_control(chr: char) -> bool {
    chr as u32 <= 0x1f || chr as u32 == 0x7f
}

/// The characters that the GUI library can print: all but those of the
/// private use areas and the ASCII control characters.
pub open spec fn spec_is_egui_printable(chr: char) -> bool {
    !is_private_use(chr) && !is_ascii_control(chr)
}

/// Check if the GUI library can print a character.
#[verifier::when_used_as_spec(spec_is_egui_printable)]
pub fn is_egui_printable(chr: char) -> (printable: bool)
    ensures
        printable == spec_is_egui_printable(chr),
{
    let code: u32 = chr as u32;
    let is_in_private_use_area = (0xe000 <= code && code <= 0xf8ff) || (0xf0000 <= code && code
        <= 0xffffd) || (0x100000 <= code && code <= 0x10fffd);
    let is_control = code <= 0x1f || code == 0x7f;
    !is_in_private_use_area && !is_control
}

/// The GUI library's key for a key of the windowing library, for the keys
/// that have a counterpart there: the arrows, escape, tab, backspace, enter,
/// the space bar, delete, home, end, page up and page down, the digits of the
/// main row and of the number pad, and the letters. Every key keeps its
/// meaning; a digit of the number pad becomes the digit.
pub open spec fn spec_key_w2e(w: VirtualKeyCode) -> Option<Key> {
    match w {
        VirtualKeyCode::Down => Some(Key::ArrowDown),
        VirtualKeyCode::Left => Some(Key::ArrowLeft),
        VirtualKeyCode::Right => Some(Key::ArrowRight),
        VirtualKeyCode::Up => Some(Key::ArrowUp),
        VirtualKeyCode::Escape => Some(Key::Escape),
        VirtualKeyCode::Tab => Some(Key::Tab),
        VirtualKeyCode::Back => Some(Key::Backspace),
        VirtualKeyCode::Return => Some(Key::Enter),
        VirtualKeyCode::Space => Some(Key::Space),
        VirtualKeyCode::Delete => Some(Key::Delete),
        VirtualKeyCode::Home => Some(Key::Home),
        VirtualKeyCode::End => Some(Key::End),
        VirtualKeyCode::PageUp => Some(Key::PageUp),
        VirtualKeyCode::PageDown => Some(Key::PageDown),
        VirtualKeyCode::Key1 | VirtualKeyCode::Numpad1 => Some(Key::Num1),
        VirtualKeyCode::Key2 | VirtualKeyCode::Numpad2 => Some(Key::Num2),
        VirtualKeyCode::Key3 | VirtualKeyCode::Numpad3 => Some(Key::Num3),
        VirtualKeyCode::Key4 | VirtualKeyCode::Numpad4 => Some(Key::Num4),
        VirtualKeyCode::Key5 | VirtualKeyCode::Numpad5 => Some(Key::Num5),
        VirtualKeyCode::Key6 | VirtualKeyCode::Numpad6 => Some(Key::Num6),
        VirtualKeyCode::Key7 | VirtualKeyCode::Numpad7 => Some(Key::Num7),
        VirtualKeyCode::Key8 | VirtualKeyCode::Numpad8 => Some(Key::Num8),
        VirtualKeyCode::Key9 | VirtualKeyCode::Numpad9 => Some(Key::Num9),
        VirtualKeyCode::Key0 | VirtualKeyCode::Numpad0 => Some(Key::Num0),
        VirtualKeyCode::A => Some(Key::A),
        VirtualKeyCode::B => Some(Key::B),
        VirtualKeyCode::C => Some(Key::C),
        VirtualKeyCode::D => Some(Key::D),
        VirtualKeyCode::E => Some(Key::E),
        VirtualKeyCode::F => Some(Key::F),
        VirtualKeyCode::G => Some(Key::G),
        VirtualKeyCode::H => Some(Key::H),
        VirtualKeyCode::I => Some(Key::I),
        VirtualKeyCode::J => Some(Key::J),
        VirtualKeyCode::K => Some(Key::K),
        VirtualKeyCode::L => Some(Key::L),
        VirtualKeyCode::M => Some(Key::M),
        VirtualKeyCode::N => Some(Key::N),
        VirtualKeyCode::O => Some(Key::O),
        VirtualKeyCode::P => Some(Key::P),
        VirtualKeyCode::Q => Some(Key::Q),
        VirtualKeyCode::R => Some(Key::R),
        VirtualKeyCode::S => Some(Key::S),
        VirtualKeyCode::T => Some(Key::T),
        VirtualKeyCode::U => Some(Key::U),
        VirtualKeyCode::V => Some(Key::V),
        VirtualKeyCode::W => Some(Key::W),
        VirtualKeyCode::X => Some(Key::X),
        VirtualKeyCode::Y => Some(Key::Y),
        VirtualKeyCode::Z => Some(Key::Z),
        _ => None,
    }
}

/// Translate keycode from the windowing library to the GUI library. Keys
/// that the GUI library does not know give `None`.
#[verifier::when_used_as_spec(spec_key_w2e)]
pub fn key_w2e(w: VirtualKeyCode) -> (e: Option<Key>)
    ensures
        e == spec_key_w2e(w),
{
    match w {
        VirtualKeyCode::Down => Some(Key::ArrowDown),
        VirtualKeyCode::Left => Some(Key::ArrowLeft),
        VirtualKeyCode::Right => Some(Key::ArrowRight),
        VirtualKeyCode::Up => Some(Key::ArrowUp),
        VirtualKeyCode::Escape => Some(Key::Escape),
        VirtualKeyCode::Tab => Some(Key::Tab),
        VirtualKeyCode::Back => Some(Key::Backspace),
        VirtualKeyCode::Return => Some(Key::Enter),
        VirtualKeyCode::Space => Some(Key::Space),
        VirtualKeyCode::Delete => Some(Key::Delete),
        VirtualKeyCode::Home => Some(Key::Home),
        VirtualKeyCode::End => Some(Key::End),
        VirtualKeyCode::PageUp => Some(Key::PageUp),
        VirtualKeyCode::PageDown => Some(Key::PageDown),
        VirtualKeyCode::Key1 | VirtualKeyCode::Numpad1 => Some(Key::Num1),
        VirtualKeyCode::Key2 | VirtualKeyCode::Numpad2 => Some(Key::Num2),
        VirtualKeyCode::Key3 | VirtualKeyCode::Numpad3 => Some(Key::Num3),
        VirtualKeyCode::Key4 | VirtualKeyCode::Numpad4 => Some(Key::Num4),
        VirtualKeyCode::Key5 | VirtualKeyCode::Numpad5 => Some(Key::Num5),
        VirtualKeyCode::Key6 | VirtualKeyCode::Numpad6 => Some(Key::Num6),
        VirtualKeyCode::Key7 | VirtualKeyCode::Numpad7 => Some(Key::Num7),
        VirtualKeyCode::Key8 | VirtualKeyCode::Numpad8 => Some(Key::Num8),
        VirtualKeyCode::Key9 | VirtualKeyCode::Numpad9 => Some(Key::Num9),
        VirtualKeyCode::Key0 | VirtualKeyCode::Numpad0 => Some(Key::Num0),
        VirtualKeyCode::A => Some(Key::A),
        VirtualKeyCode::B => Some(Key::B),
        VirtualKeyCode::C => Some(Key::C),
        VirtualKeyCode::D => Some(Key::D),
        VirtualKeyCode::E => Some(Key::E),
        VirtualKeyCode::F => Some(Key::F),
        VirtualKeyCode::G => Some(Key::G),
        VirtualKeyCode::H => Some(Key::H),
        VirtualKeyCode::I => Some(Key::I),
        VirtualKeyCode::J => Some(Key::J),
        VirtualKeyCode::K => Some(Key::K),
        VirtualKeyCode::L => Some(Key::L),
        VirtualKeyCode::M => Some(Key::M),
        VirtualKeyCode::N => Some(Key::N),
        VirtualKeyCode::O => Some(Key::O),
        VirtualKeyCode::P => Some(Key::P),
        VirtualKeyCode::Q => Some(Key::Q),
        VirtualKeyCode::R => Some(Key::R),
        VirtualKeyCode::S => Some(Key::S),
        VirtualKeyCode::T => Some(Key::T),
        VirtualKeyCode::U => Some(Key::U),
        VirtualKeyCode::V => Some(Key::V),
        VirtualKeyCode::W => Some(Key::W),
        VirtualKeyCode::X => Some(Key::X),
        VirtualKeyCode::Y => Some(Key::Y),
        VirtualKeyCode::Z => Some(Key::Z),
        _ => None,
    }
}

/// The modifier keys as the GUI library sees them. On a Mac the logo key is
/// the command key; elsewhere control is.
pub open spec fn spec_modifiers_w2e(w: ModifiersState, mac: bool) -> Modifiers {
    Modifiers {
        alt: w.alt,
        ctrl: w.ctrl,
        shift: w.shift,
        mac_cmd: mac && w.logo,
        command: if mac {
            w.logo
        } else {
            w.ctrl
        },
    }
}

/// Translate modifier keys from the windowing library to the GUI library.
/// `mac` says whether the program runs on a Mac.
#[verifier::when_used_as_spec(spec_modifiers_w2e)]
pub fn modifiers_w2e(w: ModifiersState, mac: bool) -> (e: Modifiers)
    ensures
        e == spec_modifiers_w2e(w, mac),
{
    Modifiers {
        alt: w.alt,
        ctrl: w.ctrl,
        shift: w.shift,
        mac_cmd: if mac {
            w.logo
        } else {
            false
        },
        command: if mac {
            w.logo
        } else {
            w.ctrl
        },
    }
}

/// The pointer button for a mouse button: the GUI library knows the left,
/// the right and the middle one.
pub open spec fn spec_mouse_button_w2e(w: MouseButton) -> Option<PointerButton> {
    match w {
        MouseButton::Left => Some(PointerButton::Primary),
        MouseButton::Right => Some(PointerButton::Secondary),
        MouseButton::Middle => Some(PointerButton::Middle),
        MouseButton::Other(_) => None,
    }
}

/// Translate mouse button from the windowing library to the GUI library.
#[verifier::when_used_as_spec(spec_mouse_button_w2e)]
pub fn mouse_button_w2e(w: MouseButton) -> (e: Option<PointerButton>)
    ensures
        e == spec_mouse_button_w2e(w),
{
    match w {
        MouseButton::Left => Some(PointerButton::Primary),
        MouseButton::Right => Some(PointerButton::Secondary),
        MouseButton::Middle => Some(PointerButton::Middle),
        MouseButton::Other(_) => None,
    }
}

/// The phase of a touch in the GUI library's words.
pub open spec fn spec_touch_phase_w2e(w: window::TouchPhase) -> gui::TouchPhase {
    match w {
        window::TouchPhase::Started => gui::TouchPhase::Start,
        window::TouchPhase::Moved => gui::TouchPhase::Move,
        window::TouchPhase::Ended => gui::TouchPhase::End,
        window::TouchPhase::Cancelled => gui::TouchPhase::Cancel,
    }
}

/// Translate touch phase from the windowing library to the GUI library.
#[verifier::when_used_as_spec(spec_touch_phase_w2e)]
pub fn touch_phase_w2e(w: window::TouchPhase) -> (e: gui::TouchPhase)
    ensures
        e == spec_touch_phase_w2e(w),
{
    match w {
        window::TouchPhase::Started => gui::TouchPhase::Start,
        window::TouchPhase::Moved => gui::TouchPhase::Move,
        window::TouchPhase::Ended => gui::TouchPhase::End,
        window::TouchPhase::Cancelled => gui::TouchPhase::Cancel,
    }
}

/// The cursor shape of the window for a cursor shape of the GUI library.
/// The window has no shape for "no cursor" and shows its default one.
pub open spec fn spec_cursor_icon_e2w(e: gui::CursorIcon) -> window::CursorIcon {
    match e {
        gui::CursorIcon::Default => window::CursorIcon::Default,
        gui::CursorIcon::NoCursor => window::CursorIcon::Default,
        gui::CursorIcon::ContextMenu => window::CursorIcon::ContextMenu,
        gui::CursorIcon::Help => window::CursorIcon::Help,
        gui::CursorIcon::PointingHand => window::CursorIcon::Hand,
        gui::CursorIcon::Progress => window::CursorIcon::Progress,
        gui::CursorIcon::Wait => window::CursorIcon::Wait,
        gui::CursorIcon::Cell => window::CursorIcon::Cell,
        gui::CursorIcon::Crosshair => window::CursorIcon::Crosshair,
        gui::CursorIcon::Text => window::CursorIcon::Text,
        gui::CursorIcon::VerticalText => window::CursorIcon::VerticalText,
        gui::CursorIcon::Alias => window::CursorIcon::Alias,
        gui::CursorIcon::Copy => window::CursorIcon::Copy,
        gui::CursorIcon::Move => window::CursorIcon::Move,
        gui::CursorIcon::NoDrop => window::CursorIcon::NoDrop,
        gui::CursorIcon::NotAllowed => window::CursorIcon::NotAllowed,
        gui::CursorIcon::Grab => window::CursorIcon::Grab,
        gui::CursorIcon::Grabbing => window::CursorIcon::Grabbing,
        gui::CursorIcon::AllScroll => window::CursorIcon::AllScroll,
        gui::CursorIcon::ResizeHorizontal => window::CursorIcon::ColResize,
        gui::CursorIcon::ResizeNeSw => window::CursorIcon::NeswResize,
        gui::CursorIcon::ResizeNwSe => window::CursorIcon::NwseResize,
        gui::CursorIcon::ResizeVertical => window::CursorIcon::RowResize,
        gui::CursorIcon::ZoomIn => window::CursorIcon::ZoomIn,
        gui::CursorIcon::ZoomOut => window::CursorIcon::ZoomOut,
    }
}

/// Translate cursor icon from the GUI library to the windowing library.
#[verifier::when_used_as_spec(spec_cursor_icon_e2w)]
pub fn cursor_icon_e2w(e: gui::CursorIcon) -> (w: window::CursorIcon)
    ensures
        w == spec_cursor_icon_e2w(e),
{
    match e {
        gui::CursorIcon::Default => window::CursorIcon::Default,
        gui::CursorIcon::NoCursor => window::CursorIcon::Default,
        gui::CursorIcon::ContextMenu => window::CursorIcon::ContextMenu,
        gui::CursorIcon::Help => window::CursorIcon::Help,
        gui::CursorIcon::PointingHand => window::CursorIcon::Hand,
        gui::CursorIcon::Progress => window::CursorIcon::Progress,
        gui::CursorIcon::Wait => window::CursorIcon::Wait,
        gui::CursorIcon::Cell => window::CursorIcon::Cell,
        gui::CursorIcon::Crosshair => window::CursorIcon::Crosshair,
        gui::CursorIcon::Text => window::CursorIcon::Text,
        gui::CursorIcon::VerticalText => window::CursorIcon::VerticalText,
        gui::CursorIcon::Alias => window::CursorIcon::Alias,
        gui::CursorIcon::Copy => window::CursorIcon::Copy,
        gui::CursorIcon::Move => window::CursorIcon::Move,
        gui::CursorIcon::NoDrop => window::CursorIcon::NoDrop,
        gui::CursorIcon::NotAllowed => window::CursorIcon::NotAllowed,
        gui::CursorIcon::Grab => window::CursorIcon::Grab,
        gui::CursorIcon::Grabbing => window::CursorIcon::Grabbing,
        gui::CursorIcon::AllScroll => window::CursorIcon::AllScroll,
        gui::CursorIcon::ResizeHorizontal => window::CursorIcon::ColResize,
        gui::CursorIcon::ResizeNeSw => window::CursorIcon::NeswResize,
        gui::CursorIcon::ResizeNwSe => window::CursorIcon::NwseResize,
        gui::CursorIcon::ResizeVertical => window::CursorIcon::RowResize,
        gui::CursorIcon::ZoomIn => window::CursorIcon::ZoomIn,
        gui::CursorIcon::ZoomOut => window::CursorIcon::ZoomOut,
    }
}

/// Translate screen position from the windowing library to the GUI library.
///
/// Both libraries measure from the top left corner of the window, so the
/// coordinates stay as they are.
pub fn pos_w2e(w: LogicalPosition) -> (e: Pos2)
    ensures
        e.x == w.x,
        e.y == w.y,
{
    Pos2 { x: w.x, y: w.y }
}

/// Translate screen position from the GUI library to the windowing library.
pub fn pos_e2w(e: Pos2) -> (w: LogicalPosition)
    ensures
        w.x == e.x,
        w.y == e.y,
{
    LogicalPosition { x: e.x, y: e.y }
}

/// Translate screen vector/size from the windowing library to the GUI
/// library.
pub fn vec_w2e(w: LogicalSize) -> (e: Vec2)
    ensures
        e.x == w.width,
        e.y == w.height,
{
    Vec2 { x: w.width, y: w.height }
}

/// Translate screen vector/size from the GUI library to the windowing
/// library.
pub fn vec_e2w(e: Vec2) -> (w: LogicalSize)
    ensures
        w.width == e.x,
        w.height == e.y,
{
    LogicalSize { width: e.x, height: e.y }
}

} // verus!
