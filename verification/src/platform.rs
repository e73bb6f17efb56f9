//! The input side of the backend: gathering the window's events for the GUI
//! library and deciding what to do with the GUI library's output.
//!
//! The platform is a state machine. The embedding code feeds it each window
//! event together with what the GUI context answered when asked whether it
//! wants the pointer or the keyboard, and carries out what the platform
//! returns at the end of a frame.

use vstd::prelude::*;
use crate::gui::{Event, EventView, Modifiers, Output, RawInput, RawInputView};
use crate::translate::{
    cursor_icon_e2w,
    is_egui_printable,
    key_w2e,
    modifiers_w2e,
    mouse_button_w2e,
    spec_cursor_icon_e2w,
    spec_is_egui_printable,
    spec_key_w2e,
    spec_modifiers_w2e,
    spec_mouse_button_w2e,
    spec_touch_phase_w2e,
    touch_phase_w2e,
};
use crate::units::{Pos2, Scalar, Vec2};
use crate::window;
use crate::window::{ElementState, ModifiersState, VirtualKeyCode, WindowEvent};

verus! {

/// What a platform is created with.
#[derive(Clone, Copy, Debug, PartialEq, Eq, Structural)]
pub struct PlatformDescriptor {
    /// The window's scale factor: physical pixels per point.
    pub scale_factor: Scalar,
    /// The window's inner size in points.
    pub size: Vec2,
    /// Whether the system clipboard could be opened.
    pub clipboard_available: bool,
    /// Whether the program runs on a Mac, where the logo key is the command
    /// key.
    pub mac: bool,
}

/// What the GUI context answered when asked what input it wants.
#[derive(Clone, Copy, Debug, PartialEq, Eq, Structural)]
pub struct ContextWants {
    /// The GUI is interested in the pointer, for instance because it hovers
    /// over a widget.
    pub pointer_input: bool,
    /// The GUI is using the pointer, for instance to drag a slider.
    pub using_pointer: bool,
    /// A widget of the GUI has the keyboard focus.
    pub keyboard_input: bool,
}

/// What the embedding code has to do at the end of a frame.
#[derive(Clone, Debug, PartialEq, Eq)]
pub struct FrameActions {
    /// The cursor shape to give the window.
    pub cursor_icon: window::CursorIcon,
    /// Text to put on the clipboard, if any.
    pub set_clipboard: Option<String>,
    /// A URL to open in the browser, if any.
    pub open_url: Option<String>,
    /// Whether the GUI wants to be painted again soon.
    pub needs_repaint: bool,
}

/// The state of the platform between two events.
pub struct Platform {
    raw_input: RawInput,
    pointer_pos: Pos2,
    modifier_state: ModifiersState,
    clipboard_available: bool,
    mac: bool,
}

/// The platform's state as a mathematical value.
pub struct PlatformView {
    /// The input gathered since the last frame began.
    pub raw_input: RawInputView,
    /// Where the pointer was seen last.
    pub pointer_pos: Pos2,
    /// The modifier keys that are held down.
    pub modifier_state: ModifiersState,
    /// Whether there is a clipboard to read and write.
    pub clipboard_available: bool,
    /// Whether the program runs on a Mac.
    pub mac: bool,
}

impl View for Platform {
    type V = PlatformView;

    closed spec fn view(&self) -> PlatformView {
        PlatformView {
            raw_input: self.raw_input@,
            pointer_pos: self.pointer_pos,
            modifier_state: self.modifier_state,
            clipboard_available: self.clipboard_available,
            mac: self.mac,
        }
    }
}

/// Whether the platform needs the clipboard's text to handle `event`: a paste
/// key went down or up.
pub open spec fn is_paste(event: WindowEvent) -> bool {
    event matches WindowEvent::KeyboardInput { key: Some(VirtualKeyCode::Paste), .. }
}

impl PlatformView {
    /// The state of a new platform: the window's scale factor and size are
    /// the first input, the pointer is at the origin and no modifier key is
    /// held down.
    pub open spec fn new(desc: PlatformDescriptor) -> PlatformView {
        PlatformView {
            raw_input: RawInputView {
                pixels_per_point: Some(desc.scale_factor),
                screen_size: Some(desc.size),
                ..RawInputView::empty()
            },
            pointer_pos: Pos2::spec_zero(),
            modifier_state: ModifiersState::spec_empty(),
            clipboard_available: desc.clipboard_available,
            mac: desc.mac,
        }
    }

    /// The GUI event for a key that went down or up.
    ///
    /// The copy and cut keys ask for a copy and a cut. The paste key types
    /// the text of the clipboard, where there is one. Any other key that the
    /// GUI library knows becomes a key event with the modifiers that are held
    /// down; the rest are dropped.
    pub open spec fn key_event(
        self,
        key: VirtualKeyCode,
        state: ElementState,
        clipboard: Option<Seq<char>>,
    ) -> Option<EventView> {
        match key {
            VirtualKeyCode::Copy => Some(EventView::Copy),
            VirtualKeyCode::Cut => Some(EventView::Cut),
            VirtualKeyCode::Paste => match clipboard {
                Some(text) if self.clipboard_available => Some(EventView::Text(text)),
                _ => None,
            },
            _ => match spec_key_w2e(key) {
                Some(k) => Some(
                    EventView::Key {
                        key: k,
                        pressed: state is Pressed,
                        modifiers: spec_modifiers_w2e(self.modifier_state, self.mac),
                    },
                ),
                None => None,
            },
        }
    }

    /// The GUI event that a window event becomes, or `None` where it becomes
    /// none.
    pub open spec fn translate(self, event: WindowEvent, clipboard: Option<Seq<char>>) -> Option<
        EventView,
    > {
        match event {
            WindowEvent::MouseInput { state, button } => match spec_mouse_button_w2e(button) {
                Some(b) => Some(
                    EventView::PointerButton {
                        pos: self.pointer_pos,
                        button: b,
                        pressed: state is Pressed,
                        modifiers: Modifiers::spec_none(),
                    },
                ),
                None => None,
            },
            WindowEvent::Touch { device_id, id, phase, pos, force } => Some(
                EventView::Touch { device_id, id, phase: spec_touch_phase_w2e(phase), pos, force },
            ),
            WindowEvent::CursorMoved { pos } => Some(EventView::PointerMoved(pos)),
            WindowEvent::CursorLeft => Some(EventView::PointerGone),
            WindowEvent::KeyboardInput { key: Some(key), state } => self.key_event(
                key,
                state,
                clipboard,
            ),
            WindowEvent::ReceivedCharacter(ch) => if spec_is_egui_printable(ch)
                && !self.modifier_state.ctrl && !self.modifier_state.logo {
                Some(EventView::Text(seq![ch]))
            } else {
                None
            },
            _ => None,
        }
    }

    /// Whether the GUI claims a window event, so that the host should not
    /// act on it as well.
    ///
    /// Touches are always claimed. Scrolling is claimed where the GUI wants
    /// the pointer, cursor movement where the GUI is using the pointer, and
    /// named keys, characters and modifier changes where the GUI wants the
    /// keyboard. Nothing else is claimed.
    pub open spec fn consumes(event: WindowEvent, wants: ContextWants) -> bool {
        match event {
            WindowEvent::MouseWheel { .. } => wants.pointer_input,
            WindowEvent::Touch { .. } => true,
            WindowEvent::CursorMoved { .. } => wants.using_pointer,
            WindowEvent::ModifiersChanged(_) => wants.keyboard_input,
            WindowEvent::KeyboardInput { key: Some(_), .. } => wants.keyboard_input,
            WindowEvent::ReceivedCharacter(_) => wants.keyboard_input,
            _ => false,
        }
    }

    /// The state after a window event.
    ///
    /// The GUI event that the window event becomes, if any, is appended to
    /// the gathered events. Besides, a resize notes the new screen size, a
    /// change of the scale factor notes the new factor and size, scrolling
    /// sets the scroll delta, cursor movement moves the pointer, and a change
    /// of the modifiers is remembered.
    pub open spec fn handle_event(self, event: WindowEvent, clipboard: Option<Seq<char>>)
        -> PlatformView {
        let events = match self.translate(event, clipboard) {
            Some(e) => self.raw_input.events.push(e),
            None => self.raw_input.events,
        };
        let raw_input = RawInputView { events, ..self.raw_input };
        match event {
            WindowEvent::Resized { size } => PlatformView {
                raw_input: RawInputView { screen_size: Some(size), ..raw_input },
                ..self
            },
            WindowEvent::ScaleFactorChanged { scale_factor, size } => PlatformView {
                raw_input: RawInputView {
                    pixels_per_point: Some(scale_factor),
                    screen_size: Some(size),
                    ..raw_input
                },
                ..self
            },
            WindowEvent::MouseWheel { delta } => PlatformView {
                raw_input: RawInputView { scroll_delta: delta, ..raw_input },
                ..self
            },
            WindowEvent::CursorMoved { pos } => PlatformView { raw_input, pointer_pos: pos, ..self },
            WindowEvent::ModifiersChanged(state) => PlatformView {
                raw_input,
                modifier_state: state,
                ..self
            },
            _ => PlatformView { raw_input, ..self },
        }
    }

    /// The state after a frame began: the gathered input is handed out and
    /// the platform starts gathering afresh.
    pub open spec fn begin_frame(self) -> PlatformView {
        PlatformView { raw_input: RawInputView::empty(), ..self }
    }
}

/// Calls `char::to_string`, which gives the string that holds the character
/// and nothing else.
#[verifier::external_body]
fn char_to_string(ch: char) -> (s: String)
    ensures
        s@ == seq![ch],
{
    ch.to_string()
}

impl Platform {
    /// Create a new [`Platform`].
    pub fn new(desc: PlatformDescriptor) -> (platform: Platform)
        ensures
            platform@ == PlatformView::new(desc),
    {
        let platform = Platform {
            raw_input: RawInput {
                scroll_delta: Vec2::zero(),
                screen_size: Some(desc.size),
                pixels_per_point: Some(desc.scale_factor),
                events: Vec::new(),
            },
            pointer_pos: Pos2::zero(),
            modifier_state: ModifiersState::empty(),
            clipboard_available: desc.clipboard_available,
            mac: desc.mac,
        };
        assert(platform.raw_input@.events =~= Seq::<EventView>::empty());
        platform
    }

    /// Whether the text of the clipboard has to be read before `event` is
    /// handled: there is a clipboard and the event is a paste key.
    pub fn wants_clipboard(&self, event: &WindowEvent) -> (wanted: bool)
        ensures
            wanted == (self@.clipboard_available && is_paste(*event)),
    {
        self.clipboard_available && match event {
            WindowEvent::KeyboardInput { key: Some(VirtualKeyCode::Paste), .. } => true,
            _ => false,
        }
    }

    /// The GUI event for a key that went down or up, see
    /// [`PlatformView::key_event`]. `clipboard` is the text of the clipboard,
    /// or `None` where it could not be read.
    pub fn handle_key(&self, key: VirtualKeyCode, state: ElementState, clipboard: Option<String>) -> (e:
        Option<Event>)
        ensures
            match e {
                Some(event) => self@.key_event(key, state, option_view(clipboard)) == Some(event@),
                None => self@.key_event(key, state, option_view(clipboard)) is None,
            },
    {
        match key {
            VirtualKeyCode::Copy => Some(Event::Copy),
            VirtualKeyCode::Cut => Some(Event::Cut),
            VirtualKeyCode::Paste => match clipboard {
                Some(text) => if self.clipboard_available {
                    Some(Event::Text(text))
                } else {
                    None
                },
                None => None,
            },
            _ => match key_w2e(key) {
                Some(k) => Some(
                    Event::Key {
                        key: k,
                        pressed: matches!(state, ElementState::Pressed),
                        modifiers: modifiers_w2e(self.modifier_state, self.mac),
                    },
                ),
                None => None,
            },
        }
    }

    /// Appends an event to the gathered input.
    fn push_event(&mut self, event: Event)
        ensures
            final(self)@ == (PlatformView {
                raw_input: RawInputView {
                    events: old(self)@.raw_input.events.push(event@),
                    ..old(self)@.raw_input
                },
                ..old(self)@
            }),
    {
        self.raw_input.events.push(event);
        assert(self.raw_input@.events =~= old(self).raw_input@.events.push(event@));
    }

    /// Handles a window event and passes it on to the GUI library's input.
    ///
    /// `wants` is what the GUI context says it wants at this moment, and
    /// `clipboard` is the text of the clipboard where
    /// [`Platform::wants_clipboard`] asked for it and it could be read.
    /// Returns whether the GUI claims the event.
    pub fn handle_event(
        &mut self,
        event: &WindowEvent,
        wants: ContextWants,
        clipboard: Option<String>,
    ) -> (consumed: bool)
        ensures
            final(self)@ == old(self)@.handle_event(*event, option_view(clipboard)),
            consumed == PlatformView::consumes(*event, wants),
    {
        match *event {
            WindowEvent::Resized { size } => {
                self.raw_input.screen_size = Some(size);
                false
            },
            WindowEvent::ScaleFactorChanged { scale_factor, size } => {
                self.raw_input.pixels_per_point = Some(scale_factor);
                self.raw_input.screen_size = Some(size);
                false
            },
            WindowEvent::MouseInput { state, button } => {
                match mouse_button_w2e(button) {
                    Some(b) => {
                        let pos = self.pointer_pos;
                        self.push_event(
                            Event::PointerButton {
                                pos,
                                button: b,
                                pressed: matches!(state, ElementState::Pressed),
                                modifiers: Modifiers::none(),
                            },
                        );
                    },
                    None => {},
                }
                false
            },
            WindowEvent::MouseWheel { delta } => {
                self.raw_input.scroll_delta = delta;
                wants.pointer_input
            },
            WindowEvent::Touch { device_id, id, phase, pos, force } => {
                self.push_event(
                    Event::Touch { device_id, id, phase: touch_phase_w2e(phase), pos, force },
                );
                true
            },
            WindowEvent::CursorMoved { pos } => {
                self.pointer_pos = pos;
                self.push_event(Event::PointerMoved(pos));
                wants.using_pointer
            },
            WindowEvent::CursorLeft => {
                self.push_event(Event::PointerGone);
                false
            },
            WindowEvent::ModifiersChanged(state) => {
                self.modifier_state = state;
                wants.keyboard_input
            },
            WindowEvent::KeyboardInput { key: Some(key), state } => {
                match self.handle_key(key, state, clipboard) {
                    Some(e) => {
                        self.push_event(e);
                    },
                    None => {},
                }
                wants.keyboard_input
            },
            WindowEvent::ReceivedCharacter(ch) => {
                if is_egui_printable(ch) && !self.modifier_state.ctrl && !self.modifier_state.logo {
                    self.push_event(Event::Text(char_to_string(ch)));
                }
                wants.keyboard_input
            },
            _ => false,
        }
    }

    /// Starts a new frame: hands out the input that has gathered, for the
    /// GUI library to work on, and starts gathering afresh.
    pub fn begin_frame(&mut self) -> (input: RawInput)
        ensures
            input@ == old(self)@.raw_input,
            final(self)@ == old(self)@.begin_frame(),
    {
        let mut input = RawInput {
            scroll_delta: Vec2::zero(),
            screen_size: None,
            pixels_per_point: None,
            events: Vec::new(),
        };
        assert(input@.events =~= Seq::<EventView>::empty());
        std::mem::swap(&mut input, &mut self.raw_input);
        input
    }

    /// Ends the frame: decides what to do with the GUI library's output.
    ///
    /// The window gets the cursor shape that stands for the shape asked for.
    /// Copied text goes to the clipboard where there is text and a clipboard.
    /// A URL that was asked for is opened. The platform itself stays as it
    /// is.
    pub fn end_frame(&self, output: Output) -> (actions: FrameActions)
        ensures
            actions.cursor_icon == spec_cursor_icon_e2w(output.cursor_icon),
            actions.needs_repaint == output.needs_repaint,
            actions.open_url == output.open_url,
            actions.set_clipboard == if output.copied_text@.len() > 0
                && self@.clipboard_available {
                Some(output.copied_text)
            } else {
                None
            },
    {
        let Output { cursor_icon, open_url, copied_text, needs_repaint } = output;
        let set_clipboard = if !copied_text.as_str().is_empty() && self.clipboard_available {
            Some(copied_text)
        } else {
            None
        };
        FrameActions {
            cursor_icon: cursor_icon_e2w(cursor_icon),
            set_clipboard,
            open_url,
            needs_repaint,
        }
    }
}

/// The characters of the text, where there is one.
pub open spec fn option_view(text: Option<String>) -> Option<Seq<char>> {
    match text {
        Some(t) => Some(t@),
        None => None,
    }
}

} // verus!
