use eww::backend::{Backend, BackendDescriptor};
use eww::gui;
use eww::gui::{Event, Key, Modifiers, Output, PointerButton};
use eww::platform::{ContextWants, FrameActions, Platform, PlatformDescriptor};
use eww::render_target::RenderTarget;
use eww::renderer::{Renderer, TargetFormat};
use eww::texture::TextureId;
use eww::translate::{
    cursor_icon_e2w, is_egui_printable, key_w2e, modifiers_w2e, mouse_button_w2e, pos_e2w,
    pos_w2e, touch_phase_w2e, vec_e2w, vec_w2e,
};
use eww::units::{LogicalPosition, LogicalSize, Pos2, Scalar, Vec2};
use eww::window;
use eww::window::{ElementState, ModifiersState, MouseButton, VirtualKeyCode, WindowEvent};

fn scalar(value: f32) -> Scalar {
    Scalar::from_bits(value.to_bits())
}

fn pos(x: f32, y: f32) -> Pos2 {
    Pos2 { x: scalar(x), y: scalar(y) }
}

fn vec2(x: f32, y: f32) -> Vec2 {
    Vec2 { x: scalar(x), y: scalar(y) }
}

fn descriptor(clipboard_available: bool, mac: bool) -> PlatformDescriptor {
    PlatformDescriptor { scale_factor: scalar(2.0), size: vec2(400.0, 300.0), clipboard_available, mac }
}

const NOTHING: ContextWants = ContextWants { pointer_input: false, using_pointer: false, keyboard_input: false };
const EVERYTHING: ContextWants = ContextWants { pointer_input: true, using_pointer: true, keyboard_input: true };

#[test]
fn printable_characters() {
    assert!(is_egui_printable('a'));
    assert!(is_egui_printable(' '));
    assert!(is_egui_printable('\u{e9}'));
    assert!(is_egui_printable('\u{d7ff}'));
    assert!(!is_egui_printable('\n'));
    assert!(!is_egui_printable('\u{0}'));
    assert!(!is_egui_printable('\u{1f}'));
    assert!(!is_egui_printable('\u{7f}'));
    assert!(is_egui_printable('\u{80}'));
    assert!(!is_egui_printable('\u{e000}'));
    assert!(!is_egui_printable('\u{f8ff}'));
    assert!(is_egui_printable('\u{f900}'));
    assert!(is_egui_printable('\u{effff}'));
    assert!(!is_egui_printable('\u{f0000}'));
    assert!(!is_egui_printable('\u{ffffd}'));
    assert!(is_egui_printable('\u{ffffe}'));
    assert!(!is_egui_printable('\u{100000}'));
    assert!(!is_egui_printable('\u{10fffd}'));
    assert!(is_egui_printable('\u{10fffe}'));
}

#[test]
fn printable_agrees_with_the_standard_library() {
    for code in 0..=0x10ffffu32 {
        if let Some(chr) = char::from_u32(code) {
            let private = ('\u{e000}'..='\u{f8ff}').contains(&chr)
                || ('\u{f0000}'..='\u{ffffd}').contains(&chr)
                || ('\u{100000}'..='\u{10fffd}').contains(&chr);
            assert_eq!(is_egui_printable(chr), !private && !chr.is_ascii_control());
        }
    }
}

#[test]
fn keys_are_translated() {
    assert_eq!(key_w2e(VirtualKeyCode::Down), Some(Key::ArrowDown));
    assert_eq!(key_w2e(VirtualKeyCode::Left), Some(Key::ArrowLeft));
    assert_eq!(key_w2e(VirtualKeyCode::Right), Some(Key::ArrowRight));
    assert_eq!(key_w2e(VirtualKeyCode::Up), Some(Key::ArrowUp));
    assert_eq!(key_w2e(VirtualKeyCode::Escape), Some(Key::Escape));
    assert_eq!(key_w2e(VirtualKeyCode::Tab), Some(Key::Tab));
    assert_eq!(key_w2e(VirtualKeyCode::Back), Some(Key::Backspace));
    assert_eq!(key_w2e(VirtualKeyCode::Return), Some(Key::Enter));
    assert_eq!(key_w2e(VirtualKeyCode::Space), Some(Key::Space));
    assert_eq!(key_w2e(VirtualKeyCode::Delete), Some(Key::Delete));
    assert_eq!(key_w2e(VirtualKeyCode::Home), Some(Key::Home));
    assert_eq!(key_w2e(VirtualKeyCode::End), Some(Key::End));
    assert_eq!(key_w2e(VirtualKeyCode::PageUp), Some(Key::PageUp));
    assert_eq!(key_w2e(VirtualKeyCode::PageDown), Some(Key::PageDown));
    assert_eq!(key_w2e(VirtualKeyCode::Key0), Some(Key::Num0));
    assert_eq!(key_w2e(VirtualKeyCode::Numpad0), Some(Key::Num0));
    assert_eq!(key_w2e(VirtualKeyCode::Key7), Some(Key::Num7));
    assert_eq!(key_w2e(VirtualKeyCode::Numpad7), Some(Key::Num7));
    assert_eq!(key_w2e(VirtualKeyCode::A), Some(Key::A));
    assert_eq!(key_w2e(VirtualKeyCode::Z), Some(Key::Z));
}

#[test]
fn unknown_keys_are_dropped() {
    for key in [
        VirtualKeyCode::F1,
        VirtualKeyCode::Insert,
        VirtualKeyCode::NumpadEnter,
        VirtualKeyCode::LShift,
        VirtualKeyCode::Copy,
        VirtualKeyCode::Paste,
        VirtualKeyCode::Cut,
        VirtualKeyCode::Comma,
        VirtualKeyCode::Snapshot,
    ] {
        assert_eq!(key_w2e(key), None);
    }
}

#[test]
fn modifiers_depend_on_the_platform() {
    let held = ModifiersState { shift: true, ctrl: true, alt: false, logo: false };
    assert_eq!(
        modifiers_w2e(held, false),
        Modifiers { alt: false, ctrl: true, shift: true, mac_cmd: false, command: true }
    );
    assert_eq!(
        modifiers_w2e(held, true),
        Modifiers { alt: false, ctrl: true, shift: true, mac_cmd: false, command: false }
    );
    let logo = ModifiersState { shift: false, ctrl: false, alt: true, logo: true };
    assert_eq!(
        modifiers_w2e(logo, false),
        Modifiers { alt: true, ctrl: false, shift: false, mac_cmd: false, command: false }
    );
    assert_eq!(
        modifiers_w2e(logo, true),
        Modifiers { alt: true, ctrl: false, shift: false, mac_cmd: true, command: true }
    );
    assert_eq!(modifiers_w2e(ModifiersState::empty(), true), Modifiers::none());
}

#[test]
fn mouse_buttons_are_translated() {
    assert_eq!(mouse_button_w2e(MouseButton::Left), Some(PointerButton::Primary));
    assert_eq!(mouse_button_w2e(MouseButton::Right), Some(PointerButton::Secondary));
    assert_eq!(mouse_button_w2e(MouseButton::Middle), Some(PointerButton::Middle));
    assert_eq!(mouse_button_w2e(MouseButton::Other(0)), None);
    assert_eq!(mouse_button_w2e(MouseButton::Other(8)), None);
}

#[test]
fn touch_phases_are_translated() {
    assert_eq!(touch_phase_w2e(window::TouchPhase::Started), gui::TouchPhase::Start);
    assert_eq!(touch_phase_w2e(window::TouchPhase::Moved), gui::TouchPhase::Move);
    assert_eq!(touch_phase_w2e(window::TouchPhase::Ended), gui::TouchPhase::End);
    assert_eq!(touch_phase_w2e(window::TouchPhase::Cancelled), gui::TouchPhase::Cancel);
}

#[test]
fn cursor_icons_are_translated() {
    let table = [
        (gui::CursorIcon::Default, window::CursorIcon::Default),
        (gui::CursorIcon::NoCursor, window::CursorIcon::Default),
        (gui::CursorIcon::ContextMenu, window::CursorIcon::ContextMenu),
        (gui::CursorIcon::Help, window::CursorIcon::Help),
        (gui::CursorIcon::PointingHand, window::CursorIcon::Hand),
        (gui::CursorIcon::Progress, window::CursorIcon::Progress),
        (gui::CursorIcon::Wait, window::CursorIcon::Wait),
        (gui::CursorIcon::Cell, window::CursorIcon::Cell),
        (gui::CursorIcon::Crosshair, window::CursorIcon::Crosshair),
        (gui::CursorIcon::Text, window::CursorIcon::Text),
        (gui::CursorIcon::VerticalText, window::CursorIcon::VerticalText),
        (gui::CursorIcon::Alias, window::CursorIcon::Alias),
        (gui::CursorIcon::Copy, window::CursorIcon::Copy),
        (gui::CursorIcon::Move, window::CursorIcon::Move),
        (gui::CursorIcon::NoDrop, window::CursorIcon::NoDrop),
        (gui::CursorIcon::NotAllowed, window::CursorIcon::NotAllowed),
        (gui::CursorIcon::Grab, window::CursorIcon::Grab),
        (gui::CursorIcon::Grabbing, window::CursorIcon::Grabbing),
        (gui::CursorIcon::AllScroll, window::CursorIcon::AllScroll),
        (gui::CursorIcon::ResizeHorizontal, window::CursorIcon::ColResize),
        (gui::CursorIcon::ResizeNeSw, window::CursorIcon::NeswResize),
        (gui::CursorIcon::ResizeNwSe, window::CursorIcon::NwseResize),
        (gui::CursorIcon::ResizeVertical, window::CursorIcon::RowResize),
        (gui::CursorIcon::ZoomIn, window::CursorIcon::ZoomIn),
        (gui::CursorIcon::ZoomOut, window::CursorIcon::ZoomOut),
    ];
    for (e, w) in table {
        assert_eq!(cursor_icon_e2w(e), w);
    }
}

#[test]
fn positions_and_sizes_keep_their_coordinates() {
    let p = LogicalPosition { x: scalar(1.5), y: scalar(-3.0) };
    assert_eq!(pos_w2e(p), pos(1.5, -3.0));
    assert_eq!(pos_e2w(pos_w2e(p)), p);
    let s = LogicalSize { width: scalar(640.0), height: scalar(480.0) };
    assert_eq!(vec_w2e(s), vec2(640.0, 480.0));
    assert_eq!(vec_e2w(vec_w2e(s)), s);
}

#[test]
fn new_platform_reports_the_window() {
    let mut platform = Platform::new(descriptor(true, false));
    let input = platform.begin_frame();
    assert_eq!(input.pixels_per_point, Some(scalar(2.0)));
    assert_eq!(input.screen_size, Some(vec2(400.0, 300.0)));
    assert_eq!(input.scroll_delta, Vec2::zero());
    assert!(input.events.is_empty());
    let again = platform.begin_frame();
    assert_eq!(again.pixels_per_point, None);
    assert_eq!(again.screen_size, None);
    assert!(again.events.is_empty());
}

#[test]
fn pointer_events_are_gathered_in_order() {
    let mut platform = Platform::new(descriptor(true, false));
    platform.begin_frame();
    let moved = WindowEvent::CursorMoved { pos: pos(10.0, 20.0) };
    assert!(!platform.handle_event(&moved, NOTHING, None));
    assert!(platform.handle_event(&moved, EVERYTHING, None));
    let press = WindowEvent::MouseInput { state: ElementState::Pressed, button: MouseButton::Left };
    let release = WindowEvent::MouseInput { state: ElementState::Released, button: MouseButton::Right };
    let extra = WindowEvent::MouseInput { state: ElementState::Pressed, button: MouseButton::Other(4) };
    assert!(!platform.handle_event(&press, EVERYTHING, None));
    assert!(!platform.handle_event(&extra, EVERYTHING, None));
    assert!(!platform.handle_event(&release, EVERYTHING, None));
    assert!(!platform.handle_event(&WindowEvent::CursorLeft, EVERYTHING, None));
    let input = platform.begin_frame();
    assert_eq!(
        input.events,
        vec![
            Event::PointerMoved(pos(10.0, 20.0)),
            Event::PointerMoved(pos(10.0, 20.0)),
            Event::PointerButton {
                pos: pos(10.0, 20.0),
                button: PointerButton::Primary,
                pressed: true,
                modifiers: Modifiers::none(),
            },
            Event::PointerButton {
                pos: pos(10.0, 20.0),
                button: PointerButton::Secondary,
                pressed: false,
                modifiers: Modifiers::none(),
            },
            Event::PointerGone,
        ]
    );
}

#[test]
fn window_changes_are_noted() {
    let mut platform = Platform::new(descriptor(true, false));
    platform.begin_frame();
    assert!(!platform.handle_event(&WindowEvent::Resized { size: vec2(100.0, 50.0) }, EVERYTHING, None));
    let input = platform.begin_frame();
    assert_eq!(input.screen_size, Some(vec2(100.0, 50.0)));
    assert_eq!(input.pixels_per_point, None);
    let changed = WindowEvent::ScaleFactorChanged { scale_factor: scalar(1.5), size: vec2(80.0, 40.0) };
    assert!(!platform.handle_event(&changed, EVERYTHING, None));
    let input = platform.begin_frame();
    assert_eq!(input.screen_size, Some(vec2(80.0, 40.0)));
    assert_eq!(input.pixels_per_point, Some(scalar(1.5)));
    assert!(input.events.is_empty());
}

#[test]
fn scrolling_and_touch() {
    let mut platform = Platform::new(descriptor(true, false));
    let wheel = WindowEvent::MouseWheel { delta: vec2(0.0, 24.0) };
    assert!(!platform.handle_event(&wheel, NOTHING, None));
    let only_pointer = ContextWants { pointer_input: true, using_pointer: false, keyboard_input: false };
    assert!(platform.handle_event(&wheel, only_pointer, None));
    let touch = WindowEvent::Touch {
        device_id: 77,
        id: 3,
        phase: window::TouchPhase::Moved,
        pos: pos(1.0, 2.0),
        force: scalar(0.5),
    };
    assert!(platform.handle_event(&touch, NOTHING, None));
    let input = platform.begin_frame();
    assert_eq!(input.scroll_delta, vec2(0.0, 24.0));
    assert_eq!(
        input.events,
        vec![Event::Touch {
            device_id: 77,
            id: 3,
            phase: gui::TouchPhase::Move,
            pos: pos(1.0, 2.0),
            force: scalar(0.5),
        }]
    );
    assert_eq!(platform.begin_frame().scroll_delta, Vec2::zero());
}

#[test]
fn keys_carry_the_modifiers() {
    let mut platform = Platform::new(descriptor(true, false));
    platform.begin_frame();
    let held = ModifiersState { shift: true, ctrl: true, alt: false, logo: false };
    assert!(platform.handle_event(&WindowEvent::ModifiersChanged(held), EVERYTHING, None));
    assert!(!platform.handle_event(&WindowEvent::ModifiersChanged(held), NOTHING, None));
    let key = |key, state| WindowEvent::KeyboardInput { key: Some(key), state };
    assert!(platform.handle_event(&key(VirtualKeyCode::A, ElementState::Pressed), EVERYTHING, None));
    assert!(!platform.handle_event(&key(VirtualKeyCode::F5, ElementState::Pressed), NOTHING, None));
    assert!(platform.handle_event(&key(VirtualKeyCode::Space, ElementState::Released), EVERYTHING, None));
    assert!(platform.handle_event(&key(VirtualKeyCode::Copy, ElementState::Pressed), EVERYTHING, None));
    assert!(platform.handle_event(&key(VirtualKeyCode::Cut, ElementState::Released), EVERYTHING, None));
    let unnamed = WindowEvent::KeyboardInput { key: None, state: ElementState::Pressed };
    assert!(!platform.handle_event(&unnamed, EVERYTHING, None));
    assert!(!platform.handle_event(&WindowEvent::Other, EVERYTHING, None));
    let modifiers = Modifiers { alt: false, ctrl: true, shift: true, mac_cmd: false, command: true };
    assert_eq!(
        platform.begin_frame().events,
        vec![
            Event::Key { key: Key::A, pressed: true, modifiers },
            Event::Key { key: Key::Space, pressed: false, modifiers },
            Event::Copy,
            Event::Cut,
        ]
    );
    assert_eq!(
        platform.handle_key(VirtualKeyCode::Z, ElementState::Pressed, None),
        Some(Event::Key { key: Key::Z, pressed: true, modifiers })
    );
    assert_eq!(platform.handle_key(VirtualKeyCode::F1, ElementState::Pressed, None), None);
}

#[test]
fn paste_types_the_clipboard() {
    let paste = WindowEvent::KeyboardInput { key: Some(VirtualKeyCode::Paste), state: ElementState::Pressed };
    let other = WindowEvent::KeyboardInput { key: Some(VirtualKeyCode::V), state: ElementState::Pressed };

    let mut platform = Platform::new(descriptor(true, false));
    platform.begin_frame();
    assert!(platform.wants_clipboard(&paste));
    assert!(!platform.wants_clipboard(&other));
    assert!(!platform.wants_clipboard(&WindowEvent::CursorLeft));
    assert!(platform.handle_event(&paste, EVERYTHING, Some(String::from("pasted"))));
    assert!(platform.handle_event(&paste, EVERYTHING, None));
    assert_eq!(platform.begin_frame().events, vec![Event::Text(String::from("pasted"))]);

    let mut without = Platform::new(descriptor(false, false));
    without.begin_frame();
    assert!(!without.wants_clipboard(&paste));
    assert!(without.handle_event(&paste, EVERYTHING, Some(String::from("ignored"))));
    assert!(without.begin_frame().events.is_empty());
}

#[test]
fn characters_become_text() {
    let mut platform = Platform::new(descriptor(true, false));
    platform.begin_frame();
    assert!(platform.handle_event(&WindowEvent::ReceivedCharacter('a'), EVERYTHING, None));
    assert!(!platform.handle_event(&WindowEvent::ReceivedCharacter('\u{e9}'), NOTHING, None));
    assert!(platform.handle_event(&WindowEvent::ReceivedCharacter('\n'), EVERYTHING, None));
    assert!(platform.handle_event(&WindowEvent::ReceivedCharacter('\u{e000}'), EVERYTHING, None));
    let ctrl = ModifiersState { shift: false, ctrl: true, alt: false, logo: false };
    platform.handle_event(&WindowEvent::ModifiersChanged(ctrl), EVERYTHING, None);
    platform.handle_event(&WindowEvent::ReceivedCharacter('c'), EVERYTHING, None);
    let logo = ModifiersState { shift: false, ctrl: false, alt: false, logo: true };
    platform.handle_event(&WindowEvent::ModifiersChanged(logo), EVERYTHING, None);
    platform.handle_event(&WindowEvent::ReceivedCharacter('d'), EVERYTHING, None);
    let shift = ModifiersState { shift: true, ctrl: false, alt: true, logo: false };
    platform.handle_event(&WindowEvent::ModifiersChanged(shift), EVERYTHING, None);
    platform.handle_event(&WindowEvent::ReceivedCharacter('E'), EVERYTHING, None);
    assert_eq!(
        platform.begin_frame().events,
        vec![
            Event::Text(String::from("a")),
            Event::Text(String::from("\u{e9}")),
            Event::Text(String::from("E")),
        ]
    );
}

#[test]
fn mac_uses_the_logo_key_for_commands() {
    let mut platform = Platform::new(descriptor(true, true));
    platform.begin_frame();
    let logo = ModifiersState { shift: false, ctrl: false, alt: false, logo: true };
    platform.handle_event(&WindowEvent::ModifiersChanged(logo), NOTHING, None);
    assert_eq!(
        platform.handle_key(VirtualKeyCode::A, ElementState::Released, None),
        Some(Event::Key {
            key: Key::A,
            pressed: false,
            modifiers: Modifiers { alt: false, ctrl: false, shift: false, mac_cmd: true, command: true },
        })
    );
}

fn output(cursor_icon: gui::CursorIcon, copied: &str, url: Option<&str>, needs_repaint: bool) -> Output {
    Output {
        cursor_icon,
        open_url: url.map(String::from),
        copied_text: String::from(copied),
        needs_repaint,
    }
}

#[test]
fn end_of_frame_actions() {
    let platform = Platform::new(descriptor(true, false));
    assert_eq!(
        platform.end_frame(output(gui::CursorIcon::PointingHand, "", None, false)),
        FrameActions {
            cursor_icon: window::CursorIcon::Hand,
            set_clipboard: None,
            open_url: None,
            needs_repaint: false,
        }
    );
    assert_eq!(
        platform.end_frame(output(gui::CursorIcon::NoCursor, "copied", Some("https://example.org"), true)),
        FrameActions {
            cursor_icon: window::CursorIcon::Default,
            set_clipboard: Some(String::from("copied")),
            open_url: Some(String::from("https://example.org")),
            needs_repaint: true,
        }
    );
    let without = Platform::new(descriptor(false, false));
    assert_eq!(
        without.end_frame(output(gui::CursorIcon::Text, "copied", None, true)),
        FrameActions {
            cursor_icon: window::CursorIcon::Text,
            set_clipboard: None,
            open_url: None,
            needs_repaint: true,
        }
    );
}

#[test]
fn backend_holds_platform_and_renderer() {
    let desc = BackendDescriptor { platform: descriptor(true, false), rt_format: TargetFormat::Rgba8Unorm };
    assert!(Backend::<u8>::new(desc).is_err());
    let desc = BackendDescriptor { rt_format: TargetFormat::Rgba8UnormSrgb, ..desc };
    let mut backend: Backend<u8> = Backend::new(desc).ok().unwrap();
    assert!(backend.handle_event(&WindowEvent::ReceivedCharacter('x'), EVERYTHING, None));
    assert!(!backend.handle_event(&WindowEvent::CursorLeft, EVERYTHING, None));
    assert_eq!(backend.renderer().format(), TargetFormat::Rgba8UnormSrgb);
    let id = backend.renderer_mut().register_texture(5);
    assert_eq!(backend.renderer().textures().resolve(id), Ok(&5));
    let nothing: Vec<eww::mesh::ClippedPrimitive> = Vec::new();
    let screen_descriptor = eww::screen::ScreenDescriptor {
        physical_width: 10,
        physical_height: 10,
        scale_factor: scalar(1.0),
    };
    let plan = backend
        .render(eww::renderer::RenderDescriptor { primitives: &nothing, screen_descriptor })
        .unwrap();
    assert!(plan.draws.is_empty() && plan.uploads.is_empty());
    let input = backend.platform_mut().begin_frame();
    assert_eq!(input.events, vec![Event::Text(String::from("x")), Event::PointerGone]);
    assert!(!backend.platform().wants_clipboard(&WindowEvent::CursorLeft));
}

#[test]
fn render_target_registers_itself() {
    let mut renderer: Renderer<&str> = Renderer::new(TargetFormat::Rgba8UnormSrgb).unwrap();
    renderer.register_texture("other");
    let target = RenderTarget::new(&mut renderer, "texture", 17u32, "binding");
    assert_eq!(target.texture_id(), TextureId::External(1));
    assert_eq!(target.texture(), &"texture");
    assert_eq!(target.view(), &17);
    assert_eq!(renderer.textures().resolve(target.texture_id()), Ok(&"binding"));
}
