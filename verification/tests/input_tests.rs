use fbwindow::display::{DisplayConnection, DisplayProbe, PixelFormat};
use fbwindow::events::NativeEvent;
use fbwindow::input::{CursorStyle, Key, MouseButton, MouseMode};
use fbwindow::window::{Window, WindowFlags};

fn open(width: u32, height: u32, scale: u32) -> (DisplayConnection, Window) {
    let probe = DisplayProbe {
        formats: vec![PixelFormat { depth: 24, bits_per_pixel: 32 }],
        default_depth: 24,
        screen_width: 1920,
        screen_height: 1080,
        wm_delete_atom: 41,
        keyboard_extension: false,
    };
    let mut conn = DisplayConnection::connect(Some(probe)).unwrap();
    let flags = WindowFlags { borderless: false, resizable: false, title_visible: true };
    let w = conn.open_window("t".to_string(), width, height, flags, scale).unwrap();
    (conn, w)
}

#[test]
fn key_press_then_release() {
    let (_conn, mut w) = open(320, 240, 1);
    assert!(!w.is_key_down(Key::Escape));
    w.process_events(&vec![NativeEvent::KeyPress { keysym: 0xFF1B }]);
    assert!(w.is_key_down(Key::Escape));
    // a read mutates nothing: the second poll answers the same
    assert!(w.is_key_down(Key::Escape));
    w.process_events(&vec![NativeEvent::KeyRelease { keysym: 0xFF1B }]);
    assert!(!w.is_key_down(Key::Escape));
}

#[test]
fn letter_keys_translate() {
    let (_conn, mut w) = open(320, 240, 1);
    w.process_events(&vec![
        NativeEvent::KeyPress { keysym: 0x61 },
        NativeEvent::KeyPress { keysym: 0x7A },
        NativeEvent::KeyPress { keysym: 0x30 },
    ]);
    assert!(w.is_key_down(Key::A));
    assert!(w.is_key_down(Key::Z));
    assert!(w.is_key_down(Key::Key0));
    assert!(!w.is_key_down(Key::B));
}

#[test]
fn unknown_keysym_is_ignored() {
    let (_conn, mut w) = open(320, 240, 1);
    w.process_events(&vec![NativeEvent::KeyPress { keysym: 0x1234_5678 }]);
    assert!(!w.is_key_down(Key::A));
    assert!(!w.is_key_down(Key::Escape));
    assert!(w.is_open());
}

#[test]
fn buttons_track_press_and_release() {
    let (_conn, mut w) = open(320, 240, 1);
    w.process_events(&vec![
        NativeEvent::ButtonPress { button: 1 },
        NativeEvent::ButtonPress { button: 6 },
    ]);
    assert!(w.is_mouse_button_down(MouseButton::Left));
    assert!(w.is_mouse_button_down(MouseButton::Extra1));
    assert!(!w.is_mouse_button_down(MouseButton::Right));
    w.process_events(&vec![NativeEvent::ButtonRelease { button: 1 }]);
    assert!(!w.is_mouse_button_down(MouseButton::Left));
    assert!(w.is_mouse_button_down(MouseButton::Extra1));
}

#[test]
fn wheel_codes_are_not_buttons() {
    let (_conn, mut w) = open(320, 240, 1);
    w.process_events(&vec![
        NativeEvent::ButtonPress { button: 4 },
        NativeEvent::ButtonPress { button: 5 },
    ]);
    assert!(!w.is_mouse_button_down(MouseButton::Left));
    assert!(!w.is_mouse_button_down(MouseButton::Extra1));
    assert!(!w.is_mouse_button_down(MouseButton::Extra2));
}

#[test]
fn scroll_is_consumed_on_read() {
    let (_conn, mut w) = open(320, 240, 1);
    assert_eq!(w.scroll_delta(), None);
    w.record_scroll(0, 3);
    w.record_scroll(2, -1);
    assert_eq!(w.scroll_delta(), Some((2, 2)));
    // consumed: a second consecutive read returns nothing
    assert_eq!(w.scroll_delta(), None);
}

#[test]
fn mouse_position_modes() {
    let (_conn, mut w) = open(320, 240, 2);
    assert_eq!(w.get_mouse_pos(MouseMode::Pass), None);
    assert_eq!(w.get_mouse_pos(MouseMode::Clamp), None);
    assert_eq!(w.get_mouse_pos(MouseMode::Discard), None);
    // pointer below and left of the 640 x 480 surface
    w.record_mouse_position(-10, 500);
    assert_eq!(w.get_unscaled_mouse_pos(), Some((-10, 500)));
    assert_eq!(w.get_mouse_pos(MouseMode::Discard), None);
    assert_eq!(w.get_mouse_pos(MouseMode::Clamp), Some((0, 239)));
    assert_eq!(w.get_mouse_pos(MouseMode::Pass), Some((-5, 250)));
    // pointer inside
    w.record_mouse_position(100, 41);
    assert_eq!(w.get_mouse_pos(MouseMode::Discard), Some((50, 20)));
    assert_eq!(w.get_mouse_pos(MouseMode::Clamp), Some((50, 20)));
    assert_eq!(w.get_mouse_pos(MouseMode::Pass), Some((50, 20)));
}

#[test]
fn delete_message_requests_close() {
    let (conn, mut w) = open(320, 240, 1);
    assert!(w.is_open());
    w.process_events(&vec![NativeEvent::ClientMessage { atom: 7 }]);
    assert!(w.is_open());
    w.process_events(&vec![NativeEvent::ClientMessage { atom: conn.wm_delete_atom }]);
    assert!(!w.is_open());
}

#[test]
fn configure_raises_resize_flag() {
    let (_conn, mut w) = open(320, 240, 2);
    w.process_events(&vec![NativeEvent::Configure { width: 640, height: 480 }]);
    assert!(!w.is_resize_pending());
    w.process_events(&vec![NativeEvent::Configure { width: 800, height: 480 }]);
    assert!(w.is_resize_pending());
}

#[test]
fn cursor_reapplied_only_on_change() {
    let (_conn, mut w) = open(320, 240, 1);
    assert_eq!(w.set_cursor(CursorStyle::Arrow), Some(CursorStyle::Arrow));
    assert_eq!(w.set_cursor(CursorStyle::Arrow), None);
    assert_eq!(w.set_cursor(CursorStyle::Ibeam), Some(CursorStyle::Ibeam));
}
