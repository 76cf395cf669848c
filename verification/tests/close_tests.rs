use fbwindow::display::{DisplayConnection, DisplayProbe, PixelFormat};
use fbwindow::events::NativeEvent;
use fbwindow::input::Key;
use fbwindow::window::{NativeAction, Window, WindowFlags};

fn open_two() -> (DisplayConnection, Window, Window) {
    let probe = DisplayProbe {
        formats: vec![PixelFormat { depth: 24, bits_per_pixel: 32 }],
        default_depth: 24,
        screen_width: 1920,
        screen_height: 1080,
        wm_delete_atom: 41,
        keyboard_extension: false,
    };
    let mut conn = DisplayConnection::connect(Some(probe)).unwrap();
    let flags = WindowFlags { borderless: false, resizable: true, title_visible: true };
    let a = conn.open_window("a".to_string(), 64, 48, flags, 1).unwrap();
    let b = conn.open_window("b".to_string(), 64, 48, flags, 1).unwrap();
    (conn, a, b)
}

#[test]
fn close_deregisters_before_release() {
    let (mut conn, mut a, _b) = open_two();
    let id = a.surface_id;
    assert!(conn.route(id));
    let actions = a.close(&mut conn);
    // deregistration is complete before the caller can perform any of the
    // returned release actions, image first, surface second
    assert!(!conn.route(id));
    assert_eq!(
        actions,
        vec![
            NativeAction::DestroyImage { surface: id },
            NativeAction::DestroyWindow { surface: id },
        ],
    );
    assert!(!a.is_open());
}

#[test]
fn event_after_close_is_unroutable() {
    let (mut conn, mut a, _b) = open_two();
    let id = a.surface_id;
    let actions = a.close(&mut conn);
    assert_eq!(actions.len(), 2);
    // a late synthetic event still carrying the old surface id resolves to
    // no window: the driver drops it instead of mis-dispatching it
    let late = NativeEvent::KeyPress { keysym: 0x61 };
    if conn.route(id) {
        a.process_events(&vec![late]);
    }
    assert!(!a.is_key_down(Key::A));
}

#[test]
fn close_is_idempotent() {
    let (mut conn, mut a, _b) = open_two();
    let first = a.close(&mut conn);
    assert_eq!(first.len(), 2);
    let second = a.close(&mut conn);
    assert!(second.is_empty());
    assert!(!a.is_open());
}

#[test]
fn close_keeps_other_windows_registered() {
    let (mut conn, mut a, b) = open_two();
    assert_ne!(a.surface_id, b.surface_id);
    a.close(&mut conn);
    assert!(!conn.route(a.surface_id));
    assert!(conn.route(b.surface_id));
}
