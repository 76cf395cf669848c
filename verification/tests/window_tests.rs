use fbwindow::display::{DisplayConnection, DisplayProbe, PixelFormat};
use fbwindow::window::{plan_window, PresentError, WindowError, WindowFlags, EVENT_MASK};

fn fresh_conn() -> DisplayConnection {
    let probe = DisplayProbe {
        formats: vec![PixelFormat { depth: 24, bits_per_pixel: 32 }],
        default_depth: 24,
        screen_width: 1920,
        screen_height: 1080,
        wm_delete_atom: 41,
        keyboard_extension: false,
    };
    DisplayConnection::connect(Some(probe)).unwrap()
}

fn fixed(resizable: bool) -> WindowFlags {
    WindowFlags { borderless: false, resizable, title_visible: true }
}

#[test]
fn open_scales_surface_buffer() {
    let mut conn = fresh_conn();
    let w = conn.open_window("t".to_string(), 320, 240, fixed(false), 2).unwrap();
    assert_eq!(w.surface_width, 640);
    assert_eq!(w.surface_height, 480);
    assert_eq!(w.surface_buffer.len(), 640 * 480);
    assert_eq!(w.width, 320);
    assert_eq!(w.height, 240);
    assert!(w.is_open());
    assert!(conn.registry.contains(&w.surface_id));
}

#[test]
fn open_rejects_zero_width() {
    let mut conn = fresh_conn();
    let r = conn.open_window("t".to_string(), 0, 240, fixed(true), 1);
    assert_eq!(r.err(), Some(WindowError::InvalidDimensions));
}

#[test]
fn open_rejects_zero_scale() {
    let mut conn = fresh_conn();
    let r = conn.open_window("t".to_string(), 320, 240, fixed(true), 0);
    assert_eq!(r.err(), Some(WindowError::InvalidDimensions));
}

#[test]
fn open_rejects_oversized_surface() {
    let mut conn = fresh_conn();
    let r = conn.open_window("t".to_string(), 40000, 240, fixed(true), 2);
    assert_eq!(r.err(), Some(WindowError::InvalidDimensions));
}

#[test]
fn plan_centers_and_masks() {
    let p = plan_window(1920, 1080, 320, 240, fixed(true), 1).unwrap();
    assert_eq!(p.surface_width, 320);
    assert_eq!(p.surface_height, 240);
    assert_eq!(p.origin_x, 800);
    assert_eq!(p.origin_y, 420);
    assert_eq!(p.event_mask, EVENT_MASK);
    assert!(p.size_hints.is_none());
}

#[test]
fn plan_pins_size_when_fixed() {
    let p = plan_window(1920, 1080, 320, 240, fixed(false), 2).unwrap();
    let h = p.size_hints.unwrap();
    assert_eq!(h.min_width, 640);
    assert_eq!(h.max_width, 640);
    assert_eq!(h.min_height, 480);
    assert_eq!(h.max_height, 480);
    assert_eq!(h.x, 0);
    assert_eq!(h.y, 0);
}

#[test]
fn update_accepts_exact_buffer() {
    let mut conn = fresh_conn();
    let mut w = conn.open_window("t".to_string(), 320, 240, fixed(false), 1).unwrap();
    let pixels = vec![7u32; 320 * 240];
    let r = w.update_with_buffer(&pixels, &Vec::new());
    assert!(r.is_ok());
    assert_eq!(w.surface_buffer[0], 7);
    assert_eq!(w.surface_buffer[320 * 240 - 1], 7);
}

#[test]
fn update_rejects_wrong_length_and_keeps_surface() {
    let mut conn = fresh_conn();
    let mut w = conn.open_window("t".to_string(), 4, 3, fixed(false), 1).unwrap();
    let good = vec![9u32; 12];
    w.update_with_buffer(&good, &Vec::new()).unwrap();
    let bad = vec![1u32; 11];
    let r = w.update_with_buffer(&bad, &Vec::new());
    assert_eq!(r.err(), Some(PresentError::BufferSizeMismatch));
    // the prior frame stays displayed
    assert!(w.surface_buffer.iter().all(|&p| p == 9));
}

#[test]
fn update_replicates_blocks_at_scale_two() {
    let mut conn = fresh_conn();
    let mut w = conn.open_window("t".to_string(), 2, 2, fixed(false), 2).unwrap();
    let pixels = vec![10u32, 20u32, 30u32, 40u32];
    w.update_with_buffer(&pixels, &Vec::new()).unwrap();
    // surface rows, stride 4: two rows of 10 10 20 20, then two of 30 30 40 40
    let expect = [
        10, 10, 20, 20,
        10, 10, 20, 20,
        30, 30, 40, 40,
        30, 30, 40, 40,
    ];
    for (i, e) in expect.iter().enumerate() {
        assert_eq!(w.surface_buffer[i], *e, "surface cell {}", i);
    }
}

#[test]
fn open_fails_when_surface_ids_run_out() {
    let mut conn = fresh_conn();
    conn.next_surface_id = u64::MAX;
    let r = conn.open_window("t".to_string(), 320, 240, fixed(true), 1);
    assert_eq!(r.err(), Some(WindowError::NativeWindowCreationFailed));
}

#[test]
fn open_accepts_largest_surface_span() {
    let mut conn = fresh_conn();
    let w = conn.open_window("t".to_string(), 65535, 1, fixed(true), 1).unwrap();
    assert_eq!(w.surface_buffer.len(), 65535);
    let r = conn.open_window("t".to_string(), 65535, 1, fixed(true), 2);
    assert_eq!(r.err(), Some(WindowError::InvalidDimensions));
}
