use fbwindow::display::{DisplayConnection, DisplayError, DisplayProbe, PixelFormat};

fn probe_with(formats: Vec<PixelFormat>, default_depth: u32) -> DisplayProbe {
    DisplayProbe {
        formats,
        default_depth,
        screen_width: 1920,
        screen_height: 1080,
        wm_delete_atom: 41,
        keyboard_extension: true,
    }
}

#[test]
fn connect_fails_without_server() {
    let r = DisplayConnection::connect(None);
    assert_eq!(r.err(), Some(DisplayError::DisplayUnavailable));
}

#[test]
fn connect_accepts_32_bit_format() {
    let probe = probe_with(
        vec![
            PixelFormat { depth: 16, bits_per_pixel: 16 },
            PixelFormat { depth: 24, bits_per_pixel: 32 },
        ],
        24,
    );
    let conn = DisplayConnection::connect(Some(probe)).unwrap();
    assert_eq!(conn.depth, 32);
    assert_eq!(conn.screen_width, 1920);
    assert_eq!(conn.screen_height, 1080);
    assert_eq!(conn.wm_delete_atom, 41);
    assert!(conn.keyboard_extension);
    assert_eq!(conn.registry.len(), 0);
}

#[test]
fn connect_rejects_narrow_format() {
    let probe = probe_with(vec![PixelFormat { depth: 24, bits_per_pixel: 24 }], 24);
    let r = DisplayConnection::connect(Some(probe));
    assert_eq!(r.err(), Some(DisplayError::UnsupportedPixelFormat));
}

#[test]
fn connect_rejects_missing_depth() {
    let probe = probe_with(vec![PixelFormat { depth: 16, bits_per_pixel: 16 }], 24);
    let r = DisplayConnection::connect(Some(probe));
    assert_eq!(r.err(), Some(DisplayError::UnsupportedPixelFormat));
}

#[test]
fn connect_takes_first_matching_format() {
    // the first entry of the default depth decides, as the native walk does
    let probe = probe_with(
        vec![
            PixelFormat { depth: 24, bits_per_pixel: 24 },
            PixelFormat { depth: 24, bits_per_pixel: 32 },
        ],
        24,
    );
    let r = DisplayConnection::connect(Some(probe));
    assert_eq!(r.err(), Some(DisplayError::UnsupportedPixelFormat));
}
