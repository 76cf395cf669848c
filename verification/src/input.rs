use vstd::prelude::*;

verus! {

/// Number of distinct key codes the translator recognises; each key owns one
/// slot of the per-window key-state table.
pub const KEY_SLOTS: usize = 55;

/// Number of mouse buttons tracked per window.
pub const BUTTON_SLOTS: usize = 5;

/// A key of the keyboard, as a native key symbol decodes to it.
#[derive(Clone, Copy, Debug, PartialEq, Eq, Structural)]
pub enum Key {
    A,
    B,
    C,
    D,
    E,
    F,
    G,
    H,
    I,
    J,
    K,
    L,
    M,
    N,
    O,
    P,
    Q,
    R,
    S,
    T,
    U,
    V,
    W,
    X,
    Y,
    Z,
    Key0,
    Key1,
    Key2,
    Key3,
    Key4,
    Key5,
    Key6,
    Key7,
    Key8,
    Key9,
    Space,
    Escape,
    Enter,
    Tab,
    Backspace,
    Insert,
    Delete,
    Home,
    End,
    PageUp,
    PageDown,
    Left,
    Up,
    Right,
    Down,
    LeftShift,
    RightShift,
    LeftCtrl,
    RightCtrl,
}

/// A mouse button tracked by the input state.
#[derive(Clone, Copy, Debug, PartialEq, Eq, Structural)]
pub enum MouseButton {
    Left,
    Right,
    Middle,
    Extra1,
    Extra2,
}

/// How an out-of-window pointer position is reported.
#[derive(Clone, Copy, Debug, PartialEq, Eq, Structural)]
pub enum MouseMode {
    /// Report the position as it is, even outside the window.
    Pass,
    /// Clamp the position into the logical window bounds.
    Clamp,
    /// Report nothing while the pointer is outside the window.
    Discard,
}

/// The cursor image a window asks the native side to show.
#[derive(Clone, Copy, Debug, PartialEq, Eq, Structural)]
pub enum CursorStyle {
    Arrow,
    Ibeam,
    Cross,
    ClosedHand,
    OpenHand,
    ResizeLeftRight,
    ResizeUpDown,
}

/// The slot of the key-state table that belongs to `k`.
pub open spec fn key_index(k: Key) -> int {
    match k {
        Key::A => 0,
        Key::B => 1,
        Key::C => 2,
        Key::D => 3,
        Key::E => 4,
        Key::F => 5,
        Key::G => 6,
        Key::H => 7,
        Key::I => 8,
        Key::J => 9,
        Key::K => 10,
        Key::L => 11,
        Key::M => 12,
        Key::N => 13,
        Key::O => 14,
        Key::P => 15,
        Key::Q => 16,
        Key::R => 17,
        Key::S => 18,
        Key::T => 19,
        Key::U => 20,
        Key::V => 21,
        Key::W => 22,
        Key::X => 23,
        Key::Y => 24,
        Key::Z => 25,
        Key::Key0 => 26,
        Key::Key1 => 27,
        Key::Key2 => 28,
        Key::Key3 => 29,
        Key::Key4 => 30,
        Key::Key5 => 31,
        Key::Key6 => 32,
        Key::Key7 => 33,
        Key::Key8 => 34,
        Key::Key9 => 35,
        Key::Space => 36,
        Key::Escape => 37,
        Key::Enter => 38,
        Key::Tab => 39,
        Key::Backspace => 40,
        Key::Insert => 41,
        Key::Delete => 42,
        Key::Home => 43,
        Key::End => 44,
        Key::PageUp => 45,
        Key::PageDown => 46,
        Key::Left => 47,
        Key::Up => 48,
        Key::Right => 49,
        Key::Down => 50,
        Key::LeftShift => 51,
        Key::RightShift => 52,
        Key::LeftCtrl => 53,
        Key::RightCtrl => 54,
    }
}

/// Executable twin of `key_index`.
pub fn key_slot(k: Key) -> (r: usize)
    ensures
        r as int == key_index(k),
        r < KEY_SLOTS,
{
    match k {
        Key::A => 0,
        Key::B => 1,
        Key::C => 2,
        Key::D => 3,
        Key::E => 4,
        Key::F => 5,
        Key::G => 6,
        Key::H => 7,
        Key::I => 8,
        Key::J => 9,
        Key::K => 10,
        Key::L => 11,
        Key::M => 12,
        Key::N => 13,
        Key::O => 14,
        Key::P => 15,
        Key::Q => 16,
        Key::R => 17,
        Key::S => 18,
        Key::T => 19,
        Key::U => 20,
        Key::V => 21,
        Key::W => 22,
        Key::X => 23,
        Key::Y => 24,
        Key::Z => 25,
        Key::Key0 => 26,
        Key::Key1 => 27,
        Key::Key2 => 28,
        Key::Key3 => 29,
        Key::Key4 => 30,
        Key::Key5 => 31,
        Key::Key6 => 32,
        Key::Key7 => 33,
        Key::Key8 => 34,
        Key::Key9 => 35,
        Key::Space => 36,
        Key::Escape => 37,
        Key::Enter => 38,
        Key::Tab => 39,
        Key::Backspace => 40,
        Key::Insert => 41,
        Key::Delete => 42,
        Key::Home => 43,
        Key::End => 44,
        Key::PageUp => 45,
        Key::PageDown => 46,
        Key::Left => 47,
        Key::Up => 48,
        Key::Right => 49,
        Key::Down => 50,
        Key::LeftShift => 51,
        Key::RightShift => 52,
        Key::LeftCtrl => 53,
        Key::RightCtrl => 54,
    }
}

/// Every key's slot lies inside the key-state table.
pub proof fn lemma_key_index_in_range(k: Key)
    ensures
        0 <= key_index(k) < KEY_SLOTS as int,
{
}

/// The key that a native key symbol stands for, if the translator knows it.
pub open spec fn key_of_sym(sym: u32) -> Option<Key> {
    match sym {
        0x61 => Some(Key::A),
        0x62 => Some(Key::B),
        0x63 => Some(Key::C),
        0x64 => Some(Key::D),
        0x65 => Some(Key::E),
        0x66 => Some(Key::F),
        0x67 => Some(Key::G),
        0x68 => Some(Key::H),
        0x69 => Some(Key::I),
        0x6a => Some(Key::J),
        0x6b => Some(Key::K),
        0x6c => Some(Key::L),
        0x6d => Some(Key::M),
        0x6e => Some(Key::N),
        0x6f => Some(Key::O),
        0x70 => Some(Key::P),
        0x71 => Some(Key::Q),
        0x72 => Some(Key::R),
        0x73 => Some(Key::S),
        0x74 => Some(Key::T),
        0x75 => Some(Key::U),
        0x76 => Some(Key::V),
        0x77 => Some(Key::W),
        0x78 => Some(Key::X),
        0x79 => Some(Key::Y),
        0x7a => Some(Key::Z),
        0x30 => Some(Key::Key0),
        0x31 => Some(Key::Key1),
        0x32 => Some(Key::Key2),
        0x33 => Some(Key::Key3),
        0x34 => Some(Key::Key4),
        0x35 => Some(Key::Key5),
        0x36 => Some(Key::Key6),
        0x37 => Some(Key::Key7),
        0x38 => Some(Key::Key8),
        0x39 => Some(Key::Key9),
        0x20 => Some(Key::Space),
        0xff1b => Some(Key::Escape),
        0xff0d => Some(Key::Enter),
        0xff09 => Some(Key::Tab),
        0xff08 => Some(Key::Backspace),
        0xff63 => Some(Key::Insert),
        0xffff => Some(Key::Delete),
        0xff50 => Some(Key::Home),
        0xff57 => Some(Key::End),
        0xff55 => Some(Key::PageUp),
        0xff56 => Some(Key::PageDown),
        0xff51 => Some(Key::Left),
        0xff52 => Some(Key::Up),
        0xff53 => Some(Key::Right),
        0xff54 => Some(Key::Down),
        0xffe1 => Some(Key::LeftShift),
        0xffe2 => Some(Key::RightShift),
        0xffe3 => Some(Key::LeftCtrl),
        0xffe4 => Some(Key::RightCtrl),
        _ => None,
    }
}

/// Executable twin of `key_of_sym`.
pub fn lookup_key(sym: u32) -> (r: Option<Key>)
    ensures
        r == key_of_sym(sym),
{
    match sym {
        0x61 => Some(Key::A),
        0x62 => Some(Key::B),
        0x63 => Some(Key::C),
        0x64 => Some(Key::D),
        0x65 => Some(Key::E),
        0x66 => Some(Key::F),
        0x67 => Some(Key::G),
        0x68 => Some(Key::H),
        0x69 => Some(Key::I),
        0x6a => Some(Key::J),
        0x6b => Some(Key::K),
        0x6c => Some(Key::L),
        0x6d => Some(Key::M),
        0x6e => Some(Key::N),
        0x6f => Some(Key::O),
        0x70 => Some(Key::P),
        0x71 => Some(Key::Q),
        0x72 => Some(Key::R),
        0x73 => Some(Key::S),
        0x74 => Some(Key::T),
        0x75 => Some(Key::U),
        0x76 => Some(Key::V),
        0x77 => Some(Key::W),
        0x78 => Some(Key::X),
        0x79 => Some(Key::Y),
        0x7a => Some(Key::Z),
        0x30 => Some(Key::Key0),
        0x31 => Some(Key::Key1),
        0x32 => Some(Key::Key2),
        0x33 => Some(Key::Key3),
        0x34 => Some(Key::Key4),
        0x35 => Some(Key::Key5),
        0x36 => Some(Key::Key6),
        0x37 => Some(Key::Key7),
        0x38 => Some(Key::Key8),
        0x39 => Some(Key::Key9),
        0x20 => Some(Key::Space),
        0xff1b => Some(Key::Escape),
        0xff0d => Some(Key::Enter),
        0xff09 => Some(Key::Tab),
        0xff08 => Some(Key::Backspace),
        0xff63 => Some(Key::Insert),
        0xffff => Some(Key::Delete),
        0xff50 => Some(Key::Home),
        0xff57 => Some(Key::End),
        0xff55 => Some(Key::PageUp),
        0xff56 => Some(Key::PageDown),
        0xff51 => Some(Key::Left),
        0xff52 => Some(Key::Up),
        0xff53 => Some(Key::Right),
        0xff54 => Some(Key::Down),
        0xffe1 => Some(Key::LeftShift),
        0xffe2 => Some(Key::RightShift),
        0xffe3 => Some(Key::LeftCtrl),
        0xffe4 => Some(Key::RightCtrl),
        _ => None,
    }
}

/// The slot of the button-state table that belongs to `b`.
pub open spec fn button_index(b: MouseButton) -> int {
    match b {
        MouseButton::Left => 0,
        MouseButton::Right => 1,
        MouseButton::Middle => 2,
        MouseButton::Extra1 => 3,
        MouseButton::Extra2 => 4,
    }
}

/// Executable twin of `button_index`.
pub fn button_slot(b: MouseButton) -> (r: usize)
    ensures
        r as int == button_index(b),
        r < BUTTON_SLOTS,
{
    match b {
        MouseButton::Left => 0,
        MouseButton::Right => 1,
        MouseButton::Middle => 2,
        MouseButton::Extra1 => 3,
        MouseButton::Extra2 => 4,
    }
}

/// Every button's slot lies inside the button-state table.
pub proof fn lemma_button_index_in_range(b: MouseButton)
    ensures
        0 <= button_index(b) < BUTTON_SLOTS as int,
{
}

/// The button that a native button code stands for. Codes 4 and 5 are the
/// vertical wheel, which this design reads through the scroll query instead,
/// so they translate to nothing; the extended codes map to the side buttons.
pub open spec fn button_of_code(code: u8) -> Option<MouseButton> {
    match code {
        1 => Some(MouseButton::Left),
        2 => Some(MouseButton::Middle),
        3 => Some(MouseButton::Right),
        6 => Some(MouseButton::Extra1),
        7 => Some(MouseButton::Extra2),
        _ => None,
    }
}

/// Executable twin of `button_of_code`.
pub fn lookup_button(code: u8) -> (r: Option<MouseButton>)
    ensures
        r == button_of_code(code),
{
    match code {
        1 => Some(MouseButton::Left),
        2 => Some(MouseButton::Middle),
        3 => Some(MouseButton::Right),
        6 => Some(MouseButton::Extra1),
        7 => Some(MouseButton::Extra2),
        _ => None,
    }
}

/// Per-window snapshot of keyboard, mouse-button, pointer and scroll state,
/// written only while events or native queries are applied and read by the
/// application between frames.
pub struct InputState {
    /// One flag per key slot: true while the key is held down.
    pub keys: Vec<bool>,
    /// One flag per button slot: true while the button is held down.
    pub buttons: Vec<bool>,
    /// The last pointer position handed in by the native query, in surface
    /// coordinates relative to the window origin; `None` until one arrives.
    pub mouse: Option<(i32, i32)>,
    /// Scroll delta accumulated since the last read; `None` once consumed.
    pub scroll: Option<(i32, i32)>,
}

impl InputState {
    /// The shape every input state keeps: full-sized key and button tables.
    pub open spec fn wf(self) -> bool {
        &&& self.keys@.len() == KEY_SLOTS as int
        &&& self.buttons@.len() == BUTTON_SLOTS as int
    }

    /// A fresh input state: nothing pressed, nothing recorded.
    pub fn new() -> (r: InputState)
        ensures
            r.wf(),
            forall|i: int| 0 <= i < KEY_SLOTS as int ==> !r.keys@[i],
            forall|i: int| 0 <= i < BUTTON_SLOTS as int ==> !r.buttons@[i],
            r.mouse is None,
            r.scroll is None,
    {
        InputState {
            keys: filled_false(KEY_SLOTS),
            buttons: filled_false(BUTTON_SLOTS),
            mouse: None,
            scroll: None,
        }
    }
}

/// A vector of `n` cleared flags.
fn filled_false(n: usize) -> (r: Vec<bool>)
    ensures
        r@.len() == n as int,
        forall|i: int| 0 <= i < n as int ==> !r@[i],
{
    let mut v: Vec<bool> = Vec::new();
    let mut i: usize = 0;
    while i < n
        invariant
            i <= n,
            v@.len() == i as int,
            forall|j: int| 0 <= j < i as int ==> !v@[j],
        decreases n - i,
    {
        v.push(false);
        i = i + 1;
    }
    v
}

} // verus!
