use vstd::arithmetic::div_mod::{
    lemma_div_pos_is_pos, lemma_fundamental_div_mod, lemma_fundamental_div_mod_converse_div,
    lemma_mod_bound,
};
use vstd::arithmetic::mul::{
    lemma_mul_increases, lemma_mul_inequality, lemma_mul_is_commutative,
    lemma_mul_is_distributive_add_other_way, lemma_mul_nonnegative, lemma_mul_strictly_positive,
    lemma_mul_upper_bound,
};
use vstd::prelude::*;

use crate::display::{remove_id, DisplayConnection};
use crate::events::{drain_spec, step_event, EventState, NativeEvent};
use crate::input::{
    button_index, button_slot, key_index, key_slot, lookup_button, lookup_key, CursorStyle,
    InputState, Key, MouseButton, MouseMode, BUTTON_SLOTS, KEY_SLOTS,
};

verus! {

/// Largest surface width or height this design opens: the native protocol
/// carries window sizes in 16-bit fields.
pub const MAX_SURFACE_DIM: u32 = 65535;

/// The native event mask selected at window creation: key press and release
/// (bits 0 and 1), button press and release (bits 2 and 3), and structure
/// notifications (bit 17). Pointer motion is deliberately left out: the
/// position is queried on demand instead of flooding the queue.
pub const EVENT_MASK: u64 = 0x1 | 0x2 | 0x4 | 0x8 | 0x20000;

/// Why opening a window failed.
#[derive(Clone, Copy, Debug, PartialEq, Eq, Structural)]
pub enum WindowError {
    /// The caller-supplied width, height or scale is zero, or the scaled
    /// surface would not fit the native size fields; rejected before any
    /// native call.
    InvalidDimensions,
    /// The native surface could not be created. The model raises it only
    /// when the surface id space is exhausted; a native driver maps its
    /// window-creation failures onto it.
    NativeWindowCreationFailed,
    /// The native image descriptor could not be created; raised by a native
    /// driver, never by the model, which allocates the backing store itself.
    NativeImageCreationFailed,
}

/// Why presenting a buffer failed.
#[derive(Clone, Copy, Debug, PartialEq, Eq, Structural)]
pub enum PresentError {
    /// The buffer's length is not width times height; nothing was written.
    BufferSizeMismatch,
}

/// Caller-chosen window appearance and behaviour.
#[derive(Clone, Copy, Debug, PartialEq, Eq, Structural)]
pub struct WindowFlags {
    pub borderless: bool,
    pub resizable: bool,
    pub title_visible: bool,
}

/// Fixed min and max size hints handed to the native window manager when a
/// window must not be resized.
#[derive(Clone, Copy, Debug, PartialEq, Eq, Structural)]
pub struct SizeHints {
    pub x: u32,
    pub y: u32,
    pub min_width: u32,
    pub max_width: u32,
    pub min_height: u32,
    pub max_height: u32,
}

/// Everything a native driver needs to create the surface of one window:
/// the placement and size of the surface, the event mask to select, and the
/// size hints to install when the window is fixed.
#[derive(Clone, Copy, Debug, PartialEq, Eq, Structural)]
pub struct OpenPlan {
    pub origin_x: u32,
    pub origin_y: u32,
    pub surface_width: u32,
    pub surface_height: u32,
    pub event_mask: u64,
    pub size_hints: Option<SizeHints>,
    pub borderless: bool,
    pub title_visible: bool,
}

/// One step of the ordered native release sequence a close hands back.
#[derive(Clone, Copy, Debug, PartialEq, Eq, Structural)]
pub enum NativeAction {
    /// Release the image descriptor bound to this surface.
    DestroyImage { surface: u64 },
    /// Destroy the native surface itself.
    DestroyWindow { surface: u64 },
}

/// Dimensions a window may be opened at: positive logical size and scale,
/// with the scaled surface inside the native size fields.
pub open spec fn valid_dimensions(width: u32, height: u32, scale: u32) -> bool {
    &&& width >= 1
    &&& height >= 1
    &&& scale >= 1
    &&& width as int * scale as int <= MAX_SURFACE_DIM as int
    &&& height as int * scale as int <= MAX_SURFACE_DIM as int
}

/// Where a span is placed on a screen so that it sits centered, held at the
/// screen edge when it is larger than the screen.
pub open spec fn centered_origin_spec(screen: int, span: int) -> int {
    if span <= screen {
        (screen - span) / 2
    } else {
        0
    }
}

/// Executable twin of `centered_origin_spec`.
pub fn centered_origin(screen: u32, span: u32) -> (r: u32)
    ensures
        r as int == centered_origin_spec(screen as int, span as int),
{
    if span <= screen {
        (screen - span) / 2
    } else {
        0
    }
}

/// Computes the whole native side of opening a window, without performing
/// any of it: surface size as logical size times scale, centered placement,
/// the event mask, and fixed size hints exactly when the window must not be
/// resized. Rejects invalid dimensions before anything else, so a failed
/// open leaves nothing to roll back.
pub fn plan_window(
    screen_width: u32,
    screen_height: u32,
    width: u32,
    height: u32,
    flags: WindowFlags,
    scale: u32,
) -> (r: Result<OpenPlan, WindowError>)
    ensures
        match r {
            Ok(p) => {
                &&& valid_dimensions(width, height, scale)
                &&& p.surface_width as int == width as int * scale as int
                &&& p.surface_height as int == height as int * scale as int
                &&& p.origin_x as int == centered_origin_spec(
                    screen_width as int,
                    p.surface_width as int,
                )
                &&& p.origin_y as int == centered_origin_spec(
                    screen_height as int,
                    p.surface_height as int,
                )
                &&& p.event_mask == EVENT_MASK
                &&& p.borderless == flags.borderless
                &&& p.title_visible == flags.title_visible
                &&& match p.size_hints {
                    Some(h) => {
                        &&& !flags.resizable
                        &&& h.x == 0
                        &&& h.y == 0
                        &&& h.min_width == p.surface_width
                        &&& h.max_width == p.surface_width
                        &&& h.min_height == p.surface_height
                        &&& h.max_height == p.surface_height
                    },
                    None => flags.resizable,
                }
            },
            Err(e) => e == WindowError::InvalidDimensions && !valid_dimensions(
                width,
                height,
                scale,
            ),
        },
{
    if width == 0 || height == 0 || scale == 0 {
        return Err(WindowError::InvalidDimensions);
    }
    let sw = match width.checked_mul(scale) {
        Some(v) => v,
        None => {
            return Err(WindowError::InvalidDimensions);
        },
    };
    let sh = match height.checked_mul(scale) {
        Some(v) => v,
        None => {
            return Err(WindowError::InvalidDimensions);
        },
    };
    if sw > MAX_SURFACE_DIM || sh > MAX_SURFACE_DIM {
        return Err(WindowError::InvalidDimensions);
    }
    let size_hints = if flags.resizable {
        None
    } else {
        Some(
            SizeHints {
                x: 0,
                y: 0,
                min_width: sw,
                max_width: sw,
                min_height: sh,
                max_height: sh,
            },
        )
    };
    Ok(
        OpenPlan {
            origin_x: centered_origin(screen_width, sw),
            origin_y: centered_origin(screen_height, sh),
            surface_width: sw,
            surface_height: sh,
            event_mask: EVENT_MASK,
            size_hints,
            borderless: flags.borderless,
            title_visible: flags.title_visible,
        },
    )
}

/// Relies on cast::usize: from `u32` the conversion is an infallible
/// promotion on the pointer widths this crate builds for, and keeps the
/// value.
#[verifier::external_body]
fn to_usize(x: u32) -> (r: usize)
    ensures
        r as int == x as int,
{
    cast::usize(x)
}

/// A vector of `n` black pixels.
fn zeroed_pixels(n: usize) -> (v: Vec<u32>)
    ensures
        v@.len() == n as int,
        forall|i: int| 0 <= i < n as int ==> v@[i] == 0u32,
{
    let mut v: Vec<u32> = Vec::new();
    let mut i: usize = 0;
    while i < n
        invariant
            i <= n,
            v@.len() == i as int,
            forall|j: int| 0 <= j < i as int ==> v@[j] == 0u32,
        decreases n - i,
    {
        v.push(0);
        i = i + 1;
    }
    v
}

/// A cell of a grid with `rows` rows of `cols` columns lies inside it.
proof fn lemma_cell_in_grid(y: int, x: int, rows: int, cols: int)
    requires
        0 <= y < rows,
        0 <= x < cols,
    ensures
        0 <= y * cols + x < rows * cols,
{
    lemma_mul_inequality(y + 1, rows, cols);
    lemma_mul_is_distributive_add_other_way(cols, y, 1);
    lemma_mul_nonnegative(y, cols);
}

/// Dividing a value below `bound * unit` by `unit` lands below `bound`.
proof fn lemma_div_in_range(v: int, unit: int, bound: int)
    requires
        unit >= 1,
        0 <= v,
        v < bound * unit,
    ensures
        0 <= v / unit < bound,
{
    lemma_div_pos_is_pos(v, unit);
    lemma_fundamental_div_mod(v, unit);
    lemma_mod_bound(v, unit);
    if v / unit >= bound {
        lemma_mul_inequality(bound, v / unit, unit);
        lemma_mul_is_commutative(v / unit, unit);
        assert(false);
    }
}

/// Row-major grid indices collide only for the same cell.
proof fn lemma_grid_index_injective(y1: int, x1: int, y2: int, x2: int, cols: int)
    requires
        cols >= 1,
        0 <= y1,
        0 <= y2,
        0 <= x1 < cols,
        0 <= x2 < cols,
        y1 * cols + x1 == y2 * cols + x2,
    ensures
        y1 == y2,
        x1 == x2,
{
    lemma_fundamental_div_mod_converse_div(y1 * cols + x1, cols, y1, x1);
    lemma_fundamental_div_mod_converse_div(y2 * cols + x2, cols, y2, x2);
}

/// A nonnegative value divided by a positive unit stays under any cap the
/// value itself is under.
proof fn lemma_div_fits(v: int, unit: int, cap: int)
    requires
        unit >= 1,
        0 <= v <= cap,
    ensures
        0 <= v / unit <= cap,
{
    lemma_mul_increases(unit, cap + 1);
    lemma_mul_is_commutative(unit, cap + 1);
    lemma_div_in_range(v, unit, cap + 1);
}

/// `v` forced into the closed interval from `lo` to `hi`.
pub open spec fn clamp_int(v: int, lo: int, hi: int) -> int {
    if v < lo {
        lo
    } else if v > hi {
        hi
    } else {
        v
    }
}

/// `v` forced into the `i32` range.
pub open spec fn clamp_i32(v: int) -> int {
    clamp_int(v, i32::MIN as int, i32::MAX as int)
}

/// A raw surface coordinate scaled down to logical units: division toward
/// zero, as the native position query hands back signed coordinates.
pub open spec fn logical_coord(raw: int, scale: int) -> int {
    if raw >= 0 {
        raw / scale
    } else {
        -((-raw) / scale)
    }
}

/// Saturating addition in `i32`.
fn clamp_add(a: i32, b: i32) -> (r: i32)
    ensures
        r as int == clamp_i32(a as int + b as int),
{
    let s: i64 = a as i64 + b as i64;
    if s < i32::MIN as i64 {
        i32::MIN
    } else if s > i32::MAX as i64 {
        i32::MAX
    } else {
        s as i32
    }
}

/// A signed coordinate forced into `[0, hi]`, as an unsigned value.
fn clamp_coord(v: i32, hi: u32) -> (r: u32)
    ensures
        r as int == clamp_int(v as int, 0, hi as int),
{
    if v < 0 {
        0
    } else {
        let u = v as u32;
        if u > hi {
            hi
        } else {
            u
        }
    }
}

/// Executable twin of `logical_coord`.
fn logical_div(v: i32, scale: u32) -> (r: i32)
    requires
        scale >= 1,
    ensures
        r as int == logical_coord(v as int, scale as int),
{
    if v >= 0 {
        let q = (v as u32) / scale;
        proof {
            lemma_div_fits(v as int, scale as int, i32::MAX as int);
        }
        q as i32
    } else {
        let a = (-(v as i64)) as u64;
        let q = a / (scale as u64);
        proof {
            lemma_div_fits(a as int, scale as int, 0x8000_0000);
        }
        (-(q as i64)) as i32
    }
}

/// One on-screen window: its native surface id, its logical size and scale,
/// the surface backing buffer presentation fills, its polled input state,
/// and the window-level flags the event translator raises.
pub struct Window {
    pub surface_id: u64,
    pub title: String,
    /// Logical width, before scale multiplication.
    pub width: u32,
    /// Logical height, before scale multiplication.
    pub height: u32,
    /// Integer pixel-replication factor between logical buffer and surface.
    pub scale: u32,
    /// Surface width: logical width times scale.
    pub surface_width: u32,
    /// Surface height: logical height times scale.
    pub surface_height: u32,
    /// The surface backing store, one `u32` pixel per surface cell, row
    /// major with a row stride of `surface_width`.
    pub surface_buffer: Vec<u32>,
    pub input: InputState,
    /// Raised when the delete-protocol client message is drained.
    pub pending_close: bool,
    /// Raised when a structural event reports another surface size.
    pub resize_pending: bool,
    /// Set once by `close`; the native resources are gone.
    pub closed: bool,
    pub resizable: bool,
    pub borderless: bool,
    /// The delete-protocol atom this window registered, copied from the
    /// connection at open.
    pub wm_delete_atom: u64,
    /// The cursor last applied, so an unchanged cursor costs no native call.
    pub prev_cursor: Option<CursorStyle>,
}

/// The fields of a window that no drain, presentation or input query may
/// change: its identity, geometry and creation-time flags.
pub open spec fn same_config(a: Window, b: Window) -> bool {
    &&& b.surface_id == a.surface_id
    &&& b.title@ == a.title@
    &&& b.width == a.width
    &&& b.height == a.height
    &&& b.scale == a.scale
    &&& b.surface_width == a.surface_width
    &&& b.surface_height == a.surface_height
    &&& b.resizable == a.resizable
    &&& b.borderless == a.borderless
    &&& b.wm_delete_atom == a.wm_delete_atom
}

/// `same_config`, and the surface buffer, close mark and cursor memory are
/// untouched as well: what holds across pure input-state operations.
pub open spec fn same_view_but_input(a: Window, b: Window) -> bool {
    &&& same_config(a, b)
    &&& b.surface_buffer@ == a.surface_buffer@
    &&& b.closed == a.closed
    &&& b.prev_cursor == a.prev_cursor
}

impl Window {
    /// The shape every window keeps: positive logical size and scale, the
    /// surface exactly the scaled logical size and inside the native size
    /// fields, the backing buffer exactly one pixel per surface cell, and a
    /// full-sized input state.
    pub open spec fn wf(self) -> bool {
        &&& self.width >= 1
        &&& self.height >= 1
        &&& self.scale >= 1
        &&& self.surface_width as int == self.width as int * self.scale as int
        &&& self.surface_height as int == self.height as int * self.scale as int
        &&& self.surface_width <= MAX_SURFACE_DIM
        &&& self.surface_height <= MAX_SURFACE_DIM
        &&& self.surface_buffer@.len() == self.surface_width as int * self.surface_height as int
        &&& self.input.wf()
    }

    /// The event-visible slice of this window.
    pub open spec fn event_state(self) -> EventState {
        EventState {
            keys: self.input.keys@,
            buttons: self.input.buttons@,
            pending_close: self.pending_close,
            resize_pending: self.resize_pending,
        }
    }

    /// Whether the key reads as held down.
    pub open spec fn key_down(self, k: Key) -> bool {
        self.input.keys@[key_index(k)]
    }

    /// Whether the button reads as held down.
    pub open spec fn button_down(self, b: MouseButton) -> bool {
        self.input.buttons@[button_index(b)]
    }

    /// Open means: no close was requested by the user and none was performed.
    pub open spec fn is_open_spec(self) -> bool {
        !self.pending_close && !self.closed
    }
}

impl Window {
    /// Drains one batch of pending native events addressed to this window,
    /// in order and without blocking: key and button transitions update the
    /// input tables, a structural event at another size raises the resize
    /// flag, and the registered delete-protocol client message raises the
    /// close request. Unknown key symbols and button codes are ignored.
    /// Pointer position and scroll are not touched: they arrive through the
    /// on-demand queries instead.
    pub fn process_events(&mut self, events: &Vec<NativeEvent>)
        requires
            old(self).wf(),
        ensures
            final(self).wf(),
            same_view_but_input(*old(self), *final(self)),
            final(self).input.mouse == old(self).input.mouse,
            final(self).input.scroll == old(self).input.scroll,
            final(self).event_state() == drain_spec(
                old(self).event_state(),
                events@,
                old(self).surface_width,
                old(self).surface_height,
                old(self).wm_delete_atom,
            ),
    {
        let ghost s0 = self.event_state();
        let ghost gsw = self.surface_width;
        let ghost gsh = self.surface_height;
        let ghost gatom = self.wm_delete_atom;
        let mut i: usize = 0;
        proof {
            assert(events@.take(0) =~= Seq::<NativeEvent>::empty());
        }
        while i < events.len()
            invariant
                i <= events@.len(),
                old(self).wf(),
                self.wf(),
                same_view_but_input(*old(self), *self),
                self.input.mouse == old(self).input.mouse,
                self.input.scroll == old(self).input.scroll,
                gsw == old(self).surface_width,
                gsh == old(self).surface_height,
                gatom == old(self).wm_delete_atom,
                s0 == old(self).event_state(),
                self.event_state() == drain_spec(s0, events@.take(i as int), gsw, gsh, gatom),
            decreases events@.len() - i as int,
        {
            let e = events[i];
            proof {
                assert(events@.take(i as int + 1).drop_last() =~= events@.take(i as int));
                assert(events@.take(i as int + 1).last() == events@[i as int]);
            }
            let ghost before = self.event_state();
            match e {
                NativeEvent::KeyPress { keysym } => {
                    match lookup_key(keysym) {
                        Some(k) => {
                            let slot = key_slot(k);
                            self.input.keys.set(slot, true);
                        },
                        None => {},
                    }
                },
                NativeEvent::KeyRelease { keysym } => {
                    match lookup_key(keysym) {
                        Some(k) => {
                            let slot = key_slot(k);
                            self.input.keys.set(slot, false);
                        },
                        None => {},
                    }
                },
                NativeEvent::ButtonPress { button } => {
                    match lookup_button(button) {
                        Some(b) => {
                            let slot = button_slot(b);
                            self.input.buttons.set(slot, true);
                        },
                        None => {},
                    }
                },
                NativeEvent::ButtonRelease { button } => {
                    match lookup_button(button) {
                        Some(b) => {
                            let slot = button_slot(b);
                            self.input.buttons.set(slot, false);
                        },
                        None => {},
                    }
                },
                NativeEvent::Configure { width, height } => {
                    if width != self.surface_width || height != self.surface_height {
                        self.resize_pending = true;
                    }
                },
                NativeEvent::ClientMessage { atom } => {
                    if atom == self.wm_delete_atom {
                        self.pending_close = true;
                    }
                },
            }
            proof {
                assert(self.event_state() == step_event(before, events@[i as int], gsw, gsh, gatom));
            }
            i = i + 1;
        }
        proof {
            assert(events@.take(events@.len() as int) =~= events@);
        }
    }

    /// The per-frame update: drains the pending events, then presents the
    /// logical pixel buffer by nearest-neighbor replication, each logical
    /// pixel written to a scale-by-scale block of the surface buffer with
    /// the expanded row stride. A buffer of the wrong length fails with
    /// `BufferSizeMismatch` after the drain and before any write: the
    /// surface keeps the prior frame. With scale 1 the same walk degenerates
    /// to the direct copy the zero-copy design presents.
    pub fn update_with_buffer(&mut self, pixels: &Vec<u32>, events: &Vec<NativeEvent>) -> (r:
        Result<(), PresentError>)
        requires
            old(self).wf(),
        ensures
            final(self).wf(),
            same_config(*old(self), *final(self)),
            final(self).closed == old(self).closed,
            final(self).prev_cursor == old(self).prev_cursor,
            final(self).input.mouse == old(self).input.mouse,
            final(self).input.scroll == old(self).input.scroll,
            final(self).event_state() == drain_spec(
                old(self).event_state(),
                events@,
                old(self).surface_width,
                old(self).surface_height,
                old(self).wm_delete_atom,
            ),
            match r {
                Ok(()) => {
                    &&& pixels@.len() == old(self).width as int * old(self).height as int
                    &&& forall|sy: int, sx: int|
                        0 <= sy < old(self).surface_height as int && 0 <= sx < old(
                            self,
                        ).surface_width as int ==> #[trigger] final(self).surface_buffer@[sy * old(
                            self,
                        ).surface_width as int + sx] == pixels@[(sy / old(self).scale as int) * old(
                            self,
                        ).width as int + sx / old(self).scale as int]
                },
                Err(e) => {
                    &&& e == PresentError::BufferSizeMismatch
                    &&& pixels@.len() != old(self).width as int * old(self).height as int
                    &&& final(self).surface_buffer@ == old(self).surface_buffer@
                },
            },
    {
        self.process_events(events);
        let ghost mid = *self;
        proof {
            lemma_mul_inequality(1, self.scale as int, self.width as int);
            lemma_mul_is_commutative(self.scale as int, self.width as int);
            lemma_mul_inequality(1, self.scale as int, self.height as int);
            lemma_mul_is_commutative(self.scale as int, self.height as int);
            lemma_mul_upper_bound(
                self.width as int,
                MAX_SURFACE_DIM as int,
                self.height as int,
                MAX_SURFACE_DIM as int,
            );
        }
        let expected = to_usize(self.width) * to_usize(self.height);
        if pixels.len() != expected {
            return Err(PresentError::BufferSizeMismatch);
        }
        let sw = to_usize(self.surface_width);
        let sh = to_usize(self.surface_height);
        let w = to_usize(self.width);
        let sc = to_usize(self.scale);
        let ghost gsw = sw as int;
        let ghost gsh = sh as int;
        let ghost gw = w as int;
        let ghost gh = self.height as int;
        let ghost gsc = sc as int;
        proof {
            lemma_mul_upper_bound(gsw, MAX_SURFACE_DIM as int, gsh, MAX_SURFACE_DIM as int);
        }
        let mut sy: usize = 0;
        while sy < sh
            invariant
                sy <= sh,
                self.wf(),
                same_config(mid, *self),
                self.input.keys@ == mid.input.keys@,
                self.input.buttons@ == mid.input.buttons@,
                self.input.mouse == mid.input.mouse,
                self.input.scroll == mid.input.scroll,
                self.pending_close == mid.pending_close,
                self.resize_pending == mid.resize_pending,
                self.closed == mid.closed,
                self.prev_cursor == mid.prev_cursor,
                sw as int == gsw,
                sh as int == gsh,
                w as int == gw,
                sc as int == gsc,
                gsw == self.surface_width as int,
                gsh == self.surface_height as int,
                gw == self.width as int,
                gh == self.height as int,
                gsc == self.scale as int,
                gsw == gw * gsc,
                gsh == gh * gsc,
                1 <= gsc,
                1 <= gw,
                1 <= gh,
                gsw <= MAX_SURFACE_DIM as int,
                gsh <= MAX_SURFACE_DIM as int,
                self.surface_buffer@.len() == gsw * gsh,
                pixels@.len() == gw * gh,
                forall|y: int, x: int|
                    0 <= y < sy as int && 0 <= x < gsw ==> #[trigger] self.surface_buffer@[y * gsw
                        + x] == pixels@[(y / gsc) * gw + x / gsc],
            decreases gsh - sy as int,
        {
            let mut sx: usize = 0;
            while sx < sw
                invariant
                    sy < sh,
                    sx <= sw,
                    self.wf(),
                    same_config(mid, *self),
                    self.input.keys@ == mid.input.keys@,
                    self.input.buttons@ == mid.input.buttons@,
                    self.input.mouse == mid.input.mouse,
                    self.input.scroll == mid.input.scroll,
                    self.pending_close == mid.pending_close,
                    self.resize_pending == mid.resize_pending,
                    self.closed == mid.closed,
                    self.prev_cursor == mid.prev_cursor,
                    sw as int == gsw,
                    sh as int == gsh,
                    w as int == gw,
                    sc as int == gsc,
                    gsw == self.surface_width as int,
                    gsh == self.surface_height as int,
                    gw == self.width as int,
                    gh == self.height as int,
                    gsc == self.scale as int,
                    gsw == gw * gsc,
                    gsh == gh * gsc,
                    1 <= gsc,
                    1 <= gw,
                    1 <= gh,
                    gsw <= MAX_SURFACE_DIM as int,
                    gsh <= MAX_SURFACE_DIM as int,
                    self.surface_buffer@.len() == gsw * gsh,
                    pixels@.len() == gw * gh,
                    forall|y: int, x: int|
                        0 <= y < sy as int && 0 <= x < gsw ==> #[trigger] self.surface_buffer@[y
                            * gsw + x] == pixels@[(y / gsc) * gw + x / gsc],
                    forall|x: int|
                        0 <= x < sx as int ==> #[trigger] self.surface_buffer@[sy as int * gsw + x]
                            == pixels@[(sy as int / gsc) * gw + x / gsc],
                decreases gsw - sx as int,
            {
                proof {
                    lemma_mul_inequality(1, gsc, gw);
                    lemma_mul_is_commutative(gsc, gw);
                    lemma_mul_inequality(1, gsc, gh);
                    lemma_mul_is_commutative(gsc, gh);
                    lemma_mul_upper_bound(gh, MAX_SURFACE_DIM as int, gw, MAX_SURFACE_DIM as int);
                    lemma_mul_upper_bound(gsh, MAX_SURFACE_DIM as int, gsw, MAX_SURFACE_DIM as int);
                    lemma_div_in_range(sy as int, gsc, gh);
                    lemma_div_in_range(sx as int, gsc, gw);
                    lemma_cell_in_grid(sy as int / gsc, sx as int / gsc, gh, gw);
                    lemma_mul_is_commutative(gh, gw);
                    lemma_cell_in_grid(sy as int, sx as int, gsh, gsw);
                    lemma_mul_is_commutative(gsh, gsw);
                }
                let ly = sy / sc;
                let lx = sx / sc;
                let src = ly * w + lx;
                let dst = sy * sw + sx;
                let v = pixels[src];
                let ghost prev_buf = self.surface_buffer@;
                self.surface_buffer.set(dst, v);
                proof {
                    let d = sy as int * gsw + sx as int;
                    assert forall|y: int, x: int|
                        (0 <= y < sy as int && 0 <= x < gsw) || (y == sy as int && 0 <= x < sx
                            as int + 1) implies #[trigger] self.surface_buffer@[y * gsw + x]
                        == pixels@[(y / gsc) * gw + x / gsc] by {
                        if y == sy as int && x == sx as int {
                            assert(self.surface_buffer@[d] == v);
                        } else {
                            lemma_cell_in_grid(y, x, gsh, gsw);
                            lemma_mul_is_commutative(gsh, gsw);
                            if y * gsw + x == d {
                                lemma_grid_index_injective(y, x, sy as int, sx as int, gsw);
                                assert(false);
                            }
                            assert(self.surface_buffer@[y * gsw + x] == prev_buf[y * gsw + x]);
                        }
                    }
                }
                sx = sx + 1;
            }
            sy = sy + 1;
        }
        Ok(())
    }

    /// Whether the key reads as held down. A read mutates nothing, so the
    /// answer is stable across repeated polls with no events drained in
    /// between.
    pub fn is_key_down(&self, k: Key) -> (r: bool)
        requires
            self.wf(),
        ensures
            r == self.key_down(k),
    {
        let slot = key_slot(k);
        self.input.keys[slot]
    }

    /// Whether the mouse button reads as held down.
    pub fn is_mouse_button_down(&self, b: MouseButton) -> (r: bool)
        requires
            self.wf(),
        ensures
            r == self.button_down(b),
    {
        let slot = button_slot(b);
        self.input.buttons[slot]
    }

    /// Whether the window is still open: no user close request was drained
    /// and no explicit close was performed.
    pub fn is_open(&self) -> (r: bool)
        ensures
            r == self.is_open_spec(),
    {
        !self.pending_close && !self.closed
    }

    /// Whether a structural event reported the surface at another size since
    /// the window was opened; surfaced to the caller, who owns reallocation.
    pub fn is_resize_pending(&self) -> (r: bool)
        ensures
            r == self.resize_pending,
    {
        self.resize_pending
    }

    /// Records the answer of the on-demand native pointer query, in surface
    /// coordinates relative to the window origin.
    pub fn record_mouse_position(&mut self, x: i32, y: i32)
        requires
            old(self).wf(),
        ensures
            final(self).wf(),
            same_view_but_input(*old(self), *final(self)),
            final(self).event_state() == old(self).event_state(),
            final(self).input.scroll == old(self).input.scroll,
            final(self).input.mouse == Some((x, y)),
    {
        self.input.mouse = Some((x, y));
    }

    /// Accumulates the answer of the dedicated native scroll-axis query into
    /// the pending delta, saturating at the `i32` range.
    pub fn record_scroll(&mut self, dx: i32, dy: i32)
        requires
            old(self).wf(),
        ensures
            final(self).wf(),
            same_view_but_input(*old(self), *final(self)),
            final(self).event_state() == old(self).event_state(),
            final(self).input.mouse == old(self).input.mouse,
            ({
                let base = match old(self).input.scroll {
                    Some(p) => (p.0 as int, p.1 as int),
                    None => (0int, 0int),
                };
                final(self).input.scroll matches Some(q) && q.0 as int == clamp_i32(
                    base.0 + dx as int,
                ) && q.1 as int == clamp_i32(base.1 + dy as int)
            }),
    {
        let (bx, by) = match self.input.scroll {
            Some(p) => p,
            None => (0i32, 0i32),
        };
        self.input.scroll = Some((clamp_add(bx, dx), clamp_add(by, dy)));
    }

    /// Hands out the scroll delta accumulated since the last read and clears
    /// it: at-most-once delivery per poll, so a second consecutive read with
    /// no new scroll recorded returns nothing.
    pub fn scroll_delta(&mut self) -> (r: Option<(i32, i32)>)
        requires
            old(self).wf(),
        ensures
            final(self).wf(),
            same_view_but_input(*old(self), *final(self)),
            final(self).event_state() == old(self).event_state(),
            final(self).input.mouse == old(self).input.mouse,
            r == old(self).input.scroll,
            final(self).input.scroll is None,
    {
        let r = self.input.scroll;
        self.input.scroll = None;
        r
    }

    /// The recorded pointer position in raw surface coordinates, or nothing
    /// while none has been recorded.
    pub fn get_unscaled_mouse_pos(&self) -> (r: Option<(i32, i32)>)
        ensures
            r == self.input.mouse,
    {
        self.input.mouse
    }

    /// The recorded pointer position in logical coordinates, or nothing
    /// while none has been recorded. Clamp mode forces the answer into the
    /// logical window bounds; discard mode reports nothing while the pointer
    /// sits outside the surface; pass mode scales the raw position down
    /// unchecked.
    pub fn get_mouse_pos(&self, mode: MouseMode) -> (r: Option<(i32, i32)>)
        requires
            self.wf(),
        ensures
            match self.input.mouse {
                None => r is None,
                Some(p) => {
                    let rx = p.0 as int;
                    let ry = p.1 as int;
                    let sc = self.scale as int;
                    match mode {
                        MouseMode::Pass => r matches Some(q) && ({
                            &&& q.0 as int == logical_coord(rx, sc)
                            &&& q.1 as int == logical_coord(ry, sc)
                        }),
                        MouseMode::Clamp => r matches Some(q) && ({
                            &&& q.0 as int == clamp_int(rx, 0, self.surface_width as int - 1) / sc
                            &&& q.1 as int == clamp_int(ry, 0, self.surface_height as int - 1) / sc
                            &&& 0 <= (q.0 as int) < self.width as int
                            &&& 0 <= (q.1 as int) < self.height as int
                        }),
                        MouseMode::Discard => if 0 <= rx < self.surface_width as int && 0 <= ry
                            < self.surface_height as int {
                            r matches Some(q) && ({
                                &&& q.0 as int == rx / sc
                                &&& q.1 as int == ry / sc
                                &&& 0 <= (q.0 as int) < self.width as int
                                &&& 0 <= (q.1 as int) < self.height as int
                            })
                        } else {
                            r is None
                        },
                    }
                },
            },
    {
        let (rx, ry) = match self.input.mouse {
            Some(p) => p,
            None => {
                return None;
            },
        };
        proof {
            lemma_mul_strictly_positive(self.width as int, self.scale as int);
            lemma_mul_strictly_positive(self.height as int, self.scale as int);
            lemma_mul_inequality(1, self.scale as int, self.width as int);
            lemma_mul_is_commutative(self.scale as int, self.width as int);
            lemma_mul_inequality(1, self.scale as int, self.height as int);
            lemma_mul_is_commutative(self.scale as int, self.height as int);
        }
        match mode {
            MouseMode::Pass => Some((logical_div(rx, self.scale), logical_div(ry, self.scale))),
            MouseMode::Clamp => {
                let cx = clamp_coord(rx, self.surface_width - 1);
                let cy = clamp_coord(ry, self.surface_height - 1);
                let lx = cx / self.scale;
                let ly = cy / self.scale;
                proof {
                    lemma_div_in_range(cx as int, self.scale as int, self.width as int);
                    lemma_div_in_range(cy as int, self.scale as int, self.height as int);
                }
                Some((lx as i32, ly as i32))
            },
            MouseMode::Discard => {
                if rx < 0 || ry < 0 {
                    return None;
                }
                let ux = rx as u32;
                let uy = ry as u32;
                if ux >= self.surface_width || uy >= self.surface_height {
                    return None;
                }
                let lx = ux / self.scale;
                let ly = uy / self.scale;
                proof {
                    lemma_div_in_range(ux as int, self.scale as int, self.width as int);
                    lemma_div_in_range(uy as int, self.scale as int, self.height as int);
                }
                Some((lx as i32, ly as i32))
            },
        }
    }

    /// Remembers the cursor asked for and hands it back only when it differs
    /// from the one already applied, so an unchanged cursor costs the driver
    /// no native call.
    pub fn set_cursor(&mut self, cursor: CursorStyle) -> (apply: Option<CursorStyle>)
        requires
            old(self).wf(),
        ensures
            final(self).wf(),
            same_config(*old(self), *final(self)),
            final(self).surface_buffer@ == old(self).surface_buffer@,
            final(self).closed == old(self).closed,
            final(self).event_state() == old(self).event_state(),
            final(self).input.mouse == old(self).input.mouse,
            final(self).input.scroll == old(self).input.scroll,
            final(self).prev_cursor == Some(cursor),
            apply == if old(self).prev_cursor == Some(cursor) {
                Option::<CursorStyle>::None
            } else {
                Some(cursor)
            },
    {
        let same = match self.prev_cursor {
            Some(c) => c == cursor,
            None => false,
        };
        self.prev_cursor = Some(cursor);
        if same {
            None
        } else {
            Some(cursor)
        }
    }

    /// Closes the window on its single idempotent path: the surface id is
    /// deregistered from the connection first, and only then does the caller
    /// receive the ordered native release actions — image before surface —
    /// so a late event addressed to the old surface can no longer resolve to
    /// this window while its native resources go away. A second close
    /// deregisters nothing new and hands back no actions.
    pub fn close(&mut self, conn: &mut DisplayConnection) -> (actions: Vec<NativeAction>)
        requires
            old(self).wf(),
            old(conn).wf(),
        ensures
            final(self).wf(),
            final(conn).wf(),
            final(conn).registry@ == remove_id(old(conn).registry@, old(self).surface_id),
            !final(conn).registry@.contains(old(self).surface_id),
            final(conn).depth == old(conn).depth,
            final(conn).screen_width == old(conn).screen_width,
            final(conn).screen_height == old(conn).screen_height,
            final(conn).keyboard_extension == old(conn).keyboard_extension,
            final(conn).wm_delete_atom == old(conn).wm_delete_atom,
            final(conn).next_surface_id == old(conn).next_surface_id,
            same_config(*old(self), *final(self)),
            final(self).surface_buffer@ == old(self).surface_buffer@,
            final(self).event_state() == old(self).event_state(),
            final(self).input.mouse == old(self).input.mouse,
            final(self).input.scroll == old(self).input.scroll,
            final(self).prev_cursor == old(self).prev_cursor,
            final(self).closed,
            !final(self).is_open_spec(),
            old(self).closed ==> actions@ == Seq::<NativeAction>::empty(),
            !old(self).closed ==> actions@ == seq![
                NativeAction::DestroyImage { surface: old(self).surface_id },
                NativeAction::DestroyWindow { surface: old(self).surface_id },
            ],
    {
        let id = self.surface_id;
        conn.deregister(id);
        let was_closed = self.closed;
        self.closed = true;
        let mut actions: Vec<NativeAction> = Vec::new();
        if !was_closed {
            actions.push(NativeAction::DestroyImage { surface: id });
            actions.push(NativeAction::DestroyWindow { surface: id });
            proof {
                assert(actions@ =~= seq![
                    NativeAction::DestroyImage { surface: id },
                    NativeAction::DestroyWindow { surface: id },
                ]);
            }
        } else {
            proof {
                assert(actions@ =~= Seq::<NativeAction>::empty());
            }
        }
        actions
    }
}

impl DisplayConnection {
    /// Opens a window: plans the native side, registers a fresh surface id so
    /// events addressed to the surface resolve back to this window, and
    /// allocates the black-cleared surface backing buffer of exactly
    /// `width * scale` by `height * scale` pixels. Fails with
    /// `InvalidDimensions` exactly on dimensions outside `valid_dimensions`,
    /// leaving the connection untouched; surface-id exhaustion surfaces as
    /// the native creation failure it is.
    pub fn open_window(
        &mut self,
        title: String,
        width: u32,
        height: u32,
        flags: WindowFlags,
        scale: u32,
    ) -> (r: Result<Window, WindowError>)
        requires
            old(self).wf(),
        ensures
            final(self).wf(),
            final(self).depth == old(self).depth,
            final(self).screen_width == old(self).screen_width,
            final(self).screen_height == old(self).screen_height,
            final(self).keyboard_extension == old(self).keyboard_extension,
            final(self).wm_delete_atom == old(self).wm_delete_atom,
            match r {
                Ok(w) => {
                    &&& valid_dimensions(width, height, scale)
                    &&& w.wf()
                    &&& w.title@ == title@
                    &&& w.width == width
                    &&& w.height == height
                    &&& w.scale == scale
                    &&& w.surface_width as int == width as int * scale as int
                    &&& w.surface_height as int == height as int * scale as int
                    &&& w.surface_buffer@.len() == width as int * scale as int * (
                    height as int * scale as int)
                    &&& forall|i: int|
                        0 <= i < w.surface_buffer@.len() ==> w.surface_buffer@[i] == 0u32
                    &&& w.resizable == flags.resizable
                    &&& w.borderless == flags.borderless
                    &&& w.wm_delete_atom == old(self).wm_delete_atom
                    &&& !w.pending_close
                    &&& !w.resize_pending
                    &&& !w.closed
                    &&& w.is_open_spec()
                    &&& w.input.mouse is None
                    &&& w.input.scroll is None
                    &&& forall|i: int| 0 <= i < KEY_SLOTS as int ==> !w.input.keys@[i]
                    &&& forall|i: int| 0 <= i < BUTTON_SLOTS as int ==> !w.input.buttons@[i]
                    &&& w.prev_cursor is None
                    &&& !old(self).registry@.contains(w.surface_id)
                    &&& final(self).registry@ == old(self).registry@.push(w.surface_id)
                },
                Err(WindowError::InvalidDimensions) => {
                    &&& !valid_dimensions(width, height, scale)
                    &&& final(self).registry@ == old(self).registry@
                    &&& final(self).next_surface_id == old(self).next_surface_id
                },
                Err(WindowError::NativeWindowCreationFailed) => {
                    &&& valid_dimensions(width, height, scale)
                    &&& old(self).next_surface_id == u64::MAX
                    &&& final(self).registry@ == old(self).registry@
                    &&& final(self).next_surface_id == old(self).next_surface_id
                },
                Err(WindowError::NativeImageCreationFailed) => false,
            },
    {
        let plan = match plan_window(
            self.screen_width,
            self.screen_height,
            width,
            height,
            flags,
            scale,
        ) {
            Ok(p) => p,
            Err(e) => {
                return Err(e);
            },
        };
        if self.next_surface_id == u64::MAX {
            return Err(WindowError::NativeWindowCreationFailed);
        }
        let id = self.next_surface_id;
        self.next_surface_id = self.next_surface_id + 1;
        self.registry.push(id);
        proof {
            if old(self).registry@.contains(id) {
                let i = choose|i: int|
                    0 <= i < old(self).registry@.len() && old(self).registry@[i] == id;
                assert(old(self).registry@[i] < id);
            }
            lemma_mul_upper_bound(
                plan.surface_width as int,
                MAX_SURFACE_DIM as int,
                plan.surface_height as int,
                MAX_SURFACE_DIM as int,
            );
        }
        let n = to_usize(plan.surface_width) * to_usize(plan.surface_height);
        let surface_buffer = zeroed_pixels(n);
        Ok(
            Window {
                surface_id: id,
                title,
                width,
                height,
                scale,
                surface_width: plan.surface_width,
                surface_height: plan.surface_height,
                surface_buffer,
                input: InputState::new(),
                pending_close: false,
                resize_pending: false,
                closed: false,
                resizable: flags.resizable,
                borderless: flags.borderless,
                wm_delete_atom: self.wm_delete_atom,
                prev_cursor: None,
            },
        )
    }
}

} // verus!
