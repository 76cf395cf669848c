use vstd::prelude::*;

use crate::input::{
    button_index, button_of_code, key_index, key_of_sym, lemma_button_index_in_range,
    lemma_key_index_in_range, Key, BUTTON_SLOTS, KEY_SLOTS,
};

verus! {

/// One pending native event, already decoded into the plain values the
/// translator reads: the key symbol, button code, new surface size, or
/// client-message atom that the native queue carried.
#[derive(Clone, Copy, Debug, PartialEq, Eq, Structural)]
pub enum NativeEvent {
    /// A key went down; `keysym` is the native key symbol.
    KeyPress { keysym: u32 },
    /// A key came up.
    KeyRelease { keysym: u32 },
    /// A mouse button went down; `button` is the native button code.
    ButtonPress { button: u8 },
    /// A mouse button came up.
    ButtonRelease { button: u8 },
    /// A structural change reported the surface at this size.
    Configure { width: u32, height: u32 },
    /// A client message carrying this atom arrived.
    ClientMessage { atom: u64 },
}

/// The slice of a window that draining events may change: key and button
/// tables, the close request, and the resize flag.
pub ghost struct EventState {
    pub keys: Seq<bool>,
    pub buttons: Seq<bool>,
    pub pending_close: bool,
    pub resize_pending: bool,
}

/// The effect of one native event on the event-visible state of a window
/// whose surface measures `sw` by `sh` and whose delete protocol uses `atom`.
/// Unknown key symbols and button codes change nothing; a configure event at
/// the current surface size changes nothing; a client message with another
/// atom changes nothing.
pub open spec fn step_event(s: EventState, e: NativeEvent, sw: u32, sh: u32, atom: u64) -> EventState {
    match e {
        NativeEvent::KeyPress { keysym } => match key_of_sym(keysym) {
            Some(k) => EventState { keys: s.keys.update(key_index(k), true), ..s },
            None => s,
        },
        NativeEvent::KeyRelease { keysym } => match key_of_sym(keysym) {
            Some(k) => EventState { keys: s.keys.update(key_index(k), false), ..s },
            None => s,
        },
        NativeEvent::ButtonPress { button } => match button_of_code(button) {
            Some(b) => EventState { buttons: s.buttons.update(button_index(b), true), ..s },
            None => s,
        },
        NativeEvent::ButtonRelease { button } => match button_of_code(button) {
            Some(b) => EventState { buttons: s.buttons.update(button_index(b), false), ..s },
            None => s,
        },
        NativeEvent::Configure { width, height } => if width != sw || height != sh {
            EventState { resize_pending: true, ..s }
        } else {
            s
        },
        NativeEvent::ClientMessage { atom: a } => if a == atom {
            EventState { pending_close: true, ..s }
        } else {
            s
        },
    }
}

/// The event-visible state after draining `events` in order, starting from `s`.
pub open spec fn drain_spec(s: EventState, events: Seq<NativeEvent>, sw: u32, sh: u32, atom: u64) -> EventState
    decreases events.len(),
{
    if events.len() == 0 {
        s
    } else {
        step_event(drain_spec(s, events.drop_last(), sw, sh, atom), events.last(), sw, sh, atom)
    }
}

/// One event keeps full-sized key and button tables at their size.
pub proof fn lemma_step_preserves_shape(s: EventState, e: NativeEvent, sw: u32, sh: u32, atom: u64)
    requires
        s.keys.len() == KEY_SLOTS as int,
        s.buttons.len() == BUTTON_SLOTS as int,
    ensures
        step_event(s, e, sw, sh, atom).keys.len() == KEY_SLOTS as int,
        step_event(s, e, sw, sh, atom).buttons.len() == BUTTON_SLOTS as int,
{
    match e {
        NativeEvent::KeyPress { keysym } | NativeEvent::KeyRelease { keysym } => {
            match key_of_sym(keysym) {
                Some(k) => lemma_key_index_in_range(k),
                None => {},
            }
        },
        NativeEvent::ButtonPress { button } | NativeEvent::ButtonRelease { button } => {
            match button_of_code(button) {
                Some(b) => lemma_button_index_in_range(b),
                None => {},
            }
        },
        _ => {},
    }
}

/// Draining any event sequence keeps full-sized key and button tables at
/// their size.
pub proof fn lemma_drain_preserves_shape(s: EventState, events: Seq<NativeEvent>, sw: u32, sh: u32, atom: u64)
    requires
        s.keys.len() == KEY_SLOTS as int,
        s.buttons.len() == BUTTON_SLOTS as int,
    ensures
        drain_spec(s, events, sw, sh, atom).keys.len() == KEY_SLOTS as int,
        drain_spec(s, events, sw, sh, atom).buttons.len() == BUTTON_SLOTS as int,
    decreases events.len(),
{
    if events.len() > 0 {
        lemma_drain_preserves_shape(s, events.drop_last(), sw, sh, atom);
        lemma_step_preserves_shape(
            drain_spec(s, events.drop_last(), sw, sh, atom),
            events.last(),
            sw,
            sh,
            atom,
        );
    }
}

/// Draining a concatenation drains the first batch, then the second: one
/// call per frame over the whole queue equals any split into frames.
pub proof fn lemma_drain_append(s: EventState, a: Seq<NativeEvent>, b: Seq<NativeEvent>, sw: u32, sh: u32, atom: u64)
    ensures
        drain_spec(s, a + b, sw, sh, atom) == drain_spec(drain_spec(s, a, sw, sh, atom), b, sw, sh, atom),
    decreases b.len(),
{
    if b.len() == 0 {
        assert(a + b =~= a);
    } else {
        assert((a + b).drop_last() =~= a + b.drop_last());
        assert((a + b).last() == b.last());
        lemma_drain_append(s, a, b.drop_last(), sw, sh, atom);
    }
}

/// Whether the event is a press or release of this very key.
pub open spec fn event_touches_key(e: NativeEvent, k: Key) -> bool {
    match e {
        NativeEvent::KeyPress { keysym } => key_of_sym(keysym) == Some(k),
        NativeEvent::KeyRelease { keysym } => key_of_sym(keysym) == Some(k),
        _ => false,
    }
}

/// Two keys own the same slot of the key table only if they are the same
/// key.
pub proof fn lemma_key_index_injective(k1: Key, k2: Key)
    requires
        key_index(k1) == key_index(k2),
    ensures
        k1 == k2,
{
}

/// Law: a drain none of whose events presses or releases the key leaves
/// that key exactly as it was; with the press and release laws this pins
/// key-down from a press until the matching release, whatever else is
/// drained in between.
pub proof fn lemma_drain_keeps_untouched_key(s: EventState, events: Seq<NativeEvent>, k: Key, sw: u32, sh: u32, atom: u64)
    requires
        s.keys.len() == KEY_SLOTS as int,
        s.buttons.len() == BUTTON_SLOTS as int,
        forall|i: int| 0 <= i < events.len() ==> !event_touches_key(#[trigger] events[i], k),
    ensures
        drain_spec(s, events, sw, sh, atom).keys[key_index(k)] == s.keys[key_index(k)],
    decreases events.len(),
{
    if events.len() > 0 {
        assert forall|i: int|
            0 <= i < events.drop_last().len() implies !event_touches_key(
            #[trigger] events.drop_last()[i],
            k,
        ) by {
            assert(events.drop_last()[i] == events[i]);
        }
        lemma_drain_keeps_untouched_key(s, events.drop_last(), k, sw, sh, atom);
        let mid = drain_spec(s, events.drop_last(), sw, sh, atom);
        lemma_drain_preserves_shape(s, events.drop_last(), sw, sh, atom);
        lemma_key_index_in_range(k);
        let e = events.last();
        assert(!event_touches_key(e, k));
        match e {
            NativeEvent::KeyPress { keysym } | NativeEvent::KeyRelease { keysym } => {
                match key_of_sym(keysym) {
                    Some(k2) => {
                        lemma_key_index_in_range(k2);
                        if key_index(k2) == key_index(k) {
                            lemma_key_index_injective(k2, k);
                        }
                    },
                    None => {},
                }
            },
            _ => {},
        }
    }
}

/// Law: draining nothing changes nothing, so key-down state is stable across
/// polls that no event precedes.
pub proof fn lemma_drain_empty(s: EventState, sw: u32, sh: u32, atom: u64)
    ensures
        drain_spec(s, Seq::<NativeEvent>::empty(), sw, sh, atom) == s,
{
}

/// Law: after a drain whose last event presses the key that `keysym` stands
/// for, that key reads as down, whatever came before.
pub proof fn lemma_drain_key_press(s: EventState, events: Seq<NativeEvent>, keysym: u32, k: Key, sw: u32, sh: u32, atom: u64)
    requires
        key_of_sym(keysym) == Some(k),
        s.keys.len() == KEY_SLOTS as int,
        s.buttons.len() == BUTTON_SLOTS as int,
    ensures
        drain_spec(s, events.push(NativeEvent::KeyPress { keysym }), sw, sh, atom)
            .keys[key_index(k)] == true,
{
    let e = NativeEvent::KeyPress { keysym };
    let all = events.push(e);
    assert(all.drop_last() =~= events);
    lemma_drain_preserves_shape(s, events, sw, sh, atom);
    lemma_key_index_in_range(k);
}

/// Law: after a drain whose last event releases the key that `keysym` stands
/// for, that key reads as up, whatever came before.
pub proof fn lemma_drain_key_release(s: EventState, events: Seq<NativeEvent>, keysym: u32, k: Key, sw: u32, sh: u32, atom: u64)
    requires
        key_of_sym(keysym) == Some(k),
        s.keys.len() == KEY_SLOTS as int,
        s.buttons.len() == BUTTON_SLOTS as int,
    ensures
        drain_spec(s, events.push(NativeEvent::KeyRelease { keysym }), sw, sh, atom)
            .keys[key_index(k)] == false,
{
    let e = NativeEvent::KeyRelease { keysym };
    let all = events.push(e);
    assert(all.drop_last() =~= events);
    lemma_drain_preserves_shape(s, events, sw, sh, atom);
    lemma_key_index_in_range(k);
}

} // verus!
