use vstd::prelude::*;

use crate::event::{
    axis_spec, button_mask_spec, is_level, run_events, step, InputEvent, SYN_REPORT,
};
use crate::report::{is_button_bit, set_bits, Report};

verus! {

/// Whether the button bit `mask` is held after `evs`, starting from `init`:
/// the last press or release of a button mapped to `mask` decides, and with
/// none the bit keeps its initial state.
pub open spec fn level(evs: Seq<InputEvent>, mask: u8, init: bool) -> bool
    decreases evs.len(),
{
    if evs.len() == 0 {
        init
    } else {
        match evs.last() {
            InputEvent::Key { code, value } => {
                if button_mask_spec(code) == mask && is_level(value) {
                    value == 1
                } else {
                    level(evs.drop_last(), mask, init)
                }
            },
            _ => level(evs.drop_last(), mask, init),
        }
    }
}

/// Whether `ev` is a report boundary.
pub open spec fn is_boundary(ev: InputEvent) -> bool {
    match ev {
        InputEvent::Synchronization { code, value } => code == SYN_REPORT,
        _ => false,
    }
}

/// Whether `ev` carries a button or axis code that the report does not map.
pub open spec fn is_unrecognized(ev: InputEvent) -> bool {
    match ev {
        InputEvent::Key { code, value } => button_mask_spec(code) == 0,
        InputEvent::RelativeAxis { code, value } => axis_spec(code) is None,
        _ => false,
    }
}

/// Pressing or releasing one button bit changes that bit only.
pub proof fn lemma_set_bits_single(byte: u8, pressed: bool, m: u8, other: u8)
    requires
        is_button_bit(m),
        is_button_bit(other),
    ensures
        ((set_bits(byte, pressed, m) & other) != 0) == (if m == other {
            pressed
        } else {
            (byte & other) != 0
        }),
{
    if pressed {
        assert(((byte | m) & other != 0) == (if m == other {
            true
        } else {
            byte & other != 0
        })) by (bit_vector)
            requires
                m == 1 || m == 2 || m == 4 || m == 8 || m == 16,
                other == 1 || other == 2 || other == 4 || other == 8 || other == 16,
        ;
    } else {
        assert(((byte & !m) & other != 0) == (if m == other {
            false
        } else {
            byte & other != 0
        })) by (bit_vector)
            requires
                m == 1 || m == 2 || m == 4 || m == 8 || m == 16,
                other == 1 || other == 2 || other == 4 || other == 8 || other == 16,
        ;
    }
}

/// Level semantics of buttons: after any sequence of events, a button bit is
/// set exactly when the last press or release of a button mapped to it was a
/// press (or, with none, when it was set before); events of other buttons
/// never change it.
pub proof fn lemma_button_level(r: Report, evs: Seq<InputEvent>, mask: u8)
    requires
        is_button_bit(mask),
    ensures
        ((run_events(r, evs).0.buttons & mask) != 0) == level(evs, mask, (r.buttons & mask) != 0),
    decreases evs.len(),
{
    if evs.len() > 0 {
        lemma_button_level(r, evs.drop_last(), mask);
        let prev = run_events(r, evs.drop_last()).0;
        match evs.last() {
            InputEvent::Key { code, value } => {
                if button_mask_spec(code) != 0 && is_level(value) {
                    lemma_set_bits_single(prev.buttons, value == 1, button_mask_spec(code), mask);
                }
            },
            _ => {},
        }
    }
}

/// An emission leaves motion and scroll at zero, whatever they were, keeps the
/// buttons, and emits the report as it stood before.
pub proof fn lemma_emission_resets_motion(r: Report, ev: InputEvent)
    requires
        is_boundary(ev),
    ensures
        step(r, ev).0.x == 0,
        step(r, ev).0.y == 0,
        step(r, ev).0.wheel == 0,
        step(r, ev).0.hwheel == 0,
        step(r, ev).0.buttons == r.buttons,
        step(r, ev).1 == Some(r.bytes_spec()),
{
}

/// Two report boundaries in a row emit two packets: the first is the report,
/// the second has the same buttons and zero motion and scroll.
pub proof fn lemma_flush_twice(r: Report, a: InputEvent, b: InputEvent)
    requires
        is_boundary(a),
        is_boundary(b),
    ensures
        run_events(r, seq![a, b]).1 == seq![r.bytes_spec(), seq![r.buttons, 0u8, 0u8, 0u8, 0u8]],
        run_events(r, seq![a, b]).1[0][0] == run_events(r, seq![a, b]).1[1][0],
        run_events(r, seq![a, b]).0 == r.motion_reset(),
{
    let s = seq![a, b];
    assert(s.drop_last() =~= seq![a]);
    assert(seq![a].drop_last() =~= Seq::<InputEvent>::empty());
    let e = Seq::<InputEvent>::empty();
    assert(run_events(r, e) == (r, Seq::<Seq<u8>>::empty()));
    assert(seq![a].last() == a);
    assert(run_events(r, seq![a]).0 == r.motion_reset());
    assert(run_events(r, seq![a]).1 =~= seq![r.bytes_spec()]);
    assert(s.last() == b);
    let second = r.motion_reset().bytes_spec();
    assert(second =~= seq![r.buttons, 0u8, 0u8, 0u8, 0u8]);
    assert(run_events(r, s).1 =~= seq![r.bytes_spec(), second]);
}

/// A button or axis code that the report does not map changes nothing and
/// emits nothing.
pub proof fn lemma_unrecognized_ignored(r: Report, ev: InputEvent)
    requires
        is_unrecognized(ev),
    ensures
        step(r, ev) == (r, None::<Seq<u8>>),
{
}

} // verus!
