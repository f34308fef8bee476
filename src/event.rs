use vstd::prelude::*;

use crate::report::{
    clamp_i8, clamp_spec, set_bits, update_button, Report, MASK_EXTRA, MASK_LEFT, MASK_MIDDLE,
    MASK_RIGHT, MASK_SIDE,
};

verus! {

/// Synchronization code that closes one atomic group of events.
pub const SYN_REPORT: u16 = 0;

/// Relative axis code of horizontal motion.
pub const REL_X: u16 = 0x00;

/// Relative axis code of vertical motion.
pub const REL_Y: u16 = 0x01;

/// Relative axis code of the horizontal wheel.
pub const REL_HWHEEL: u16 = 0x06;

/// Relative axis code of the vertical wheel.
pub const REL_WHEEL: u16 = 0x08;

/// Button code of the left button.
pub const BTN_LEFT: u16 = 0x110;

/// Button code of the right button.
pub const BTN_RIGHT: u16 = 0x111;

/// Button code of the middle button.
pub const BTN_MIDDLE: u16 = 0x112;

/// Button code of the side button.
pub const BTN_SIDE: u16 = 0x113;

/// Button code of the extra button.
pub const BTN_EXTRA: u16 = 0x114;

/// Button code of the forward button (shares the extra button's bit).
pub const BTN_FORWARD: u16 = 0x115;

/// Button code of the back button (shares the side button's bit).
pub const BTN_BACK: u16 = 0x116;

/// One event of an input device, as the translator reads it.
#[derive(Clone, Copy, Debug, PartialEq, Eq, Structural)]
pub enum InputEvent {
    /// Relative motion on the axis `code`.
    RelativeAxis { code: u16, value: i32 },
    /// A button: value 0 is a release, 1 a press, anything else a repeat.
    Key { code: u16, value: i32 },
    /// A synchronization marker of kind `code`.
    Synchronization { code: u16, value: i32 },
    /// Any other kind of event.
    Other,
}

/// The motion and scroll fields of a report.
#[derive(Clone, Copy, Debug, PartialEq, Eq, Structural)]
pub enum Axis {
    X,
    Y,
    Wheel,
    HWheel,
}

/// The report field that a relative axis code drives, if any.
pub open spec fn axis_spec(code: u16) -> Option<Axis> {
    if code == REL_X {
        Some(Axis::X)
    } else if code == REL_Y {
        Some(Axis::Y)
    } else if code == REL_WHEEL {
        Some(Axis::Wheel)
    } else if code == REL_HWHEEL {
        Some(Axis::HWheel)
    } else {
        None
    }
}

/// The mask bit that a button code drives, or 0 for a code that is not mapped.
pub open spec fn button_mask_spec(code: u16) -> u8 {
    if code == BTN_LEFT {
        MASK_LEFT
    } else if code == BTN_RIGHT {
        MASK_RIGHT
    } else if code == BTN_MIDDLE {
        MASK_MIDDLE
    } else if code == BTN_SIDE || code == BTN_BACK {
        MASK_SIDE
    } else if code == BTN_EXTRA || code == BTN_FORWARD {
        MASK_EXTRA
    } else {
        0
    }
}

/// Whether a key event's value is a press or a release (not a repeat).
pub open spec fn is_level(value: i32) -> bool {
    value == 0 || value == 1
}

/// The report with field `a` set to `v`.
pub open spec fn with_axis(r: Report, a: Axis, v: i8) -> Report {
    match a {
        Axis::X => Report { x: v, ..r },
        Axis::Y => Report { y: v, ..r },
        Axis::Wheel => Report { wheel: v, ..r },
        Axis::HWheel => Report { hwheel: v, ..r },
    }
}

/// One event applied to a report: the next report and the packet emitted, if any.
pub open spec fn step(r: Report, ev: InputEvent) -> (Report, Option<Seq<u8>>) {
    match ev {
        InputEvent::RelativeAxis { code, value } => match axis_spec(code) {
            Some(a) => (with_axis(r, a, clamp_spec(value as int) as i8), None),
            None => (r, None),
        },
        InputEvent::Key { code, value } => {
            if button_mask_spec(code) != 0 && is_level(value) {
                (Report { buttons: set_bits(r.buttons, value == 1, button_mask_spec(code)), ..r }, None)
            } else {
                (r, None)
            }
        },
        InputEvent::Synchronization { code, value } => {
            if code == SYN_REPORT {
                (r.motion_reset(), Some(r.bytes_spec()))
            } else {
                (r, None)
            }
        },
        InputEvent::Other => (r, None),
    }
}

/// A sequence of events applied in order: the final report and the packets emitted.
pub open spec fn run_events(r: Report, evs: Seq<InputEvent>) -> (Report, Seq<Seq<u8>>)
    decreases evs.len(),
{
    if evs.len() == 0 {
        (r, Seq::empty())
    } else {
        let prev = run_events(r, evs.drop_last());
        let next = step(prev.0, evs.last());
        match next.1 {
            Some(p) => (next.0, prev.1.push(p)),
            None => (next.0, prev.1),
        }
    }
}

/// The view of an optional packet.
pub open spec fn packet_view(p: Option<[u8; 5]>) -> Option<Seq<u8>> {
    match p {
        Some(b) => Some(b@),
        None => None,
    }
}

/// Looks up the report field driven by a relative axis code.
pub fn axis_of(code: u16) -> (r: Option<Axis>)
    ensures
        r == axis_spec(code),
{
    if code == REL_X {
        Some(Axis::X)
    } else if code == REL_Y {
        Some(Axis::Y)
    } else if code == REL_WHEEL {
        Some(Axis::Wheel)
    } else if code == REL_HWHEEL {
        Some(Axis::HWheel)
    } else {
        None
    }
}

/// Looks up the mask bit of a button code; 0 for a code that is not mapped.
pub fn button_mask(code: u16) -> (r: u8)
    ensures
        r == button_mask_spec(code),
{
    if code == BTN_LEFT {
        MASK_LEFT
    } else if code == BTN_RIGHT {
        MASK_RIGHT
    } else if code == BTN_MIDDLE {
        MASK_MIDDLE
    } else if code == BTN_SIDE || code == BTN_BACK {
        MASK_SIDE
    } else if code == BTN_EXTRA || code == BTN_FORWARD {
        MASK_EXTRA
    } else {
        0
    }
}

impl Report {
    /// Applies one event. Returns the packet to write when the event is a
    /// report boundary; motion and scroll are then reset.
    pub fn apply(&mut self, ev: InputEvent) -> (r: Option<[u8; 5]>)
        ensures
            *final(self) == step(*old(self), ev).0,
            packet_view(r) == step(*old(self), ev).1,
    {
        match ev {
            InputEvent::RelativeAxis { code, value } => {
                match axis_of(code) {
                    Some(Axis::X) => self.x = clamp_i8(value),
                    Some(Axis::Y) => self.y = clamp_i8(value),
                    Some(Axis::Wheel) => self.wheel = clamp_i8(value),
                    Some(Axis::HWheel) => self.hwheel = clamp_i8(value),
                    None => {},
                }
                None
            },
            InputEvent::Key { code, value } => {
                let mask = button_mask(code);
                if mask != 0 && (value == 0 || value == 1) {
                    update_button(&mut self.buttons, value == 1, mask);
                }
                None
            },
            InputEvent::Synchronization { code, value: _ } => {
                if code == SYN_REPORT {
                    let p = self.packet();
                    self.reset_motion();
                    Some(p)
                } else {
                    None
                }
            },
            InputEvent::Other => None,
        }
    }
}

/// Applies a batch of events in order to `report` and returns the packets
/// emitted, one per report boundary, in order.
pub fn translate(report: &mut Report, events: &Vec<InputEvent>) -> (r: Vec<[u8; 5]>)
    ensures
        *final(report) == run_events(*old(report), events@).0,
        r@.len() == run_events(*old(report), events@).1.len(),
        forall|i: int| 0 <= i < r@.len() ==> r@[i]@ == #[trigger] run_events(*old(report), events@).1[i],
{
    let mut out: Vec<[u8; 5]> = Vec::new();
    let mut i: usize = 0;
    while i < events.len()
        invariant
            i <= events@.len(),
            *report == run_events(*old(report), events@.take(i as int)).0,
            out@.len() == run_events(*old(report), events@.take(i as int)).1.len(),
            forall|k: int| 0 <= k < out@.len() ==> out@[k]@ == #[trigger] run_events(*old(report), events@.take(i as int)).1[k],
        decreases events@.len() - i,
    {
        assert(events@.take(i as int + 1).drop_last() =~= events@.take(i as int));
        let p = report.apply(events[i]);
        match p {
            Some(b) => out.push(b),
            None => {},
        }
        i = i + 1;
    }
    assert(events@.take(events@.len() as int) =~= events@);
    out
}

} // verus!
