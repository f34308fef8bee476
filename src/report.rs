use vstd::prelude::*;

verus! {

/// Bit of the left button in the report's button mask.
pub const MASK_LEFT: u8 = 0x01;

/// Bit of the right button.
pub const MASK_RIGHT: u8 = 0x02;

/// Bit of the middle button.
pub const MASK_MIDDLE: u8 = 0x04;

/// Bit of the side (back) button.
pub const MASK_SIDE: u8 = 0x08;

/// Bit of the extra (forward) button.
pub const MASK_EXTRA: u8 = 0x10;

/// The saturating clamp of a relative value into the signed 8-bit range.
pub open spec fn clamp_spec(v: int) -> int {
    if v < -128 {
        -128
    } else if v > 127 {
        127
    } else {
        v
    }
}

/// The two's-complement byte of a signed 8-bit value.
pub open spec fn byte_of(v: i8) -> u8 {
    if v < 0 {
        (v + 256) as u8
    } else {
        v as u8
    }
}

/// The button mask after a press (`pressed`) or a release of the bits in `mask`.
pub open spec fn set_bits(byte: u8, pressed: bool, mask: u8) -> u8 {
    if pressed {
        byte | mask
    } else {
        byte & !mask
    }
}

/// Whether `mask` is one of the five button bits of the report.
pub open spec fn is_button_bit(mask: u8) -> bool {
    mask == MASK_LEFT || mask == MASK_RIGHT || mask == MASK_MIDDLE || mask == MASK_SIDE
        || mask == MASK_EXTRA
}

/// Clamps a raw axis value into `[-128, 127]`, saturating at the bounds.
pub fn clamp_i8(value: i32) -> (r: i8)
    ensures
        r as int == clamp_spec(value as int),
        -128 <= r <= 127,
        -128 <= value <= 127 ==> r as int == value as int,
{
    if value < -128 {
        -128
    } else if value > 127 {
        127
    } else {
        value as i8
    }
}

/// The two's-complement byte of a signed 8-bit value.
pub fn to_byte(v: i8) -> (r: u8)
    ensures
        r == byte_of(v),
{
    if v < 0 {
        (v as i16 + 256) as u8
    } else {
        v as u8
    }
}

/// Sets the bits of `mask` in `byte` when `pressed`, clears them otherwise.
pub fn update_button(byte: &mut u8, pressed: bool, mask: u8)
    ensures
        *final(byte) == set_bits(*old(byte), pressed, mask),
{
    if pressed {
        *byte = *byte | mask;
    } else {
        *byte = *byte & !mask;
    }
}

/// The same update as `update_button`: press sets, release clears the bits of `mask`.
pub fn modify_btn(byte: &mut u8, pressed: bool, mask: u8)
    ensures
        *final(byte) == set_bits(*old(byte), pressed, mask),
{
    update_button(byte, pressed, mask);
}

/// A 5-byte boot-mouse report: the held buttons and the relative motion and
/// scroll since the last flush.
#[derive(Clone, Copy, Debug, PartialEq, Eq, Structural)]
pub struct Report {
    pub buttons: u8,
    pub x: i8,
    pub y: i8,
    pub wheel: i8,
    pub hwheel: i8,
}

impl Report {
    /// The report with no button held and no motion.
    pub open spec fn zero() -> Report {
        Report { buttons: 0, x: 0, y: 0, wheel: 0, hwheel: 0 }
    }

    /// The wire form: `[buttons, x, y, wheel, hwheel]`, signed fields in two's complement.
    pub open spec fn bytes_spec(self) -> Seq<u8> {
        seq![self.buttons, byte_of(self.x), byte_of(self.y), byte_of(self.wheel), byte_of(self.hwheel)]
    }

    /// The same buttons, with motion and scroll at zero.
    pub open spec fn motion_reset(self) -> Report {
        Report { x: 0, y: 0, wheel: 0, hwheel: 0, ..self }
    }

    /// A report with no button held and no motion.
    pub fn new() -> (r: Report)
        ensures
            r == Report::zero(),
    {
        Report { buttons: 0, x: 0, y: 0, wheel: 0, hwheel: 0 }
    }

    /// Serializes the report to its 5-byte wire form.
    pub fn to_bytes(&self) -> (r: [u8; 5])
        ensures
            r@ == self.bytes_spec(),
    {
        let r = [self.buttons, to_byte(self.x), to_byte(self.y), to_byte(self.wheel), to_byte(self.hwheel)];
        assert(r@ =~= self.bytes_spec());
        r
    }

    /// The packet that is written to the gadget: the same bytes as `to_bytes`.
    pub fn packet(&self) -> (r: [u8; 5])
        ensures
            r@ == self.bytes_spec(),
    {
        self.to_bytes()
    }

    /// Sets motion and scroll to zero and keeps the buttons.
    pub fn reset_motion(&mut self)
        ensures
            *final(self) == old(self).motion_reset(),
            final(self).buttons == old(self).buttons,
            final(self).x == 0 && final(self).y == 0,
            final(self).wheel == 0 && final(self).hwheel == 0,
    {
        self.x = 0;
        self.y = 0;
        self.wheel = 0;
        self.hwheel = 0;
    }
}

impl Default for Report {
    fn default() -> (r: Report)
        ensures
            r == Report::zero(),
    {
        Report::new()
    }
}

} // verus!
