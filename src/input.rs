//! Normalization of a sampled pad into the virtual controller's wire state.

use vstd::prelude::*;

verus! {

/// D-pad up bit of the virtual pad's button word.
pub const BUTTON_D_PAD_UP: u32 = 0x0001;
/// D-pad down bit.
pub const BUTTON_D_PAD_DOWN: u32 = 0x0002;
/// D-pad left bit.
pub const BUTTON_D_PAD_LEFT: u32 = 0x0004;
/// D-pad right bit.
pub const BUTTON_D_PAD_RIGHT: u32 = 0x0008;
/// Start bit.
pub const BUTTON_START: u32 = 0x0010;
/// Back bit.
pub const BUTTON_BACK: u32 = 0x0020;
/// Left stick click bit.
pub const BUTTON_L_THUMB: u32 = 0x0040;
/// Right stick click bit.
pub const BUTTON_R_THUMB: u32 = 0x0080;
/// Left shoulder bit.
pub const BUTTON_L_SHOULDER: u32 = 0x0100;
/// Right shoulder bit.
pub const BUTTON_R_SHOULDER: u32 = 0x0200;
/// Guide bit.
pub const BUTTON_GUIDE: u32 = 0x0400;
/// A (south face button) bit.
pub const BUTTON_A: u32 = 0x1000;
/// B (east face button) bit.
pub const BUTTON_B: u32 = 0x2000;
/// X (west face button) bit.
pub const BUTTON_X: u32 = 0x4000;
/// Y (north face button) bit.
pub const BUTTON_Y: u32 = 0x8000;

/// Largest value of a native trigger axis.
pub const NATIVE_AXIS_MAX: i16 = 32767;

/// One reading of a high-level pad, as the platform reports it: which
/// buttons are held, and the raw signed 16-bit axes (sticks grow down and
/// to the right; triggers rest near 0).
#[derive(Clone, Copy, Debug, PartialEq, Eq, Default)]
pub struct PadSample {
    pub south: bool,
    pub east: bool,
    pub west: bool,
    pub north: bool,
    pub start: bool,
    pub back: bool,
    pub left_stick: bool,
    pub right_stick: bool,
    pub left_shoulder: bool,
    pub right_shoulder: bool,
    pub guide: bool,
    pub dpad_up: bool,
    pub dpad_down: bool,
    pub dpad_left: bool,
    pub dpad_right: bool,
    pub left_x: i16,
    pub left_y: i16,
    pub right_x: i16,
    pub right_y: i16,
    pub trigger_left: i16,
    pub trigger_right: i16,
}

/// The virtual pad's input report: a button word, two 8-bit triggers and
/// four stick axes where up and right are positive.
#[derive(Clone, Copy, Debug, PartialEq, Eq, Default)]
pub struct InputState {
    pub buttons: u32,
    pub lt: u8,
    pub rt: u8,
    pub lx: i16,
    pub ly: i16,
    pub rx: i16,
    pub ry: i16,
}

/// Last normalized snapshot of a device.
#[derive(Clone, Copy, Debug, PartialEq, Eq, Default)]
pub struct DeviceState {
    pub input: InputState,
}

/// The trigger mapping: negative rest noise counts as released, and the
/// native range `0..=32767` is rescaled onto `0..=255`, rounding down.
pub open spec fn trigger_value(raw: i16) -> int {
    if raw <= 0 {
        0
    } else {
        (raw as int * 255) / 32767
    }
}

/// The stick Y mapping: a saturating negation, so the native minimum
/// (full up) becomes the largest positive value.
pub open spec fn inverted_axis(raw: i16) -> int {
    if raw == i16::MIN {
        i16::MAX as int
    } else {
        -(raw as int)
    }
}

/// `bit` if `held`, else nothing.
pub open spec fn bit_if(held: bool, bit: u32) -> u32 {
    if held {
        bit
    } else {
        0
    }
}

/// The button word of a sample: one bit of the virtual pad for each held
/// native button.
pub open spec fn button_word(s: PadSample) -> u32 {
    bit_if(s.south, BUTTON_A) | bit_if(s.east, BUTTON_B) | bit_if(s.west, BUTTON_X)
        | bit_if(s.north, BUTTON_Y) | bit_if(s.start, BUTTON_START) | bit_if(s.back, BUTTON_BACK)
        | bit_if(s.left_stick, BUTTON_L_THUMB) | bit_if(s.right_stick, BUTTON_R_THUMB)
        | bit_if(s.left_shoulder, BUTTON_L_SHOULDER) | bit_if(s.right_shoulder, BUTTON_R_SHOULDER)
        | bit_if(s.guide, BUTTON_GUIDE) | bit_if(s.dpad_up, BUTTON_D_PAD_UP)
        | bit_if(s.dpad_down, BUTTON_D_PAD_DOWN) | bit_if(s.dpad_left, BUTTON_D_PAD_LEFT)
        | bit_if(s.dpad_right, BUTTON_D_PAD_RIGHT)
}

/// The full report for a sample.
pub open spec fn normalized(s: PadSample) -> InputState {
    InputState {
        buttons: button_word(s),
        lt: trigger_value(s.trigger_left) as u8,
        rt: trigger_value(s.trigger_right) as u8,
        lx: s.left_x,
        ly: inverted_axis(s.left_y) as i16,
        rx: s.right_x,
        ry: inverted_axis(s.right_y) as i16,
    }
}

/// A full trigger press gives the full 8-bit value; rest and negative noise
/// give 0; every reading lands in `0..=255`.
pub proof fn lemma_trigger_range(raw: i16)
    ensures
        trigger_value(32767) == 255,
        raw <= 0 ==> trigger_value(raw) == 0,
        0 <= trigger_value(raw) <= 255,
{
    if raw > 0 {
        assert(0 <= (raw as int * 255) / 32767 <= 255) by (nonlinear_arith)
            requires
                0 < raw <= 32767,
        ;
    }
}

/// Full up on a native stick (its minimum) becomes the largest positive
/// value, and the inversion never leaves the 16-bit range.
pub proof fn lemma_inversion_saturates(raw: i16)
    ensures
        inverted_axis(i16::MIN) == 32767,
        i16::MIN <= inverted_axis(raw) <= i16::MAX,
        raw != i16::MIN ==> inverted_axis(raw) == -(raw as int),
{
}

/// Rescales a native trigger reading onto the 8-bit trigger range.
pub fn normalize_trigger(raw: i16) -> (r: u8)
    ensures
        r as int == trigger_value(raw),
{
    let clamped: i16 = if raw < 0 {
        0
    } else {
        raw
    };
    let wide: i32 = clamped as i32;
    assert(0 <= wide * 255 <= 32767 * 255) by (nonlinear_arith)
        requires
            0 <= wide <= 32767,
    ;
    let scaled: i32 = (wide * 255) / 32767;
    assert(scaled <= 255) by (nonlinear_arith)
        requires
            scaled == (wide * 255) / 32767,
            0 <= wide <= 32767,
    ;
    scaled as u8
}

/// Flips a native stick Y reading to the up-positive convention, saturating
/// at the native minimum.
pub fn invert_axis(raw: i16) -> (r: i16)
    ensures
        r as int == inverted_axis(raw),
{
    if raw == i16::MIN {
        i16::MAX
    } else {
        -raw
    }
}

/// `bit` if the button is held, else no bit.
fn held_bit(held: bool, bit: u32) -> (r: u32)
    ensures
        r == bit_if(held, bit),
{
    if held {
        bit
    } else {
        0
    }
}

/// Gathers the held buttons of a sample into the virtual pad's button word.
pub fn button_mask(s: &PadSample) -> (r: u32)
    ensures
        r == button_word(*s),
{
    held_bit(s.south, BUTTON_A) | held_bit(s.east, BUTTON_B) | held_bit(s.west, BUTTON_X)
        | held_bit(s.north, BUTTON_Y) | held_bit(s.start, BUTTON_START) | held_bit(
        s.back,
        BUTTON_BACK,
    ) | held_bit(s.left_stick, BUTTON_L_THUMB) | held_bit(s.right_stick, BUTTON_R_THUMB)
        | held_bit(s.left_shoulder, BUTTON_L_SHOULDER) | held_bit(
        s.right_shoulder,
        BUTTON_R_SHOULDER,
    ) | held_bit(s.guide, BUTTON_GUIDE) | held_bit(s.dpad_up, BUTTON_D_PAD_UP) | held_bit(
        s.dpad_down,
        BUTTON_D_PAD_DOWN,
    ) | held_bit(s.dpad_left, BUTTON_D_PAD_LEFT) | held_bit(s.dpad_right, BUTTON_D_PAD_RIGHT)
}

/// Scales an 8-bit force-feedback intensity onto the native 16-bit motor
/// range (`0 -> 0`, `255 -> 65535`).
pub fn rumble_intensity(level: u8) -> (r: u16)
    ensures
        r as int == level as int * 257,
{
    (level as u16) * 257
}

impl DeviceState {
    /// Replaces the snapshot with the normalized form of `sample`.
    pub fn update_from_sdl_gamepad(&mut self, sample: &PadSample)
        ensures
            final(self).input == normalized(*sample),
    {
        let buttons = button_mask(sample);
        let lt = normalize_trigger(sample.trigger_left);
        let rt = normalize_trigger(sample.trigger_right);
        let ly = invert_axis(sample.left_y);
        let ry = invert_axis(sample.right_y);
        self.input = InputState {
            buttons,
            lt,
            rt,
            lx: sample.left_x,
            ly,
            rx: sample.right_x,
            ry,
        };
    }
}

} // verus!
