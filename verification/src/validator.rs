//! Constraint predicates checked against planner output: VCO input band,
//! USB tap tolerance, bus maxima. A violated constraint means the requested
//! configuration cannot run the silicon safely, so the planner rejects it.

use vstd::prelude::*;

verus! {

/// Lower edge of the documented PLL input band.
pub const VCO_INPUT_MIN: u32 = 1_000_000;

/// Upper edge of the documented PLL input band.
pub const VCO_INPUT_MAX: u32 = 2_000_000;

/// The precise-tap target frequency required by USB.
pub const USB_TARGET: u32 = 48_000_000;

/// The USB electrical specification allows the 48 MHz tap to deviate by
/// at most 0.25%, i.e. 120 kHz.
pub const USB_TOLERANCE: u32 = 120_000;

/// Absolute difference of two mathematical integers.
pub open spec fn abs_diff(a: int, b: int) -> int {
    if a >= b {
        a - b
    } else {
        b - a
    }
}

/// The divided PLL input lies in the documented 1-2 MHz band.
pub open spec fn vco_input_ok(freq: int) -> bool {
    VCO_INPUT_MIN <= freq <= VCO_INPUT_MAX
}

/// The achieved tap frequency is within the USB tolerance of 48 MHz.
pub open spec fn usb_tap_ok(freq: int) -> bool {
    abs_diff(USB_TARGET as int, freq) <= USB_TOLERANCE
}

/// Checks the divided PLL input against the documented input band.
pub fn vco_input_in_range(freq: u32) -> (r: bool)
    ensures
        r == vco_input_ok(freq as int),
{
    VCO_INPUT_MIN <= freq && freq <= VCO_INPUT_MAX
}

/// Checks an achieved 48 MHz-tap frequency against the USB tolerance.
pub fn usb_tap_in_tolerance(freq: u32) -> (r: bool)
    ensures
        r == usb_tap_ok(freq as int),
{
    let diff: u32 = if freq >= USB_TARGET {
        freq - USB_TARGET
    } else {
        USB_TARGET - freq
    };
    diff <= USB_TOLERANCE
}

/// Checks an achieved bus frequency against its documented maximum.
pub fn bus_within_limit(freq: u32, max: u32) -> (r: bool)
    ensures
        r == (freq <= max),
{
    freq <= max
}

} // verus!
