//! User-facing configuration: desired oscillator sources and target bus
//! frequencies, plus the per-chip constant table the planner checks against.

use vstd::prelude::*;

verus! {

/// Frequency of the internal oscillator, fixed by the chip family.
pub const HSI_FREQUENCY: u32 = 16_000_000;

/// A frequency in hertz.
#[derive(Clone, Copy, PartialEq, Eq, Structural, Debug)]
pub struct Hertz(pub u32);

/// Desired clock configuration.
///
/// Unset optional fields mean "derive a sensible default from what is
/// available". A `Config` is built once by the caller and consumed by the
/// planner.
#[non_exhaustive]
#[derive(Clone, Copy, Debug)]
pub struct Config {
    /// Frequency of the external oscillator, if one is fitted.
    pub hse: Option<Hertz>,
    /// Bypass the external crystal driver and accept a digital clock signal.
    pub bypass_hse: bool,
    /// Request a precise 48 MHz tap for USB.
    pub pll48: bool,
    /// Target system clock frequency.
    pub sys_ck: Option<Hertz>,
    /// Target AHB bus frequency.
    pub hclk: Option<Hertz>,
    /// Target APB1 bus frequency.
    pub pclk1: Option<Hertz>,
    /// Target APB2 bus frequency.
    pub pclk2: Option<Hertz>,
    /// Keep debug trace facilities clocked in low-power states.
    pub enable_debug_wfe: bool,
}

impl Default for Config {
    /// The default configuration: internal oscillator, no explicit targets.
    fn default() -> (c: Config)
        ensures
            c.hse is None,
            !c.bypass_hse,
            !c.pll48,
            c.sys_ck is None,
            c.hclk is None,
            c.pclk1 is None,
            c.pclk2 is None,
            !c.enable_debug_wfe,
    {
        Config {
            hse: None,
            bypass_hse: false,
            pll48: false,
            sys_ck: None,
            hclk: None,
            pclk1: None,
            pclk2: None,
            enable_debug_wfe: false,
        }
    }
}

/// The input the PLL and the system clock run from.
#[derive(Clone, Copy, PartialEq, Eq, Structural, Debug)]
pub enum ClockSource {
    /// The fixed, always-available internal oscillator.
    InternalOscillator,
    /// An external oscillator of the given frequency; `bypassed` means the
    /// crystal driver is skipped and a digital clock is accepted directly.
    ExternalOscillator { frequency: Hertz, bypassed: bool },
}

/// Documented electrical maxima of the target chip, supplied to the planner
/// so the search itself stays chip-agnostic.
#[derive(Clone, Copy, PartialEq, Eq, Structural, Debug)]
pub struct ChipLimits {
    /// Maximum APB1 bus frequency.
    pub pclk1_max: u32,
    /// Maximum APB2 bus frequency.
    pub pclk2_max: u32,
}

impl ChipLimits {
    /// A limits table is usable when both maxima are nonzero and small
    /// enough that doubling an in-range bus frequency (for the timer
    /// clocks) cannot overflow.
    pub open spec fn wf(self) -> bool {
        &&& 0 < self.pclk1_max <= 0x7fff_ffff
        &&& 0 < self.pclk2_max <= 0x7fff_ffff
    }

    /// The limits of the mainstream parts of the chip family: APB1 capped
    /// at 42 MHz and APB2 at 84 MHz.
    pub open spec fn spec_standard() -> ChipLimits {
        ChipLimits { pclk1_max: 42_000_000, pclk2_max: 84_000_000 }
    }

    /// Exec counterpart of [`ChipLimits::spec_standard`].
    pub fn standard() -> (l: ChipLimits)
        ensures
            l == ChipLimits::spec_standard(),
            l.wf(),
    {
        ChipLimits { pclk1_max: 42_000_000, pclk2_max: 84_000_000 }
    }

    /// A custom limits table for another part of the family.
    pub fn new(pclk1_max: u32, pclk2_max: u32) -> (l: ChipLimits)
        requires
            0 < pclk1_max <= 0x7fff_ffff,
            0 < pclk2_max <= 0x7fff_ffff,
        ensures
            l.pclk1_max == pclk1_max,
            l.pclk2_max == pclk2_max,
            l.wf(),
    {
        ChipLimits { pclk1_max, pclk2_max }
    }
}

} // verus!
