//! The computed plan: PLL divisors, bus prescalers, flash wait states, and
//! the achieved-frequency snapshot derived from them.

use vstd::prelude::*;

use crate::config::{ClockSource, Hertz, HSI_FREQUENCY};

verus! {

/// Which input the system clock selector is switched to at the end of the
/// sequence.
#[derive(Clone, Copy, PartialEq, Eq, Structural, Debug)]
pub enum SystemClockSwitch {
    /// Run directly from the internal oscillator.
    Internal,
    /// Run directly from the external oscillator.
    External,
    /// Run from the PLL system output.
    Pll,
}

impl SystemClockSwitch {
    /// The selector code written to the clock-source field of the
    /// configuration register.
    pub fn code(&self) -> (c: u8)
        ensures
            c == (match *self {
                SystemClockSwitch::Internal => 0u8,
                SystemClockSwitch::External => 1u8,
                SystemClockSwitch::Pll => 2u8,
            }),
    {
        match *self {
            SystemClockSwitch::Internal => 0,
            SystemClockSwitch::External => 1,
            SystemClockSwitch::Pll => 2,
        }
    }
}

/// The PLL divisor set chosen by the planner.
///
/// When `use_pll` is false the PLL is bypassed entirely and the divisor
/// fields are left at zero.
#[derive(Clone, Copy, PartialEq, Eq, Debug)]
pub struct PllPlan {
    /// Whether the PLL runs at all.
    pub use_pll: bool,
    /// Input divisor M: reduces the source into the 1-2 MHz input band.
    pub pllm: u32,
    /// Feedback multiplier N: the VCO runs at `source / M * N`.
    pub plln: u32,
    /// Register code for the system output divisor P (code `p` divides by
    /// `2 * (p + 1)`).
    pub pllp_code: u8,
    /// USB output divisor Q: the 48 MHz tap runs at `VCO / Q`.
    pub pllq: u32,
    /// Achieved PLL system output frequency, when the PLL runs.
    pub pllsysclk: Option<u32>,
    /// Achieved 48 MHz-tap frequency, when a precise tap was requested.
    pub pll48clk: Option<u32>,
}

impl PllPlan {
    /// The plan of a configuration that never starts the PLL.
    pub open spec fn spec_bypassed() -> PllPlan {
        PllPlan {
            use_pll: false,
            pllm: 0,
            plln: 0,
            pllp_code: 0,
            pllq: 0,
            pllsysclk: None,
            pll48clk: None,
        }
    }

    /// Exec counterpart of [`PllPlan::spec_bypassed`].
    pub fn bypassed() -> (p: PllPlan)
        ensures
            p == PllPlan::spec_bypassed(),
    {
        PllPlan {
            use_pll: false,
            pllm: 0,
            plln: 0,
            pllp_code: 0,
            pllq: 0,
            pllsysclk: None,
            pll48clk: None,
        }
    }
}

/// The bus prescaler codes and divisors chosen by the planner, and the
/// timer-clock multiplier of each APB domain (timers run at the bus clock
/// when its prescaler is 1, else at twice the bus clock).
#[derive(Clone, Copy, PartialEq, Eq, Structural, Debug)]
pub struct PrescalerPlan {
    /// AHB prescaler register code.
    pub hpre_code: u8,
    /// AHB prescaler divisor.
    pub hpre_div: u32,
    /// APB1 prescaler register code.
    pub ppre1_code: u8,
    /// APB1 prescaler divisor.
    pub ppre1_div: u32,
    /// APB2 prescaler register code.
    pub ppre2_code: u8,
    /// APB2 prescaler divisor.
    pub ppre2_div: u32,
    /// APB1 timer clock multiplier (1 or 2).
    pub timer_mul1: u32,
    /// APB2 timer clock multiplier (1 or 2).
    pub timer_mul2: u32,
}

/// Everything the sequencer needs to realize a validated configuration:
/// the clock source, the PLL divisors, the prescalers, and the flash
/// wait-state code for the resulting system frequency.
#[derive(Clone, Copy, PartialEq, Eq, Debug)]
pub struct Plan {
    /// The oscillator the PLL and/or system clock run from.
    pub source: ClockSource,
    /// Where the system clock selector ends up.
    pub sw: SystemClockSwitch,
    /// PLL divisor set.
    pub pll: PllPlan,
    /// Bus prescalers.
    pub prescalers: PrescalerPlan,
    /// Flash wait-state code for the achieved system frequency.
    pub flash_latency: u8,
    /// Whether debug facilities are kept clocked.
    pub enable_debug: bool,
}

/// The achieved-frequency snapshot published at the end of a successful
/// sequencing run. Immutable once created.
#[derive(Clone, Copy, PartialEq, Eq, Debug)]
pub struct Clocks {
    /// System clock.
    pub sys: Hertz,
    /// AHB bus clocks (one value per AHB domain).
    pub ahb1: Hertz,
    pub ahb2: Hertz,
    pub ahb3: Hertz,
    /// APB1 bus clock.
    pub apb1: Hertz,
    /// APB2 bus clock.
    pub apb2: Hertz,
    /// APB1 timer kernel clock.
    pub apb1_tim: Hertz,
    /// APB2 timer kernel clock.
    pub apb2_tim: Hertz,
    /// Achieved 48 MHz USB tap, when one was planned.
    pub pll48: Option<Hertz>,
}

impl Plan {
    /// Achieved system frequency: the PLL output when the system runs from
    /// the PLL, else the selected oscillator frequency.
    pub open spec fn spec_sys(self) -> int {
        match self.sw {
            SystemClockSwitch::Pll => self.pll.pllsysclk->0 as int,
            SystemClockSwitch::External => (match self.source {
                ClockSource::ExternalOscillator { frequency, .. } => frequency.0 as int,
                ClockSource::InternalOscillator => HSI_FREQUENCY as int,
            }),
            SystemClockSwitch::Internal => HSI_FREQUENCY as int,
        }
    }

    /// Achieved AHB frequency, recomputed from the final divisor.
    pub open spec fn spec_ahb(self) -> int {
        self.spec_sys() / self.prescalers.hpre_div as int
    }

    /// Achieved APB1 frequency, recomputed from the final divisors.
    pub open spec fn spec_apb1(self) -> int {
        self.spec_ahb() / self.prescalers.ppre1_div as int
    }

    /// Achieved APB2 frequency, recomputed from the final divisors.
    pub open spec fn spec_apb2(self) -> int {
        self.spec_ahb() / self.prescalers.ppre2_div as int
    }

    /// Internal consistency of a plan: the fields the sequencer divides and
    /// multiplies by are in range, and the selector agrees with the rest of
    /// the plan. Established by the planner, preserved everywhere.
    pub open spec fn wf(self) -> bool {
        &&& self.sw is Pll ==> self.pll.pllsysclk is Some
        &&& self.sw is External ==> self.source is ExternalOscillator
        &&& 1 <= self.prescalers.hpre_div
        &&& 1 <= self.prescalers.ppre1_div
        &&& 1 <= self.prescalers.ppre2_div
        &&& self.spec_apb1() * self.prescalers.timer_mul1 as int <= u32::MAX
        &&& self.spec_apb2() * self.prescalers.timer_mul2 as int <= u32::MAX
    }

    /// The snapshot this plan achieves, as the sequencer will publish it.
    pub open spec fn spec_clocks(self) -> Clocks {
        Clocks {
            sys: Hertz(self.spec_sys() as u32),
            ahb1: Hertz(self.spec_ahb() as u32),
            ahb2: Hertz(self.spec_ahb() as u32),
            ahb3: Hertz(self.spec_ahb() as u32),
            apb1: Hertz(self.spec_apb1() as u32),
            apb2: Hertz(self.spec_apb2() as u32),
            apb1_tim: Hertz((self.spec_apb1() * self.prescalers.timer_mul1 as int) as u32),
            apb2_tim: Hertz((self.spec_apb2() * self.prescalers.timer_mul2 as int) as u32),
            pll48: match self.pll.pll48clk {
                Some(f) => Some(Hertz(f)),
                None => None,
            },
        }
    }

    /// Recompute the achieved frequencies from the final divisors.
    pub fn clocks(&self) -> (c: Clocks)
        requires
            self.wf(),
        ensures
            c == self.spec_clocks(),
    {
        let sys: u32 = match self.sw {
            SystemClockSwitch::Pll => {
                match self.pll.pllsysclk {
                    Some(f) => f,
                    None => 0,  // unreachable under wf
                }
            },
            SystemClockSwitch::External => {
                match self.source {
                    ClockSource::ExternalOscillator { frequency, .. } => frequency.0,
                    ClockSource::InternalOscillator => HSI_FREQUENCY,
                }
            },
            SystemClockSwitch::Internal => HSI_FREQUENCY,
        };
        let hclk: u32 = sys / self.prescalers.hpre_div;
        let pclk1: u32 = hclk / self.prescalers.ppre1_div;
        let pclk2: u32 = hclk / self.prescalers.ppre2_div;
        Clocks {
            sys: Hertz(sys),
            ahb1: Hertz(hclk),
            ahb2: Hertz(hclk),
            ahb3: Hertz(hclk),
            apb1: Hertz(pclk1),
            apb2: Hertz(pclk2),
            apb1_tim: Hertz(pclk1 * self.prescalers.timer_mul1),
            apb2_tim: Hertz(pclk2 * self.prescalers.timer_mul2),
            pll48: match self.pll.pll48clk {
                Some(f) => Some(Hertz(f)),
                None => None,
            },
        }
    }
}

/// The reason a requested configuration cannot run the chip safely.
/// Any of these is fatal: no register is touched once planning fails.
#[derive(Clone, Copy, PartialEq, Eq, Structural, Debug)]
pub enum PlanError {
    /// The PLL is needed but the requested system frequency is zero or
    /// above what the VCO can reach through the available output divisors.
    SystemTargetOutOfRange,
    /// The PLL is needed but the source oscillator is below the 1 MHz
    /// floor of the PLL input divider.
    PllSourceOutOfRange,
    /// A precise USB tap was requested but no divisor combination lands
    /// within the USB tolerance of 48 MHz.
    UsbTapOutOfTolerance,
    /// The resolved system clock is zero (a zero-frequency oscillator was
    /// configured).
    ZeroSystemClock,
    /// An explicit AHB target of zero was requested.
    ZeroAhbTarget,
    /// The AHB prescaler search left no usable AHB clock.
    AhbTooLow,
    /// An explicit APB1 target of zero was requested.
    ZeroApb1Target,
    /// An explicit APB2 target of zero was requested.
    ZeroApb2Target,
    /// The achieved APB1 frequency exceeds the chip's documented maximum.
    Apb1OutOfRange,
    /// The achieved APB2 frequency exceeds the chip's documented maximum.
    Apb2OutOfRange,
}

} // verus!
