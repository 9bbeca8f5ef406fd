//! The frequency planner: pure computation from a [`Config`] to a
//! [`Plan`], with no hardware side effects.
//!
//! The planner resolves the PLL input and target system frequencies,
//! decides whether the PLL must run, searches the divisor space for the
//! combination closest to the target, selects bus prescalers by a
//! ceiling-style search over the chip's divisor tables, and derives the
//! flash wait-state code. Planning is a pure function of the configuration
//! and the chip limits: [`plan`] returns exactly [`spec_plan`] of its
//! arguments, so two calls on the same input yield identical plans.

use vstd::prelude::*;

use vstd::arithmetic::div_mod::{
    lemma_div_by_multiple, lemma_div_is_ordered, lemma_div_is_ordered_by_denominator,
    lemma_div_multiples_vanish, lemma_div_pos_is_pos, lemma_fundamental_div_mod,
    lemma_mod_division_less_than_divisor,
};
use vstd::arithmetic::mul::lemma_mul_inequality;

use crate::config::{ChipLimits, ClockSource, Config, Hertz, HSI_FREQUENCY};
use crate::plan::{Plan, PlanError, PllPlan, PrescalerPlan, SystemClockSwitch};
use crate::validator::{
    abs_diff, bus_within_limit, usb_tap_in_tolerance, usb_tap_ok, vco_input_in_range,
    vco_input_ok, USB_TARGET,
};

verus! {

/// Upper bound of the documented VCO output band.
pub const VCO_MAX: u32 = 432_000_000;

/// One flash wait state covers this much system frequency (conservative
/// across the family's voltage ranges).
pub const FLASH_LATENCY_STEP: u32 = 30_000_000;

/// Highest system target the PLL can serve: above this, the largest VCO
/// output divided by the smallest even system divisor is out of reach.
pub const SYS_TARGET_MAX: u32 = 216_000_000;

/// The smaller of two integers.
pub open spec fn min_int(a: int, b: int) -> int {
    if a <= b {
        a
    } else {
        b
    }
}

/// The PLL (and system) input frequency resolved from the configuration:
/// the external oscillator if one is fitted, else the internal oscillator.
pub open spec fn source_freq(c: Config) -> int {
    match c.hse {
        Some(h) => h.0 as int,
        None => HSI_FREQUENCY as int,
    }
}

/// The resolved target system frequency: the explicit target if given,
/// else the source frequency (meaning: no PLL needed for the system).
pub open spec fn sys_target(c: Config) -> int {
    match c.sys_ck {
        Some(s) => s.0 as int,
        None => source_freq(c),
    }
}

/// Whether the system clock must come from the PLL.
pub open spec fn sys_on_pll(c: Config) -> bool {
    sys_target(c) != source_freq(c)
}

/// Whether the PLL must run at all: the system needs it, or a precise
/// 48 MHz tap was requested.
pub open spec fn needs_pll(c: Config) -> bool {
    sys_on_pll(c) || c.pll48
}

/// Smallest input divisor M keeping the divided source at or below 2 MHz.
pub open spec fn pllm_min(src: int) -> int {
    (src + 1_999_999) / 2_000_000
}

/// Largest input divisor M keeping the divided source at or above 1 MHz.
pub open spec fn pllm_max(src: int) -> int {
    src / 1_000_000
}

/// The even system output divisor in {2, 4, 6, 8}: the largest such value
/// whose product with the system target stays within the VCO band.
pub open spec fn sys_output_div(sys: int) -> int {
    let q = VCO_MAX as int / sys;
    let even = q - q % 2;
    min_int(8, even)
}

/// The VCO output the search aims for: exactly 48 MHz when a precise tap
/// is requested, else the system target scaled by the system divisor.
pub open spec fn vco_target(sys: int, pll48: bool) -> int {
    if pll48 {
        USB_TARGET as int
    } else {
        sys * sys_output_div(sys)
    }
}

/// Residual of input divisor `m`: the gap between the target and the best
/// whole multiple of the divided input. (The feedback multiplier is the
/// integer quotient of target over divided input, so the residual is the
/// remainder.)
pub open spec fn pllm_key(src: int, target: int, m: int) -> int {
    target % (src / m)
}

/// First minimizer of the residual among divisors in `[lo, i)`, scanning
/// ascending: a later divisor displaces the incumbent only with a strictly
/// smaller residual.
pub open spec fn best_pllm_upto(src: int, target: int, lo: int, i: int) -> int
    decreases i - lo,
{
    if i <= lo + 1 {
        lo
    } else {
        let prev = best_pllm_upto(src, target, lo, i - 1);
        if pllm_key(src, target, i - 1) < pllm_key(src, target, prev) {
            i - 1
        } else {
            prev
        }
    }
}

/// The input divisor the planner settles on: the smallest divisor in the
/// valid band minimizing the residual. Ties break toward the smallest
/// divisor, maximizing the PLL input frequency for better jitter margin.
pub open spec fn chosen_pllm(src: int, target: int) -> int {
    best_pllm_upto(src, target, pllm_min(src), pllm_max(src) + 1)
}

/// Feedback multiplier that brings the VCO output nearest (from below) to
/// `48 MHz * q` for USB output divisor `q`.
pub open spec fn usb_plln(vco: int, q: int) -> int {
    USB_TARGET as int * q / vco
}

/// How far below 48 MHz the tap lands for USB output divisor `q`.
pub open spec fn usb_tap_err(vco: int, q: int) -> int {
    USB_TARGET as int - vco * usb_plln(vco, q) / q
}

/// How far from the system target the system output lands for USB output
/// divisor `q`.
pub open spec fn usb_sys_err(vco: int, sys: int, div: int, q: int) -> int {
    abs_diff(sys, vco * usb_plln(vco, q) / div)
}

/// Lexicographic comparison of USB output divisors: first by tap error
/// against exactly 48 MHz, then by system-frequency error.
pub open spec fn usb_key_improves(vco: int, sys: int, div: int, cand: int, best: int) -> bool {
    ||| usb_tap_err(vco, cand) < usb_tap_err(vco, best)
    ||| (usb_tap_err(vco, cand) == usb_tap_err(vco, best) && usb_sys_err(vco, sys, div, cand)
        < usb_sys_err(vco, sys, div, best))
}

/// First lexicographic minimizer among USB output divisors in `[4, i)`.
pub open spec fn best_pllq_upto(vco: int, sys: int, div: int, i: int) -> int
    decreases i - 4,
{
    if i <= 5 {
        4
    } else {
        let prev = best_pllq_upto(vco, sys, div, i - 1);
        if usb_key_improves(vco, sys, div, i - 1, prev) {
            i - 1
        } else {
            prev
        }
    }
}

/// The USB output divisor the planner settles on, out of the valid range
/// 4 through 9.
pub open spec fn chosen_pllq(vco: int, sys: int, div: int) -> int {
    best_pllq_upto(vco, sys, div, 10)
}

/// The PLL divisor set for a configuration that needs the PLL, or the
/// reason none exists. `src` is the PLL input frequency, `sys` the
/// resolved system target, `pll48` whether a precise tap is required.
pub open spec fn spec_pll(src: int, sys: int, pll48: bool) -> Result<PllPlan, PlanError> {
    if sys < 1 {
        Err(PlanError::SystemTargetOutOfRange)
    } else if src < 1_000_000 {
        Err(PlanError::PllSourceOutOfRange)
    } else if sys > SYS_TARGET_MAX as int {
        Err(PlanError::SystemTargetOutOfRange)
    } else {
        let div = sys_output_div(sys);
        let target = vco_target(sys, pll48);
        let m = chosen_pllm(src, target);
        let vco = src / m;
        let plln = if pll48 {
            usb_plln(vco, chosen_pllq(vco, sys, div))
        } else {
            target / vco
        };
        if plln < 1 {
            Err(PlanError::SystemTargetOutOfRange)
        } else {
            let pllq = (vco * plln + 47_999_999) / 48_000_000;
            let real48 = vco * plln / pllq;
            if pll48 && !usb_tap_ok(real48) {
                Err(PlanError::UsbTapOutOfTolerance)
            } else {
                Ok(
                    PllPlan {
                        use_pll: true,
                        pllm: m as u32,
                        plln: plln as u32,
                        pllp_code: (div / 2 - 1) as u8,
                        pllq: pllq as u32,
                        pllsysclk: Some((vco * plln / div) as u32),
                        pll48clk: if pll48 {
                            Some(real48 as u32)
                        } else {
                            None
                        },
                    },
                )
            }
        }
    }
}

/// AHB prescaler divisor for a ceiling ratio of system over target AHB
/// frequency. The divisor table skips 32, so selection is by bucket.
pub open spec fn hpre_div_of(ratio: int) -> int {
    if ratio <= 1 {
        1
    } else if ratio == 2 {
        2
    } else if ratio <= 5 {
        4
    } else if ratio <= 11 {
        8
    } else if ratio <= 39 {
        16
    } else if ratio <= 95 {
        64
    } else if ratio <= 191 {
        128
    } else if ratio <= 383 {
        256
    } else {
        512
    }
}

/// AHB prescaler register code for the same buckets.
pub open spec fn hpre_code_of(ratio: int) -> int {
    if ratio <= 1 {
        0
    } else if ratio == 2 {
        8
    } else if ratio <= 5 {
        9
    } else if ratio <= 11 {
        10
    } else if ratio <= 39 {
        11
    } else if ratio <= 95 {
        12
    } else if ratio <= 191 {
        13
    } else if ratio <= 383 {
        14
    } else {
        15
    }
}

/// APB prescaler divisor for a ceiling ratio of AHB over target APB
/// frequency, from the table {1, 2, 4, 8, 16}.
pub open spec fn ppre_div_of(ratio: int) -> int {
    if ratio <= 1 {
        1
    } else if ratio == 2 {
        2
    } else if ratio <= 5 {
        4
    } else if ratio <= 11 {
        8
    } else {
        16
    }
}

/// APB prescaler register code for the same buckets.
pub open spec fn ppre_code_of(ratio: int) -> int {
    if ratio <= 1 {
        0
    } else if ratio == 2 {
        4
    } else if ratio <= 5 {
        5
    } else if ratio <= 11 {
        6
    } else {
        7
    }
}

/// Minimum number of flash wait states guaranteed safe at the given
/// system frequency.
pub open spec fn spec_flash_latency(sysclk: int) -> int {
    (sysclk - 1) / FLASH_LATENCY_STEP as int
}

/// The clock source described by a configuration.
pub open spec fn spec_source(c: Config) -> ClockSource {
    match c.hse {
        Some(f) => ClockSource::ExternalOscillator { frequency: f, bypassed: c.bypass_hse },
        None => ClockSource::InternalOscillator,
    }
}

/// The whole planning function, as a total mathematical map from
/// configuration and chip limits to either a plan or the first fatal
/// condition encountered. [`plan`] computes exactly this.
pub open spec fn spec_plan(c: Config, l: ChipLimits) -> Result<Plan, PlanError> {
    let src = source_freq(c);
    let sys_t = sys_target(c);
    let on_pll = sys_on_pll(c);
    let pllr = if needs_pll(c) {
        spec_pll(src, sys_t, c.pll48)
    } else {
        Ok(PllPlan::spec_bypassed())
    };
    match pllr {
        Err(e) => Err(e),
        Ok(pll) => {
            let sysclk = if on_pll {
                pll.pllsysclk->0 as int
            } else {
                sys_t
            };
            if sysclk < 1 {
                Err(PlanError::ZeroSystemClock)
            } else {
                let hclk_t = match c.hclk {
                    Some(h) => h.0 as int,
                    None => sysclk,
                };
                if hclk_t < 1 {
                    Err(PlanError::ZeroAhbTarget)
                } else {
                    let hratio = (sysclk + hclk_t - 1) / hclk_t;
                    let hdiv = hpre_div_of(hratio);
                    let hclk = sysclk / hdiv;
                    if hclk < 1 {
                        Err(PlanError::AhbTooLow)
                    } else {
                        spec_plan_buses(c, l, pll, sysclk, hratio, hclk)
                    }
                }
            }
        },
    }
}

/// Continuation of [`spec_plan`] once the system and AHB clocks are
/// settled: APB prescaler selection, bus-maximum validation, flash
/// latency, and assembly of the plan.
pub open spec fn spec_plan_buses(
    c: Config,
    l: ChipLimits,
    pll: PllPlan,
    sysclk: int,
    hratio: int,
    hclk: int,
) -> Result<Plan, PlanError> {
    let p1_t = match c.pclk1 {
        Some(p) => p.0 as int,
        None => min_int(l.pclk1_max as int, hclk),
    };
    if p1_t < 1 {
        Err(PlanError::ZeroApb1Target)
    } else {
        let r1 = (hclk + p1_t - 1) / p1_t;
        let d1 = ppre_div_of(r1);
        let pclk1 = hclk / d1;
        if pclk1 > l.pclk1_max as int {
            Err(PlanError::Apb1OutOfRange)
        } else {
            let p2_t = match c.pclk2 {
                Some(p) => p.0 as int,
                None => min_int(l.pclk2_max as int, hclk),
            };
            if p2_t < 1 {
                Err(PlanError::ZeroApb2Target)
            } else {
                let r2 = (hclk + p2_t - 1) / p2_t;
                let d2 = ppre_div_of(r2);
                let pclk2 = hclk / d2;
                if pclk2 > l.pclk2_max as int {
                    Err(PlanError::Apb2OutOfRange)
                } else {
                    Ok(
                        Plan {
                            source: spec_source(c),
                            sw: if sys_on_pll(c) {
                                SystemClockSwitch::Pll
                            } else if c.hse is Some {
                                SystemClockSwitch::External
                            } else {
                                SystemClockSwitch::Internal
                            },
                            pll: pll,
                            prescalers: PrescalerPlan {
                                hpre_code: hpre_code_of(hratio) as u8,
                                hpre_div: hpre_div_of(hratio) as u32,
                                ppre1_code: ppre_code_of(r1) as u8,
                                ppre1_div: d1 as u32,
                                ppre2_code: ppre_code_of(r2) as u8,
                                ppre2_div: d2 as u32,
                                timer_mul1: if d1 == 1 {
                                    1u32
                                } else {
                                    2u32
                                },
                                timer_mul2: if d2 == 1 {
                                    1u32
                                } else {
                                    2u32
                                },
                            },
                            flash_latency: spec_flash_latency(sysclk) as u8,
                            enable_debug: c.enable_debug_wfe,
                        },
                    )
                }
            }
        }
    }
}

/// With at least 1 MHz of source, the input-divisor band is nonempty.
pub proof fn lemma_pllm_range_nonempty(src: int)
    requires
        1_000_000 <= src,
    ensures
        1 <= pllm_min(src) <= pllm_max(src),
{
    lemma_fundamental_div_mod(src, 1_000_000);
    lemma_mod_division_less_than_divisor(src, 1_000_000);
    lemma_fundamental_div_mod(src + 1_999_999, 2_000_000);
    lemma_mod_division_less_than_divisor(src + 1_999_999, 2_000_000);
}

/// Every divisor in the band puts the divided source inside the
/// documented 1-2 MHz PLL input window.
pub proof fn lemma_candidate_vco_in_range(src: int, m: int)
    requires
        1_000_000 <= src,
        pllm_min(src) <= m <= pllm_max(src),
    ensures
        vco_input_ok(src / m),
{
    lemma_pllm_range_nonempty(src);
    // 2_000_000 * pllm_min(src) >= src, so src / m <= 2_000_000.
    lemma_fundamental_div_mod(src + 1_999_999, 2_000_000);
    lemma_mod_division_less_than_divisor(src + 1_999_999, 2_000_000);
    lemma_mul_inequality(pllm_min(src), m, 2_000_000);
    assert(2_000_000 * m >= src);
    lemma_div_is_ordered(src, 2_000_000 * m, m);
    lemma_div_multiples_vanish(2_000_000, m);
    // 1_000_000 * pllm_max(src) <= src, so src / m >= 1_000_000.
    lemma_fundamental_div_mod(src, 1_000_000);
    lemma_mod_division_less_than_divisor(src, 1_000_000);
    lemma_mul_inequality(m, pllm_max(src), 1_000_000);
    assert(1_000_000 * m <= src);
    lemma_div_is_ordered(1_000_000 * m, src, m);
    lemma_div_multiples_vanish(1_000_000, m);
}

/// The incumbent of the ascending scan lies in the scanned range.
pub proof fn lemma_best_pllm_in_range(src: int, target: int, lo: int, i: int)
    requires
        lo + 1 <= i,
    ensures
        lo <= best_pllm_upto(src, target, lo, i) <= i - 1,
    decreases i - lo,
{
    if i > lo + 1 {
        lemma_best_pllm_in_range(src, target, lo, i - 1);
    }
}

/// The incumbent of the ascending scan minimizes the residual over the
/// scanned range.
pub proof fn lemma_best_pllm_minimal(src: int, target: int, lo: int, i: int, j: int)
    requires
        lo + 1 <= i,
        lo <= j < i,
    ensures
        pllm_key(src, target, best_pllm_upto(src, target, lo, i)) <= pllm_key(src, target, j),
    decreases i - lo,
{
    if i > lo + 1 {
        lemma_best_pllm_in_range(src, target, lo, i - 1);
        if j < i - 1 {
            lemma_best_pllm_minimal(src, target, lo, i - 1, j);
        }
    }
}

/// Select the PLL input divisor: the smallest divisor of the valid band
/// minimizing the residual against the VCO target.
fn select_pllm(src: u32, target: u32) -> (m: u32)
    requires
        1_000_000 <= src,
    ensures
        m as int == chosen_pllm(src as int, target as int),
        pllm_min(src as int) <= m as int <= pllm_max(src as int),
{
    proof {
        lemma_pllm_range_nonempty(src as int);
    }
    let lo: u32 = (((src as u64) + 1_999_999) / 2_000_000) as u32;
    let hi: u32 = src / 1_000_000;
    let mut best: u32 = lo;
    let mut i: u32 = lo + 1;
    while i <= hi
        invariant
            1_000_000 <= src,
            lo as int == pllm_min(src as int),
            hi as int == pllm_max(src as int),
            1 <= lo <= hi,
            hi <= 4295,
            lo <= best < i,
            lo + 1 <= i <= hi + 1,
            best as int == best_pllm_upto(src as int, target as int, lo as int, i as int),
        decreases hi + 1 - i,
    {
        proof {
            lemma_candidate_vco_in_range(src as int, i as int);
            lemma_candidate_vco_in_range(src as int, best as int);
        }
        let vco_i = src / i;
        let vco_b = src / best;
        if target % vco_i < target % vco_b {
            best = i;
        }
        i = i + 1;
    }
    proof {
        lemma_best_pllm_in_range(src as int, target as int, lo as int, hi as int + 1);
    }
    best
}

/// The VCO output the chosen input divisor realizes: the best whole
/// multiple of the divided source that fits under the target.
pub open spec fn achieved_vco(src: int, target: int) -> int {
    let vco = src / chosen_pllm(src, target);
    vco * (target / vco)
}

/// The realized VCO output never moves down when the target moves up:
/// each candidate divisor's best multiple is monotone in the target, and
/// the chosen divisor realizes the best of them.
pub proof fn lemma_achieved_vco_monotone(src: int, t1: int, t2: int)
    requires
        1_000_000 <= src,
        0 <= t1 <= t2,
    ensures
        achieved_vco(src, t1) <= achieved_vco(src, t2),
{
    let lo = pllm_min(src);
    let hi = pllm_max(src);
    lemma_pllm_range_nonempty(src);
    let m1 = chosen_pllm(src, t1);
    let m2 = chosen_pllm(src, t2);
    lemma_best_pllm_in_range(src, t1, lo, hi + 1);
    lemma_best_pllm_in_range(src, t2, lo, hi + 1);
    lemma_candidate_vco_in_range(src, m1);
    lemma_candidate_vco_in_range(src, m2);
    let v1 = src / m1;
    let v2 = src / m2;
    lemma_fundamental_div_mod(t1, v1);
    lemma_fundamental_div_mod(t2, v1);
    lemma_fundamental_div_mod(t2, v2);
    lemma_mod_division_less_than_divisor(t1, v1);
    lemma_mod_division_less_than_divisor(t2, v1);
    lemma_mod_division_less_than_divisor(t2, v2);
    // The chosen divisor's multiple grows with the target.
    lemma_div_is_ordered(t1, t2, v1);
    assert(v1 * (t1 / v1) <= v1 * (t2 / v1)) by (nonlinear_arith)
        requires
            0 <= v1,
            t1 / v1 <= t2 / v1,
    ;
    // At target t2 the divisor chosen for t2 leaves the smallest
    // remainder, so its multiple is the largest.
    lemma_best_pllm_minimal(src, t2, lo, hi + 1, m1);
    assert(pllm_key(src, t2, m2) <= pllm_key(src, t2, m1));
    assert(v1 * (t2 / v1) == t2 - t2 % v1);
    assert(v2 * (t2 / v2) == t2 - t2 % v2);
}

/// Which system output divisor each band of targets selects: the bands
/// meet at 54, 72 and 108 MHz.
pub proof fn lemma_sys_div_regions(s: int)
    requires
        1 <= s <= SYS_TARGET_MAX as int,
    ensures
        s <= 54_000_000 ==> sys_output_div(s) == 8,
        54_000_000 < s <= 72_000_000 ==> sys_output_div(s) == 6,
        72_000_000 < s <= 108_000_000 ==> sys_output_div(s) == 4,
        108_000_000 < s ==> sys_output_div(s) == 2,
{
    let q = VCO_MAX as int / s;
    let r = VCO_MAX as int % s;
    lemma_fundamental_div_mod(VCO_MAX as int, s);
    lemma_mod_division_less_than_divisor(VCO_MAX as int, s);
    if s <= 54_000_000 {
        assert(q >= 8) by (nonlinear_arith)
            requires
                432_000_000 == s * q + r,
                0 <= r < s,
                1 <= s <= 54_000_000,
        ;
    } else if s <= 72_000_000 {
        assert(6 <= q <= 7) by (nonlinear_arith)
            requires
                432_000_000 == s * q + r,
                0 <= r < s,
                54_000_000 < s <= 72_000_000,
        ;
    } else if s <= 108_000_000 {
        assert(4 <= q <= 5) by (nonlinear_arith)
            requires
                432_000_000 == s * q + r,
                0 <= r < s,
                72_000_000 < s <= 108_000_000,
        ;
    } else {
        assert(2 <= q <= 3) by (nonlinear_arith)
            requires
                432_000_000 == s * q + r,
                0 <= r < s,
                108_000_000 < s <= 216_000_000,
        ;
    }
}

/// The achieved system frequency lands at most 1 MHz under its target:
/// some divided input no coarser than 2 MHz is always available, and the
/// chosen one leaves no larger a remainder.
pub proof fn lemma_achieved_sys_bounds(src: int, s: int)
    requires
        1_000_000 <= src,
        1 <= s <= SYS_TARGET_MAX as int,
    ensures
        ({
            let div = sys_output_div(s);
            let a = achieved_vco(src, s * div) / div;
            s - 1_000_000 <= a <= s && 0 <= a
        }),
{
    let div = sys_output_div(s);
    lemma_sys_div_bounds(s);
    let t = s * div;
    let m = chosen_pllm(src, t);
    lemma_pllm_range_nonempty(src);
    lemma_best_pllm_in_range(src, t, pllm_min(src), pllm_max(src) + 1);
    lemma_candidate_vco_in_range(src, m);
    let v = src / m;
    lemma_fundamental_div_mod(t, v);
    lemma_mod_division_less_than_divisor(t, v);
    let av = achieved_vco(src, t);
    assert(t - 2_000_000 < av <= t);
    lemma_div_pos_is_pos(t, v);
    assert(0 <= av) by (nonlinear_arith)
        requires
            0 <= v,
            0 <= t / v,
            av == v * (t / v),
    ;
    let a = av / div;
    lemma_div_pos_is_pos(av, div);
    // Upper bound: the best multiple never exceeds the target.
    lemma_div_is_ordered(av, t, div);
    lemma_div_by_multiple(s, div);
    assert(t / div == s);
    // Lower bound: at most one 2 MHz step is lost, which one division by
    // at least 2 turns into at most 1 MHz.
    assert(av >= div * (s - 1_000_000)) by (nonlinear_arith)
        requires
            av > s * div - 2_000_000,
            2 <= div,
    ;
    lemma_div_is_ordered(div * (s - 1_000_000), av, div);
    lemma_div_multiples_vanish(s - 1_000_000, div);
}

/// The system output divisor is even, lies in {2, 4, 6, 8}, and its
/// product with the system target stays within the VCO band.
pub proof fn lemma_sys_div_bounds(sys: int)
    requires
        1 <= sys <= SYS_TARGET_MAX as int,
    ensures
        2 <= sys_output_div(sys) <= 8,
        sys_output_div(sys) % 2 == 0,
        2 <= sys * sys_output_div(sys) <= VCO_MAX as int,
{
    let q = VCO_MAX as int / sys;
    let r = VCO_MAX as int % sys;
    lemma_fundamental_div_mod(VCO_MAX as int, sys);
    lemma_mod_division_less_than_divisor(VCO_MAX as int, sys);
    assert(q >= 2) by (nonlinear_arith)
        requires
            VCO_MAX as int == sys * q + r,
            0 <= r < sys,
            1 <= sys <= SYS_TARGET_MAX as int,
    ;
    let div = sys_output_div(sys);
    assert(div <= q);
    assert(sys * div <= sys * q) by (nonlinear_arith)
        requires
            0 <= sys,
            div <= q,
    ;
    assert(2 <= sys * div) by (nonlinear_arith)
        requires
            1 <= sys,
            2 <= div,
    ;
}

/// Compute the even system output divisor from the system target.
fn compute_sys_output_div(sys: u32) -> (d: u32)
    requires
        1 <= sys <= SYS_TARGET_MAX,
    ensures
        d as int == sys_output_div(sys as int),
        2 <= d <= 8,
{
    proof {
        lemma_sys_div_bounds(sys as int);
    }
    let q = VCO_MAX / sys;
    let even = q - q % 2;
    if even >= 8 {
        8
    } else {
        even
    }
}

/// Feedback multiplier for USB output divisor `q`, with the bounds the
/// later arithmetic needs.
fn usb_plln_exec(vco: u32, q: u32) -> (n: u32)
    requires
        1_000_000 <= vco <= 2_000_000,
        4 <= q <= 9,
    ensures
        n as int == usb_plln(vco as int, q as int),
        96 <= n <= 432,
        vco as int * n as int <= 48_000_000 * q as int,
{
    proof {
        lemma_div_is_ordered_by_denominator(48_000_000 * q as int, 1_000_000, vco as int);
        lemma_div_is_ordered(192_000_000, 48_000_000 * q as int, vco as int);
        lemma_div_is_ordered_by_denominator(192_000_000, vco as int, 2_000_000);
        lemma_fundamental_div_mod(48_000_000 * q as int, vco as int);
        lemma_mod_division_less_than_divisor(48_000_000 * q as int, vco as int);
    }
    48_000_000 * q / vco
}

/// Tap error of USB output divisor `q`: how far below 48 MHz its tap
/// lands.
fn usb_tap_err_exec(vco: u32, q: u32) -> (e: u32)
    requires
        1_000_000 <= vco <= 2_000_000,
        4 <= q <= 9,
    ensures
        e as int == usb_tap_err(vco as int, q as int),
{
    let n = usb_plln_exec(vco, q);
    let prod = vco * n;
    proof {
        lemma_div_is_ordered(prod as int, 48_000_000 * q as int, q as int);
        lemma_div_multiples_vanish(48_000_000, q as int);
    }
    let tap = prod / q;
    48_000_000 - tap
}

/// System-frequency error of USB output divisor `q`.
fn usb_sys_err_exec(vco: u32, sys: u32, div: u32, q: u32) -> (e: u32)
    requires
        1_000_000 <= vco <= 2_000_000,
        4 <= q <= 9,
        2 <= div <= 8,
    ensures
        e as int == usb_sys_err(vco as int, sys as int, div as int, q as int),
{
    let n = usb_plln_exec(vco, q);
    let s = (vco * n) / div;
    if sys >= s {
        sys - s
    } else {
        s - sys
    }
}

/// Whether candidate USB divisor `cand` beats the incumbent `best` in the
/// lexicographic (tap error, system error) order.
fn usb_improves(vco: u32, sys: u32, div: u32, cand: u32, best: u32) -> (r: bool)
    requires
        1_000_000 <= vco <= 2_000_000,
        4 <= cand <= 9,
        4 <= best <= 9,
        2 <= div <= 8,
    ensures
        r == usb_key_improves(vco as int, sys as int, div as int, cand as int, best as int),
{
    let tc = usb_tap_err_exec(vco, cand);
    let tb = usb_tap_err_exec(vco, best);
    if tc < tb {
        true
    } else if tc == tb {
        let sc = usb_sys_err_exec(vco, sys, div, cand);
        let sb = usb_sys_err_exec(vco, sys, div, best);
        sc < sb
    } else {
        false
    }
}

/// Select the USB output divisor: the first lexicographic minimizer of
/// (tap error, system error) over 4 through 9.
fn select_pllq(vco: u32, sys: u32, div: u32) -> (q: u32)
    requires
        1_000_000 <= vco <= 2_000_000,
        2 <= div <= 8,
    ensures
        q as int == chosen_pllq(vco as int, sys as int, div as int),
        4 <= q <= 9,
{
    let mut best: u32 = 4;
    let mut i: u32 = 5;
    while i <= 9
        invariant
            1_000_000 <= vco <= 2_000_000,
            2 <= div <= 8,
            4 <= best < i,
            5 <= i <= 10,
            best as int == best_pllq_upto(vco as int, sys as int, div as int, i as int),
        decreases 10 - i,
    {
        if usb_improves(vco, sys, div, i, best) {
            best = i;
        }
        i = i + 1;
    }
    best
}

/// Derive the PLL divisor set for a configuration that needs the PLL, or
/// report why none exists.
pub fn pll_setup(src: u32, sys: u32, pll48: bool) -> (r: Result<PllPlan, PlanError>)
    ensures
        r == spec_pll(src as int, sys as int, pll48),
{
    if sys < 1 {
        return Err(PlanError::SystemTargetOutOfRange);
    }
    if src < 1_000_000 {
        return Err(PlanError::PllSourceOutOfRange);
    }
    if sys > SYS_TARGET_MAX {
        return Err(PlanError::SystemTargetOutOfRange);
    }
    proof {
        lemma_sys_div_bounds(sys as int);
    }
    let div = compute_sys_output_div(sys);
    let target: u32 = if pll48 {
        USB_TARGET
    } else {
        sys * div
    };
    let m = select_pllm(src, target);
    proof {
        lemma_candidate_vco_in_range(src as int, m as int);
    }
    let vco = src / m;
    // The divisor band construction guarantees the input window; the
    // check can never fire.
    let vco_ok = vco_input_in_range(vco);
    assert(vco_ok);
    let plln: u32 = if pll48 {
        let q0 = select_pllq(vco, sys, div);
        usb_plln_exec(vco, q0)
    } else {
        proof {
            lemma_div_is_ordered_by_denominator(target as int, 1_000_000, vco as int);
            lemma_fundamental_div_mod(target as int, vco as int);
            lemma_mod_division_less_than_divisor(target as int, vco as int);
        }
        target / vco
    };
    if plln < 1 {
        return Err(PlanError::SystemTargetOutOfRange);
    }
    assert(vco as int * plln as int <= VCO_MAX as int);
    assert(vco as int <= vco as int * plln as int) by (nonlinear_arith)
        requires
            1 <= plln,
            0 <= vco,
    ;
    let prod = vco * plln;
    let pllq = (prod + 47_999_999) / 48_000_000;
    let real48 = prod / pllq;
    if pll48 {
        if !usb_tap_in_tolerance(real48) {
            return Err(PlanError::UsbTapOutOfTolerance);
        }
    }
    let pllsys = prod / div;
    Ok(
        PllPlan {
            use_pll: true,
            pllm: m,
            plln: plln,
            pllp_code: (div / 2 - 1) as u8,
            pllq: pllq,
            pllsysclk: Some(pllsys),
            pll48clk: if pll48 {
                Some(real48)
            } else {
                None
            },
        },
    )
}

/// Select the AHB prescaler (code and divisor) for a ceiling ratio of
/// system over target AHB frequency.
fn select_hpre(sysclk: u32, hclk_t: u32) -> (r: (u8, u32))
    requires
        1 <= sysclk,
        1 <= hclk_t,
    ensures
        r.0 as int == hpre_code_of((sysclk as int + hclk_t as int - 1) / hclk_t as int),
        r.1 as int == hpre_div_of((sysclk as int + hclk_t as int - 1) / hclk_t as int),
        1 <= r.1,
{
    let ratio = ((sysclk as u64) + (hclk_t as u64) - 1) / (hclk_t as u64);
    if ratio <= 1 {
        (0u8, 1u32)
    } else if ratio == 2 {
        (8u8, 2u32)
    } else if ratio <= 5 {
        (9u8, 4u32)
    } else if ratio <= 11 {
        (10u8, 8u32)
    } else if ratio <= 39 {
        (11u8, 16u32)
    } else if ratio <= 95 {
        (12u8, 64u32)
    } else if ratio <= 191 {
        (13u8, 128u32)
    } else if ratio <= 383 {
        (14u8, 256u32)
    } else {
        (15u8, 512u32)
    }
}

/// Select an APB prescaler (code and divisor) for a ceiling ratio of AHB
/// over target APB frequency.
fn select_ppre(hclk: u32, pclk_t: u32) -> (r: (u8, u32))
    requires
        1 <= pclk_t,
    ensures
        r.0 as int == ppre_code_of((hclk as int + pclk_t as int - 1) / pclk_t as int),
        r.1 as int == ppre_div_of((hclk as int + pclk_t as int - 1) / pclk_t as int),
        1 <= r.1,
{
    let ratio = ((hclk as u64) + (pclk_t as u64) - 1) / (pclk_t as u64);
    if ratio <= 1 {
        (0u8, 1u32)
    } else if ratio == 2 {
        (4u8, 2u32)
    } else if ratio <= 5 {
        (5u8, 4u32)
    } else if ratio <= 11 {
        (6u8, 8u32)
    } else {
        (7u8, 16u32)
    }
}

/// The minimum flash wait-state code guaranteed safe at the given system
/// frequency.
pub fn flash_latency_code(sysclk: u32) -> (code: u8)
    requires
        1 <= sysclk,
    ensures
        code as int == spec_flash_latency(sysclk as int),
{
    ((sysclk - 1) / FLASH_LATENCY_STEP) as u8
}

/// Derive the full plan from a configuration, or report the first fatal
/// condition. Pure: the result is exactly [`spec_plan`] of the inputs, so
/// planning twice with the same configuration gives identical plans.
#[verifier::rlimit(100)]
#[verifier::spinoff_prover]
pub fn plan(config: &Config, limits: &ChipLimits) -> (r: Result<Plan, PlanError>)
    requires
        limits.wf(),
    ensures
        r == spec_plan(*config, *limits),
        (r matches Ok(p) ==> p.wf()),
{
    let src: u32 = match config.hse {
        Some(h) => h.0,
        None => HSI_FREQUENCY,
    };
    let sys_t: u32 = match config.sys_ck {
        Some(s) => s.0,
        None => src,
    };
    let on_pll = sys_t != src;
    let pll: PllPlan = if on_pll || config.pll48 {
        match pll_setup(src, sys_t, config.pll48) {
            Ok(p) => p,
            Err(e) => {
                return Err(e);
            },
        }
    } else {
        PllPlan::bypassed()
    };
    let sysclk: u32 = if on_pll {
        match pll.pllsysclk {
            Some(f) => f,
            None => vstd::pervasive::unreached(),
        }
    } else {
        sys_t
    };
    if sysclk < 1 {
        return Err(PlanError::ZeroSystemClock);
    }
    let hclk_t: u32 = match config.hclk {
        Some(h) => h.0,
        None => sysclk,
    };
    if hclk_t < 1 {
        return Err(PlanError::ZeroAhbTarget);
    }
    let (hpre_code, hpre_div) = select_hpre(sysclk, hclk_t);
    let hclk = sysclk / hpre_div;
    if hclk < 1 {
        return Err(PlanError::AhbTooLow);
    }
    let p1_t: u32 = match config.pclk1 {
        Some(p) => p.0,
        None => if limits.pclk1_max <= hclk {
            limits.pclk1_max
        } else {
            hclk
        },
    };
    if p1_t < 1 {
        return Err(PlanError::ZeroApb1Target);
    }
    let (ppre1_code, ppre1_div) = select_ppre(hclk, p1_t);
    let timer_mul1: u32 = if ppre1_div == 1 {
        1
    } else {
        2
    };
    let pclk1 = hclk / ppre1_div;
    if !bus_within_limit(pclk1, limits.pclk1_max) {
        return Err(PlanError::Apb1OutOfRange);
    }
    let p2_t: u32 = match config.pclk2 {
        Some(p) => p.0,
        None => if limits.pclk2_max <= hclk {
            limits.pclk2_max
        } else {
            hclk
        },
    };
    if p2_t < 1 {
        return Err(PlanError::ZeroApb2Target);
    }
    let (ppre2_code, ppre2_div) = select_ppre(hclk, p2_t);
    let timer_mul2: u32 = if ppre2_div == 1 {
        1
    } else {
        2
    };
    let pclk2 = hclk / ppre2_div;
    if !bus_within_limit(pclk2, limits.pclk2_max) {
        return Err(PlanError::Apb2OutOfRange);
    }
    let flash = flash_latency_code(sysclk);
    let source = match config.hse {
        Some(f) => ClockSource::ExternalOscillator { frequency: f, bypassed: config.bypass_hse },
        None => ClockSource::InternalOscillator,
    };
    let sw = if on_pll {
        SystemClockSwitch::Pll
    } else if config.hse.is_some() {
        SystemClockSwitch::External
    } else {
        SystemClockSwitch::Internal
    };
    let p = Plan {
        source,
        sw,
        pll,
        prescalers: PrescalerPlan {
            hpre_code,
            hpre_div,
            ppre1_code,
            ppre1_div,
            ppre2_code,
            ppre2_div,
            timer_mul1,
            timer_mul2,
        },
        flash_latency: flash,
        enable_debug: config.enable_debug_wfe,
    };
    proof {
        assert(p.spec_sys() == sysclk as int);
        assert(p.spec_ahb() == hclk as int);
        assert(p.spec_apb1() == pclk1 as int);
        assert(p.spec_apb2() == pclk2 as int);
    }
    Ok(p)
}

} // verus!
