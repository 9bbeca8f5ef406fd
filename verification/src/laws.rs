//! Properties proved of the planner as a whole, stated over [`spec_plan`]
//! so they hold of every plan [`crate::planner::plan`] can return.

use vstd::prelude::*;

use vstd::arithmetic::div_mod::{lemma_div_is_ordered, lemma_div_nonincreasing};
use vstd::arithmetic::mul::lemma_mul_inequality;

use crate::config::{ChipLimits, Config};
use crate::planner::{
    achieved_vco, lemma_achieved_sys_bounds, lemma_achieved_vco_monotone, lemma_sys_div_bounds,
    lemma_sys_div_regions, source_freq, spec_flash_latency, spec_plan, sys_on_pll,
    sys_output_div, sys_target,
};
use crate::validator::usb_tap_ok;

verus! {

/// A configuration with no explicit system target (and no precise-tap
/// request) never starts the PLL: the system runs straight from the
/// selected oscillator, at its own frequency.
pub proof fn lemma_no_target_runs_from_source(c: Config, l: ChipLimits)
    requires
        c.sys_ck is None,
        !c.pll48,
        spec_plan(c, l) is Ok,
    ensures
        !spec_plan(c, l)->Ok_0.pll.use_pll,
        spec_plan(c, l)->Ok_0.spec_sys() == source_freq(c),
{
    assert(sys_target(c) == source_freq(c));
    assert(!sys_on_pll(c));
}

/// Whenever a precise USB tap was requested and planning succeeded, the
/// achieved tap frequency is within the USB tolerance of 48 MHz.
pub proof fn lemma_usb_tap_within_tolerance(c: Config, l: ChipLimits)
    requires
        c.pll48,
        spec_plan(c, l) is Ok,
    ensures
        spec_plan(c, l)->Ok_0.pll.pll48clk is Some,
        usb_tap_ok(spec_plan(c, l)->Ok_0.pll.pll48clk->0 as int),
{
}

/// Every successful plan keeps both APB buses at or under their documented
/// maxima, and the AHB clock at or under the system clock.
pub proof fn lemma_bus_frequencies_bounded(c: Config, l: ChipLimits)
    requires
        spec_plan(c, l) is Ok,
    ensures
        spec_plan(c, l)->Ok_0.spec_apb1() <= l.pclk1_max,
        spec_plan(c, l)->Ok_0.spec_apb2() <= l.pclk2_max,
        spec_plan(c, l)->Ok_0.spec_ahb() <= spec_plan(c, l)->Ok_0.spec_sys(),
{
    let p = spec_plan(c, l)->Ok_0;
    lemma_div_nonincreasing(p.spec_sys(), p.prescalers.hpre_div as int);
}

/// Raising the system target never lowers the flash wait-state code, for
/// configurations that run the system from the PLL with no precise-tap
/// request. Within one divisor band the achieved system clock is
/// monotone; across a band boundary it can slip back by under 1 MHz, but
/// no wait-state step lies within 1 MHz under any band boundary.
/// (Without the side conditions the claim fails: moving a target off the
/// oscillator frequency onto the PLL can round the achieved system clock
/// down across a wait-state boundary.)
pub proof fn lemma_flash_latency_monotone(c1: Config, c2: Config, l: ChipLimits)
    requires
        c1.hse == c2.hse,
        !c1.pll48,
        !c2.pll48,
        c1.sys_ck is Some,
        c2.sys_ck is Some,
        sys_target(c1) <= sys_target(c2),
        sys_on_pll(c1),
        sys_on_pll(c2),
        spec_plan(c1, l) is Ok,
        spec_plan(c2, l) is Ok,
    ensures
        spec_plan(c1, l)->Ok_0.flash_latency <= spec_plan(c2, l)->Ok_0.flash_latency,
{
    let src = source_freq(c1);
    let s1 = sys_target(c1);
    let s2 = sys_target(c2);
    assert(source_freq(c2) == src);
    assert(1 <= s1 <= 216_000_000 && 1 <= s2 <= 216_000_000 && 1_000_000 <= src);
    let div1 = sys_output_div(s1);
    let div2 = sys_output_div(s2);
    lemma_sys_div_bounds(s1);
    lemma_sys_div_bounds(s2);
    lemma_achieved_sys_bounds(src, s1);
    lemma_achieved_sys_bounds(src, s2);
    let t1 = s1 * div1;
    let t2 = s2 * div2;
    let a1 = achieved_vco(src, t1) / div1;
    let a2 = achieved_vco(src, t2) / div2;
    // The planned system clocks are exactly the achieved values above.
    assert(spec_plan(c1, l)->Ok_0.flash_latency == spec_flash_latency(a1) as u8);
    assert(spec_plan(c2, l)->Ok_0.flash_latency == spec_flash_latency(a2) as u8);
    if div1 == div2 {
        lemma_mul_inequality(s1, s2, div1);
        lemma_achieved_vco_monotone(src, t1, t2);
        lemma_div_is_ordered(achieved_vco(src, t1), achieved_vco(src, t2), div1);
        lemma_div_is_ordered(a1 - 1, a2 - 1, 30_000_000);
    } else {
        lemma_sys_div_regions(s1);
        lemma_sys_div_regions(s2);
        // The divisor shrinks as the target grows, so the two targets
        // straddle the upper boundary of the first one's band.
        assert(div1 != 2);
        let b: int = if div1 == 8 {
            54_000_000
        } else if div1 == 6 {
            72_000_000
        } else {
            108_000_000
        };
        assert(s1 <= b && b < s2);
        if a1 <= a2 {
            lemma_div_is_ordered(a1 - 1, a2 - 1, 30_000_000);
        } else {
            // Both achieved clocks sit in the same 1 MHz window just
            // under the band boundary, where no wait-state step falls.
            assert(b - 1_000_000 < a2 < a1 <= b);
            assert(spec_flash_latency(a1) == spec_flash_latency(a2));
        }
    }
}

} // verus!
