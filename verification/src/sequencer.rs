//! The hardware sequencer: turns a validated plan into the exact ordered
//! list of register-level actions that realize it on silicon.
//!
//! The order is a strict total order and must not be rearranged: flash
//! wait states are raised before the system clock, the oscillator is
//! started and awaited before the PLL, voltage overdrive is stable before
//! its switch and the switch complete before the PLL is trusted, and the
//! prescalers settle before the final clock-source switch. The caller
//! performs each action against the registers (every wait is a blocking
//! poll with no timeout, mirroring the hardware's own lack of one) and the
//! achieved-frequency snapshot is available once the sequence is complete.

use vstd::prelude::*;

use vstd::arithmetic::div_mod::{lemma_div_nonincreasing, lemma_div_pos_is_pos};

use crate::config::ClockSource;
use crate::plan::{Clocks, Plan, SystemClockSwitch};

verus! {

/// Core frequencies above this need the voltage overdrive mode.
pub const OVERDRIVE_THRESHOLD: u32 = 168_000_000;

/// The documented prescaler propagation delay: the new factors apply
/// within 1 to 16 AHB cycles of the write.
pub const PRESCALER_SETTLE_CYCLES: u32 = 16;

/// One register-level step of the configuration sequence.
#[derive(Clone, Copy, PartialEq, Eq, Structural, Debug)]
pub enum Action {
    /// Program the PLL divisors and its source selector.
    ConfigurePll { pllm: u32, plln: u32, pllp_code: u8, pllq: u32, source_external: bool },
    /// Program only the PLL source selector (the PLL stays off).
    SetPllSource { source_external: bool },
    /// Program the flash wait-state code, before the clock is raised.
    SetFlashLatency { code: u8 },
    /// Enable the external oscillator, bypassing the crystal driver if
    /// asked.
    EnableExternalOscillator { bypass: bool },
    /// Poll until the external oscillator reports ready.
    WaitExternalOscillatorReady,
    /// Enable the PLL.
    EnablePll,
    /// Enable the power controller so overdrive can be programmed.
    EnablePowerController,
    /// Enable the voltage overdrive mode.
    EnableOverdrive,
    /// Poll until overdrive reports ready.
    WaitOverdriveReady,
    /// Request the switch to overdrive regulation.
    EnableOverdriveSwitch,
    /// Poll until the overdrive switch reports complete.
    WaitOverdriveSwitchReady,
    /// Poll until the PLL reports locked.
    WaitPllReady,
    /// Program all three bus prescalers in one register write.
    SetPrescalers { hpre_code: u8, ppre1_code: u8, ppre2_code: u8 },
    /// Wait the documented number of AHB cycles for the prescalers to
    /// propagate.
    WaitPrescalerSettle { ahb_cycles: u32 },
    /// Switch the system clock selector; synchronous once prescalers are
    /// stable.
    SwitchSystemClock { source: SystemClockSwitch },
    /// Keep debug trace facilities clocked through low-power states.
    EnableDebug,
}

/// The very first step: the PLL configuration register is written while
/// everything is still off, even when the PLL stays bypassed (its source
/// selector is programmed either way).
pub open spec fn pll_config_action(p: Plan) -> Action {
    if p.pll.use_pll {
        Action::ConfigurePll {
            pllm: p.pll.pllm,
            plln: p.pll.plln,
            pllp_code: p.pll.pllp_code,
            pllq: p.pll.pllq,
            source_external: p.source is ExternalOscillator,
        }
    } else {
        Action::SetPllSource { source_external: p.source is ExternalOscillator }
    }
}

/// Oscillator startup: only an external oscillator needs enabling and a
/// ready poll.
pub open spec fn oscillator_actions(p: Plan) -> Seq<Action> {
    match p.source {
        ClockSource::ExternalOscillator { bypassed, .. } => seq![
            Action::EnableExternalOscillator { bypass: bypassed },
            Action::WaitExternalOscillatorReady,
        ],
        ClockSource::InternalOscillator => seq![],
    }
}

/// Whether the achieved AHB frequency requires the overdrive mode.
pub open spec fn needs_overdrive(p: Plan) -> bool {
    p.spec_ahb() > OVERDRIVE_THRESHOLD as int
}

/// PLL startup: enable, then (above the overdrive threshold) bring up
/// overdrive and its switch in order, then await lock.
pub open spec fn pll_start_actions(p: Plan) -> Seq<Action> {
    if p.pll.use_pll {
        seq![Action::EnablePll] + (if needs_overdrive(p) {
            seq![
                Action::EnablePowerController,
                Action::EnableOverdrive,
                Action::WaitOverdriveReady,
                Action::EnableOverdriveSwitch,
                Action::WaitOverdriveSwitchReady,
            ]
        } else {
            seq![]
        }) + seq![Action::WaitPllReady]
    } else {
        seq![]
    }
}

/// The full, strictly ordered action sequence realizing a plan.
pub open spec fn action_seq(p: Plan) -> Seq<Action> {
    seq![pll_config_action(p), Action::SetFlashLatency { code: p.flash_latency }]
        + oscillator_actions(p) + pll_start_actions(p) + seq![
        Action::SetPrescalers {
            hpre_code: p.prescalers.hpre_code,
            ppre1_code: p.prescalers.ppre1_code,
            ppre2_code: p.prescalers.ppre2_code,
        },
        Action::WaitPrescalerSettle { ahb_cycles: PRESCALER_SETTLE_CYCLES },
        Action::SwitchSystemClock { source: p.sw },
    ] + (if p.enable_debug {
        seq![Action::EnableDebug]
    } else {
        seq![]
    })
}

/// The set-before-raise safety order: in every plan's sequence the flash
/// wait states are programmed right after the PLL registers, long before
/// the system clock selector is switched — the switch is the last
/// hardware step (only the optional debug gate follows it). Instruction
/// fetch therefore never runs under-provisioned.
pub proof fn lemma_flash_set_before_switch(p: Plan)
    ensures
        action_seq(p)[1] == (Action::SetFlashLatency { code: p.flash_latency }),
        ({
            let s = action_seq(p);
            let k = if p.enable_debug {
                s.len() - 2
            } else {
                s.len() - 1
            };
            1 < k && s[k as int] == (Action::SwitchSystemClock { source: p.sw })
        }),
{
}

/// Walks a plan's action sequence exactly once, in order. Must be driven
/// at most once per boot: it assumes the oscillators and PLL start in
/// their post-reset disabled state.
pub struct Sequencer {
    plan: Plan,
    actions: Vec<Action>,
    next_idx: usize,
}

impl Sequencer {
    /// The plan being realized.
    pub closed spec fn plan(self) -> Plan {
        self.plan
    }

    /// How many actions have been handed out.
    pub closed spec fn position(self) -> int {
        self.next_idx as int
    }

    /// The sequencer holds a consistent plan and walks exactly its action
    /// sequence.
    pub closed spec fn wf(self) -> bool {
        &&& self.plan.wf()
        &&& self.actions@ == action_seq(self.plan)
        &&& self.next_idx <= self.actions@.len()
    }

    /// Lay out the action sequence of a validated plan.
    pub fn new(plan: Plan) -> (s: Sequencer)
        requires
            plan.wf(),
        ensures
            s.wf(),
            s.plan() == plan,
            s.position() == 0,
    {
        let source_external = match plan.source {
            ClockSource::ExternalOscillator { .. } => true,
            ClockSource::InternalOscillator => false,
        };
        let mut actions: Vec<Action> = Vec::new();
        if plan.pll.use_pll {
            actions.push(
                Action::ConfigurePll {
                    pllm: plan.pll.pllm,
                    plln: plan.pll.plln,
                    pllp_code: plan.pll.pllp_code,
                    pllq: plan.pll.pllq,
                    source_external,
                },
            );
        } else {
            actions.push(Action::SetPllSource { source_external });
        }
        actions.push(Action::SetFlashLatency { code: plan.flash_latency });
        match plan.source {
            ClockSource::ExternalOscillator { bypassed, .. } => {
                actions.push(Action::EnableExternalOscillator { bypass: bypassed });
                actions.push(Action::WaitExternalOscillatorReady);
            },
            ClockSource::InternalOscillator => {},
        }
        if plan.pll.use_pll {
            actions.push(Action::EnablePll);
            proof {
                lemma_div_pos_is_pos(plan.spec_sys(), plan.prescalers.hpre_div as int);
                lemma_div_nonincreasing(plan.spec_sys(), plan.prescalers.hpre_div as int);
            }
            let achieved = plan.clocks();
            if achieved.ahb1.0 > OVERDRIVE_THRESHOLD {
                actions.push(Action::EnablePowerController);
                actions.push(Action::EnableOverdrive);
                actions.push(Action::WaitOverdriveReady);
                actions.push(Action::EnableOverdriveSwitch);
                actions.push(Action::WaitOverdriveSwitchReady);
            }
            actions.push(Action::WaitPllReady);
        }
        actions.push(
            Action::SetPrescalers {
                hpre_code: plan.prescalers.hpre_code,
                ppre1_code: plan.prescalers.ppre1_code,
                ppre2_code: plan.prescalers.ppre2_code,
            },
        );
        actions.push(Action::WaitPrescalerSettle { ahb_cycles: PRESCALER_SETTLE_CYCLES });
        actions.push(Action::SwitchSystemClock { source: plan.sw });
        if plan.enable_debug {
            actions.push(Action::EnableDebug);
        }
        proof {
            assert(actions@ =~= action_seq(plan));
        }
        Sequencer { plan, actions, next_idx: 0 }
    }

    /// Hand out the next action of the sequence, or nothing once the
    /// sequence is complete.
    pub fn next_action(&mut self) -> (a: Option<Action>)
        requires
            old(self).wf(),
        ensures
            final(self).wf(),
            final(self).plan() == old(self).plan(),
            old(self).position() < action_seq(old(self).plan()).len() ==> {
                &&& a == Some(action_seq(old(self).plan())[old(self).position()])
                &&& final(self).position() == old(self).position() + 1
            },
            old(self).position() >= action_seq(old(self).plan()).len() ==> {
                &&& a is None
                &&& final(self).position() == old(self).position()
            },
    {
        if self.next_idx < self.actions.len() {
            let a = self.actions[self.next_idx];
            self.next_idx = self.next_idx + 1;
            Some(a)
        } else {
            None
        }
    }

    /// Whether every action has been handed out.
    pub fn is_complete(&self) -> (r: bool)
        requires
            self.wf(),
        ensures
            r == (self.position() == action_seq(self.plan()).len()),
    {
        self.next_idx == self.actions.len()
    }

    /// The achieved-frequency snapshot, available once the sequence is
    /// complete; reading it earlier yields nothing.
    pub fn clocks(&self) -> (c: Option<Clocks>)
        requires
            self.wf(),
        ensures
            self.position() == action_seq(self.plan()).len() ==> c == Some(
                self.plan().spec_clocks(),
            ),
            self.position() < action_seq(self.plan()).len() ==> c is None,
    {
        if self.next_idx == self.actions.len() {
            Some(self.plan.clocks())
        } else {
            None
        }
    }
}

} // verus!
