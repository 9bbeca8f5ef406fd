//! The clock-control peripheral handle: exclusive ownership of the clock
//! tree for the one-shot boot-time configuration.

use vstd::prelude::*;

use crate::config::{ChipLimits, Config};
use crate::plan::{Plan, PlanError};
use crate::planner::{plan, spec_plan};
use crate::sequencer::Sequencer;

verus! {

/// Owns the clock-control registers for the duration of configuration.
/// Built once at boot from the caller's intent; consumed by [`Rcc::freeze`].
pub struct Rcc {
    config: Config,
    limits: ChipLimits,
}

impl Rcc {
    /// The intent this handle was built with.
    pub closed spec fn spec_config(self) -> Config {
        self.config
    }

    /// The limit table this handle checks against.
    pub closed spec fn spec_limits(self) -> ChipLimits {
        self.limits
    }

    /// Take the clock tree with the given intent, checked against the
    /// family's standard limits.
    pub fn new(config: Config) -> (r: Rcc)
        ensures
            r.spec_config() == config,
            r.spec_limits() == ChipLimits::spec_standard(),
            r.spec_limits().wf(),
    {
        Rcc { config, limits: ChipLimits::standard() }
    }

    /// Take the clock tree with the given intent, checked against another
    /// part's limit table.
    pub fn with_limits(config: Config, limits: ChipLimits) -> (r: Rcc)
        requires
            limits.wf(),
        ensures
            r.spec_config() == config,
            r.spec_limits() == limits,
    {
        Rcc { config, limits }
    }

    /// Plan and validate the clock tree, consuming the intent. On success
    /// the returned sequencer realizes the plan; on failure no register
    /// is ever touched.
    pub fn freeze(self) -> (r: Result<Sequencer, PlanError>)
        requires
            self.spec_limits().wf(),
        ensures
            match r {
                Ok(s) => {
                    &&& spec_plan(self.spec_config(), self.spec_limits()) matches Ok(p) && s.plan()
                        == p
                    &&& s.wf()
                    &&& s.position() == 0
                },
                Err(e) => spec_plan(self.spec_config(), self.spec_limits()) == Err::<
                    Plan,
                    PlanError,
                >(e),
            },
    {
        match plan(&self.config, &self.limits) {
            Ok(p) => Ok(Sequencer::new(p)),
            Err(e) => Err(e),
        }
    }
}

} // verus!
