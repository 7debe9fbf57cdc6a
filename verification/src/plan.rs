//! Plan Mode settings.

use crate::replica::Replica;
use vstd::prelude::*;

verus! {

/// Settings of Plan Mode, in which the agent only reads until its plan is approved.
#[derive(Debug, Clone)]
pub struct PlanConfig {
    /// Whether the Plan Mode tools are registered.
    pub enabled: bool,
    /// Directory for plan files, relative to the project root.
    pub plan_directory: String,
    /// Whether the agent should prefer planning before large changes.
    pub plan_first: bool,
}

impl PlanConfig {
    /// Whether every setting has its built-in value.
    pub open spec fn is_default(self) -> bool {
        &&& self.enabled
        &&& self.plan_directory@ == ".genesis-core/plans"@
        &&& !self.plan_first
    }
}

impl Default for PlanConfig {
    fn default() -> (r: Self)
        ensures
            r.is_default(),
    {
        PlanConfig {
            enabled: true,
            plan_directory: ".genesis-core/plans".to_owned(),
            plan_first: false,
        }
    }
}

impl Replica for PlanConfig {
    open spec fn same(self, other: Self) -> bool {
        &&& self.enabled.same(other.enabled)
        &&& self.plan_directory.same(other.plan_directory)
        &&& self.plan_first.same(other.plan_first)
    }

    fn replicate(&self) -> (r: Self) {
        PlanConfig {
            enabled: self.enabled.replicate(),
            plan_directory: self.plan_directory.replicate(),
            plan_first: self.plan_first.replicate(),
        }
    }

    fn agrees(&self, other: &Self) -> (b: bool) {
        self.enabled.agrees(&other.enabled)
            && self.plan_directory.agrees(&other.plan_directory)
            && self.plan_first.agrees(&other.plan_first)
    }

    proof fn same_as_itself(self) {
        self.enabled.same_as_itself();
        self.plan_directory.same_as_itself();
        self.plan_first.same_as_itself();
    }

    proof fn same_through(self, middle: Self, other: Self) {
        self.enabled.same_through(middle.enabled, other.enabled);
        self.plan_directory.same_through(middle.plan_directory, other.plan_directory);
        self.plan_first.same_through(middle.plan_first, other.plan_first);
    }
}
} // verus!
