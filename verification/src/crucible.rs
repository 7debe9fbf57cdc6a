//! Cross-provider council settings.

use crate::replica::Replica;
use vstd::prelude::*;

verus! {

/// The `[crucible]` block: the council roster. Off by default.
#[derive(Debug, Clone)]
pub struct CrucibleConfig {
    /// Whether the council is on.
    pub enabled: bool,
    /// The council members, as `provider` or `provider:model`.
    pub proposers: Vec<String>,
}

impl CrucibleConfig {
    /// Whether every setting has its built-in value.
    pub open spec fn is_default(self) -> bool {
        &&& !self.enabled
        &&& self.proposers@.len() == 0
    }
}

impl Default for CrucibleConfig {
    fn default() -> (r: Self)
        ensures
            r.is_default(),
    {
        CrucibleConfig {
            enabled: false,
            proposers: Vec::new(),
        }
    }
}

impl Replica for CrucibleConfig {
    open spec fn same(self, other: Self) -> bool {
        &&& self.enabled.same(other.enabled)
        &&& self.proposers.same(other.proposers)
    }

    fn replicate(&self) -> (r: Self) {
        CrucibleConfig {
            enabled: self.enabled.replicate(),
            proposers: self.proposers.replicate(),
        }
    }

    fn agrees(&self, other: &Self) -> (b: bool) {
        self.enabled.agrees(&other.enabled)
            && self.proposers.agrees(&other.proposers)
    }

    proof fn same_as_itself(self) {
        self.enabled.same_as_itself();
        self.proposers.same_as_itself();
    }

    proof fn same_through(self, middle: Self, other: Self) {
        self.enabled.same_through(middle.enabled, other.enabled);
        self.proposers.same_through(middle.proposers, other.proposers);
    }
}
} // verus!
