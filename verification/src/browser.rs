//! Browser tool policy.

use crate::replica::Replica;
use vstd::prelude::*;

verus! {

/// What the browser tool may visit.
#[derive(Debug, Clone)]
pub struct BrowserPolicyConfig {
    /// What happens to an origin that no list names.
    pub default_action: String,
    /// Origins that may be visited.
    pub allowed_origins: Vec<String>,
    /// Origins that may not be visited.
    pub denied_origins: Vec<String>,
}

impl BrowserPolicyConfig {
    /// Whether every setting has its built-in value.
    pub open spec fn is_default(self) -> bool {
        &&& self.default_action@ == "deny"@
        &&& self.allowed_origins@.len() == 0
        &&& self.denied_origins@.len() == 0
    }
}

impl Default for BrowserPolicyConfig {
    fn default() -> (r: Self)
        ensures
            r.is_default(),
    {
        BrowserPolicyConfig {
            default_action: "deny".to_owned(),
            allowed_origins: Vec::new(),
            denied_origins: Vec::new(),
        }
    }
}

impl Replica for BrowserPolicyConfig {
    open spec fn same(self, other: Self) -> bool {
        &&& self.default_action.same(other.default_action)
        &&& self.allowed_origins.same(other.allowed_origins)
        &&& self.denied_origins.same(other.denied_origins)
    }

    fn replicate(&self) -> (r: Self) {
        BrowserPolicyConfig {
            default_action: self.default_action.replicate(),
            allowed_origins: self.allowed_origins.replicate(),
            denied_origins: self.denied_origins.replicate(),
        }
    }

    fn agrees(&self, other: &Self) -> (b: bool) {
        self.default_action.agrees(&other.default_action)
            && self.allowed_origins.agrees(&other.allowed_origins)
            && self.denied_origins.agrees(&other.denied_origins)
    }

    proof fn same_as_itself(self) {
        self.default_action.same_as_itself();
        self.allowed_origins.same_as_itself();
        self.denied_origins.same_as_itself();
    }

    proof fn same_through(self, middle: Self, other: Self) {
        self.default_action.same_through(middle.default_action, other.default_action);
        self.allowed_origins.same_through(middle.allowed_origins, other.allowed_origins);
        self.denied_origins.same_through(middle.denied_origins, other.denied_origins);
    }
}

/// The `[browser]` block.
#[derive(Debug, Clone)]
pub struct BrowserConfig {
    /// The policy of the browser tool.
    pub policy: BrowserPolicyConfig,
}

impl BrowserConfig {
    /// Whether every setting has its built-in value.
    pub open spec fn is_default(self) -> bool {
        &&& self.policy.is_default()
    }
}

impl Default for BrowserConfig {
    fn default() -> (r: Self)
        ensures
            r.is_default(),
    {
        BrowserConfig {
            policy: BrowserPolicyConfig::default(),
        }
    }
}

impl Replica for BrowserConfig {
    open spec fn same(self, other: Self) -> bool {
        &&& self.policy.same(other.policy)
    }

    fn replicate(&self) -> (r: Self) {
        BrowserConfig {
            policy: self.policy.replicate(),
        }
    }

    fn agrees(&self, other: &Self) -> (b: bool) {
        self.policy.agrees(&other.policy)
    }

    proof fn same_as_itself(self) {
        self.policy.same_as_itself();
    }

    proof fn same_through(self, middle: Self, other: Self) {
        self.policy.same_through(middle.policy, other.policy);
    }
}
} // verus!
