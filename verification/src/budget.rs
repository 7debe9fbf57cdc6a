//! Execution budget caps.

use crate::float_bits::FloatBits;
use crate::replica::{first_of, or_else, Replica};
use vstd::prelude::*;

verus! {

/// Caps of an execution budget. An absent cap is no cap.
#[derive(Debug, Clone)]
pub struct BudgetConfig {
    /// Wall-clock seconds.
    pub max_wall_time_secs: Option<u64>,
    /// Seconds spent in tools.
    pub max_tool_runtime_secs: Option<u64>,
    /// Child processes.
    pub max_processes: Option<u32>,
    /// Nesting of sub-agents.
    pub max_agent_depth: Option<u32>,
    /// Input tokens.
    pub max_tokens_in: Option<u64>,
    /// Output tokens.
    pub max_tokens_out: Option<u64>,
    /// Cost in USD.
    pub max_cost_usd: Option<FloatBits>,
}

impl BudgetConfig {
    /// Whether every setting has its built-in value.
    pub open spec fn is_default(self) -> bool {
        &&& self.max_wall_time_secs is None
        &&& self.max_tool_runtime_secs is None
        &&& self.max_processes is None
        &&& self.max_agent_depth is None
        &&& self.max_tokens_in is None
        &&& self.max_tokens_out is None
        &&& self.max_cost_usd is None
    }
}

impl Default for BudgetConfig {
    fn default() -> (r: Self)
        ensures
            r.is_default(),
    {
        BudgetConfig {
            max_wall_time_secs: None,
            max_tool_runtime_secs: None,
            max_processes: None,
            max_agent_depth: None,
            max_tokens_in: None,
            max_tokens_out: None,
            max_cost_usd: None,
        }
    }
}

impl Replica for BudgetConfig {
    open spec fn same(self, other: Self) -> bool {
        &&& self.max_wall_time_secs.same(other.max_wall_time_secs)
        &&& self.max_tool_runtime_secs.same(other.max_tool_runtime_secs)
        &&& self.max_processes.same(other.max_processes)
        &&& self.max_agent_depth.same(other.max_agent_depth)
        &&& self.max_tokens_in.same(other.max_tokens_in)
        &&& self.max_tokens_out.same(other.max_tokens_out)
        &&& self.max_cost_usd.same(other.max_cost_usd)
    }

    fn replicate(&self) -> (r: Self) {
        BudgetConfig {
            max_wall_time_secs: self.max_wall_time_secs.replicate(),
            max_tool_runtime_secs: self.max_tool_runtime_secs.replicate(),
            max_processes: self.max_processes.replicate(),
            max_agent_depth: self.max_agent_depth.replicate(),
            max_tokens_in: self.max_tokens_in.replicate(),
            max_tokens_out: self.max_tokens_out.replicate(),
            max_cost_usd: self.max_cost_usd.replicate(),
        }
    }

    fn agrees(&self, other: &Self) -> (b: bool) {
        self.max_wall_time_secs.agrees(&other.max_wall_time_secs)
            && self.max_tool_runtime_secs.agrees(&other.max_tool_runtime_secs)
            && self.max_processes.agrees(&other.max_processes)
            && self.max_agent_depth.agrees(&other.max_agent_depth)
            && self.max_tokens_in.agrees(&other.max_tokens_in)
            && self.max_tokens_out.agrees(&other.max_tokens_out)
            && self.max_cost_usd.agrees(&other.max_cost_usd)
    }

    proof fn same_as_itself(self) {
        self.max_wall_time_secs.same_as_itself();
        self.max_tool_runtime_secs.same_as_itself();
        self.max_processes.same_as_itself();
        self.max_agent_depth.same_as_itself();
        self.max_tokens_in.same_as_itself();
        self.max_tokens_out.same_as_itself();
        self.max_cost_usd.same_as_itself();
    }

    proof fn same_through(self, middle: Self, other: Self) {
        self.max_wall_time_secs.same_through(middle.max_wall_time_secs, other.max_wall_time_secs);
        self.max_tool_runtime_secs.same_through(middle.max_tool_runtime_secs, other.max_tool_runtime_secs);
        self.max_processes.same_through(middle.max_processes, other.max_processes);
        self.max_agent_depth.same_through(middle.max_agent_depth, other.max_agent_depth);
        self.max_tokens_in.same_through(middle.max_tokens_in, other.max_tokens_in);
        self.max_tokens_out.same_through(middle.max_tokens_out, other.max_tokens_out);
        self.max_cost_usd.same_through(middle.max_cost_usd, other.max_cost_usd);
    }
}

/// The caps of `project`, with those of `global` where it has none.
pub open spec fn merged_budget(global: BudgetConfig, project: BudgetConfig) -> BudgetConfig {
    BudgetConfig {
        max_wall_time_secs: first_of(project.max_wall_time_secs, global.max_wall_time_secs),
        max_tool_runtime_secs: first_of(
            project.max_tool_runtime_secs,
            global.max_tool_runtime_secs,
        ),
        max_processes: first_of(project.max_processes, global.max_processes),
        max_agent_depth: first_of(project.max_agent_depth, global.max_agent_depth),
        max_tokens_in: first_of(project.max_tokens_in, global.max_tokens_in),
        max_tokens_out: first_of(project.max_tokens_out, global.max_tokens_out),
        max_cost_usd: first_of(project.max_cost_usd, global.max_cost_usd),
    }
}

/// The caps of `project`, with those of `global` where it has none.
pub fn merge_budgets(global: BudgetConfig, project: BudgetConfig) -> (r: BudgetConfig)
    ensures
        r == merged_budget(global, project),
{
    BudgetConfig {
        max_wall_time_secs: or_else(project.max_wall_time_secs, global.max_wall_time_secs),
        max_tool_runtime_secs: or_else(
            project.max_tool_runtime_secs,
            global.max_tool_runtime_secs,
        ),
        max_processes: or_else(project.max_processes, global.max_processes),
        max_agent_depth: or_else(project.max_agent_depth, global.max_agent_depth),
        max_tokens_in: or_else(project.max_tokens_in, global.max_tokens_in),
        max_tokens_out: or_else(project.max_tokens_out, global.max_tokens_out),
        max_cost_usd: or_else(project.max_cost_usd, global.max_cost_usd),
    }
}

} // verus!
