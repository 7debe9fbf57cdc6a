//! Shell hooks and the framing of untrusted text.

pub mod framing;
pub mod shell;

pub use framing::{neutralize_trust_delimiters, sanitize_ident};
pub use shell::{HookError, ShellHooks};

use crate::replica::Replica;
use vstd::prelude::*;

verus! {

/// One hook: a shell command and what it applies to.
#[derive(Debug, Clone)]
pub struct HookDef {
    /// Its name.
    pub name: String,
    /// Glob patterns for the tool name. Empty: any tool.
    pub tool_match: Vec<String>,
    /// Glob patterns for the file path. Empty: any file.
    pub file_match: Vec<String>,
    /// The command.
    pub command: String,
    /// Timeout in milliseconds.
    pub timeout_ms: u64,
}

impl Replica for HookDef {
    open spec fn same(self, other: Self) -> bool {
        &&& self.name.same(other.name)
        &&& self.tool_match.same(other.tool_match)
        &&& self.file_match.same(other.file_match)
        &&& self.command.same(other.command)
        &&& self.timeout_ms.same(other.timeout_ms)
    }

    fn replicate(&self) -> (r: Self) {
        HookDef {
            name: self.name.replicate(),
            tool_match: self.tool_match.replicate(),
            file_match: self.file_match.replicate(),
            command: self.command.replicate(),
            timeout_ms: self.timeout_ms.replicate(),
        }
    }

    fn agrees(&self, other: &Self) -> (b: bool) {
        self.name.agrees(&other.name)
            && self.tool_match.agrees(&other.tool_match)
            && self.file_match.agrees(&other.file_match)
            && self.command.agrees(&other.command)
            && self.timeout_ms.agrees(&other.timeout_ms)
    }

    proof fn same_as_itself(self) {
        self.name.same_as_itself();
        self.tool_match.same_as_itself();
        self.file_match.same_as_itself();
        self.command.same_as_itself();
        self.timeout_ms.same_as_itself();
    }

    proof fn same_through(self, middle: Self, other: Self) {
        self.name.same_through(middle.name, other.name);
        self.tool_match.same_through(middle.tool_match, other.tool_match);
        self.file_match.same_through(middle.file_match, other.file_match);
        self.command.same_through(middle.command, other.command);
        self.timeout_ms.same_through(middle.timeout_ms, other.timeout_ms);
    }
}

/// The `[hooks]` block.
#[derive(Debug, Clone)]
pub struct HooksConfig {
    /// Hooks before a tool call.
    pub pre_tool_use: Vec<HookDef>,
    /// Hooks after a tool call.
    pub post_tool_use: Vec<HookDef>,
    /// Hooks at the end of a session.
    pub stop: Vec<HookDef>,
    /// Whether plugin hooks are dispatched.
    pub dispatch_enabled: bool,
    /// Whether hooks of a project configuration run; only the global value counts.
    pub trust_project_hooks: bool,
}

impl HooksConfig {
    /// Whether every setting has its built-in value.
    pub open spec fn is_default(self) -> bool {
        &&& self.pre_tool_use@.len() == 0
        &&& self.post_tool_use@.len() == 0
        &&& self.stop@.len() == 0
        &&& self.dispatch_enabled
        &&& !self.trust_project_hooks
    }
}

impl Default for HooksConfig {
    fn default() -> (r: Self)
        ensures
            r.is_default(),
    {
        HooksConfig {
            pre_tool_use: Vec::new(),
            post_tool_use: Vec::new(),
            stop: Vec::new(),
            dispatch_enabled: true,
            trust_project_hooks: false,
        }
    }
}

impl Replica for HooksConfig {
    open spec fn same(self, other: Self) -> bool {
        &&& self.pre_tool_use.same(other.pre_tool_use)
        &&& self.post_tool_use.same(other.post_tool_use)
        &&& self.stop.same(other.stop)
        &&& self.dispatch_enabled.same(other.dispatch_enabled)
        &&& self.trust_project_hooks.same(other.trust_project_hooks)
    }

    fn replicate(&self) -> (r: Self) {
        HooksConfig {
            pre_tool_use: self.pre_tool_use.replicate(),
            post_tool_use: self.post_tool_use.replicate(),
            stop: self.stop.replicate(),
            dispatch_enabled: self.dispatch_enabled.replicate(),
            trust_project_hooks: self.trust_project_hooks.replicate(),
        }
    }

    fn agrees(&self, other: &Self) -> (b: bool) {
        self.pre_tool_use.agrees(&other.pre_tool_use)
            && self.post_tool_use.agrees(&other.post_tool_use)
            && self.stop.agrees(&other.stop)
            && self.dispatch_enabled.agrees(&other.dispatch_enabled)
            && self.trust_project_hooks.agrees(&other.trust_project_hooks)
    }

    proof fn same_as_itself(self) {
        self.pre_tool_use.same_as_itself();
        self.post_tool_use.same_as_itself();
        self.stop.same_as_itself();
        self.dispatch_enabled.same_as_itself();
        self.trust_project_hooks.same_as_itself();
    }

    proof fn same_through(self, middle: Self, other: Self) {
        self.pre_tool_use.same_through(middle.pre_tool_use, other.pre_tool_use);
        self.post_tool_use.same_through(middle.post_tool_use, other.post_tool_use);
        self.stop.same_through(middle.stop, other.stop);
        self.dispatch_enabled.same_through(middle.dispatch_enabled, other.dispatch_enabled);
        self.trust_project_hooks.same_through(middle.trust_project_hooks, other.trust_project_hooks);
    }
}
/// What a turn starts with.
#[derive(Debug, Clone)]
pub struct TurnContext {
    /// The number of the turn.
    pub turn: usize,
    /// The model.
    pub model: String,
    /// The number of messages.
    pub message_count: usize,
}

/// What a turn ended with.
#[derive(Debug, Clone)]
pub struct TurnResult {
    /// The number of the turn.
    pub turn: usize,
    /// The number of tool calls.
    pub tool_call_count: usize,
    /// The input tokens.
    pub input_tokens: u64,
    /// The output tokens.
    pub output_tokens: u64,
}

/// What a session ended with.
#[derive(Debug, Clone)]
pub struct SessionEndSummary {
    /// The number of turns.
    pub turns: usize,
    /// The input tokens of all turns.
    pub total_input_tokens: u64,
    /// The output tokens of all turns.
    pub total_output_tokens: u64,
}

} // verus!
