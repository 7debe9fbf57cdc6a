//! Context compaction settings.

use crate::float_bits::FloatBits;
use crate::replica::Replica;
use crate::text::texts_are;
use vstd::prelude::*;

verus! {

/// Bit pattern of the trigger fraction 0.65.
pub const FRACTION_0_65: u64 = 0x3fe4cccccccccccd;

/// Bit pattern of the release fraction 0.5.
pub const FRACTION_0_50: u64 = 0x3fe0000000000000;

/// How far tool output is compacted.
#[derive(Debug, Clone, Copy, PartialEq, Eq, Structural)]
pub enum CompactionLevel {
    /// Not at all.
    Off,
    /// Without loss of meaning.
    Safe,
    /// As far as possible.
    Full,
}

impl Default for CompactionLevel {
    fn default() -> (r: Self)
        ensures
            r == CompactionLevel::Safe,
    {
        CompactionLevel::Safe
    }
}

impl Replica for CompactionLevel {
    open spec fn same(self, other: Self) -> bool {
        self == other
    }

    fn replicate(&self) -> (r: Self) {
        *self
    }

    fn agrees(&self, other: &Self) -> (b: bool) {
        *self == *other
    }

    proof fn same_as_itself(self) {
    }

    proof fn same_through(self, middle: Self, other: Self) {
    }
}

/// Settings of the compaction of old tool-call arguments.
#[derive(Debug, Clone)]
pub struct ToolCallArgsConfig {
    /// Whether the pass runs.
    pub enabled: bool,
    /// Assistant turns whose arguments stay verbatim.
    pub keep_recent_turns: usize,
    /// Smallest serialised argument object that is stubbed.
    pub min_args_bytes: usize,
    /// The stub boundary advances every so many turns.
    pub epoch_turns: usize,
}

impl ToolCallArgsConfig {
    /// Whether every setting has its built-in value.
    pub open spec fn is_default(self) -> bool {
        &&& self.enabled
        &&& self.keep_recent_turns == 2
        &&& self.min_args_bytes == 768
        &&& self.epoch_turns == 4
    }
}

impl Default for ToolCallArgsConfig {
    fn default() -> (r: Self)
        ensures
            r.is_default(),
    {
        ToolCallArgsConfig {
            enabled: true,
            keep_recent_turns: 2,
            min_args_bytes: 768,
            epoch_turns: 4,
        }
    }
}

impl Replica for ToolCallArgsConfig {
    open spec fn same(self, other: Self) -> bool {
        &&& self.enabled.same(other.enabled)
        &&& self.keep_recent_turns.same(other.keep_recent_turns)
        &&& self.min_args_bytes.same(other.min_args_bytes)
        &&& self.epoch_turns.same(other.epoch_turns)
    }

    fn replicate(&self) -> (r: Self) {
        ToolCallArgsConfig {
            enabled: self.enabled.replicate(),
            keep_recent_turns: self.keep_recent_turns.replicate(),
            min_args_bytes: self.min_args_bytes.replicate(),
            epoch_turns: self.epoch_turns.replicate(),
        }
    }

    fn agrees(&self, other: &Self) -> (b: bool) {
        self.enabled.agrees(&other.enabled)
            && self.keep_recent_turns.agrees(&other.keep_recent_turns)
            && self.min_args_bytes.agrees(&other.min_args_bytes)
            && self.epoch_turns.agrees(&other.epoch_turns)
    }

    proof fn same_as_itself(self) {
        self.enabled.same_as_itself();
        self.keep_recent_turns.same_as_itself();
        self.min_args_bytes.same_as_itself();
        self.epoch_turns.same_as_itself();
    }

    proof fn same_through(self, middle: Self, other: Self) {
        self.enabled.same_through(middle.enabled, other.enabled);
        self.keep_recent_turns.same_through(middle.keep_recent_turns, other.keep_recent_turns);
        self.min_args_bytes.same_through(middle.min_args_bytes, other.min_args_bytes);
        self.epoch_turns.same_through(middle.epoch_turns, other.epoch_turns);
    }
}

/// Settings of the multi-level context compaction. Sizes are in tokens.
#[derive(Debug, Clone)]
pub struct CompactConfig {
    /// Context window size.
    pub context_window: usize,
    /// Tokens reserved for the output.
    pub output_reserve: usize,
    /// Buffer below the effective window that triggers autocompact.
    pub autocompact_buffer: usize,
    /// Tokens from the window limit that trigger the emergency block.
    pub emergency_buffer: usize,
    /// Consecutive failures before the circuit breaker trips.
    pub max_failures: u32,
    /// Most recent tool results that microcompact keeps.
    pub micro_keep_recent: usize,
    /// Gap in seconds that triggers microcompact.
    pub micro_gap_seconds: u64,
    /// Tools whose results microcompact may clear.
    pub compactable_tools: Vec<String>,
    /// Whether compaction is on.
    pub enabled: bool,
    /// Show prompt cache diagnostics.
    pub cache_diagnostics: bool,
    /// Compaction level of tool output.
    pub compaction: CompactionLevel,
    /// Whether the TOON encoding is on.
    pub toon: bool,
    /// Model for the summaries; absent for the live model.
    pub compaction_model: Option<String>,
    /// Whether smart auto-compaction is on.
    pub smart_enabled: bool,
    /// Window share that arms a proactive compact.
    pub smart_trigger_fraction: FloatBits,
    /// Window share below which the trigger re-arms.
    pub smart_release_fraction: FloatBits,
    /// Turns between two smart compacts.
    pub smart_cooldown_turns: u32,
    /// A smart compact that frees less turns smart compaction off.
    pub smart_min_shrink_tokens: u64,
    /// Write the handoff to long-term memory on a smart compact.
    pub smart_handoff_to_memory: bool,
    /// Compaction of old tool-call arguments.
    pub tool_call_args: ToolCallArgsConfig,
}

impl CompactConfig {
    /// Whether every setting has its built-in value.
    pub open spec fn is_default(self) -> bool {
        &&& self.context_window == 200000
        &&& self.output_reserve == 20000
        &&& self.autocompact_buffer == 13000
        &&& self.emergency_buffer == 3000
        &&& self.max_failures == 3
        &&& self.micro_keep_recent == 5
        &&& self.micro_gap_seconds == 3600
        &&& texts_are(self.compactable_tools@, seq!["Read"@, "Bash"@, "Grep"@, "Glob"@, "Write"@, "Edit"@])
        &&& self.enabled
        &&& !self.cache_diagnostics
        &&& self.compaction == CompactionLevel::Safe
        &&& !self.toon
        &&& self.compaction_model is None
        &&& !self.smart_enabled
        &&& self.smart_trigger_fraction.bits == FRACTION_0_65
        &&& self.smart_release_fraction.bits == FRACTION_0_50
        &&& self.smart_cooldown_turns == 2
        &&& self.smart_min_shrink_tokens == 2000
        &&& self.smart_handoff_to_memory
        &&& self.tool_call_args.is_default()
    }
}

impl Default for CompactConfig {
    fn default() -> (r: Self)
        ensures
            r.is_default(),
    {
        CompactConfig {
            context_window: 200000,
            output_reserve: 20000,
            autocompact_buffer: 13000,
            emergency_buffer: 3000,
            max_failures: 3,
            micro_keep_recent: 5,
            micro_gap_seconds: 3600,
            compactable_tools: vec!["Read".to_owned(), "Bash".to_owned(), "Grep".to_owned(), "Glob".to_owned(), "Write".to_owned(), "Edit".to_owned()],
            enabled: true,
            cache_diagnostics: false,
            compaction: CompactionLevel::Safe,
            toon: false,
            compaction_model: None,
            smart_enabled: false,
            smart_trigger_fraction: FloatBits { bits: FRACTION_0_65 },
            smart_release_fraction: FloatBits { bits: FRACTION_0_50 },
            smart_cooldown_turns: 2,
            smart_min_shrink_tokens: 2000,
            smart_handoff_to_memory: true,
            tool_call_args: ToolCallArgsConfig::default(),
        }
    }
}

impl Replica for CompactConfig {
    open spec fn same(self, other: Self) -> bool {
        &&& self.context_window.same(other.context_window)
        &&& self.output_reserve.same(other.output_reserve)
        &&& self.autocompact_buffer.same(other.autocompact_buffer)
        &&& self.emergency_buffer.same(other.emergency_buffer)
        &&& self.max_failures.same(other.max_failures)
        &&& self.micro_keep_recent.same(other.micro_keep_recent)
        &&& self.micro_gap_seconds.same(other.micro_gap_seconds)
        &&& self.compactable_tools.same(other.compactable_tools)
        &&& self.enabled.same(other.enabled)
        &&& self.cache_diagnostics.same(other.cache_diagnostics)
        &&& self.compaction.same(other.compaction)
        &&& self.toon.same(other.toon)
        &&& self.compaction_model.same(other.compaction_model)
        &&& self.smart_enabled.same(other.smart_enabled)
        &&& self.smart_trigger_fraction.same(other.smart_trigger_fraction)
        &&& self.smart_release_fraction.same(other.smart_release_fraction)
        &&& self.smart_cooldown_turns.same(other.smart_cooldown_turns)
        &&& self.smart_min_shrink_tokens.same(other.smart_min_shrink_tokens)
        &&& self.smart_handoff_to_memory.same(other.smart_handoff_to_memory)
        &&& self.tool_call_args.same(other.tool_call_args)
    }

    fn replicate(&self) -> (r: Self) {
        CompactConfig {
            context_window: self.context_window.replicate(),
            output_reserve: self.output_reserve.replicate(),
            autocompact_buffer: self.autocompact_buffer.replicate(),
            emergency_buffer: self.emergency_buffer.replicate(),
            max_failures: self.max_failures.replicate(),
            micro_keep_recent: self.micro_keep_recent.replicate(),
            micro_gap_seconds: self.micro_gap_seconds.replicate(),
            compactable_tools: self.compactable_tools.replicate(),
            enabled: self.enabled.replicate(),
            cache_diagnostics: self.cache_diagnostics.replicate(),
            compaction: self.compaction.replicate(),
            toon: self.toon.replicate(),
            compaction_model: self.compaction_model.replicate(),
            smart_enabled: self.smart_enabled.replicate(),
            smart_trigger_fraction: self.smart_trigger_fraction.replicate(),
            smart_release_fraction: self.smart_release_fraction.replicate(),
            smart_cooldown_turns: self.smart_cooldown_turns.replicate(),
            smart_min_shrink_tokens: self.smart_min_shrink_tokens.replicate(),
            smart_handoff_to_memory: self.smart_handoff_to_memory.replicate(),
            tool_call_args: self.tool_call_args.replicate(),
        }
    }

    fn agrees(&self, other: &Self) -> (b: bool) {
        self.context_window.agrees(&other.context_window)
            && self.output_reserve.agrees(&other.output_reserve)
            && self.autocompact_buffer.agrees(&other.autocompact_buffer)
            && self.emergency_buffer.agrees(&other.emergency_buffer)
            && self.max_failures.agrees(&other.max_failures)
            && self.micro_keep_recent.agrees(&other.micro_keep_recent)
            && self.micro_gap_seconds.agrees(&other.micro_gap_seconds)
            && self.compactable_tools.agrees(&other.compactable_tools)
            && self.enabled.agrees(&other.enabled)
            && self.cache_diagnostics.agrees(&other.cache_diagnostics)
            && self.compaction.agrees(&other.compaction)
            && self.toon.agrees(&other.toon)
            && self.compaction_model.agrees(&other.compaction_model)
            && self.smart_enabled.agrees(&other.smart_enabled)
            && self.smart_trigger_fraction.agrees(&other.smart_trigger_fraction)
            && self.smart_release_fraction.agrees(&other.smart_release_fraction)
            && self.smart_cooldown_turns.agrees(&other.smart_cooldown_turns)
            && self.smart_min_shrink_tokens.agrees(&other.smart_min_shrink_tokens)
            && self.smart_handoff_to_memory.agrees(&other.smart_handoff_to_memory)
            && self.tool_call_args.agrees(&other.tool_call_args)
    }

    proof fn same_as_itself(self) {
        self.context_window.same_as_itself();
        self.output_reserve.same_as_itself();
        self.autocompact_buffer.same_as_itself();
        self.emergency_buffer.same_as_itself();
        self.max_failures.same_as_itself();
        self.micro_keep_recent.same_as_itself();
        self.micro_gap_seconds.same_as_itself();
        self.compactable_tools.same_as_itself();
        self.enabled.same_as_itself();
        self.cache_diagnostics.same_as_itself();
        self.compaction.same_as_itself();
        self.toon.same_as_itself();
        self.compaction_model.same_as_itself();
        self.smart_enabled.same_as_itself();
        self.smart_trigger_fraction.same_as_itself();
        self.smart_release_fraction.same_as_itself();
        self.smart_cooldown_turns.same_as_itself();
        self.smart_min_shrink_tokens.same_as_itself();
        self.smart_handoff_to_memory.same_as_itself();
        self.tool_call_args.same_as_itself();
    }

    proof fn same_through(self, middle: Self, other: Self) {
        self.context_window.same_through(middle.context_window, other.context_window);
        self.output_reserve.same_through(middle.output_reserve, other.output_reserve);
        self.autocompact_buffer.same_through(middle.autocompact_buffer, other.autocompact_buffer);
        self.emergency_buffer.same_through(middle.emergency_buffer, other.emergency_buffer);
        self.max_failures.same_through(middle.max_failures, other.max_failures);
        self.micro_keep_recent.same_through(middle.micro_keep_recent, other.micro_keep_recent);
        self.micro_gap_seconds.same_through(middle.micro_gap_seconds, other.micro_gap_seconds);
        self.compactable_tools.same_through(middle.compactable_tools, other.compactable_tools);
        self.enabled.same_through(middle.enabled, other.enabled);
        self.cache_diagnostics.same_through(middle.cache_diagnostics, other.cache_diagnostics);
        self.compaction.same_through(middle.compaction, other.compaction);
        self.toon.same_through(middle.toon, other.toon);
        self.compaction_model.same_through(middle.compaction_model, other.compaction_model);
        self.smart_enabled.same_through(middle.smart_enabled, other.smart_enabled);
        self.smart_trigger_fraction.same_through(middle.smart_trigger_fraction, other.smart_trigger_fraction);
        self.smart_release_fraction.same_through(middle.smart_release_fraction, other.smart_release_fraction);
        self.smart_cooldown_turns.same_through(middle.smart_cooldown_turns, other.smart_cooldown_turns);
        self.smart_min_shrink_tokens.same_through(middle.smart_min_shrink_tokens, other.smart_min_shrink_tokens);
        self.smart_handoff_to_memory.same_through(middle.smart_handoff_to_memory, other.smart_handoff_to_memory);
        self.tool_call_args.same_through(middle.tool_call_args, other.tool_call_args);
    }
}
} // verus!
