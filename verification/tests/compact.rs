use wcore_config::compact::{CompactConfig, CompactionLevel, ToolCallArgsConfig};
use wcore_config::float_bits::FloatBits;
use wcore_config::plan::PlanConfig;

fn number(f: FloatBits) -> f64 {
    f64::from_bits(f.bits)
}

#[test]
fn compact_default_values_match_spec() {
    let cfg = CompactConfig::default();
    assert_eq!(cfg.context_window, 200_000);
    assert_eq!(cfg.output_reserve, 20_000);
    assert_eq!(cfg.autocompact_buffer, 13_000);
    assert_eq!(cfg.emergency_buffer, 3_000);
    assert_eq!(cfg.max_failures, 3);
    assert_eq!(cfg.micro_keep_recent, 5);
    assert_eq!(cfg.micro_gap_seconds, 3600);
    assert!(cfg.enabled);
    assert_eq!(
        cfg.compactable_tools,
        vec!["Read", "Bash", "Grep", "Glob", "Write", "Edit"]
    );
}

#[test]
fn cache_diagnostics_defaults_to_false() {
    let cfg = CompactConfig::default();
    assert!(!cfg.cache_diagnostics);
}

#[test]
fn default_compaction_is_safe() {
    let cfg = CompactConfig::default();
    assert_eq!(cfg.compaction, CompactionLevel::Safe);
    assert_eq!(CompactionLevel::default(), CompactionLevel::Safe);
}

#[test]
fn default_toon_is_false() {
    let cfg = CompactConfig::default();
    assert!(!cfg.toon);
}

#[test]
fn smart_compaction_defaults_off() {
    let cfg = CompactConfig::default();
    assert!(!cfg.smart_enabled);
    assert_eq!(number(cfg.smart_trigger_fraction), 0.65);
    assert_eq!(number(cfg.smart_release_fraction), 0.50);
    assert_eq!(cfg.smart_cooldown_turns, 2);
    assert_eq!(cfg.smart_min_shrink_tokens, 2_000);
    assert!(cfg.smart_handoff_to_memory);
}

#[test]
fn tool_call_args_defaults() {
    let cfg = CompactConfig::default();
    assert!(cfg.tool_call_args.enabled);
    assert_eq!(cfg.tool_call_args.keep_recent_turns, 2);
    assert_eq!(cfg.tool_call_args.min_args_bytes, 768);
    assert_eq!(cfg.tool_call_args.epoch_turns, 4);
    let alone = ToolCallArgsConfig::default();
    assert_eq!(alone.min_args_bytes, 768);
}

#[test]
fn plan_default_values_match_spec() {
    let cfg = PlanConfig::default();
    assert!(cfg.enabled);
    assert_eq!(cfg.plan_directory, ".genesis-core/plans");
    assert!(!cfg.plan_first);
}
