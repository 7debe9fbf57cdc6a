use wcore_config::context_window::ContextWindow;
use wcore_config::limits::{model_output_ceiling, ModelCeiling, ModelLimits};

fn limits() -> ModelLimits {
    let entry = |model: &str| ModelCeiling {
        provider: "openai".to_string(),
        model: model.to_string(),
        output: 16_384,
        window: 128_000,
    };
    ModelLimits {
        ceilings: vec![entry("gpt-4o"), entry("gpt-4o-mini")],
    }
}

#[test]
fn resolve_known_model_uses_real_window_not_config() {
    let ctx = ContextWindow::resolve(1_000, "openai", "gpt-4o-mini", 200_000, &limits());
    assert_eq!(ctx.window, Some(128_000));
}

#[test]
fn resolve_unknown_model_falls_back_to_config() {
    let ctx = ContextWindow::resolve(1_000, "some-provider", "mystery-model", 200_000, &limits());
    assert_eq!(ctx.window, Some(200_000));
}

#[test]
fn resolve_unknown_model_and_zero_config_is_none() {
    let ctx = ContextWindow::resolve(1_000, "some-provider", "mystery-model", 0, &limits());
    assert_eq!(ctx.window, None);
}

#[test]
fn resolve_flux_tier_aliases_get_conservative_floor() {
    for alias in ["flux-auto", "flux-fast", "flux-standard", "flux-reasoning"] {
        let ctx = ContextWindow::resolve(1_000, "flux-router", alias, 0, &limits());
        assert_eq!(
            ctx.window,
            Some(128_000),
            "{alias} must resolve the conservative 128k floor"
        );
    }
    let ctx = ContextWindow::resolve(1_000, "openai", "flux-auto", 0, &limits());
    assert_eq!(ctx.window, Some(128_000));
    let ctx = ContextWindow::resolve(1_000, "flux-router", "Flux-Auto", 0, &limits());
    assert_eq!(ctx.window, Some(128_000));
}

#[test]
fn flux_tier_floor_beats_larger_config_window() {
    let ctx = ContextWindow::resolve(96_000, "openai", "flux-auto", 200_000, &limits());
    assert_eq!(ctx.window, Some(128_000));
    assert_eq!(ctx.percent(), Some(75));
}

#[test]
fn known_model_wins_over_differing_config_window() {
    let ctx = ContextWindow::resolve(1_000, "openai", "gpt-4o", 200_000, &limits());
    assert_eq!(ctx.window, Some(128_000));
}

#[test]
fn input_ceiling_known_fires_on_gpt4o_where_200k_would_not() {
    let ctx = ContextWindow {
        used_tokens: 110_000,
        window: Some(128_000),
    };
    let ceiling = ctx.input_ceiling(20_000, 3_000);
    assert_eq!(ceiling, Some(105_000));
    assert!(ctx.used_tokens >= ceiling.unwrap());
}

#[test]
fn input_ceiling_unknown_is_none() {
    let ctx = ContextWindow {
        used_tokens: 110_000,
        window: None,
    };
    assert_eq!(ctx.input_ceiling(20_000, 3_000), None);
}

#[test]
fn input_ceiling_saturates_no_underflow() {
    let ctx = ContextWindow {
        used_tokens: 0,
        window: Some(1_000),
    };
    assert_eq!(ctx.input_ceiling(20_000, 3_000), Some(0));
}

#[test]
fn percent_on_given_windows() {
    let at = |used_tokens: u64, window: Option<u64>| ContextWindow { used_tokens, window }.percent();
    assert_eq!(at(64_000, Some(128_000)), Some(50));
    assert_eq!(at(250_000, Some(128_000)), Some(195));
    assert_eq!(at(1_000, None), None);
    assert_eq!(at(0, Some(128_000)), Some(0));
    assert_eq!(at(1_000, Some(0)), None);
    assert_eq!(at(u64::MAX, Some(1)), Some(u32::MAX));
    assert_eq!(at(1, Some(200)), Some(1));
    assert_eq!(at(1, Some(201)), Some(0));
}

#[test]
fn known_window_is_not_asked_twice() {
    let ctx = ContextWindow::resolve_known(5, Some(7), "flux-auto", 9);
    assert_eq!(ctx, ContextWindow { used_tokens: 5, window: Some(7) });
    let ctx = ContextWindow::resolve_known(5, None, "flux-auto", 9);
    assert_eq!(ctx.window, Some(128_000));
    let ctx = ContextWindow::resolve_known(5, None, "other", 9);
    assert_eq!(ctx.window, Some(9));
}

/// The percentage is the one that double-precision arithmetic gives.
#[test]
fn percent_agrees_with_double_precision() {
    let mut state: u64 = 0x9e3779b97f4a7c15;
    let mut next = || {
        state ^= state << 13;
        state ^= state >> 7;
        state ^= state << 17;
        state
    };
    for round in 0..20_000u32 {
        let shift = next() % 64;
        let used = next() >> shift;
        let shift = next() % 64;
        let window = (next() >> shift).max(1);
        let ctx = ContextWindow { used_tokens: used, window: Some(window) };
        let expected = ((used as f64 / window as f64) * 100.0).round() as u32;
        assert_eq!(ctx.percent(), Some(expected), "round {round}: {used} of {window}");
    }
    for used in 0..400u64 {
        for window in 1..400u64 {
            let ctx = ContextWindow { used_tokens: used, window: Some(window) };
            let expected = ((used as f64 / window as f64) * 100.0).round() as u32;
            assert_eq!(ctx.percent(), Some(expected), "{used} of {window}");
        }
    }
}

#[test]
fn limits_are_those_of_the_provider() {
    let known = limits();
    assert_eq!(
        model_output_ceiling(&known, "openai", "GPT-4o"),
        Some((16_384, 128_000))
    );
    assert_eq!(model_output_ceiling(&known, "elsewhere", "gpt-4o"), None);
    let ctx = ContextWindow::resolve(1_000, "elsewhere", "gpt-4o", 200_000, &known);
    assert_eq!(ctx.window, Some(200_000));
}
