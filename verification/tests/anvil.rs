use wcore_config::anvil::{AnvilConfig, DriverSeatPlan};
use wcore_config::config::provider::ProviderType;
use wcore_config::config::{default_model_for, driver_model_for};
use wcore_config::model_aliases::{expand_short_form, ModelAliases};
use wcore_config::table::StrMap;

fn models() -> ModelAliases {
    let mut short_forms = StrMap::new();
    short_forms.insert("anthropic:sonnet".to_string(), "sonnet-a".to_string());
    ModelAliases {
        anthropic_sonnet: "sonnet-a".to_string(),
        bedrock_sonnet: "sonnet-b".to_string(),
        vertex_sonnet: "sonnet-v".to_string(),
        openai_gpt4o: "gpt-4o".to_string(),
        vertex_gemini_pro: "gemini-pro".to_string(),
        minimax_m2: "m2".to_string(),
        short_forms,
    }
}

fn seat(driver_provider: Option<&str>, driver_model: Option<&str>) -> AnvilConfig {
    AnvilConfig {
        driver_provider: driver_provider.map(|p| p.to_string()),
        driver_model: driver_model.map(|m| m.to_string()),
        ..AnvilConfig::default()
    }
}

#[test]
fn default_is_on() {
    assert!(AnvilConfig::default().enabled);
    assert!(AnvilConfig::default().gate.is_empty());
}

#[test]
fn explicit_driver_provider_beats_flux_auto_routing() {
    let cfg = seat(Some("openai"), Some("gpt-5.5"));
    let plan = cfg.resolve_driver_seat(
        ProviderType::Anthropic,
        &vec![ProviderType::Anthropic, ProviderType::FluxRouter],
        &models(),
    );
    assert_eq!(
        plan,
        DriverSeatPlan::Provider {
            provider: "openai".into(),
            model: Some("gpt-5.5".into()),
        }
    );
}

#[test]
fn explicit_driver_model_pins_session_provider() {
    let cfg = seat(None, Some("haiku-4-5"));
    let plan =
        cfg.resolve_driver_seat(ProviderType::Anthropic, &vec![ProviderType::FluxRouter], &models());
    assert_eq!(
        plan,
        DriverSeatPlan::SessionModel {
            model: "haiku-4-5".into(),
        }
    );
}

#[test]
fn connected_flux_key_routes_the_driver_seat() {
    let cfg = AnvilConfig::default();
    let plan = cfg.resolve_driver_seat(
        ProviderType::Anthropic,
        &vec![ProviderType::Anthropic, ProviderType::FluxRouter],
        &models(),
    );
    assert_eq!(
        plan,
        DriverSeatPlan::Provider {
            provider: "flux-router".into(),
            model: Some("flux-auto".into()),
        }
    );
}

#[test]
fn flux_session_does_not_route_to_itself() {
    let cfg = AnvilConfig::default();
    let plan = cfg.resolve_driver_seat(
        ProviderType::FluxRouter,
        &vec![ProviderType::FluxRouter],
        &models(),
    );
    assert_eq!(plan, DriverSeatPlan::Session);
}

#[test]
fn anthropic_without_flux_splits_in_family() {
    let cfg = AnvilConfig::default();
    let plan = cfg.resolve_driver_seat(
        ProviderType::Anthropic,
        &vec![ProviderType::Anthropic],
        &models(),
    );
    match plan {
        DriverSeatPlan::SessionModel { model } => assert!(model.contains("sonnet")),
        other => panic!("expected in-family split, got {other:?}"),
    }
}

#[test]
fn unknown_family_keeps_the_session_seat() {
    let cfg = AnvilConfig::default();
    let plan = cfg.resolve_driver_seat(
        ProviderType::Deepseek,
        &vec![ProviderType::Deepseek],
        &models(),
    );
    assert_eq!(plan, DriverSeatPlan::Session);
}

#[test]
fn seat_follows_the_given_mid_tier() {
    let cfg = AnvilConfig::default();
    let none: Vec<ProviderType> = Vec::new();
    assert_eq!(
        cfg.driver_seat_with(ProviderType::Groq, &none, "mid"),
        DriverSeatPlan::SessionModel { model: "mid".to_string() }
    );
    assert_eq!(
        cfg.driver_seat_with(ProviderType::Groq, &none, ""),
        DriverSeatPlan::Session
    );
}

#[test]
fn model_table_is_read_by_role() {
    let m = models();
    assert_eq!(default_model_for(ProviderType::Anthropic, &m), "sonnet-a");
    assert_eq!(default_model_for(ProviderType::Bedrock, &m), "sonnet-b");
    assert_eq!(default_model_for(ProviderType::Vertex, &m), "sonnet-v");
    assert_eq!(driver_model_for(ProviderType::Anthropic, &m), "sonnet-a");
    assert_eq!(driver_model_for(ProviderType::Vertex, &m), "");
    assert_eq!(expand_short_form(&m, "anthropic:sonnet"), Some("sonnet-a".to_string()));
    assert_eq!(expand_short_form(&m, "gpt-4o"), None);
}
