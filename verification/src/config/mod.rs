//! The configuration file, its merge rules and its resolution.

pub mod alias;
pub mod host;
pub mod keys;
pub mod listing;
pub mod load;
pub mod merge;
pub mod migrate;
pub mod overlay;
pub mod paths;
pub mod posture;
pub mod provider;
pub mod redact;
pub mod resolve;
pub mod types;

pub use alias::{resolve_provider_alias, ProviderResolveError, ResolvedProviderConfig};
pub use host::{connection_facts, credential_files};
pub use keys::{
    aws_ambient_credentials_present, connected_providers, gcp_ambient_credentials_present,
    lookup_store_api_key, provider_connected, resolve_api_key, AwsFacts, ConnectionFacts, GcpFacts,
    KeySources, MissingApiKey,
};
pub use listing::{global_profiles, global_user_display_name, store_provider_api_key};
pub use load::{load_config_file, try_load_config_file, ConfigLoadError};
pub use merge::{dropped_hooks, merge_config_files, merge_provider_configs};
pub use migrate::{
    migrate_legacy_settings, migrate_legacy_yaml_if_needed, migration_needed, LegacyModel,
    LegacySettings,
};
pub use overlay::{apply_profile, merge_profiles, resolve_profile, ProfileResolveError};
pub use paths::{
    app_config_dir, chatgpt_oauth_token_path, credentials_storage_path, default_session_dir,
    genesis_config_dir, global_config_path, join_path, legacy_yaml_path, profile_home,
    project_config_path, project_file, wayland_env_path, xai_oauth_token_path, HomeFacts,
};
pub use provider::{
    api_key_variables, credentials_store_key, default_base_url_for, default_model_for,
    default_model_for_slug, driver_model_for, openai_model_accepts_effort, parse_builtin_provider,
    provider_type_from_slug, provider_type_slug, ProviderType, BUILTIN_PROVIDER_NAMES,
};
pub use redact::{is_secret_key, preview_text, redact_secrets_in_place};
pub use resolve::{
    effective_file, previewed_file, resolve_council_provider, stamp_overrides,
    CouncilProviderError, ResolveError,
};
pub use types::{
    default_allow_list, ApprovalMode, AzureAuthMode, BedrockConfig, CarriedSettings, CliArgs,
    Config, ConfigFile, DefaultConfig, EmbedderBackend, EmbedderConfig, InboundWebhookConfig,
    McpConfig, McpCurationPolicy, McpServerConfig, MemoryConfig, ObservabilityConfig,
    ProfileConfig, PromptCachingConfig, PromptCachingDetail, ProviderChainConfig, ProviderConfig,
    SecurityConfig, SessionConfig, SkillsPermissionConfig, StorageConfig, ToolsConfig,
    TransportType, VertexConfig, DEFAULT_CACHE_MIN_PREFIX_TOKENS,
};
