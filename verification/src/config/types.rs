//! The configuration model.

use crate::browser::BrowserConfig;
use crate::budget::BudgetConfig;
use crate::compact::CompactConfig;
use crate::compat::ProviderCompat;
use crate::config::provider::ProviderType;
use crate::credentials::CredentialsStorageConfig;
use crate::crucible::CrucibleConfig;
use crate::file_cache::FileCacheConfig;
use crate::float_bits::FloatBits;
use crate::hooks::HooksConfig;
use crate::plan::PlanConfig;
use crate::replica::Replica;
use crate::table::StrMap;
use crate::text::texts_are;
use vstd::prelude::*;

verus! {

/// AWS Bedrock credentials. There is no derived `Debug`: see `debug_text`.
#[derive(Clone)]
pub struct BedrockConfig {
    /// AWS region.
    pub region: Option<String>,
    /// Access key id.
    pub access_key_id: Option<String>,
    /// Secret access key.
    pub secret_access_key: Option<String>,
    /// Session token.
    pub session_token: Option<String>,
    /// Named AWS profile.
    pub profile: Option<String>,
}

impl BedrockConfig {
    /// Whether every setting has its built-in value.
    pub open spec fn is_default(self) -> bool {
        &&& self.region is None
        &&& self.access_key_id is None
        &&& self.secret_access_key is None
        &&& self.session_token is None
        &&& self.profile is None
    }
}

impl Default for BedrockConfig {
    fn default() -> (r: Self)
        ensures
            r.is_default(),
    {
        BedrockConfig {
            region: None,
            access_key_id: None,
            secret_access_key: None,
            session_token: None,
            profile: None,
        }
    }
}

impl Replica for BedrockConfig {
    open spec fn same(self, other: Self) -> bool {
        &&& self.region.same(other.region)
        &&& self.access_key_id.same(other.access_key_id)
        &&& self.secret_access_key.same(other.secret_access_key)
        &&& self.session_token.same(other.session_token)
        &&& self.profile.same(other.profile)
    }

    fn replicate(&self) -> (r: Self) {
        BedrockConfig {
            region: self.region.replicate(),
            access_key_id: self.access_key_id.replicate(),
            secret_access_key: self.secret_access_key.replicate(),
            session_token: self.session_token.replicate(),
            profile: self.profile.replicate(),
        }
    }

    fn agrees(&self, other: &Self) -> (b: bool) {
        self.region.agrees(&other.region)
            && self.access_key_id.agrees(&other.access_key_id)
            && self.secret_access_key.agrees(&other.secret_access_key)
            && self.session_token.agrees(&other.session_token)
            && self.profile.agrees(&other.profile)
    }

    proof fn same_as_itself(self) {
        self.region.same_as_itself();
        self.access_key_id.same_as_itself();
        self.secret_access_key.same_as_itself();
        self.session_token.same_as_itself();
        self.profile.same_as_itself();
    }

    proof fn same_through(self, middle: Self, other: Self) {
        self.region.same_through(middle.region, other.region);
        self.access_key_id.same_through(middle.access_key_id, other.access_key_id);
        self.secret_access_key.same_through(middle.secret_access_key, other.secret_access_key);
        self.session_token.same_through(middle.session_token, other.session_token);
        self.profile.same_through(middle.profile, other.profile);
    }
}

/// Google Vertex AI authentication. There is no derived `Debug`: see `debug_text`.
#[derive(Clone)]
pub struct VertexConfig {
    /// GCP project.
    pub project_id: Option<String>,
    /// GCP region.
    pub region: Option<String>,
    /// Path of a service-account file.
    pub credentials_file: Option<String>,
    /// Inline service-account key.
    pub service_account_json: Option<String>,
}

impl VertexConfig {
    /// Whether every setting has its built-in value.
    pub open spec fn is_default(self) -> bool {
        &&& self.project_id is None
        &&& self.region is None
        &&& self.credentials_file is None
        &&& self.service_account_json is None
    }
}

impl Default for VertexConfig {
    fn default() -> (r: Self)
        ensures
            r.is_default(),
    {
        VertexConfig {
            project_id: None,
            region: None,
            credentials_file: None,
            service_account_json: None,
        }
    }
}

impl Replica for VertexConfig {
    open spec fn same(self, other: Self) -> bool {
        &&& self.project_id.same(other.project_id)
        &&& self.region.same(other.region)
        &&& self.credentials_file.same(other.credentials_file)
        &&& self.service_account_json.same(other.service_account_json)
    }

    fn replicate(&self) -> (r: Self) {
        VertexConfig {
            project_id: self.project_id.replicate(),
            region: self.region.replicate(),
            credentials_file: self.credentials_file.replicate(),
            service_account_json: self.service_account_json.replicate(),
        }
    }

    fn agrees(&self, other: &Self) -> (b: bool) {
        self.project_id.agrees(&other.project_id)
            && self.region.agrees(&other.region)
            && self.credentials_file.agrees(&other.credentials_file)
            && self.service_account_json.agrees(&other.service_account_json)
    }

    proof fn same_as_itself(self) {
        self.project_id.same_as_itself();
        self.region.same_as_itself();
        self.credentials_file.same_as_itself();
        self.service_account_json.same_as_itself();
    }

    proof fn same_through(self, middle: Self, other: Self) {
        self.project_id.same_through(middle.project_id, other.project_id);
        self.region.same_through(middle.region, other.region);
        self.credentials_file.same_through(middle.credentials_file, other.credentials_file);
        self.service_account_json.same_through(middle.service_account_json, other.service_account_json);
    }
}

/// Azure OpenAI authentication mode.
#[derive(Debug, Clone, Copy, PartialEq, Eq, Structural)]
pub enum AzureAuthMode {
    /// A static `api-key` header.
    ApiKey,
    /// An `Authorization: Bearer` header with an Entra ID token.
    AadBearer,
}

impl Default for AzureAuthMode {
    fn default() -> (r: Self)
        ensures
            r == AzureAuthMode::ApiKey,
    {
        AzureAuthMode::ApiKey
    }
}

impl Replica for AzureAuthMode {
    open spec fn same(self, other: Self) -> bool {
        self == other
    }

    fn replicate(&self) -> (r: Self) {
        *self
    }

    fn agrees(&self, other: &Self) -> (b: bool) {
        *self == *other
    }

    proof fn same_as_itself(self) {
    }

    proof fn same_through(self, middle: Self, other: Self) {
    }
}

/// Transport of an MCP server.
#[derive(Debug, Clone, Copy, PartialEq, Eq, Structural)]
pub enum TransportType {
    /// A child process.
    Stdio,
    /// Server-sent events.
    Sse,
    /// Streamable HTTP.
    StreamableHttp,
}

impl Default for TransportType {
    fn default() -> (r: Self)
        ensures
            r == TransportType::Stdio,
    {
        TransportType::Stdio
    }
}

impl Replica for TransportType {
    open spec fn same(self, other: Self) -> bool {
        self == other
    }

    fn replicate(&self) -> (r: Self) {
        *self
    }

    fn agrees(&self, other: &Self) -> (b: bool) {
        *self == *other
    }

    proof fn same_as_itself(self) {
    }

    proof fn same_through(self, middle: Self, other: Self) {
    }
}

/// One MCP server.
#[derive(Debug, Clone)]
pub struct McpServerConfig {
    /// Its transport.
    pub transport: TransportType,
    /// Command to run, for stdio.
    pub command: Option<String>,
    /// Arguments of the command, for stdio.
    pub args: Option<Vec<String>>,
    /// Environment of the server, for stdio.
    pub env: Option<StrMap<String>>,
    /// URL, for SSE and HTTP.
    pub url: Option<String>,
    /// HTTP headers, for SSE and HTTP.
    pub headers: Option<StrMap<String>>,
    /// Whether the tools of this server are sent by name only.
    pub deferred: Option<bool>,
    /// Whether the URL may resolve to a loopback address.
    pub allow_local: bool,
    /// Assistants that see this server. Absent or empty: every session does.
    pub only_for_assistant: Option<Vec<String>>,
}

impl Replica for McpServerConfig {
    open spec fn same(self, other: Self) -> bool {
        &&& self.transport.same(other.transport)
        &&& self.command.same(other.command)
        &&& self.args.same(other.args)
        &&& self.env.same(other.env)
        &&& self.url.same(other.url)
        &&& self.headers.same(other.headers)
        &&& self.deferred.same(other.deferred)
        &&& self.allow_local.same(other.allow_local)
        &&& self.only_for_assistant.same(other.only_for_assistant)
    }

    fn replicate(&self) -> (r: Self) {
        McpServerConfig {
            transport: self.transport.replicate(),
            command: self.command.replicate(),
            args: self.args.replicate(),
            env: self.env.replicate(),
            url: self.url.replicate(),
            headers: self.headers.replicate(),
            deferred: self.deferred.replicate(),
            allow_local: self.allow_local.replicate(),
            only_for_assistant: self.only_for_assistant.replicate(),
        }
    }

    fn agrees(&self, other: &Self) -> (b: bool) {
        self.transport.agrees(&other.transport)
            && self.command.agrees(&other.command)
            && self.args.agrees(&other.args)
            && self.env.agrees(&other.env)
            && self.url.agrees(&other.url)
            && self.headers.agrees(&other.headers)
            && self.deferred.agrees(&other.deferred)
            && self.allow_local.agrees(&other.allow_local)
            && self.only_for_assistant.agrees(&other.only_for_assistant)
    }

    proof fn same_as_itself(self) {
        self.transport.same_as_itself();
        self.command.same_as_itself();
        self.args.same_as_itself();
        self.env.same_as_itself();
        self.url.same_as_itself();
        self.headers.same_as_itself();
        self.deferred.same_as_itself();
        self.allow_local.same_as_itself();
        self.only_for_assistant.same_as_itself();
    }

    proof fn same_through(self, middle: Self, other: Self) {
        self.transport.same_through(middle.transport, other.transport);
        self.command.same_through(middle.command, other.command);
        self.args.same_through(middle.args, other.args);
        self.env.same_through(middle.env, other.env);
        self.url.same_through(middle.url, other.url);
        self.headers.same_through(middle.headers, other.headers);
        self.deferred.same_through(middle.deferred, other.deferred);
        self.allow_local.same_through(middle.allow_local, other.allow_local);
        self.only_for_assistant.same_through(middle.only_for_assistant, other.only_for_assistant);
    }
}

/// How many MCP tools a turn is offered.
#[derive(Debug, Clone, Copy, PartialEq, Eq, Structural)]
pub enum McpCurationPolicy {
    /// All of them.
    Off,
    /// The `k` highest-ranked ones.
    TopK {
        /// How many.
        k: usize,
    },
}

impl McpCurationPolicy {
    /// Whether the policy is the built-in one.
    pub open spec fn is_default(self) -> bool {
        self == (McpCurationPolicy::TopK { k: 15 })
    }
}

impl Default for McpCurationPolicy {
    fn default() -> (r: Self)
        ensures
            r.is_default(),
    {
        McpCurationPolicy::TopK { k: 15 }
    }
}

impl Replica for McpCurationPolicy {
    open spec fn same(self, other: Self) -> bool {
        self == other
    }

    fn replicate(&self) -> (r: Self) {
        *self
    }

    fn agrees(&self, other: &Self) -> (b: bool) {
        *self == *other
    }

    proof fn same_as_itself(self) {
    }

    proof fn same_through(self, middle: Self, other: Self) {
    }
}

/// The MCP servers.
#[derive(Debug, Clone)]
pub struct McpConfig {
    /// The servers by name.
    pub servers: StrMap<McpServerConfig>,
    /// How many tools a turn is offered.
    pub curation: McpCurationPolicy,
}

impl McpConfig {
    /// Whether every setting has its built-in value.
    pub open spec fn is_default(self) -> bool {
        &&& self.servers@ == Map::<Seq<char>, McpServerConfig>::empty()
        &&& self.curation.is_default()
    }
}

impl Default for McpConfig {
    fn default() -> (r: Self)
        ensures
            r.is_default(),
    {
        McpConfig {
            servers: StrMap::new(),
            curation: McpCurationPolicy::default(),
        }
    }
}

impl Replica for McpConfig {
    open spec fn same(self, other: Self) -> bool {
        &&& self.servers.same(other.servers)
        &&& self.curation.same(other.curation)
    }

    fn replicate(&self) -> (r: Self) {
        McpConfig {
            servers: self.servers.replicate(),
            curation: self.curation.replicate(),
        }
    }

    fn agrees(&self, other: &Self) -> (b: bool) {
        self.servers.agrees(&other.servers)
            && self.curation.agrees(&other.curation)
    }

    proof fn same_as_itself(self) {
        self.servers.same_as_itself();
        self.curation.same_as_itself();
    }

    proof fn same_through(self, middle: Self, other: Self) {
        self.servers.same_through(middle.servers, other.servers);
        self.curation.same_through(middle.curation, other.curation);
    }
}

/// Egress policy.
#[derive(Debug, Clone)]
pub struct SecurityConfig {
    /// Master switch of the egress gate.
    pub enabled: bool,
    /// Extra allowed domains and hosts.
    pub egress_allow: Vec<String>,
}

impl SecurityConfig {
    /// Whether every setting has its built-in value.
    pub open spec fn is_default(self) -> bool {
        &&& self.enabled
        &&& self.egress_allow@.len() == 0
    }
}

impl Default for SecurityConfig {
    fn default() -> (r: Self)
        ensures
            r.is_default(),
    {
        SecurityConfig {
            enabled: true,
            egress_allow: Vec::new(),
        }
    }
}

impl Replica for SecurityConfig {
    open spec fn same(self, other: Self) -> bool {
        &&& self.enabled.same(other.enabled)
        &&& self.egress_allow.same(other.egress_allow)
    }

    fn replicate(&self) -> (r: Self) {
        SecurityConfig {
            enabled: self.enabled.replicate(),
            egress_allow: self.egress_allow.replicate(),
        }
    }

    fn agrees(&self, other: &Self) -> (b: bool) {
        self.enabled.agrees(&other.enabled)
            && self.egress_allow.agrees(&other.egress_allow)
    }

    proof fn same_as_itself(self) {
        self.enabled.same_as_itself();
        self.egress_allow.same_as_itself();
    }

    proof fn same_through(self, middle: Self, other: Self) {
        self.enabled.same_through(middle.enabled, other.enabled);
        self.egress_allow.same_through(middle.egress_allow, other.egress_allow);
    }
}

/// The `[storage]` block.
#[derive(Debug, Clone)]
pub struct StorageConfig {
    /// Where credentials are stored.
    pub credentials: CredentialsStorageConfig,
}

impl StorageConfig {
    /// Whether every setting has its built-in value.
    pub open spec fn is_default(self) -> bool {
        &&& self.credentials.is_default()
    }
}

impl Default for StorageConfig {
    fn default() -> (r: Self)
        ensures
            r.is_default(),
    {
        StorageConfig {
            credentials: CredentialsStorageConfig::default(),
        }
    }
}

impl Replica for StorageConfig {
    open spec fn same(self, other: Self) -> bool {
        &&& self.credentials.same(other.credentials)
    }

    fn replicate(&self) -> (r: Self) {
        StorageConfig {
            credentials: self.credentials.replicate(),
        }
    }

    fn agrees(&self, other: &Self) -> (b: bool) {
        self.credentials.agrees(&other.credentials)
    }

    proof fn same_as_itself(self) {
        self.credentials.same_as_itself();
    }

    proof fn same_through(self, middle: Self, other: Self) {
        self.credentials.same_through(middle.credentials, other.credentials);
    }
}

/// Embedding backend.
#[derive(Debug, Clone, Copy, PartialEq, Eq, Structural)]
pub enum EmbedderBackend {
    /// Deterministic hashed tokens.
    Hashed,
    /// The OpenAI embeddings API.
    OpenAi,
    /// The Voyage AI embeddings API.
    Voyage,
    /// A local model.
    LocalBge,
}

impl Default for EmbedderBackend {
    fn default() -> (r: Self)
        ensures
            r == EmbedderBackend::Hashed,
    {
        EmbedderBackend::Hashed
    }
}

impl Replica for EmbedderBackend {
    open spec fn same(self, other: Self) -> bool {
        self == other
    }

    fn replicate(&self) -> (r: Self) {
        *self
    }

    fn agrees(&self, other: &Self) -> (b: bool) {
        *self == *other
    }

    proof fn same_as_itself(self) {
    }

    proof fn same_through(self, middle: Self, other: Self) {
    }
}

/// Embedding backend selection.
#[derive(Debug, Clone)]
pub struct EmbedderConfig {
    /// The backend.
    pub backend: EmbedderBackend,
    /// Environment variable that holds its API key.
    pub api_key_env: Option<String>,
    /// Model override.
    pub model: Option<String>,
}

impl EmbedderConfig {
    /// Whether every setting has its built-in value.
    pub open spec fn is_default(self) -> bool {
        &&& self.backend == EmbedderBackend::Hashed
        &&& self.api_key_env is None
        &&& self.model is None
    }
}

impl Default for EmbedderConfig {
    fn default() -> (r: Self)
        ensures
            r.is_default(),
    {
        EmbedderConfig {
            backend: EmbedderBackend::Hashed,
            api_key_env: None,
            model: None,
        }
    }
}

impl Replica for EmbedderConfig {
    open spec fn same(self, other: Self) -> bool {
        &&& self.backend.same(other.backend)
        &&& self.api_key_env.same(other.api_key_env)
        &&& self.model.same(other.model)
    }

    fn replicate(&self) -> (r: Self) {
        EmbedderConfig {
            backend: self.backend.replicate(),
            api_key_env: self.api_key_env.replicate(),
            model: self.model.replicate(),
        }
    }

    fn agrees(&self, other: &Self) -> (b: bool) {
        self.backend.agrees(&other.backend)
            && self.api_key_env.agrees(&other.api_key_env)
            && self.model.agrees(&other.model)
    }

    proof fn same_as_itself(self) {
        self.backend.same_as_itself();
        self.api_key_env.same_as_itself();
        self.model.same_as_itself();
    }

    proof fn same_through(self, middle: Self, other: Self) {
        self.backend.same_through(middle.backend, other.backend);
        self.api_key_env.same_through(middle.api_key_env, other.api_key_env);
        self.model.same_through(middle.model, other.model);
    }
}

/// The `[memory]` block.
#[derive(Debug, Clone)]
pub struct MemoryConfig {
    /// Whether long-term memory is on.
    pub enabled: bool,
    /// Least seconds between two consolidation runs.
    pub dream_cycle_throttle_secs: u64,
    /// Seconds between two decay runs.
    pub decay_interval_secs: u64,
    /// The embedding backend.
    pub embedder: EmbedderConfig,
}

impl MemoryConfig {
    /// Whether every setting has its built-in value.
    pub open spec fn is_default(self) -> bool {
        &&& self.enabled
        &&& self.dream_cycle_throttle_secs == 1800
        &&& self.decay_interval_secs == 3600
        &&& self.embedder.is_default()
    }
}

impl Default for MemoryConfig {
    fn default() -> (r: Self)
        ensures
            r.is_default(),
    {
        MemoryConfig {
            enabled: true,
            dream_cycle_throttle_secs: 1800,
            decay_interval_secs: 3600,
            embedder: EmbedderConfig::default(),
        }
    }
}

impl Replica for MemoryConfig {
    open spec fn same(self, other: Self) -> bool {
        &&& self.enabled.same(other.enabled)
        &&& self.dream_cycle_throttle_secs.same(other.dream_cycle_throttle_secs)
        &&& self.decay_interval_secs.same(other.decay_interval_secs)
        &&& self.embedder.same(other.embedder)
    }

    fn replicate(&self) -> (r: Self) {
        MemoryConfig {
            enabled: self.enabled.replicate(),
            dream_cycle_throttle_secs: self.dream_cycle_throttle_secs.replicate(),
            decay_interval_secs: self.decay_interval_secs.replicate(),
            embedder: self.embedder.replicate(),
        }
    }

    fn agrees(&self, other: &Self) -> (b: bool) {
        self.enabled.agrees(&other.enabled)
            && self.dream_cycle_throttle_secs.agrees(&other.dream_cycle_throttle_secs)
            && self.decay_interval_secs.agrees(&other.decay_interval_secs)
            && self.embedder.agrees(&other.embedder)
    }

    proof fn same_as_itself(self) {
        self.enabled.same_as_itself();
        self.dream_cycle_throttle_secs.same_as_itself();
        self.decay_interval_secs.same_as_itself();
        self.embedder.same_as_itself();
    }

    proof fn same_through(self, middle: Self, other: Self) {
        self.enabled.same_through(middle.enabled, other.enabled);
        self.dream_cycle_throttle_secs.same_through(middle.dream_cycle_throttle_secs, other.dream_cycle_throttle_secs);
        self.decay_interval_secs.same_through(middle.decay_interval_secs, other.decay_interval_secs);
        self.embedder.same_through(middle.embedder, other.embedder);
    }
}

/// The provider resilience chain.
#[derive(Debug, Clone)]
pub struct ProviderChainConfig {
    /// Whether the chain is on.
    pub enabled: bool,
    /// Failures before the breaker opens.
    pub failure_threshold: u32,
    /// Seconds before an open breaker probes.
    pub recovery_timeout_secs: u64,
    /// Models to fall back to, in order.
    pub fallback_models: Vec<String>,
}

impl ProviderChainConfig {
    /// Whether every setting has its built-in value.
    pub open spec fn is_default(self) -> bool {
        &&& !self.enabled
        &&& self.failure_threshold == 3
        &&& self.recovery_timeout_secs == 30
        &&& self.fallback_models@.len() == 0
    }
}

impl Default for ProviderChainConfig {
    fn default() -> (r: Self)
        ensures
            r.is_default(),
    {
        ProviderChainConfig {
            enabled: false,
            failure_threshold: 3,
            recovery_timeout_secs: 30,
            fallback_models: Vec::new(),
        }
    }
}

impl Replica for ProviderChainConfig {
    open spec fn same(self, other: Self) -> bool {
        &&& self.enabled.same(other.enabled)
        &&& self.failure_threshold.same(other.failure_threshold)
        &&& self.recovery_timeout_secs.same(other.recovery_timeout_secs)
        &&& self.fallback_models.same(other.fallback_models)
    }

    fn replicate(&self) -> (r: Self) {
        ProviderChainConfig {
            enabled: self.enabled.replicate(),
            failure_threshold: self.failure_threshold.replicate(),
            recovery_timeout_secs: self.recovery_timeout_secs.replicate(),
            fallback_models: self.fallback_models.replicate(),
        }
    }

    fn agrees(&self, other: &Self) -> (b: bool) {
        self.enabled.agrees(&other.enabled)
            && self.failure_threshold.agrees(&other.failure_threshold)
            && self.recovery_timeout_secs.agrees(&other.recovery_timeout_secs)
            && self.fallback_models.agrees(&other.fallback_models)
    }

    proof fn same_as_itself(self) {
        self.enabled.same_as_itself();
        self.failure_threshold.same_as_itself();
        self.recovery_timeout_secs.same_as_itself();
        self.fallback_models.same_as_itself();
    }

    proof fn same_through(self, middle: Self, other: Self) {
        self.enabled.same_through(middle.enabled, other.enabled);
        self.failure_threshold.same_through(middle.failure_threshold, other.failure_threshold);
        self.recovery_timeout_secs.same_through(middle.recovery_timeout_secs, other.recovery_timeout_secs);
        self.fallback_models.same_through(middle.fallback_models, other.fallback_models);
    }
}

/// Observability switches.
#[derive(Debug, Clone)]
pub struct ObservabilityConfig {
    /// Emit trace events.
    pub structured_traces: bool,
    /// Run the learn-and-evolve loop.
    pub skills_lifecycle: bool,
    /// Evolve during real sessions.
    pub online_evolution: bool,
    /// Compute the workflow signal.
    pub workflow_detection_enabled: bool,
    /// Offer to run a detected workflow.
    pub workflow_live_mode: bool,
}

impl ObservabilityConfig {
    /// Whether every setting has its built-in value.
    pub open spec fn is_default(self) -> bool {
        &&& !self.structured_traces
        &&& self.skills_lifecycle
        &&& !self.online_evolution
        &&& !self.workflow_detection_enabled
        &&& !self.workflow_live_mode
    }
}

impl Default for ObservabilityConfig {
    fn default() -> (r: Self)
        ensures
            r.is_default(),
    {
        ObservabilityConfig {
            structured_traces: false,
            skills_lifecycle: true,
            online_evolution: false,
            workflow_detection_enabled: false,
            workflow_live_mode: false,
        }
    }
}

impl Replica for ObservabilityConfig {
    open spec fn same(self, other: Self) -> bool {
        &&& self.structured_traces.same(other.structured_traces)
        &&& self.skills_lifecycle.same(other.skills_lifecycle)
        &&& self.online_evolution.same(other.online_evolution)
        &&& self.workflow_detection_enabled.same(other.workflow_detection_enabled)
        &&& self.workflow_live_mode.same(other.workflow_live_mode)
    }

    fn replicate(&self) -> (r: Self) {
        ObservabilityConfig {
            structured_traces: self.structured_traces.replicate(),
            skills_lifecycle: self.skills_lifecycle.replicate(),
            online_evolution: self.online_evolution.replicate(),
            workflow_detection_enabled: self.workflow_detection_enabled.replicate(),
            workflow_live_mode: self.workflow_live_mode.replicate(),
        }
    }

    fn agrees(&self, other: &Self) -> (b: bool) {
        self.structured_traces.agrees(&other.structured_traces)
            && self.skills_lifecycle.agrees(&other.skills_lifecycle)
            && self.online_evolution.agrees(&other.online_evolution)
            && self.workflow_detection_enabled.agrees(&other.workflow_detection_enabled)
            && self.workflow_live_mode.agrees(&other.workflow_live_mode)
    }

    proof fn same_as_itself(self) {
        self.structured_traces.same_as_itself();
        self.skills_lifecycle.same_as_itself();
        self.online_evolution.same_as_itself();
        self.workflow_detection_enabled.same_as_itself();
        self.workflow_live_mode.same_as_itself();
    }

    proof fn same_through(self, middle: Self, other: Self) {
        self.structured_traces.same_through(middle.structured_traces, other.structured_traces);
        self.skills_lifecycle.same_through(middle.skills_lifecycle, other.skills_lifecycle);
        self.online_evolution.same_through(middle.online_evolution, other.online_evolution);
        self.workflow_detection_enabled.same_through(middle.workflow_detection_enabled, other.workflow_detection_enabled);
        self.workflow_live_mode.same_through(middle.workflow_live_mode, other.workflow_live_mode);
    }
}

/// The default tool-approval posture of a session.
#[derive(Debug, Clone, Copy, PartialEq, Eq, Structural)]
pub enum ApprovalMode {
    /// Ask before writing or running anything.
    Default,
    /// Apply edits; ask before running commands.
    AutoEdit,
    /// Never ask.
    Force,
}

impl Default for ApprovalMode {
    fn default() -> (r: Self)
        ensures
            r == ApprovalMode::Default,
    {
        ApprovalMode::Default
    }
}

impl Replica for ApprovalMode {
    open spec fn same(self, other: Self) -> bool {
        self == other
    }

    fn replicate(&self) -> (r: Self) {
        *self
    }

    fn agrees(&self, other: &Self) -> (b: bool) {
        *self == *other
    }

    proof fn same_as_itself(self) {
    }

    proof fn same_through(self, middle: Self, other: Self) {
    }
}

/// The `[default]` block.
#[derive(Debug, Clone)]
pub struct DefaultConfig {
    /// Provider name or alias.
    pub provider: String,
    /// Model.
    pub model: Option<String>,
    /// Cap on output tokens.
    pub max_tokens: u32,
    /// Cap on turns.
    pub max_turns: Option<usize>,
    /// Approval posture.
    pub approval_mode: ApprovalMode,
    /// System prompt.
    pub system_prompt: Option<String>,
    /// Display name of the user.
    pub user: Option<String>,
    /// Refuse every provider call.
    pub read_only: bool,
}

impl DefaultConfig {
    /// Whether every setting has its built-in value.
    pub open spec fn is_default(self) -> bool {
        &&& self.provider@ == "anthropic"@
        &&& self.model is None
        &&& self.max_tokens == 64000
        &&& self.max_turns is None
        &&& self.approval_mode == ApprovalMode::Default
        &&& self.system_prompt is None
        &&& self.user is None
        &&& !self.read_only
    }
}

impl Default for DefaultConfig {
    fn default() -> (r: Self)
        ensures
            r.is_default(),
    {
        DefaultConfig {
            provider: "anthropic".to_owned(),
            model: None,
            max_tokens: 64000,
            max_turns: None,
            approval_mode: ApprovalMode::Default,
            system_prompt: None,
            user: None,
            read_only: false,
        }
    }
}

impl Replica for DefaultConfig {
    open spec fn same(self, other: Self) -> bool {
        &&& self.provider.same(other.provider)
        &&& self.model.same(other.model)
        &&& self.max_tokens.same(other.max_tokens)
        &&& self.max_turns.same(other.max_turns)
        &&& self.approval_mode.same(other.approval_mode)
        &&& self.system_prompt.same(other.system_prompt)
        &&& self.user.same(other.user)
        &&& self.read_only.same(other.read_only)
    }

    fn replicate(&self) -> (r: Self) {
        DefaultConfig {
            provider: self.provider.replicate(),
            model: self.model.replicate(),
            max_tokens: self.max_tokens.replicate(),
            max_turns: self.max_turns.replicate(),
            approval_mode: self.approval_mode.replicate(),
            system_prompt: self.system_prompt.replicate(),
            user: self.user.replicate(),
            read_only: self.read_only.replicate(),
        }
    }

    fn agrees(&self, other: &Self) -> (b: bool) {
        self.provider.agrees(&other.provider)
            && self.model.agrees(&other.model)
            && self.max_tokens.agrees(&other.max_tokens)
            && self.max_turns.agrees(&other.max_turns)
            && self.approval_mode.agrees(&other.approval_mode)
            && self.system_prompt.agrees(&other.system_prompt)
            && self.user.agrees(&other.user)
            && self.read_only.agrees(&other.read_only)
    }

    proof fn same_as_itself(self) {
        self.provider.same_as_itself();
        self.model.same_as_itself();
        self.max_tokens.same_as_itself();
        self.max_turns.same_as_itself();
        self.approval_mode.same_as_itself();
        self.system_prompt.same_as_itself();
        self.user.same_as_itself();
        self.read_only.same_as_itself();
    }

    proof fn same_through(self, middle: Self, other: Self) {
        self.provider.same_through(middle.provider, other.provider);
        self.model.same_through(middle.model, other.model);
        self.max_tokens.same_through(middle.max_tokens, other.max_tokens);
        self.max_turns.same_through(middle.max_turns, other.max_turns);
        self.approval_mode.same_through(middle.approval_mode, other.approval_mode);
        self.system_prompt.same_through(middle.system_prompt, other.system_prompt);
        self.user.same_through(middle.user, other.user);
        self.read_only.same_through(middle.read_only, other.read_only);
    }
}

/// The breakpoint floor of prompt caching when none is configured.
pub const DEFAULT_CACHE_MIN_PREFIX_TOKENS: usize = 1024;

/// The table form of the prompt-caching preference.
#[derive(Debug, Clone)]
pub struct PromptCachingDetail {
    /// Whether caching is on; absent for the provider default.
    pub enabled: Option<bool>,
    /// Smallest prompt prefix that is cached.
    pub min_prefix_tokens: Option<usize>,
}

impl PromptCachingDetail {
    /// Whether every setting has its built-in value.
    pub open spec fn is_default(self) -> bool {
        &&& self.enabled is None
        &&& self.min_prefix_tokens is None
    }
}

impl Default for PromptCachingDetail {
    fn default() -> (r: Self)
        ensures
            r.is_default(),
    {
        PromptCachingDetail {
            enabled: None,
            min_prefix_tokens: None,
        }
    }
}

impl Replica for PromptCachingDetail {
    open spec fn same(self, other: Self) -> bool {
        &&& self.enabled.same(other.enabled)
        &&& self.min_prefix_tokens.same(other.min_prefix_tokens)
    }

    fn replicate(&self) -> (r: Self) {
        PromptCachingDetail {
            enabled: self.enabled.replicate(),
            min_prefix_tokens: self.min_prefix_tokens.replicate(),
        }
    }

    fn agrees(&self, other: &Self) -> (b: bool) {
        self.enabled.agrees(&other.enabled)
            && self.min_prefix_tokens.agrees(&other.min_prefix_tokens)
    }

    proof fn same_as_itself(self) {
        self.enabled.same_as_itself();
        self.min_prefix_tokens.same_as_itself();
    }

    proof fn same_through(self, middle: Self, other: Self) {
        self.enabled.same_through(middle.enabled, other.enabled);
        self.min_prefix_tokens.same_through(middle.min_prefix_tokens, other.min_prefix_tokens);
    }
}

/// Prompt-caching preference of a provider.
#[derive(Debug, Clone)]
pub enum PromptCachingConfig {
    /// The plain switch.
    Enabled(bool),
    /// The table form.
    Detailed(PromptCachingDetail),
}

impl Replica for PromptCachingConfig {
    open spec fn same(self, other: Self) -> bool {
        match (self, other) {
            (PromptCachingConfig::Enabled(a), PromptCachingConfig::Enabled(b)) => a == b,
            (PromptCachingConfig::Detailed(a), PromptCachingConfig::Detailed(b)) => a.same(b),
            _ => false,
        }
    }

    fn replicate(&self) -> (r: Self) {
        match self {
            PromptCachingConfig::Enabled(b) => PromptCachingConfig::Enabled(*b),
            PromptCachingConfig::Detailed(d) => PromptCachingConfig::Detailed(d.replicate()),
        }
    }

    fn agrees(&self, other: &Self) -> (b: bool) {
        match (self, other) {
            (PromptCachingConfig::Enabled(a), PromptCachingConfig::Enabled(b)) => *a == *b,
            (PromptCachingConfig::Detailed(a), PromptCachingConfig::Detailed(b)) => a.agrees(b),
            _ => false,
        }
    }

    proof fn same_as_itself(self) {
    }

    proof fn same_through(self, middle: Self, other: Self) {
    }
}

impl PromptCachingConfig {
    /// The configured switch, if any.
    pub open spec fn switch(self) -> Option<bool> {
        match self {
            PromptCachingConfig::Enabled(b) => Some(b),
            PromptCachingConfig::Detailed(d) => d.enabled,
        }
    }

    /// The configured floor, if any.
    pub open spec fn floor(self) -> Option<usize> {
        match self {
            PromptCachingConfig::Enabled(_) => None,
            PromptCachingConfig::Detailed(d) => d.min_prefix_tokens,
        }
    }

    /// The configured switch; `None` defers to the provider default.
    pub fn enabled(&self) -> (r: Option<bool>)
        ensures
            r == self.switch(),
    {
        match self {
            PromptCachingConfig::Enabled(b) => Some(*b),
            PromptCachingConfig::Detailed(d) => d.enabled,
        }
    }

    /// The configured breakpoint floor; `None` defers to
    /// [`DEFAULT_CACHE_MIN_PREFIX_TOKENS`].
    pub fn min_prefix_tokens(&self) -> (r: Option<usize>)
        ensures
            r == self.floor(),
    {
        match self {
            PromptCachingConfig::Enabled(_) => None,
            PromptCachingConfig::Detailed(d) => d.min_prefix_tokens,
        }
    }
}

/// One entry of `[providers]`.
#[derive(Debug, Clone)]
pub struct ProviderConfig {
    /// Built-in provider behind an alias.
    pub provider: Option<String>,
    /// Model of this entry.
    pub model: Option<String>,
    /// API key.
    pub api_key: Option<String>,
    /// Base URL.
    pub base_url: Option<String>,
    /// Prompt-caching preference.
    pub prompt_caching: Option<PromptCachingConfig>,
    /// Compatibility overrides.
    pub compat: Option<ProviderCompat>,
}

impl ProviderConfig {
    /// Whether every setting has its built-in value.
    pub open spec fn is_default(self) -> bool {
        &&& self.provider is None
        &&& self.model is None
        &&& self.api_key is None
        &&& self.base_url is None
        &&& self.prompt_caching is None
        &&& self.compat is None
    }
}

impl Default for ProviderConfig {
    fn default() -> (r: Self)
        ensures
            r.is_default(),
    {
        ProviderConfig {
            provider: None,
            model: None,
            api_key: None,
            base_url: None,
            prompt_caching: None,
            compat: None,
        }
    }
}

impl Replica for ProviderConfig {
    open spec fn same(self, other: Self) -> bool {
        &&& self.provider.same(other.provider)
        &&& self.model.same(other.model)
        &&& self.api_key.same(other.api_key)
        &&& self.base_url.same(other.base_url)
        &&& self.prompt_caching.same(other.prompt_caching)
        &&& self.compat.same(other.compat)
    }

    fn replicate(&self) -> (r: Self) {
        ProviderConfig {
            provider: self.provider.replicate(),
            model: self.model.replicate(),
            api_key: self.api_key.replicate(),
            base_url: self.base_url.replicate(),
            prompt_caching: self.prompt_caching.replicate(),
            compat: self.compat.replicate(),
        }
    }

    fn agrees(&self, other: &Self) -> (b: bool) {
        self.provider.agrees(&other.provider)
            && self.model.agrees(&other.model)
            && self.api_key.agrees(&other.api_key)
            && self.base_url.agrees(&other.base_url)
            && self.prompt_caching.agrees(&other.prompt_caching)
            && self.compat.agrees(&other.compat)
    }

    proof fn same_as_itself(self) {
        self.provider.same_as_itself();
        self.model.same_as_itself();
        self.api_key.same_as_itself();
        self.base_url.same_as_itself();
        self.prompt_caching.same_as_itself();
        self.compat.same_as_itself();
    }

    proof fn same_through(self, middle: Self, other: Self) {
        self.provider.same_through(middle.provider, other.provider);
        self.model.same_through(middle.model, other.model);
        self.api_key.same_through(middle.api_key, other.api_key);
        self.base_url.same_through(middle.base_url, other.base_url);
        self.prompt_caching.same_through(middle.prompt_caching, other.prompt_caching);
        self.compat.same_through(middle.compat, other.compat);
    }
}

/// A named bundle of settings.
#[derive(Debug, Clone)]
pub struct ProfileConfig {
    /// Provider.
    pub provider: Option<String>,
    /// Model.
    pub model: Option<String>,
    /// API key.
    pub api_key: Option<String>,
    /// Base URL.
    pub base_url: Option<String>,
    /// Cap on output tokens.
    pub max_tokens: Option<u32>,
    /// Cap on turns.
    pub max_turns: Option<usize>,
    /// Profile to inherit from.
    pub extends: Option<String>,
    /// MCP servers to keep.
    pub mcp_servers: Option<Vec<String>>,
    /// Compatibility overrides.
    pub compat: Option<ProviderCompat>,
}

impl ProfileConfig {
    /// Whether every setting has its built-in value.
    pub open spec fn is_default(self) -> bool {
        &&& self.provider is None
        &&& self.model is None
        &&& self.api_key is None
        &&& self.base_url is None
        &&& self.max_tokens is None
        &&& self.max_turns is None
        &&& self.extends is None
        &&& self.mcp_servers is None
        &&& self.compat is None
    }
}

impl Default for ProfileConfig {
    fn default() -> (r: Self)
        ensures
            r.is_default(),
    {
        ProfileConfig {
            provider: None,
            model: None,
            api_key: None,
            base_url: None,
            max_tokens: None,
            max_turns: None,
            extends: None,
            mcp_servers: None,
            compat: None,
        }
    }
}

impl Replica for ProfileConfig {
    open spec fn same(self, other: Self) -> bool {
        &&& self.provider.same(other.provider)
        &&& self.model.same(other.model)
        &&& self.api_key.same(other.api_key)
        &&& self.base_url.same(other.base_url)
        &&& self.max_tokens.same(other.max_tokens)
        &&& self.max_turns.same(other.max_turns)
        &&& self.extends.same(other.extends)
        &&& self.mcp_servers.same(other.mcp_servers)
        &&& self.compat.same(other.compat)
    }

    fn replicate(&self) -> (r: Self) {
        ProfileConfig {
            provider: self.provider.replicate(),
            model: self.model.replicate(),
            api_key: self.api_key.replicate(),
            base_url: self.base_url.replicate(),
            max_tokens: self.max_tokens.replicate(),
            max_turns: self.max_turns.replicate(),
            extends: self.extends.replicate(),
            mcp_servers: self.mcp_servers.replicate(),
            compat: self.compat.replicate(),
        }
    }

    fn agrees(&self, other: &Self) -> (b: bool) {
        self.provider.agrees(&other.provider)
            && self.model.agrees(&other.model)
            && self.api_key.agrees(&other.api_key)
            && self.base_url.agrees(&other.base_url)
            && self.max_tokens.agrees(&other.max_tokens)
            && self.max_turns.agrees(&other.max_turns)
            && self.extends.agrees(&other.extends)
            && self.mcp_servers.agrees(&other.mcp_servers)
            && self.compat.agrees(&other.compat)
    }

    proof fn same_as_itself(self) {
        self.provider.same_as_itself();
        self.model.same_as_itself();
        self.api_key.same_as_itself();
        self.base_url.same_as_itself();
        self.max_tokens.same_as_itself();
        self.max_turns.same_as_itself();
        self.extends.same_as_itself();
        self.mcp_servers.same_as_itself();
        self.compat.same_as_itself();
    }

    proof fn same_through(self, middle: Self, other: Self) {
        self.provider.same_through(middle.provider, other.provider);
        self.model.same_through(middle.model, other.model);
        self.api_key.same_through(middle.api_key, other.api_key);
        self.base_url.same_through(middle.base_url, other.base_url);
        self.max_tokens.same_through(middle.max_tokens, other.max_tokens);
        self.max_turns.same_through(middle.max_turns, other.max_turns);
        self.extends.same_through(middle.extends, other.extends);
        self.mcp_servers.same_through(middle.mcp_servers, other.mcp_servers);
        self.compat.same_through(middle.compat, other.compat);
    }
}

/// Deny and allow rules for skills.
#[derive(Debug, Clone)]
pub struct SkillsPermissionConfig {
    /// Denied skills.
    pub deny: Vec<String>,
    /// Allowed skills.
    pub allow: Vec<String>,
}

impl SkillsPermissionConfig {
    /// Whether every setting has its built-in value.
    pub open spec fn is_default(self) -> bool {
        &&& self.deny@.len() == 0
        &&& self.allow@.len() == 0
    }
}

impl Default for SkillsPermissionConfig {
    fn default() -> (r: Self)
        ensures
            r.is_default(),
    {
        SkillsPermissionConfig {
            deny: Vec::new(),
            allow: Vec::new(),
        }
    }
}

impl Replica for SkillsPermissionConfig {
    open spec fn same(self, other: Self) -> bool {
        &&& self.deny.same(other.deny)
        &&& self.allow.same(other.allow)
    }

    fn replicate(&self) -> (r: Self) {
        SkillsPermissionConfig {
            deny: self.deny.replicate(),
            allow: self.allow.replicate(),
        }
    }

    fn agrees(&self, other: &Self) -> (b: bool) {
        self.deny.agrees(&other.deny)
            && self.allow.agrees(&other.allow)
    }

    proof fn same_as_itself(self) {
        self.deny.same_as_itself();
        self.allow.same_as_itself();
    }

    proof fn same_through(self, middle: Self, other: Self) {
        self.deny.same_through(middle.deny, other.deny);
        self.allow.same_through(middle.allow, other.allow);
    }
}

/// The tools that skip the approval gate unless configured otherwise.
pub open spec fn stock_allow_list() -> Seq<Seq<char>> {
    seq!["Read"@, "Grep"@, "Glob"@, "web"@, "WebFetch"@, "vision_analyze"@, "transcribe_audio"@, "ToolSearch"@, "Skill"@, "genesis_status"@, "genesis_telemetry_query"@]
}

/// The tools that skip the approval gate unless configured otherwise: those that
/// only gather information.
pub fn default_allow_list() -> (r: Vec<String>)
    ensures
        texts_are(r@, stock_allow_list()),
{
    vec!["Read".to_owned(), "Grep".to_owned(), "Glob".to_owned(), "web".to_owned(), "WebFetch".to_owned(), "vision_analyze".to_owned(), "transcribe_audio".to_owned(), "ToolSearch".to_owned(), "Skill".to_owned(), "genesis_status".to_owned(), "genesis_telemetry_query".to_owned()]
}

/// The `[tools]` block.
#[derive(Debug, Clone)]
pub struct ToolsConfig {
    /// Approve every tool call.
    pub auto_approve: bool,
    /// Tools that skip the approval gate.
    pub allow_list: Vec<String>,
    /// Skill rules.
    pub skills: SkillsPermissionConfig,
    /// Re-read files after writes.
    pub verify_edits: bool,
    /// Shell of the Bash tool on Windows.
    pub windows_shell: Option<String>,
    /// Environment variables passed to sandboxed tools.
    pub env_passthrough: Vec<String>,
    /// Sandbox backend.
    pub sandbox: Option<String>,
    /// Consent to run without isolation.
    pub allow_no_sandbox: Option<bool>,
}

impl ToolsConfig {
    /// Whether every setting has its built-in value.
    pub open spec fn is_default(self) -> bool {
        &&& !self.auto_approve
        &&& texts_are(self.allow_list@, stock_allow_list())
        &&& self.skills.is_default()
        &&& !self.verify_edits
        &&& self.windows_shell is None
        &&& self.env_passthrough@.len() == 0
        &&& self.sandbox is None
        &&& self.allow_no_sandbox is None
    }
}

impl Default for ToolsConfig {
    fn default() -> (r: Self)
        ensures
            r.is_default(),
    {
        ToolsConfig {
            auto_approve: false,
            allow_list: default_allow_list(),
            skills: SkillsPermissionConfig::default(),
            verify_edits: false,
            windows_shell: None,
            env_passthrough: Vec::new(),
            sandbox: None,
            allow_no_sandbox: None,
        }
    }
}

impl Replica for ToolsConfig {
    open spec fn same(self, other: Self) -> bool {
        &&& self.auto_approve.same(other.auto_approve)
        &&& self.allow_list.same(other.allow_list)
        &&& self.skills.same(other.skills)
        &&& self.verify_edits.same(other.verify_edits)
        &&& self.windows_shell.same(other.windows_shell)
        &&& self.env_passthrough.same(other.env_passthrough)
        &&& self.sandbox.same(other.sandbox)
        &&& self.allow_no_sandbox.same(other.allow_no_sandbox)
    }

    fn replicate(&self) -> (r: Self) {
        ToolsConfig {
            auto_approve: self.auto_approve.replicate(),
            allow_list: self.allow_list.replicate(),
            skills: self.skills.replicate(),
            verify_edits: self.verify_edits.replicate(),
            windows_shell: self.windows_shell.replicate(),
            env_passthrough: self.env_passthrough.replicate(),
            sandbox: self.sandbox.replicate(),
            allow_no_sandbox: self.allow_no_sandbox.replicate(),
        }
    }

    fn agrees(&self, other: &Self) -> (b: bool) {
        self.auto_approve.agrees(&other.auto_approve)
            && self.allow_list.agrees(&other.allow_list)
            && self.skills.agrees(&other.skills)
            && self.verify_edits.agrees(&other.verify_edits)
            && self.windows_shell.agrees(&other.windows_shell)
            && self.env_passthrough.agrees(&other.env_passthrough)
            && self.sandbox.agrees(&other.sandbox)
            && self.allow_no_sandbox.agrees(&other.allow_no_sandbox)
    }

    proof fn same_as_itself(self) {
        self.auto_approve.same_as_itself();
        self.allow_list.same_as_itself();
        self.skills.same_as_itself();
        self.verify_edits.same_as_itself();
        self.windows_shell.same_as_itself();
        self.env_passthrough.same_as_itself();
        self.sandbox.same_as_itself();
        self.allow_no_sandbox.same_as_itself();
    }

    proof fn same_through(self, middle: Self, other: Self) {
        self.auto_approve.same_through(middle.auto_approve, other.auto_approve);
        self.allow_list.same_through(middle.allow_list, other.allow_list);
        self.skills.same_through(middle.skills, other.skills);
        self.verify_edits.same_through(middle.verify_edits, other.verify_edits);
        self.windows_shell.same_through(middle.windows_shell, other.windows_shell);
        self.env_passthrough.same_through(middle.env_passthrough, other.env_passthrough);
        self.sandbox.same_through(middle.sandbox, other.sandbox);
        self.allow_no_sandbox.same_through(middle.allow_no_sandbox, other.allow_no_sandbox);
    }
}

/// The `[session]` block.
#[derive(Debug, Clone)]
pub struct SessionConfig {
    /// Whether sessions are kept.
    pub enabled: bool,
    /// Directory of the sessions.
    pub directory: String,
    /// Sessions kept before the oldest are removed.
    pub max_sessions: usize,
}

impl SessionConfig {
    /// Whether every setting has its built-in value.
    pub open spec fn is_default(self) -> bool {
        &&& self.enabled
        &&& self.directory@ == "genesis-core/genesis-core/sessions"@
        &&& self.max_sessions == 20
    }
}

impl Default for SessionConfig {
    fn default() -> (r: Self)
        ensures
            r.is_default(),
    {
        SessionConfig {
            enabled: true,
            directory: "genesis-core/genesis-core/sessions".to_owned(),
            max_sessions: 20,
        }
    }
}

impl Replica for SessionConfig {
    open spec fn same(self, other: Self) -> bool {
        &&& self.enabled.same(other.enabled)
        &&& self.directory.same(other.directory)
        &&& self.max_sessions.same(other.max_sessions)
    }

    fn replicate(&self) -> (r: Self) {
        SessionConfig {
            enabled: self.enabled.replicate(),
            directory: self.directory.replicate(),
            max_sessions: self.max_sessions.replicate(),
        }
    }

    fn agrees(&self, other: &Self) -> (b: bool) {
        self.enabled.agrees(&other.enabled)
            && self.directory.agrees(&other.directory)
            && self.max_sessions.agrees(&other.max_sessions)
    }

    proof fn same_as_itself(self) {
        self.enabled.same_as_itself();
        self.directory.same_as_itself();
        self.max_sessions.same_as_itself();
    }

    proof fn same_through(self, middle: Self, other: Self) {
        self.enabled.same_through(middle.enabled, other.enabled);
        self.directory.same_through(middle.directory, other.directory);
        self.max_sessions.same_through(middle.max_sessions, other.max_sessions);
    }
}

/// The inbound webhook host. Off by default.
#[derive(Debug, Clone)]
pub struct InboundWebhookConfig {
    /// Whether the listener is bound.
    pub enabled: bool,
    /// Address to bind.
    pub bind: String,
    /// Public URL that the platform calls.
    pub public_base_url: Option<String>,
}

impl InboundWebhookConfig {
    /// Whether every setting has its built-in value.
    pub open spec fn is_default(self) -> bool {
        &&& !self.enabled
        &&& self.bind@ == "127.0.0.1:8787"@
        &&& self.public_base_url is None
    }
}

impl Default for InboundWebhookConfig {
    fn default() -> (r: Self)
        ensures
            r.is_default(),
    {
        InboundWebhookConfig {
            enabled: false,
            bind: "127.0.0.1:8787".to_owned(),
            public_base_url: None,
        }
    }
}

impl Replica for InboundWebhookConfig {
    open spec fn same(self, other: Self) -> bool {
        &&& self.enabled.same(other.enabled)
        &&& self.bind.same(other.bind)
        &&& self.public_base_url.same(other.public_base_url)
    }

    fn replicate(&self) -> (r: Self) {
        InboundWebhookConfig {
            enabled: self.enabled.replicate(),
            bind: self.bind.replicate(),
            public_base_url: self.public_base_url.replicate(),
        }
    }

    fn agrees(&self, other: &Self) -> (b: bool) {
        self.enabled.agrees(&other.enabled)
            && self.bind.agrees(&other.bind)
            && self.public_base_url.agrees(&other.public_base_url)
    }

    proof fn same_as_itself(self) {
        self.enabled.same_as_itself();
        self.bind.same_as_itself();
        self.public_base_url.same_as_itself();
    }

    proof fn same_through(self, middle: Self, other: Self) {
        self.enabled.same_through(middle.enabled, other.enabled);
        self.bind.same_through(middle.bind, other.bind);
        self.public_base_url.same_through(middle.public_base_url, other.public_base_url);
    }
}

/// Settings that another part of the engine understands. They are carried through as the text
/// that stands for them, which is also what diagnostics show.
#[derive(Debug, Clone)]
pub struct CarriedSettings {
    /// The text; empty for the built-in settings.
    pub text: String,
}

impl CarriedSettings {
    /// Whether the settings are the built-in ones.
    pub open spec fn is_default(self) -> bool {
        self.text@.len() == 0
    }
}

impl Default for CarriedSettings {
    fn default() -> (r: Self)
        ensures
            r.is_default(),
    {
        proof {
            reveal_strlit("");
        }
        CarriedSettings { text: "".to_owned() }
    }
}

impl Replica for CarriedSettings {
    open spec fn same(self, other: Self) -> bool {
        self.text.same(other.text)
    }

    fn replicate(&self) -> (r: Self) {
        CarriedSettings { text: self.text.replicate() }
    }

    fn agrees(&self, other: &Self) -> (b: bool) {
        self.text.agrees(&other.text)
    }

    proof fn same_as_itself(self) {
    }

    proof fn same_through(self, middle: Self, other: Self) {
    }
}

/// A configuration file.
#[derive(Clone)]
pub struct ConfigFile {
    /// `[default]`.
    pub default: DefaultConfig,
    /// `[security]`.
    pub security: SecurityConfig,
    /// `[providers]`.
    pub providers: StrMap<ProviderConfig>,
    /// `[profiles]`.
    pub profiles: StrMap<ProfileConfig>,
    /// `[tools]`.
    pub tools: ToolsConfig,
    /// `[session]`.
    pub session: SessionConfig,
    /// `[inbound_webhook]`.
    pub inbound_webhook: InboundWebhookConfig,
    /// `[compact]`.
    pub compact: CompactConfig,
    /// `[plan]`.
    pub plan: PlanConfig,
    /// `[file_cache]`.
    pub file_cache: FileCacheConfig,
    /// `[hooks]`.
    pub hooks: HooksConfig,
    /// `[bedrock]`.
    pub bedrock: Option<BedrockConfig>,
    /// `[vertex]`.
    pub vertex: Option<VertexConfig>,
    /// `[mcp]`.
    pub mcp: McpConfig,
    /// `[debug]`.
    pub debug: CarriedSettings,
    /// `[observability]`.
    pub observability: ObservabilityConfig,
    /// `[provider_chain]`.
    pub provider_chain: ProviderChainConfig,
    /// `[budget]`.
    pub budget: BudgetConfig,
    /// `[storage]`.
    pub storage: StorageConfig,
    /// `[memory]`; absent when the file has no such table.
    pub memory: Option<MemoryConfig>,
    /// `[browser]`.
    pub browser: BrowserConfig,
    /// `[session_cap]`.
    pub session_cap: Option<BudgetConfig>,
    /// `[crucible]`.
    pub crucible: CrucibleConfig,
}

impl ConfigFile {
    /// Whether every setting has its built-in value.
    pub open spec fn is_default(self) -> bool {
        &&& self.default.is_default()
        &&& self.security.is_default()
        &&& self.providers@ == Map::<Seq<char>, ProviderConfig>::empty()
        &&& self.profiles@ == Map::<Seq<char>, ProfileConfig>::empty()
        &&& self.tools.is_default()
        &&& self.session.is_default()
        &&& self.inbound_webhook.is_default()
        &&& self.compact.is_default()
        &&& self.plan.is_default()
        &&& self.file_cache.is_default()
        &&& self.hooks.is_default()
        &&& self.bedrock is None
        &&& self.vertex is None
        &&& self.mcp.is_default()
        &&& self.debug.is_default()
        &&& self.observability.is_default()
        &&& self.provider_chain.is_default()
        &&& self.budget.is_default()
        &&& self.storage.is_default()
        &&& self.memory is None
        &&& self.browser.is_default()
        &&& self.session_cap is None
        &&& self.crucible.is_default()
    }
}

impl Default for ConfigFile {
    fn default() -> (r: Self)
        ensures
            r.is_default(),
    {
        ConfigFile {
            default: DefaultConfig::default(),
            security: SecurityConfig::default(),
            providers: StrMap::new(),
            profiles: StrMap::new(),
            tools: ToolsConfig::default(),
            session: SessionConfig::default(),
            inbound_webhook: InboundWebhookConfig::default(),
            compact: CompactConfig::default(),
            plan: PlanConfig::default(),
            file_cache: FileCacheConfig::default(),
            hooks: HooksConfig::default(),
            bedrock: None,
            vertex: None,
            mcp: McpConfig::default(),
            debug: CarriedSettings::default(),
            observability: ObservabilityConfig::default(),
            provider_chain: ProviderChainConfig::default(),
            budget: BudgetConfig::default(),
            storage: StorageConfig::default(),
            memory: None,
            browser: BrowserConfig::default(),
            session_cap: None,
            crucible: CrucibleConfig::default(),
        }
    }
}

impl Replica for ConfigFile {
    open spec fn same(self, other: Self) -> bool {
        &&& self.default.same(other.default)
        &&& self.security.same(other.security)
        &&& self.providers.same(other.providers)
        &&& self.profiles.same(other.profiles)
        &&& self.tools.same(other.tools)
        &&& self.session.same(other.session)
        &&& self.inbound_webhook.same(other.inbound_webhook)
        &&& self.compact.same(other.compact)
        &&& self.plan.same(other.plan)
        &&& self.file_cache.same(other.file_cache)
        &&& self.hooks.same(other.hooks)
        &&& self.bedrock.same(other.bedrock)
        &&& self.vertex.same(other.vertex)
        &&& self.mcp.same(other.mcp)
        &&& self.debug.same(other.debug)
        &&& self.observability.same(other.observability)
        &&& self.provider_chain.same(other.provider_chain)
        &&& self.budget.same(other.budget)
        &&& self.storage.same(other.storage)
        &&& self.memory.same(other.memory)
        &&& self.browser.same(other.browser)
        &&& self.session_cap.same(other.session_cap)
        &&& self.crucible.same(other.crucible)
    }

    fn replicate(&self) -> (r: Self) {
        ConfigFile {
            default: self.default.replicate(),
            security: self.security.replicate(),
            providers: self.providers.replicate(),
            profiles: self.profiles.replicate(),
            tools: self.tools.replicate(),
            session: self.session.replicate(),
            inbound_webhook: self.inbound_webhook.replicate(),
            compact: self.compact.replicate(),
            plan: self.plan.replicate(),
            file_cache: self.file_cache.replicate(),
            hooks: self.hooks.replicate(),
            bedrock: self.bedrock.replicate(),
            vertex: self.vertex.replicate(),
            mcp: self.mcp.replicate(),
            debug: self.debug.replicate(),
            observability: self.observability.replicate(),
            provider_chain: self.provider_chain.replicate(),
            budget: self.budget.replicate(),
            storage: self.storage.replicate(),
            memory: self.memory.replicate(),
            browser: self.browser.replicate(),
            session_cap: self.session_cap.replicate(),
            crucible: self.crucible.replicate(),
        }
    }

    fn agrees(&self, other: &Self) -> (b: bool) {
        self.default.agrees(&other.default)
            && self.security.agrees(&other.security)
            && self.providers.agrees(&other.providers)
            && self.profiles.agrees(&other.profiles)
            && self.tools.agrees(&other.tools)
            && self.session.agrees(&other.session)
            && self.inbound_webhook.agrees(&other.inbound_webhook)
            && self.compact.agrees(&other.compact)
            && self.plan.agrees(&other.plan)
            && self.file_cache.agrees(&other.file_cache)
            && self.hooks.agrees(&other.hooks)
            && self.bedrock.agrees(&other.bedrock)
            && self.vertex.agrees(&other.vertex)
            && self.mcp.agrees(&other.mcp)
            && self.debug.agrees(&other.debug)
            && self.observability.agrees(&other.observability)
            && self.provider_chain.agrees(&other.provider_chain)
            && self.budget.agrees(&other.budget)
            && self.storage.agrees(&other.storage)
            && self.memory.agrees(&other.memory)
            && self.browser.agrees(&other.browser)
            && self.session_cap.agrees(&other.session_cap)
            && self.crucible.agrees(&other.crucible)
    }

    proof fn same_as_itself(self) {
        self.default.same_as_itself();
        self.security.same_as_itself();
        self.providers.same_as_itself();
        self.profiles.same_as_itself();
        self.tools.same_as_itself();
        self.session.same_as_itself();
        self.inbound_webhook.same_as_itself();
        self.compact.same_as_itself();
        self.plan.same_as_itself();
        self.file_cache.same_as_itself();
        self.hooks.same_as_itself();
        self.bedrock.same_as_itself();
        self.vertex.same_as_itself();
        self.mcp.same_as_itself();
        self.debug.same_as_itself();
        self.observability.same_as_itself();
        self.provider_chain.same_as_itself();
        self.budget.same_as_itself();
        self.storage.same_as_itself();
        self.memory.same_as_itself();
        self.browser.same_as_itself();
        self.session_cap.same_as_itself();
        self.crucible.same_as_itself();
    }

    proof fn same_through(self, middle: Self, other: Self) {
        self.default.same_through(middle.default, other.default);
        self.security.same_through(middle.security, other.security);
        self.providers.same_through(middle.providers, other.providers);
        self.profiles.same_through(middle.profiles, other.profiles);
        self.tools.same_through(middle.tools, other.tools);
        self.session.same_through(middle.session, other.session);
        self.inbound_webhook.same_through(middle.inbound_webhook, other.inbound_webhook);
        self.compact.same_through(middle.compact, other.compact);
        self.plan.same_through(middle.plan, other.plan);
        self.file_cache.same_through(middle.file_cache, other.file_cache);
        self.hooks.same_through(middle.hooks, other.hooks);
        self.bedrock.same_through(middle.bedrock, other.bedrock);
        self.vertex.same_through(middle.vertex, other.vertex);
        self.mcp.same_through(middle.mcp, other.mcp);
        self.debug.same_through(middle.debug, other.debug);
        self.observability.same_through(middle.observability, other.observability);
        self.provider_chain.same_through(middle.provider_chain, other.provider_chain);
        self.budget.same_through(middle.budget, other.budget);
        self.storage.same_through(middle.storage, other.storage);
        self.memory.same_through(middle.memory, other.memory);
        self.browser.same_through(middle.browser, other.browser);
        self.session_cap.same_through(middle.session_cap, other.session_cap);
        self.crucible.same_through(middle.crucible, other.crucible);
    }
}

/// The resolved runtime configuration. There is no derived `Debug`: see `debug_text`.
#[derive(Clone)]
pub struct Config {
    /// The name that the provider was asked for by.
    pub provider_label: String,
    /// The provider.
    pub provider: ProviderType,
    /// The live API key.
    pub api_key: String,
    /// The base URL.
    pub base_url: String,
    /// Egress policy.
    pub security: SecurityConfig,
    /// The model.
    pub model: String,
    /// Cap on output tokens.
    pub max_tokens: u32,
    /// Whether the cap was set rather than defaulted.
    pub max_tokens_explicit: bool,
    /// Sampling temperature.
    pub temperature: Option<FloatBits>,
    /// Cap on turns.
    pub max_turns: Option<usize>,
    /// Approval posture.
    pub approval_mode: ApprovalMode,
    /// System prompt.
    pub system_prompt: Option<String>,
    /// Extended thinking.
    pub thinking: Option<CarriedSettings>,
    /// Whether prompt caching is on.
    pub prompt_caching: bool,
    /// Smallest prompt prefix that is cached.
    pub prompt_caching_min_prefix_tokens: usize,
    /// Compatibility settings.
    pub compat: ProviderCompat,
    /// Tool settings.
    pub tools: ToolsConfig,
    /// Built-in tools.
    pub builtin_tools: CarriedSettings,
    /// Capabilities that are advertised.
    pub advertised_capabilities: CarriedSettings,
    /// Session settings.
    pub session: SessionConfig,
    /// Webhook host.
    pub inbound_webhook: InboundWebhookConfig,
    /// Compaction settings.
    pub compact: CompactConfig,
    /// Plan Mode settings.
    pub plan: PlanConfig,
    /// File cache settings.
    pub file_cache: FileCacheConfig,
    /// Hooks.
    pub hooks: HooksConfig,
    /// Bedrock credentials.
    pub bedrock: Option<BedrockConfig>,
    /// Vertex authentication.
    pub vertex: Option<VertexConfig>,
    /// MCP servers.
    pub mcp: McpConfig,
    /// Debugging settings.
    pub debug: CarriedSettings,
    /// Observability switches.
    pub observability: ObservabilityConfig,
    /// Resilience chain.
    pub provider_chain: ProviderChainConfig,
    /// Budget caps.
    pub budget: BudgetConfig,
    /// Credential storage.
    pub storage: StorageConfig,
    /// Memory settings.
    pub memory: MemoryConfig,
    /// Browser policy.
    pub browser: BrowserConfig,
    /// Per-session caps.
    pub session_cap: Option<BudgetConfig>,
    /// Council settings.
    pub crucible: CrucibleConfig,
}

impl Config {
    /// Whether every setting has its built-in value.
    pub open spec fn is_default(self) -> bool {
        &&& self.provider_label@ == "anthropic"@
        &&& self.provider == ProviderType::Anthropic
        &&& self.api_key@ == ""@
        &&& self.base_url@ == ""@
        &&& self.security.is_default()
        &&& self.model@ == ""@
        &&& self.max_tokens == 64000
        &&& !self.max_tokens_explicit
        &&& self.temperature is None
        &&& self.max_turns is None
        &&& self.approval_mode == ApprovalMode::Default
        &&& self.system_prompt is None
        &&& self.thinking is None
        &&& !self.prompt_caching
        &&& self.prompt_caching_min_prefix_tokens == DEFAULT_CACHE_MIN_PREFIX_TOKENS
        &&& self.compat.is_default()
        &&& self.tools.is_default()
        &&& self.builtin_tools.is_default()
        &&& self.advertised_capabilities.is_default()
        &&& self.session.is_default()
        &&& self.inbound_webhook.is_default()
        &&& self.compact.is_default()
        &&& self.plan.is_default()
        &&& self.file_cache.is_default()
        &&& self.hooks.is_default()
        &&& self.bedrock is None
        &&& self.vertex is None
        &&& self.mcp.is_default()
        &&& self.debug.is_default()
        &&& self.observability.is_default()
        &&& self.provider_chain.is_default()
        &&& self.budget.is_default()
        &&& self.storage.is_default()
        &&& self.memory.is_default()
        &&& self.browser.is_default()
        &&& self.session_cap is None
        &&& self.crucible.is_default()
    }
}

impl Default for Config {
    fn default() -> (r: Self)
        ensures
            r.is_default(),
    {
        Config {
            provider_label: "anthropic".to_owned(),
            provider: ProviderType::Anthropic,
            api_key: "".to_owned(),
            base_url: "".to_owned(),
            security: SecurityConfig::default(),
            model: "".to_owned(),
            max_tokens: 64000,
            max_tokens_explicit: false,
            temperature: None,
            max_turns: None,
            approval_mode: ApprovalMode::Default,
            system_prompt: None,
            thinking: None,
            prompt_caching: false,
            prompt_caching_min_prefix_tokens: DEFAULT_CACHE_MIN_PREFIX_TOKENS,
            compat: ProviderCompat::default(),
            tools: ToolsConfig::default(),
            builtin_tools: CarriedSettings::default(),
            advertised_capabilities: CarriedSettings::default(),
            session: SessionConfig::default(),
            inbound_webhook: InboundWebhookConfig::default(),
            compact: CompactConfig::default(),
            plan: PlanConfig::default(),
            file_cache: FileCacheConfig::default(),
            hooks: HooksConfig::default(),
            bedrock: None,
            vertex: None,
            mcp: McpConfig::default(),
            debug: CarriedSettings::default(),
            observability: ObservabilityConfig::default(),
            provider_chain: ProviderChainConfig::default(),
            budget: BudgetConfig::default(),
            storage: StorageConfig::default(),
            memory: MemoryConfig::default(),
            browser: BrowserConfig::default(),
            session_cap: None,
            crucible: CrucibleConfig::default(),
        }
    }
}

impl Replica for Config {
    open spec fn same(self, other: Self) -> bool {
        &&& self.provider_label.same(other.provider_label)
        &&& self.provider.same(other.provider)
        &&& self.api_key.same(other.api_key)
        &&& self.base_url.same(other.base_url)
        &&& self.security.same(other.security)
        &&& self.model.same(other.model)
        &&& self.max_tokens.same(other.max_tokens)
        &&& self.max_tokens_explicit.same(other.max_tokens_explicit)
        &&& self.temperature.same(other.temperature)
        &&& self.max_turns.same(other.max_turns)
        &&& self.approval_mode.same(other.approval_mode)
        &&& self.system_prompt.same(other.system_prompt)
        &&& self.thinking.same(other.thinking)
        &&& self.prompt_caching.same(other.prompt_caching)
        &&& self.prompt_caching_min_prefix_tokens.same(other.prompt_caching_min_prefix_tokens)
        &&& self.compat.same(other.compat)
        &&& self.tools.same(other.tools)
        &&& self.builtin_tools.same(other.builtin_tools)
        &&& self.advertised_capabilities.same(other.advertised_capabilities)
        &&& self.session.same(other.session)
        &&& self.inbound_webhook.same(other.inbound_webhook)
        &&& self.compact.same(other.compact)
        &&& self.plan.same(other.plan)
        &&& self.file_cache.same(other.file_cache)
        &&& self.hooks.same(other.hooks)
        &&& self.bedrock.same(other.bedrock)
        &&& self.vertex.same(other.vertex)
        &&& self.mcp.same(other.mcp)
        &&& self.debug.same(other.debug)
        &&& self.observability.same(other.observability)
        &&& self.provider_chain.same(other.provider_chain)
        &&& self.budget.same(other.budget)
        &&& self.storage.same(other.storage)
        &&& self.memory.same(other.memory)
        &&& self.browser.same(other.browser)
        &&& self.session_cap.same(other.session_cap)
        &&& self.crucible.same(other.crucible)
    }

    fn replicate(&self) -> (r: Self) {
        Config {
            provider_label: self.provider_label.replicate(),
            provider: self.provider.replicate(),
            api_key: self.api_key.replicate(),
            base_url: self.base_url.replicate(),
            security: self.security.replicate(),
            model: self.model.replicate(),
            max_tokens: self.max_tokens.replicate(),
            max_tokens_explicit: self.max_tokens_explicit.replicate(),
            temperature: self.temperature.replicate(),
            max_turns: self.max_turns.replicate(),
            approval_mode: self.approval_mode.replicate(),
            system_prompt: self.system_prompt.replicate(),
            thinking: self.thinking.replicate(),
            prompt_caching: self.prompt_caching.replicate(),
            prompt_caching_min_prefix_tokens: self.prompt_caching_min_prefix_tokens.replicate(),
            compat: self.compat.replicate(),
            tools: self.tools.replicate(),
            builtin_tools: self.builtin_tools.replicate(),
            advertised_capabilities: self.advertised_capabilities.replicate(),
            session: self.session.replicate(),
            inbound_webhook: self.inbound_webhook.replicate(),
            compact: self.compact.replicate(),
            plan: self.plan.replicate(),
            file_cache: self.file_cache.replicate(),
            hooks: self.hooks.replicate(),
            bedrock: self.bedrock.replicate(),
            vertex: self.vertex.replicate(),
            mcp: self.mcp.replicate(),
            debug: self.debug.replicate(),
            observability: self.observability.replicate(),
            provider_chain: self.provider_chain.replicate(),
            budget: self.budget.replicate(),
            storage: self.storage.replicate(),
            memory: self.memory.replicate(),
            browser: self.browser.replicate(),
            session_cap: self.session_cap.replicate(),
            crucible: self.crucible.replicate(),
        }
    }

    fn agrees(&self, other: &Self) -> (b: bool) {
        self.provider_label.agrees(&other.provider_label)
            && self.provider.agrees(&other.provider)
            && self.api_key.agrees(&other.api_key)
            && self.base_url.agrees(&other.base_url)
            && self.security.agrees(&other.security)
            && self.model.agrees(&other.model)
            && self.max_tokens.agrees(&other.max_tokens)
            && self.max_tokens_explicit.agrees(&other.max_tokens_explicit)
            && self.temperature.agrees(&other.temperature)
            && self.max_turns.agrees(&other.max_turns)
            && self.approval_mode.agrees(&other.approval_mode)
            && self.system_prompt.agrees(&other.system_prompt)
            && self.thinking.agrees(&other.thinking)
            && self.prompt_caching.agrees(&other.prompt_caching)
            && self.prompt_caching_min_prefix_tokens.agrees(&other.prompt_caching_min_prefix_tokens)
            && self.compat.agrees(&other.compat)
            && self.tools.agrees(&other.tools)
            && self.builtin_tools.agrees(&other.builtin_tools)
            && self.advertised_capabilities.agrees(&other.advertised_capabilities)
            && self.session.agrees(&other.session)
            && self.inbound_webhook.agrees(&other.inbound_webhook)
            && self.compact.agrees(&other.compact)
            && self.plan.agrees(&other.plan)
            && self.file_cache.agrees(&other.file_cache)
            && self.hooks.agrees(&other.hooks)
            && self.bedrock.agrees(&other.bedrock)
            && self.vertex.agrees(&other.vertex)
            && self.mcp.agrees(&other.mcp)
            && self.debug.agrees(&other.debug)
            && self.observability.agrees(&other.observability)
            && self.provider_chain.agrees(&other.provider_chain)
            && self.budget.agrees(&other.budget)
            && self.storage.agrees(&other.storage)
            && self.memory.agrees(&other.memory)
            && self.browser.agrees(&other.browser)
            && self.session_cap.agrees(&other.session_cap)
            && self.crucible.agrees(&other.crucible)
    }

    proof fn same_as_itself(self) {
        self.provider_label.same_as_itself();
        self.provider.same_as_itself();
        self.api_key.same_as_itself();
        self.base_url.same_as_itself();
        self.security.same_as_itself();
        self.model.same_as_itself();
        self.max_tokens.same_as_itself();
        self.max_tokens_explicit.same_as_itself();
        self.temperature.same_as_itself();
        self.max_turns.same_as_itself();
        self.approval_mode.same_as_itself();
        self.system_prompt.same_as_itself();
        self.thinking.same_as_itself();
        self.prompt_caching.same_as_itself();
        self.prompt_caching_min_prefix_tokens.same_as_itself();
        self.compat.same_as_itself();
        self.tools.same_as_itself();
        self.builtin_tools.same_as_itself();
        self.advertised_capabilities.same_as_itself();
        self.session.same_as_itself();
        self.inbound_webhook.same_as_itself();
        self.compact.same_as_itself();
        self.plan.same_as_itself();
        self.file_cache.same_as_itself();
        self.hooks.same_as_itself();
        self.bedrock.same_as_itself();
        self.vertex.same_as_itself();
        self.mcp.same_as_itself();
        self.debug.same_as_itself();
        self.observability.same_as_itself();
        self.provider_chain.same_as_itself();
        self.budget.same_as_itself();
        self.storage.same_as_itself();
        self.memory.same_as_itself();
        self.browser.same_as_itself();
        self.session_cap.same_as_itself();
        self.crucible.same_as_itself();
    }

    proof fn same_through(self, middle: Self, other: Self) {
        self.provider_label.same_through(middle.provider_label, other.provider_label);
        self.provider.same_through(middle.provider, other.provider);
        self.api_key.same_through(middle.api_key, other.api_key);
        self.base_url.same_through(middle.base_url, other.base_url);
        self.security.same_through(middle.security, other.security);
        self.model.same_through(middle.model, other.model);
        self.max_tokens.same_through(middle.max_tokens, other.max_tokens);
        self.max_tokens_explicit.same_through(middle.max_tokens_explicit, other.max_tokens_explicit);
        self.temperature.same_through(middle.temperature, other.temperature);
        self.max_turns.same_through(middle.max_turns, other.max_turns);
        self.approval_mode.same_through(middle.approval_mode, other.approval_mode);
        self.system_prompt.same_through(middle.system_prompt, other.system_prompt);
        self.thinking.same_through(middle.thinking, other.thinking);
        self.prompt_caching.same_through(middle.prompt_caching, other.prompt_caching);
        self.prompt_caching_min_prefix_tokens.same_through(middle.prompt_caching_min_prefix_tokens, other.prompt_caching_min_prefix_tokens);
        self.compat.same_through(middle.compat, other.compat);
        self.tools.same_through(middle.tools, other.tools);
        self.builtin_tools.same_through(middle.builtin_tools, other.builtin_tools);
        self.advertised_capabilities.same_through(middle.advertised_capabilities, other.advertised_capabilities);
        self.session.same_through(middle.session, other.session);
        self.inbound_webhook.same_through(middle.inbound_webhook, other.inbound_webhook);
        self.compact.same_through(middle.compact, other.compact);
        self.plan.same_through(middle.plan, other.plan);
        self.file_cache.same_through(middle.file_cache, other.file_cache);
        self.hooks.same_through(middle.hooks, other.hooks);
        self.bedrock.same_through(middle.bedrock, other.bedrock);
        self.vertex.same_through(middle.vertex, other.vertex);
        self.mcp.same_through(middle.mcp, other.mcp);
        self.debug.same_through(middle.debug, other.debug);
        self.observability.same_through(middle.observability, other.observability);
        self.provider_chain.same_through(middle.provider_chain, other.provider_chain);
        self.budget.same_through(middle.budget, other.budget);
        self.storage.same_through(middle.storage, other.storage);
        self.memory.same_through(middle.memory, other.memory);
        self.browser.same_through(middle.browser, other.browser);
        self.session_cap.same_through(middle.session_cap, other.session_cap);
        self.crucible.same_through(middle.crucible, other.crucible);
    }
}

impl Config {
    /// Whether `other` has the same settings apart from those that follow from the
    /// choice of provider.
    pub open spec fn same_session(self, other: Config) -> bool {
        &&& self.security.same(other.security)
        &&& self.max_tokens.same(other.max_tokens)
        &&& self.max_tokens_explicit.same(other.max_tokens_explicit)
        &&& self.temperature.same(other.temperature)
        &&& self.max_turns.same(other.max_turns)
        &&& self.approval_mode.same(other.approval_mode)
        &&& self.system_prompt.same(other.system_prompt)
        &&& self.thinking.same(other.thinking)
        &&& self.tools.same(other.tools)
        &&& self.builtin_tools.same(other.builtin_tools)
        &&& self.advertised_capabilities.same(other.advertised_capabilities)
        &&& self.session.same(other.session)
        &&& self.inbound_webhook.same(other.inbound_webhook)
        &&& self.compact.same(other.compact)
        &&& self.plan.same(other.plan)
        &&& self.file_cache.same(other.file_cache)
        &&& self.hooks.same(other.hooks)
        &&& self.bedrock.same(other.bedrock)
        &&& self.vertex.same(other.vertex)
        &&& self.mcp.same(other.mcp)
        &&& self.debug.same(other.debug)
        &&& self.observability.same(other.observability)
        &&& self.provider_chain.same(other.provider_chain)
        &&& self.budget.same(other.budget)
        &&& self.storage.same(other.storage)
        &&& self.memory.same(other.memory)
        &&& self.browser.same(other.browser)
        &&& self.session_cap.same(other.session_cap)
        &&& self.crucible.same(other.crucible)
    }
}

/// Command-line arguments that take part in the resolution.
#[derive(Clone)]
pub struct CliArgs {
    /// `--provider`.
    pub provider: Option<String>,
    /// `--api-key`.
    pub api_key: Option<String>,
    /// `--base-url`.
    pub base_url: Option<String>,
    /// `--model`.
    pub model: Option<String>,
    /// `--max-tokens`.
    pub max_tokens: Option<u32>,
    /// `--max-turns`.
    pub max_turns: Option<usize>,
    /// `--system-prompt`.
    pub system_prompt: Option<String>,
    /// `--profile`.
    pub profile: Option<String>,
    /// `--auto-approve`.
    pub auto_approve: bool,
    /// Project directory.
    pub project_dir: Option<String>,
}

impl CliArgs {
    /// Whether every setting has its built-in value.
    pub open spec fn is_default(self) -> bool {
        &&& self.provider is None
        &&& self.api_key is None
        &&& self.base_url is None
        &&& self.model is None
        &&& self.max_tokens is None
        &&& self.max_turns is None
        &&& self.system_prompt is None
        &&& self.profile is None
        &&& !self.auto_approve
        &&& self.project_dir is None
    }
}

impl Default for CliArgs {
    fn default() -> (r: Self)
        ensures
            r.is_default(),
    {
        CliArgs {
            provider: None,
            api_key: None,
            base_url: None,
            model: None,
            max_tokens: None,
            max_turns: None,
            system_prompt: None,
            profile: None,
            auto_approve: false,
            project_dir: None,
        }
    }
}
} // verus!
