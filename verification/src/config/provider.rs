//! The built-in providers: their names, defaults and key slots.

use crate::model_aliases::ModelAliases;
use crate::replica::Replica;
use crate::text::{ascii_lower, concat3, lower_chars, same_text, starts_with};
use vstd::prelude::*;

verus! {

/// A built-in provider.
#[derive(Debug, Clone, Copy, PartialEq, Eq, Structural)]
pub enum ProviderType {
    /// Anthropic, with an API key.
    Anthropic,
    /// OpenAI, with an API key against `api.openai.com`.
    OpenAI,
    /// AWS Bedrock; the URL comes from the region, the credentials from AWS.
    Bedrock,
    /// Anthropic models on Google Vertex AI; the credentials come from GCP.
    Vertex,
    /// Google Gemini through the native Generative Language API, with an API key.
    Gemini,
    /// Azure OpenAI; `base_url` carries the resource endpoint, `model` the deployment.
    AzureOpenAI,
    /// Together AI.
    Together,
    /// Fireworks AI.
    Fireworks,
    /// NVIDIA NIM.
    Nvidia,
    /// Perplexity (`sonar` models).
    Perplexity,
    /// Cerebras.
    Cerebras,
    /// OpenRouter, a router in front of many models.
    OpenRouter,
    /// Flux Router.
    FluxRouter,
    /// DeepSeek.
    Deepseek,
    /// xAI (Grok).
    Xai,
    /// Groq.
    Groq,
    /// Moonshot (Kimi).
    Moonshot,
    /// Alibaba Qwen through DashScope.
    Qwen,
    /// Mistral AI.
    Mistral,
    /// Cohere.
    Cohere,
    /// "Sign in with ChatGPT": the Codex backend, with OAuth tokens.
    OpenAIChatGpt,
    /// MiniMax through its Anthropic-compatible endpoint.
    MiniMax,
    /// Sakana AI ("Fugu").
    Sakana,
}

/// Human-readable list of the built-in provider names, for error messages.
pub const BUILTIN_PROVIDER_NAMES: &'static str =
    "anthropic, openai, bedrock, vertex, gemini (alias: google), azure-openai (alias: azure), together, fireworks, nvidia, perplexity, cerebras, openrouter, flux-router (alias: flux), deepseek, xai (alias: grok), groq, moonshot (alias: kimi), qwen (aliases: alibaba, dashscope), mistral, cohere, openai-chatgpt (alias: chatgpt), sakana (alias: fugu)";

/// Whether `p` speaks the OpenAI chat wire format.
pub open spec fn openai_wire(p: ProviderType) -> bool {
    match p {
        ProviderType::Anthropic => false,
        ProviderType::Bedrock => false,
        ProviderType::Vertex => false,
        ProviderType::Gemini => false,
        ProviderType::MiniMax => false,
        _ => true,
    }
}

impl ProviderType {
    /// Whether this provider is a thin layer over the OpenAI wire format.
    pub fn is_openai_compatible(self) -> (r: bool)
        ensures
            r == openai_wire(self),
    {
        match self {
            ProviderType::OpenAI
            | ProviderType::AzureOpenAI
            | ProviderType::Together
            | ProviderType::Fireworks
            | ProviderType::Nvidia
            | ProviderType::Perplexity
            | ProviderType::Cerebras
            | ProviderType::OpenRouter
            | ProviderType::FluxRouter
            | ProviderType::Deepseek
            | ProviderType::Xai
            | ProviderType::Groq
            | ProviderType::Moonshot
            | ProviderType::Qwen
            | ProviderType::Mistral
            | ProviderType::Cohere
            | ProviderType::OpenAIChatGpt
            | ProviderType::Sakana => true,
            _ => false,
        }
    }
}

impl Default for ProviderType {
    fn default() -> (r: Self)
        ensures
            r == ProviderType::Anthropic,
    {
        ProviderType::Anthropic
    }
}

impl Replica for ProviderType {
    open spec fn same(self, other: Self) -> bool {
        self == other
    }

    fn replicate(&self) -> (r: Self) {
        *self
    }

    fn agrees(&self, other: &Self) -> (b: bool) {
        *self == *other
    }

    proof fn same_as_itself(self) {
    }

    proof fn same_through(self, middle: Self, other: Self) {
    }
}

/// The canonical name of `p`.
pub open spec fn slug_of(p: ProviderType) -> Seq<char> {
    match p {
        ProviderType::Anthropic => "anthropic"@,
        ProviderType::OpenAI => "openai"@,
        ProviderType::Bedrock => "bedrock"@,
        ProviderType::Vertex => "vertex"@,
        ProviderType::Gemini => "gemini"@,
        ProviderType::AzureOpenAI => "azure-openai"@,
        ProviderType::Together => "together"@,
        ProviderType::Fireworks => "fireworks"@,
        ProviderType::Nvidia => "nvidia"@,
        ProviderType::Perplexity => "perplexity"@,
        ProviderType::Cerebras => "cerebras"@,
        ProviderType::OpenRouter => "openrouter"@,
        ProviderType::FluxRouter => "flux-router"@,
        ProviderType::Deepseek => "deepseek"@,
        ProviderType::Xai => "xai"@,
        ProviderType::Groq => "groq"@,
        ProviderType::Moonshot => "moonshot"@,
        ProviderType::Qwen => "qwen"@,
        ProviderType::Mistral => "mistral"@,
        ProviderType::Cohere => "cohere"@,
        ProviderType::OpenAIChatGpt => "openai-chatgpt"@,
        ProviderType::MiniMax => "minimax"@,
        ProviderType::Sakana => "sakana"@,
    }
}

/// The canonical name of `provider`.
pub fn provider_type_slug(provider: ProviderType) -> (r: &'static str)
    ensures
        r@ == slug_of(provider),
{
    match provider {
        ProviderType::Anthropic => "anthropic",
        ProviderType::OpenAI => "openai",
        ProviderType::Bedrock => "bedrock",
        ProviderType::Vertex => "vertex",
        ProviderType::Gemini => "gemini",
        ProviderType::AzureOpenAI => "azure-openai",
        ProviderType::Together => "together",
        ProviderType::Fireworks => "fireworks",
        ProviderType::Nvidia => "nvidia",
        ProviderType::Perplexity => "perplexity",
        ProviderType::Cerebras => "cerebras",
        ProviderType::OpenRouter => "openrouter",
        ProviderType::FluxRouter => "flux-router",
        ProviderType::Deepseek => "deepseek",
        ProviderType::Xai => "xai",
        ProviderType::Groq => "groq",
        ProviderType::Moonshot => "moonshot",
        ProviderType::Qwen => "qwen",
        ProviderType::Mistral => "mistral",
        ProviderType::Cohere => "cohere",
        ProviderType::OpenAIChatGpt => "openai-chatgpt",
        ProviderType::MiniMax => "minimax",
        ProviderType::Sakana => "sakana",
    }
}

/// The provider that the name `s` stands for: its canonical name or an alias.
pub open spec fn provider_named(s: Seq<char>) -> Option<ProviderType> {
    if s == "anthropic"@ {
        Some(ProviderType::Anthropic)
    } else if s == "openai"@ {
        Some(ProviderType::OpenAI)
    } else if s == "bedrock"@ {
        Some(ProviderType::Bedrock)
    } else if s == "vertex"@ {
        Some(ProviderType::Vertex)
    } else if s == "gemini"@ || s == "google"@ {
        Some(ProviderType::Gemini)
    } else if s == "azure-openai"@ || s == "azure"@ {
        Some(ProviderType::AzureOpenAI)
    } else if s == "together"@ {
        Some(ProviderType::Together)
    } else if s == "fireworks"@ {
        Some(ProviderType::Fireworks)
    } else if s == "nvidia"@ {
        Some(ProviderType::Nvidia)
    } else if s == "perplexity"@ {
        Some(ProviderType::Perplexity)
    } else if s == "cerebras"@ {
        Some(ProviderType::Cerebras)
    } else if s == "openrouter"@ {
        Some(ProviderType::OpenRouter)
    } else if s == "flux-router"@ || s == "flux"@ {
        Some(ProviderType::FluxRouter)
    } else if s == "deepseek"@ {
        Some(ProviderType::Deepseek)
    } else if s == "xai"@ || s == "grok"@ {
        Some(ProviderType::Xai)
    } else if s == "groq"@ {
        Some(ProviderType::Groq)
    } else if s == "moonshot"@ || s == "kimi"@ {
        Some(ProviderType::Moonshot)
    } else if s == "qwen"@ || s == "alibaba"@ || s == "dashscope"@ {
        Some(ProviderType::Qwen)
    } else if s == "mistral"@ {
        Some(ProviderType::Mistral)
    } else if s == "cohere"@ {
        Some(ProviderType::Cohere)
    } else if s == "openai-chatgpt"@ || s == "chatgpt"@ {
        Some(ProviderType::OpenAIChatGpt)
    } else if s == "minimax"@ || s == "minimaxi"@ {
        Some(ProviderType::MiniMax)
    } else if s == "sakana"@ || s == "fugu"@ {
        Some(ProviderType::Sakana)
    } else {
        None
    }
}

/// The provider that the name `s` stands for: its canonical name or an alias.
pub fn parse_builtin_provider(s: &str) -> (r: Option<ProviderType>)
    ensures
        r == provider_named(s@),
{
    if same_text(s, "anthropic") {
        Some(ProviderType::Anthropic)
    } else if same_text(s, "openai") {
        Some(ProviderType::OpenAI)
    } else if same_text(s, "bedrock") {
        Some(ProviderType::Bedrock)
    } else if same_text(s, "vertex") {
        Some(ProviderType::Vertex)
    } else if same_text(s, "gemini") || same_text(s, "google") {
        Some(ProviderType::Gemini)
    } else if same_text(s, "azure-openai") || same_text(s, "azure") {
        Some(ProviderType::AzureOpenAI)
    } else if same_text(s, "together") {
        Some(ProviderType::Together)
    } else if same_text(s, "fireworks") {
        Some(ProviderType::Fireworks)
    } else if same_text(s, "nvidia") {
        Some(ProviderType::Nvidia)
    } else if same_text(s, "perplexity") {
        Some(ProviderType::Perplexity)
    } else if same_text(s, "cerebras") {
        Some(ProviderType::Cerebras)
    } else if same_text(s, "openrouter") {
        Some(ProviderType::OpenRouter)
    } else if same_text(s, "flux-router") || same_text(s, "flux") {
        Some(ProviderType::FluxRouter)
    } else if same_text(s, "deepseek") {
        Some(ProviderType::Deepseek)
    } else if same_text(s, "xai") || same_text(s, "grok") {
        Some(ProviderType::Xai)
    } else if same_text(s, "groq") {
        Some(ProviderType::Groq)
    } else if same_text(s, "moonshot") || same_text(s, "kimi") {
        Some(ProviderType::Moonshot)
    } else if same_text(s, "qwen") || same_text(s, "alibaba") || same_text(s, "dashscope") {
        Some(ProviderType::Qwen)
    } else if same_text(s, "mistral") {
        Some(ProviderType::Mistral)
    } else if same_text(s, "cohere") {
        Some(ProviderType::Cohere)
    } else if same_text(s, "openai-chatgpt") || same_text(s, "chatgpt") {
        Some(ProviderType::OpenAIChatGpt)
    } else if same_text(s, "minimax") || same_text(s, "minimaxi") {
        Some(ProviderType::MiniMax)
    } else if same_text(s, "sakana") || same_text(s, "fugu") {
        Some(ProviderType::Sakana)
    } else {
        None
    }
}

/// The provider that the name `slug` stands for: its canonical name or an alias.
pub fn provider_type_from_slug(slug: &str) -> (r: Option<ProviderType>)
    ensures
        r == provider_named(slug@),
{
    parse_builtin_provider(slug)
}

/// The model that `p` starts with when none is configured; empty for providers
/// with a heterogeneous catalog.
pub open spec fn default_model(p: ProviderType, models: ModelAliases) -> Seq<char> {
    match p {
        ProviderType::Anthropic => models.anthropic_sonnet@,
        ProviderType::OpenAI => models.openai_gpt4o@,
        ProviderType::Bedrock => models.bedrock_sonnet@,
        ProviderType::Vertex => models.vertex_sonnet@,
        ProviderType::Gemini => models.vertex_gemini_pro@,
        ProviderType::OpenAIChatGpt => "gpt-5.5"@,
        ProviderType::MiniMax => models.minimax_m2@,
        ProviderType::Sakana => "fugu"@,
        _ => ""@,
    }
}

/// The model that `provider` starts with when none is configured; empty for
/// providers with a heterogeneous catalog.
pub fn default_model_for<'a>(provider: ProviderType, models: &'a ModelAliases) -> (r: &'a str)
    ensures
        r@ == default_model(provider, *models),
{
    match provider {
        ProviderType::Anthropic => models.anthropic_sonnet.as_str(),
        ProviderType::OpenAI => models.openai_gpt4o.as_str(),
        ProviderType::Bedrock => models.bedrock_sonnet.as_str(),
        ProviderType::Vertex => models.vertex_sonnet.as_str(),
        ProviderType::Gemini => models.vertex_gemini_pro.as_str(),
        ProviderType::OpenAIChatGpt => "gpt-5.5",
        ProviderType::MiniMax => models.minimax_m2.as_str(),
        ProviderType::Sakana => "fugu",
        _ => "",
    }
}

/// [`default_model_for`] by name; empty for a name that no built-in provider has.
pub fn default_model_for_slug<'a>(slug: &str, models: &'a ModelAliases) -> (r: &'a str)
    ensures
        r@ == match provider_named(slug@) {
            Some(p) => default_model(p, *models),
            None => ""@,
        },
{
    match parse_builtin_provider(slug) {
        Some(provider) => default_model_for(provider, models),
        None => "",
    }
}

/// The mid-tier model of the family of `p`; empty when there is no confident one.
pub open spec fn driver_model(p: ProviderType, models: ModelAliases) -> Seq<char> {
    match p {
        ProviderType::Anthropic => models.anthropic_sonnet@,
        _ => ""@,
    }
}

/// The mid-tier model of the family of `provider`; empty when there is no
/// confident one.
pub fn driver_model_for<'a>(provider: ProviderType, models: &'a ModelAliases) -> (r: &'a str)
    ensures
        r@ == driver_model(provider, *models),
{
    match provider {
        ProviderType::Anthropic => models.anthropic_sonnet.as_str(),
        _ => "",
    }
}

/// The base URL of `p` when none is configured. Empty where the URL follows from
/// a region or project, or where the provider client supplies its own.
pub open spec fn default_base_url(p: ProviderType) -> Seq<char> {
    match p {
        ProviderType::Anthropic => "https://api.anthropic.com"@,
        ProviderType::OpenAI => "https://api.openai.com"@,
        ProviderType::Gemini => "https://generativelanguage.googleapis.com"@,
        ProviderType::OpenAIChatGpt => "https://chatgpt.com/backend-api/codex"@,
        ProviderType::MiniMax => "https://api.minimax.io/anthropic"@,
        _ => ""@,
    }
}

/// The base URL of `provider` when none is configured. Empty where the URL follows
/// from a region or project, or where the provider client supplies its own.
pub fn default_base_url_for(provider: ProviderType) -> (r: String)
    ensures
        r@ == default_base_url(provider),
{
    match provider {
        ProviderType::Anthropic => "https://api.anthropic.com".to_owned(),
        ProviderType::OpenAI => "https://api.openai.com".to_owned(),
        ProviderType::Gemini => "https://generativelanguage.googleapis.com".to_owned(),
        ProviderType::OpenAIChatGpt => "https://chatgpt.com/backend-api/codex".to_owned(),
        ProviderType::MiniMax => "https://api.minimax.io/anthropic".to_owned(),
        _ => "".to_owned(),
    }
}

/// Whether `p` authenticates without an API key of its own: with cloud
/// credentials or an OAuth login.
pub open spec fn out_of_band(p: ProviderType) -> bool {
    p == ProviderType::Bedrock || p == ProviderType::Vertex || p == ProviderType::OpenAIChatGpt
}

/// The credentials-store key of the API key of `p`.
pub open spec fn store_key(p: ProviderType) -> Option<Seq<char>> {
    if out_of_band(p) {
        None
    } else {
        Some("providers."@ + slug_of(p) + ".api_key"@)
    }
}

/// The credentials-store key under which the API key of `provider` is kept, or
/// `None` for a provider that authenticates out of band.
pub fn credentials_store_key(provider: ProviderType) -> (r: Option<String>)
    ensures
        match r {
            Some(k) => store_key(provider) == Some(k@),
            None => store_key(provider) is None,
        },
{
    match provider {
        ProviderType::Bedrock | ProviderType::Vertex | ProviderType::OpenAIChatGpt => None,
        _ => Some(concat3("providers.", provider_type_slug(provider), ".api_key")),
    }
}

/// The environment variables that may carry the API key of `p`, in the order in
/// which they are tried after `API_KEY`.
pub open spec fn key_variables(p: ProviderType) -> Seq<Seq<char>> {
    match p {
        ProviderType::Anthropic => seq!["ANTHROPIC_API_KEY"@],
        ProviderType::OpenAI => seq!["OPENAI_API_KEY"@],
        ProviderType::Gemini => seq!["GEMINI_API_KEY"@, "GOOGLE_API_KEY"@],
        ProviderType::AzureOpenAI => seq!["AZURE_OPENAI_API_KEY"@],
        ProviderType::Together => seq!["TOGETHER_API_KEY"@],
        ProviderType::Fireworks => seq!["FIREWORKS_API_KEY"@],
        ProviderType::Nvidia => seq!["NVIDIA_API_KEY"@],
        ProviderType::Perplexity => seq!["PERPLEXITY_API_KEY"@],
        ProviderType::Cerebras => seq!["CEREBRAS_API_KEY"@],
        ProviderType::OpenRouter => seq!["OPENROUTER_API_KEY"@],
        ProviderType::FluxRouter => seq!["FLUX_API_KEY"@],
        ProviderType::Deepseek => seq!["DEEPSEEK_API_KEY"@],
        ProviderType::Xai => seq!["XAI_API_KEY"@],
        ProviderType::Groq => seq!["GROQ_API_KEY"@],
        ProviderType::Moonshot => seq!["MOONSHOT_API_KEY"@],
        ProviderType::Qwen => seq!["DASHSCOPE_API_KEY"@, "ALIBABA_API_KEY"@],
        ProviderType::Mistral => seq!["MISTRAL_API_KEY"@],
        ProviderType::Cohere => seq!["COHERE_API_KEY"@],
        ProviderType::MiniMax => seq!["MINIMAX_API_KEY"@],
        ProviderType::Sakana => seq!["SAKANA_API_KEY"@],
        _ => seq![],
    }
}

/// The texts of a list of strings.
pub open spec fn texts(list: Seq<&'static str>) -> Seq<Seq<char>> {
    list.map_values(|s: &'static str| s@)
}

/// The environment variables that may carry the API key of `provider`, in the
/// order in which they are tried after `API_KEY`.
pub fn api_key_variables(provider: ProviderType) -> (r: Vec<&'static str>)
    ensures
        texts(r@) == key_variables(provider),
{
    let r: Vec<&'static str> = match provider {
        ProviderType::Anthropic => vec!["ANTHROPIC_API_KEY"],
        ProviderType::OpenAI => vec!["OPENAI_API_KEY"],
        ProviderType::Gemini => vec!["GEMINI_API_KEY", "GOOGLE_API_KEY"],
        ProviderType::AzureOpenAI => vec!["AZURE_OPENAI_API_KEY"],
        ProviderType::Together => vec!["TOGETHER_API_KEY"],
        ProviderType::Fireworks => vec!["FIREWORKS_API_KEY"],
        ProviderType::Nvidia => vec!["NVIDIA_API_KEY"],
        ProviderType::Perplexity => vec!["PERPLEXITY_API_KEY"],
        ProviderType::Cerebras => vec!["CEREBRAS_API_KEY"],
        ProviderType::OpenRouter => vec!["OPENROUTER_API_KEY"],
        ProviderType::FluxRouter => vec!["FLUX_API_KEY"],
        ProviderType::Deepseek => vec!["DEEPSEEK_API_KEY"],
        ProviderType::Xai => vec!["XAI_API_KEY"],
        ProviderType::Groq => vec!["GROQ_API_KEY"],
        ProviderType::Moonshot => vec!["MOONSHOT_API_KEY"],
        ProviderType::Qwen => vec!["DASHSCOPE_API_KEY", "ALIBABA_API_KEY"],
        ProviderType::Mistral => vec!["MISTRAL_API_KEY"],
        ProviderType::Cohere => vec!["COHERE_API_KEY"],
        ProviderType::MiniMax => vec!["MINIMAX_API_KEY"],
        ProviderType::Sakana => vec!["SAKANA_API_KEY"],
        _ => Vec::new(),
    };
    proof {
        assert(texts(r@) =~= key_variables(provider));
    }
    r
}

/// Whether an OpenAI model takes the `reasoning_effort` field: the `o<digit>`
/// series and the `gpt-5` family, in any letter case.
pub open spec fn accepts_effort(model: Seq<char>) -> bool {
    let m = ascii_lower(model);
    ||| m.len() >= 2 && m[0] == 'o' && '0' <= m[1] && m[1] <= '9'
    ||| "gpt-5"@.is_prefix_of(m)
}

/// Whether the OpenAI model `model` takes the `reasoning_effort` field.
pub fn openai_model_accepts_effort(model: &str) -> (r: bool)
    ensures
        r == accepts_effort(model@),
{
    let m = lower_chars(model);
    let is_o_series = m.len() >= 2 && m[0] == 'o' && '0' <= m[1] && m[1] <= '9';
    is_o_series || starts_with(&m, "gpt-5")
}

/// The canonical name of a provider stands for that provider.
pub proof fn law_slug_round_trip(p: ProviderType)
    ensures
        provider_named(slug_of(p)) == Some(p),
{
    reveal_strlit("anthropic");
    reveal_strlit("openai");
    reveal_strlit("bedrock");
    reveal_strlit("vertex");
    reveal_strlit("gemini");
    reveal_strlit("google");
    reveal_strlit("azure-openai");
    reveal_strlit("azure");
    reveal_strlit("together");
    reveal_strlit("fireworks");
    reveal_strlit("nvidia");
    reveal_strlit("perplexity");
    reveal_strlit("cerebras");
    reveal_strlit("openrouter");
    reveal_strlit("flux-router");
    reveal_strlit("flux");
    reveal_strlit("deepseek");
    reveal_strlit("xai");
    reveal_strlit("grok");
    reveal_strlit("groq");
    reveal_strlit("moonshot");
    reveal_strlit("kimi");
    reveal_strlit("qwen");
    reveal_strlit("alibaba");
    reveal_strlit("dashscope");
    reveal_strlit("mistral");
    reveal_strlit("cohere");
    reveal_strlit("openai-chatgpt");
    reveal_strlit("chatgpt");
    reveal_strlit("minimax");
    reveal_strlit("minimaxi");
    reveal_strlit("sakana");
    reveal_strlit("fugu");
    assert("anthropic"@.len() == 9);
    assert("openai"@.len() == 6);
    assert("bedrock"@.len() == 7);
    assert("vertex"@.len() == 6);
    assert("gemini"@.len() == 6);
    assert("google"@.len() == 6);
    assert("azure-openai"@.len() == 12);
    assert("azure"@.len() == 5);
    assert("together"@.len() == 8);
    assert("fireworks"@.len() == 9);
    assert("nvidia"@.len() == 6);
    assert("perplexity"@.len() == 10);
    assert("cerebras"@.len() == 8);
    assert("openrouter"@.len() == 10);
    assert("flux-router"@.len() == 11);
    assert("flux"@.len() == 4);
    assert("deepseek"@.len() == 8);
    assert("xai"@.len() == 3);
    assert("grok"@.len() == 4);
    assert("groq"@.len() == 4);
    assert("moonshot"@.len() == 8);
    assert("kimi"@.len() == 4);
    assert("qwen"@.len() == 4);
    assert("alibaba"@.len() == 7);
    assert("dashscope"@.len() == 9);
    assert("mistral"@.len() == 7);
    assert("cohere"@.len() == 6);
    assert("openai-chatgpt"@.len() == 14);
    assert("chatgpt"@.len() == 7);
    assert("minimax"@.len() == 7);
    assert("minimaxi"@.len() == 8);
    assert("sakana"@.len() == 6);
    assert("fugu"@.len() == 4);
    assert("alibaba"@[0] == 'a');
    assert("anthropic"@[0] == 'a');
    assert("bedrock"@[0] == 'b');
    assert("cerebras"@[0] == 'c');
    assert("chatgpt"@[0] == 'c');
    assert("cohere"@[0] == 'c');
    assert("dashscope"@[0] == 'd');
    assert("deepseek"@[0] == 'd');
    assert("fireworks"@[0] == 'f');
    assert("flux"@[0] == 'f');
    assert("fugu"@[0] == 'f');
    assert("gemini"@[0] == 'g');
    assert("gemini"@[1] == 'e');
    assert("google"@[0] == 'g');
    assert("google"@[1] == 'o');
    assert("grok"@[0] == 'g');
    assert("grok"@[3] == 'k');
    assert("groq"@[0] == 'g');
    assert("groq"@[3] == 'q');
    assert("kimi"@[0] == 'k');
    assert("minimax"@[0] == 'm');
    assert("minimax"@[2] == 'n');
    assert("minimaxi"@[0] == 'm');
    assert("minimaxi"@[1] == 'i');
    assert("mistral"@[0] == 'm');
    assert("mistral"@[2] == 's');
    assert("moonshot"@[0] == 'm');
    assert("moonshot"@[1] == 'o');
    assert("nvidia"@[0] == 'n');
    assert("openai"@[0] == 'o');
    assert("openrouter"@[0] == 'o');
    assert("perplexity"@[0] == 'p');
    assert("qwen"@[0] == 'q');
    assert("sakana"@[0] == 's');
    assert("together"@[0] == 't');
    assert("vertex"@[0] == 'v');
}

/// The credentials-store keys of two providers are never the same.
pub proof fn law_store_keys_differ(p: ProviderType, q: ProviderType)
    requires
        p != q,
        !out_of_band(p),
        !out_of_band(q),
    ensures
        store_key(p) != store_key(q),
{
    let a = "providers."@;
    let z = ".api_key"@;
    if store_key(p) == store_key(q) {
        let left = a + slug_of(p) + z;
        let right = a + slug_of(q) + z;
        assert(left == right);
        assert(left.len() == right.len());
        assert(slug_of(p) =~= left.subrange(a.len() as int, left.len() - z.len()));
        assert(slug_of(q) =~= right.subrange(a.len() as int, right.len() - z.len()));
        law_slug_round_trip(p);
        law_slug_round_trip(q);
    }
}

} // verus!
