//! API key resolution and provider connection checks.

use crate::config::provider::{
    api_key_variables, credentials_store_key, key_variables, out_of_band, store_key, texts,
    ProviderType,
};
use crate::table::StrMap;
use vstd::prelude::*;

verus! {

/// No API key was found anywhere.
#[derive(Debug, Clone, Copy, PartialEq, Eq)]
pub struct MissingApiKey;

/// What a missing key is reported as.
pub const NO_KEY: &'static str =
    "No API key found. Provide via --api-key, config file, or environment variable (API_KEY, ANTHROPIC_API_KEY, or OPENAI_API_KEY).";

impl MissingApiKey {
    /// The error as a sentence for the user.
    pub fn message(&self) -> (r: &'static str)
        ensures
            r@ == NO_KEY@,
    {
        NO_KEY
    }
}

/// What lies around outside the configuration when a key is looked for.
pub struct KeySources {
    /// The credentials store, as far as it could be read.
    pub stored: StrMap<String>,
    /// The environment variables.
    pub environment: StrMap<String>,
    /// Whether an xAI login is stored.
    pub xai_login: bool,
}

/// The text at `key` of a map of strings.
pub open spec fn text_at(m: Map<Seq<char>, String>, key: Seq<char>) -> Option<Seq<char>> {
    if m.contains_key(key) {
        Some(m[key]@)
    } else {
        None
    }
}

/// The value of the first of the variables `names` that is set.
pub open spec fn first_set(env: Map<Seq<char>, String>, names: Seq<Seq<char>>) -> Option<Seq<char>>
    decreases names.len(),
{
    if names.len() == 0 {
        None
    } else if env.contains_key(names[0]) {
        Some(env[names[0]]@)
    } else {
        first_set(env, names.drop_first())
    }
}

/// The API key that the credentials store holds for `p`.
pub open spec fn stored_key(stored: Map<Seq<char>, String>, p: ProviderType) -> Option<Seq<char>> {
    match store_key(p) {
        Some(k) => text_at(stored, k),
        None => None,
    }
}

/// The API key that the environment holds for `p`. A provider that authenticates
/// out of band, or with a stored login, needs none: its key is empty.
pub open spec fn ambient_key(p: ProviderType, sources: KeySources) -> Option<Seq<char>> {
    let env = sources.environment@;
    if env.contains_key("API_KEY"@) {
        Some(env["API_KEY"@]@)
    } else if out_of_band(p) || (p == ProviderType::Xai && sources.xai_login) {
        Some(""@)
    } else {
        first_set(env, key_variables(p))
    }
}

/// The API key for `p`: the command line, then the configuration, then the
/// credentials store, then the environment.
pub open spec fn resolved_key(
    cli: Option<Seq<char>>,
    config: Option<Seq<char>>,
    p: ProviderType,
    sources: KeySources,
) -> Option<Seq<char>> {
    if cli is Some {
        cli
    } else if config is Some {
        config
    } else if stored_key(sources.stored@, p) is Some {
        stored_key(sources.stored@, p)
    } else {
        ambient_key(p, sources)
    }
}

/// The API key that the credentials store holds for `provider`.
pub fn lookup_store_api_key(store: &StrMap<String>, provider: ProviderType) -> (r: Option<String>)
    ensures
        match r {
            Some(k) => stored_key(store@, provider) == Some(k@),
            None => stored_key(store@, provider) is None,
        },
{
    match credentials_store_key(provider) {
        Some(key) => match store.get(key.as_str()) {
            Some(value) => Some(value.clone()),
            None => None,
        },
        None => None,
    }
}

/// The value of the first of the variables `names` that is set.
fn first_variable(env: &StrMap<String>, names: &Vec<&'static str>) -> (r: Option<String>)
    ensures
        match r {
            Some(v) => first_set(env@, texts(names@)) == Some(v@),
            None => first_set(env@, texts(names@)) is None,
        },
{
    let ghost all = texts(names@);
    let mut i: usize = 0;
    proof {
        assert(all.skip(0) =~= all);
    }
    while i < names.len()
        invariant
            i <= names.len(),
            all == texts(names@),
            first_set(env@, all) == first_set(env@, all.skip(i as int)),
        decreases names.len() - i,
    {
        proof {
            assert(all.skip(i as int)[0] == names@[i as int]@);
            assert(all.skip(i as int).drop_first() =~= all.skip(i as int + 1));
        }
        if let Some(v) = env.get(names[i]) {
            return Some(v.clone());
        }
        i = i + 1;
    }
    None
}

/// The characters of an optional string slice.
pub open spec fn chars(o: Option<&str>) -> Option<Seq<char>> {
    match o {
        Some(s) => Some(s@),
        None => None,
    }
}

/// The API key for `provider`: the command line, then the configuration, then the
/// credentials store, then the environment. The key is empty for a provider that
/// authenticates out of band.
pub fn resolve_api_key(
    cli_key: Option<&str>,
    config_key: Option<&str>,
    provider: ProviderType,
    sources: &KeySources,
) -> (r: Result<String, MissingApiKey>)
    ensures
        match r {
            Ok(k) => resolved_key(chars(cli_key), chars(config_key), provider, *sources) == Some(
                k@,
            ),
            Err(_) => resolved_key(chars(cli_key), chars(config_key), provider, *sources) is None,
        },
{
    if let Some(key) = cli_key {
        return Ok(key.to_owned());
    }
    if let Some(key) = config_key {
        return Ok(key.to_owned());
    }
    if let Some(key) = lookup_store_api_key(&sources.stored, provider) {
        return Ok(key);
    }
    if let Some(key) = sources.environment.get("API_KEY") {
        return Ok(key.clone());
    }
    match provider {
        ProviderType::Bedrock | ProviderType::Vertex | ProviderType::OpenAIChatGpt => {
            return Ok("".to_owned());
        },
        ProviderType::Xai => {
            if sources.xai_login {
                return Ok("".to_owned());
            }
        },
        _ => {},
    }
    let names = api_key_variables(provider);
    match first_variable(&sources.environment, &names) {
        Some(key) => Ok(key),
        None => Err(MissingApiKey),
    }
}

/// A key saved under the store key of a provider is the key that resolution finds
/// for it, unless the command line or the configuration gives another.
pub proof fn law_saved_key_is_found(p: ProviderType, key: String, sources: KeySources)
    requires
        !out_of_band(p),
        sources.stored@.contains_key(store_key(p)->0),
        sources.stored@[store_key(p)->0] == key,
    ensures
        resolved_key(None, None, p, sources) == Some(key@),
{
}

/// Resolution for a provider that authenticates out of band never fails.
pub proof fn law_out_of_band_needs_no_key(p: ProviderType, sources: KeySources)
    requires
        out_of_band(p),
    ensures
        resolved_key(None, None, p, sources) is Some,
{
}

/// What can be seen of AWS credentials without a network call.
pub struct AwsFacts {
    /// `AWS_ACCESS_KEY_ID` is set and not empty.
    pub access_key_id: bool,
    /// `AWS_SECRET_ACCESS_KEY` is set and not empty.
    pub secret_access_key: bool,
    /// `AWS_PROFILE` is set and not empty.
    pub profile: bool,
    /// `AWS_CONTAINER_CREDENTIALS_RELATIVE_URI` is set and not empty.
    pub container_relative_uri: bool,
    /// `AWS_CONTAINER_CREDENTIALS_FULL_URI` is set and not empty.
    pub container_full_uri: bool,
    /// `AWS_WEB_IDENTITY_TOKEN_FILE` is set and not empty.
    pub web_identity_token_file: bool,
    /// The shared credentials file exists.
    pub credentials_file_exists: bool,
    /// The shared config file exists.
    pub config_file_exists: bool,
}

/// What can be seen of GCP credentials without a network call.
pub struct GcpFacts {
    /// `GOOGLE_APPLICATION_CREDENTIALS` is set and not empty.
    pub application_credentials: bool,
    /// The application default credentials file exists.
    pub default_credentials_exist: bool,
}

/// What decides whether a provider is connected.
pub struct ConnectionFacts {
    /// AWS credentials.
    pub aws: AwsFacts,
    /// GCP credentials.
    pub gcp: GcpFacts,
    /// The stored ChatGPT login exists.
    pub chatgpt_login: bool,
    /// Where API keys may come from.
    pub keys: KeySources,
}

/// Whether some AWS credential is there: both static keys, a profile, a role handed
/// to the process, or a shared file.
pub open spec fn aws_present(f: AwsFacts) -> bool {
    ||| f.access_key_id && f.secret_access_key
    ||| f.profile
    ||| f.container_relative_uri
    ||| f.container_full_uri
    ||| f.web_identity_token_file
    ||| f.credentials_file_exists
    ||| f.config_file_exists
}

/// Whether some AWS credential is there.
pub fn aws_ambient_credentials_present(f: &AwsFacts) -> (r: bool)
    ensures
        r == aws_present(*f),
{
    (f.access_key_id && f.secret_access_key) || f.profile || f.container_relative_uri
        || f.container_full_uri || f.web_identity_token_file || f.credentials_file_exists
        || f.config_file_exists
}

/// Whether some GCP credential is there.
pub fn gcp_ambient_credentials_present(f: &GcpFacts) -> (r: bool)
    ensures
        r == (f.application_credentials || f.default_credentials_exist),
{
    f.application_credentials || f.default_credentials_exist
}

/// Whether the credential of `p` is there right now.
pub open spec fn connected(p: ProviderType, f: ConnectionFacts) -> bool {
    match p {
        ProviderType::Bedrock => aws_present(f.aws),
        ProviderType::Vertex => f.gcp.application_credentials || f.gcp.default_credentials_exist,
        ProviderType::OpenAIChatGpt => f.chatgpt_login,
        _ => match resolved_key(None, None, p, f.keys) {
            Some(k) => !crate::text::is_blank(k),
            None => false,
        },
    }
}

/// Whether the credential of `provider` is there right now: cloud credentials for
/// Bedrock and Vertex, a stored login for ChatGPT, an API key that is not blank
/// for the rest.
pub fn provider_connected(provider: ProviderType, facts: &ConnectionFacts) -> (r: bool)
    ensures
        r == connected(provider, *facts),
{
    match provider {
        ProviderType::Bedrock => aws_ambient_credentials_present(&facts.aws),
        ProviderType::Vertex => gcp_ambient_credentials_present(&facts.gcp),
        ProviderType::OpenAIChatGpt => facts.chatgpt_login,
        _ => match resolve_api_key(None, None, provider, &facts.keys) {
            Ok(key) => !crate::text::blank(key.as_str()),
            Err(_) => false,
        },
    }
}

/// The providers that a connection check covers, in order.
pub open spec fn known_providers() -> Seq<ProviderType> {
    seq![
        ProviderType::Anthropic,
        ProviderType::OpenAI,
        ProviderType::Bedrock,
        ProviderType::Vertex,
        ProviderType::Gemini,
        ProviderType::OpenAIChatGpt,
    ]
}

/// The known providers that are connected, in order.
pub fn connected_providers(facts: &ConnectionFacts) -> (r: Vec<ProviderType>)
    ensures
        r@ == known_providers().filter(|p: ProviderType| connected(p, *facts)),
{
    let ghost keep = |p: ProviderType| connected(p, *facts);
    let known: Vec<ProviderType> = vec![
        ProviderType::Anthropic,
        ProviderType::OpenAI,
        ProviderType::Bedrock,
        ProviderType::Vertex,
        ProviderType::Gemini,
        ProviderType::OpenAIChatGpt,
    ];
    let mut out: Vec<ProviderType> = Vec::new();
    let mut i: usize = 0;
    proof {
        assert(known@ =~= known_providers());
    }
    while i < known.len()
        invariant
            i <= known.len(),
            known@ == known_providers(),
            keep == (|p: ProviderType| connected(p, *facts)),
            out@ == known@.take(i as int).filter(keep),
        decreases known.len() - i,
    {
        proof {
            let next = known@.take(i as int + 1);
            assert(next.drop_last() =~= known@.take(i as int));
            assert(next.last() == known@[i as int]);
            reveal(Seq::filter);
        }
        if provider_connected(known[i], facts) {
            out.push(known[i]);
        }
        i = i + 1;
    }
    proof {
        assert(known@.take(known@.len() as int) =~= known@);
    }
    out
}

} // verus!
