//! Where a provider's key comes from, by what names providers are known, and when one counts as
//! connected.

use crate::config::host::{are_facts, is_set};
use crate::config::keys::{
    aws_present, connected, first_set, known_providers, resolved_key, ConnectionFacts, KeySources,
};
use crate::config::paths::{home_of_profile, joined, HomeFacts};
use crate::config::provider::{
    accepts_effort, default_base_url, default_model, driver_model, openai_wire, provider_named,
    slug_of, store_key, ProviderType,
};
use crate::model_aliases::ModelAliases;
use crate::table::StrMap;
use crate::text::{ascii_lower, is_blank, listed};
use vstd::prelude::*;

verus! {

/// A key is looked for in this order, and the first found stands: the command line, the provider's
/// entry, the credentials store, `API_KEY` of the environment.
pub proof fn law_key_order(
    cli: Option<Seq<char>>,
    config: Option<Seq<char>>,
    p: ProviderType,
    sources: KeySources,
)
    ensures
        cli is Some ==> resolved_key(cli, config, p, sources) == cli,
        cli is None && config is Some ==> resolved_key(cli, config, p, sources) == config,
        cli is None && config is None && !(p == ProviderType::Bedrock || p == ProviderType::Vertex
            || p == ProviderType::OpenAIChatGpt) && sources.stored@.contains_key(
            "providers."@ + slug_of(p) + ".api_key"@,
        ) ==> resolved_key(cli, config, p, sources) == Some(
            sources.stored@["providers."@ + slug_of(p) + ".api_key"@]@,
        ),
        cli is None && config is None && (p == ProviderType::Bedrock || p == ProviderType::Vertex
            || p == ProviderType::OpenAIChatGpt || !sources.stored@.contains_key(
            "providers."@ + slug_of(p) + ".api_key"@,
        )) && sources.environment@.contains_key("API_KEY"@) ==> resolved_key(
            cli,
            config,
            p,
            sources,
        ) == Some(sources.environment@["API_KEY"@]@),
{
}

/// A provider that signs in another way than by a key needs none: where the environment gives no
/// `API_KEY`, the key is empty. So is xAI's where its login is there.
pub proof fn law_logins_need_no_key(p: ProviderType, sources: KeySources)
    requires
        !sources.environment@.contains_key("API_KEY"@),
    ensures
        p == ProviderType::Bedrock || p == ProviderType::Vertex || p == ProviderType::OpenAIChatGpt
            ==> resolved_key(None, None, p, sources) == Some(""@),
        p == ProviderType::Xai && sources.xai_login && !sources.stored@.contains_key(
            "providers."@ + slug_of(p) + ".api_key"@,
        ) ==> resolved_key(None, None, p, sources) == Some(""@),
{
}

/// The environment variable that holds a provider's key, where nothing before it gives one.
pub proof fn law_key_variable_of_each_provider(p: ProviderType, sources: KeySources)
    requires
        !sources.environment@.contains_key("API_KEY"@),
        !sources.stored@.contains_key("providers."@ + slug_of(p) + ".api_key"@),
        !sources.xai_login,
    ensures
        ({
            let env = sources.environment@;
            let got = resolved_key(None, None, p, sources);
            &&& p == ProviderType::Anthropic ==> got == if env.contains_key("ANTHROPIC_API_KEY"@) {
                Some(env["ANTHROPIC_API_KEY"@]@)
            } else {
                None
            }
            &&& p == ProviderType::OpenAI ==> got == if env.contains_key("OPENAI_API_KEY"@) {
                Some(env["OPENAI_API_KEY"@]@)
            } else {
                None
            }
            &&& p == ProviderType::Gemini ==> got == if env.contains_key("GEMINI_API_KEY"@) {
                Some(env["GEMINI_API_KEY"@]@)
            } else if env.contains_key("GOOGLE_API_KEY"@) {
                Some(env["GOOGLE_API_KEY"@]@)
            } else {
                None
            }
            &&& p == ProviderType::AzureOpenAI ==> got
                == if env.contains_key("AZURE_OPENAI_API_KEY"@) {
                Some(env["AZURE_OPENAI_API_KEY"@]@)
            } else {
                None
            }
            &&& p == ProviderType::Together ==> got == if env.contains_key("TOGETHER_API_KEY"@) {
                Some(env["TOGETHER_API_KEY"@]@)
            } else {
                None
            }
            &&& p == ProviderType::Fireworks ==> got == if env.contains_key("FIREWORKS_API_KEY"@) {
                Some(env["FIREWORKS_API_KEY"@]@)
            } else {
                None
            }
            &&& p == ProviderType::Nvidia ==> got == if env.contains_key("NVIDIA_API_KEY"@) {
                Some(env["NVIDIA_API_KEY"@]@)
            } else {
                None
            }
            &&& p == ProviderType::Perplexity ==> got
                == if env.contains_key("PERPLEXITY_API_KEY"@) {
                Some(env["PERPLEXITY_API_KEY"@]@)
            } else {
                None
            }
            &&& p == ProviderType::Cerebras ==> got == if env.contains_key("CEREBRAS_API_KEY"@) {
                Some(env["CEREBRAS_API_KEY"@]@)
            } else {
                None
            }
            &&& p == ProviderType::OpenRouter ==> got
                == if env.contains_key("OPENROUTER_API_KEY"@) {
                Some(env["OPENROUTER_API_KEY"@]@)
            } else {
                None
            }
            &&& p == ProviderType::FluxRouter ==> got == if env.contains_key("FLUX_API_KEY"@) {
                Some(env["FLUX_API_KEY"@]@)
            } else {
                None
            }
            &&& p == ProviderType::Deepseek ==> got == if env.contains_key("DEEPSEEK_API_KEY"@) {
                Some(env["DEEPSEEK_API_KEY"@]@)
            } else {
                None
            }
            &&& p == ProviderType::Xai ==> got == if env.contains_key("XAI_API_KEY"@) {
                Some(env["XAI_API_KEY"@]@)
            } else {
                None
            }
            &&& p == ProviderType::Groq ==> got == if env.contains_key("GROQ_API_KEY"@) {
                Some(env["GROQ_API_KEY"@]@)
            } else {
                None
            }
            &&& p == ProviderType::Moonshot ==> got == if env.contains_key("MOONSHOT_API_KEY"@) {
                Some(env["MOONSHOT_API_KEY"@]@)
            } else {
                None
            }
            &&& p == ProviderType::Qwen ==> got == if env.contains_key("DASHSCOPE_API_KEY"@) {
                Some(env["DASHSCOPE_API_KEY"@]@)
            } else if env.contains_key("ALIBABA_API_KEY"@) {
                Some(env["ALIBABA_API_KEY"@]@)
            } else {
                None
            }
            &&& p == ProviderType::Mistral ==> got == if env.contains_key("MISTRAL_API_KEY"@) {
                Some(env["MISTRAL_API_KEY"@]@)
            } else {
                None
            }
            &&& p == ProviderType::Cohere ==> got == if env.contains_key("COHERE_API_KEY"@) {
                Some(env["COHERE_API_KEY"@]@)
            } else {
                None
            }
            &&& p == ProviderType::MiniMax ==> got == if env.contains_key("MINIMAX_API_KEY"@) {
                Some(env["MINIMAX_API_KEY"@]@)
            } else {
                None
            }
            &&& p == ProviderType::Sakana ==> got == if env.contains_key("SAKANA_API_KEY"@) {
                Some(env["SAKANA_API_KEY"@]@)
            } else {
                None
            }
        }),
{
    let env = sources.environment@;
    if p == ProviderType::Anthropic {
        lemma_first_of_one(env, "ANTHROPIC_API_KEY"@);
    }
    if p == ProviderType::OpenAI {
        lemma_first_of_one(env, "OPENAI_API_KEY"@);
    }
    if p == ProviderType::Gemini {
        lemma_first_of_two(env, "GEMINI_API_KEY"@, "GOOGLE_API_KEY"@);
    }
    if p == ProviderType::AzureOpenAI {
        lemma_first_of_one(env, "AZURE_OPENAI_API_KEY"@);
    }
    if p == ProviderType::Together {
        lemma_first_of_one(env, "TOGETHER_API_KEY"@);
    }
    if p == ProviderType::Fireworks {
        lemma_first_of_one(env, "FIREWORKS_API_KEY"@);
    }
    if p == ProviderType::Nvidia {
        lemma_first_of_one(env, "NVIDIA_API_KEY"@);
    }
    if p == ProviderType::Perplexity {
        lemma_first_of_one(env, "PERPLEXITY_API_KEY"@);
    }
    if p == ProviderType::Cerebras {
        lemma_first_of_one(env, "CEREBRAS_API_KEY"@);
    }
    if p == ProviderType::OpenRouter {
        lemma_first_of_one(env, "OPENROUTER_API_KEY"@);
    }
    if p == ProviderType::FluxRouter {
        lemma_first_of_one(env, "FLUX_API_KEY"@);
    }
    if p == ProviderType::Deepseek {
        lemma_first_of_one(env, "DEEPSEEK_API_KEY"@);
    }
    if p == ProviderType::Xai {
        lemma_first_of_one(env, "XAI_API_KEY"@);
    }
    if p == ProviderType::Groq {
        lemma_first_of_one(env, "GROQ_API_KEY"@);
    }
    if p == ProviderType::Moonshot {
        lemma_first_of_one(env, "MOONSHOT_API_KEY"@);
    }
    if p == ProviderType::Qwen {
        lemma_first_of_two(env, "DASHSCOPE_API_KEY"@, "ALIBABA_API_KEY"@);
    }
    if p == ProviderType::Mistral {
        lemma_first_of_one(env, "MISTRAL_API_KEY"@);
    }
    if p == ProviderType::Cohere {
        lemma_first_of_one(env, "COHERE_API_KEY"@);
    }
    if p == ProviderType::MiniMax {
        lemma_first_of_one(env, "MINIMAX_API_KEY"@);
    }
    if p == ProviderType::Sakana {
        lemma_first_of_one(env, "SAKANA_API_KEY"@);
    }
}

proof fn lemma_first_of_one(env: Map<Seq<char>, String>, a: Seq<char>)
    ensures
        first_set(env, seq![a]) == if env.contains_key(a) {
            Some(env[a]@)
        } else {
            None
        },
{
    let names = seq![a];
    assert(names[0] == a);
    assert(names.drop_first().len() == 0);
    assert(first_set(env, names.drop_first()) is None);
}

proof fn lemma_first_of_two(env: Map<Seq<char>, String>, a: Seq<char>, b: Seq<char>)
    ensures
        first_set(env, seq![a, b]) == if env.contains_key(a) {
            Some(env[a]@)
        } else if env.contains_key(b) {
            Some(env[b]@)
        } else {
            None
        },
{
    let names = seq![a, b];
    assert(names[0] == a);
    assert(names.drop_first() =~= seq![b]);
    lemma_first_of_one(env, b);
}

/// A provider's name in files and on the command line.
pub proof fn law_provider_names(p: ProviderType)
    ensures
        p == ProviderType::Anthropic ==> slug_of(p) == "anthropic"@,
        p == ProviderType::OpenAI ==> slug_of(p) == "openai"@,
        p == ProviderType::Bedrock ==> slug_of(p) == "bedrock"@,
        p == ProviderType::Vertex ==> slug_of(p) == "vertex"@,
        p == ProviderType::Gemini ==> slug_of(p) == "gemini"@,
        p == ProviderType::AzureOpenAI ==> slug_of(p) == "azure-openai"@,
        p == ProviderType::Together ==> slug_of(p) == "together"@,
        p == ProviderType::Fireworks ==> slug_of(p) == "fireworks"@,
        p == ProviderType::Nvidia ==> slug_of(p) == "nvidia"@,
        p == ProviderType::Perplexity ==> slug_of(p) == "perplexity"@,
        p == ProviderType::Cerebras ==> slug_of(p) == "cerebras"@,
        p == ProviderType::OpenRouter ==> slug_of(p) == "openrouter"@,
        p == ProviderType::FluxRouter ==> slug_of(p) == "flux-router"@,
        p == ProviderType::Deepseek ==> slug_of(p) == "deepseek"@,
        p == ProviderType::Xai ==> slug_of(p) == "xai"@,
        p == ProviderType::Groq ==> slug_of(p) == "groq"@,
        p == ProviderType::Moonshot ==> slug_of(p) == "moonshot"@,
        p == ProviderType::Qwen ==> slug_of(p) == "qwen"@,
        p == ProviderType::Mistral ==> slug_of(p) == "mistral"@,
        p == ProviderType::Cohere ==> slug_of(p) == "cohere"@,
        p == ProviderType::OpenAIChatGpt ==> slug_of(p) == "openai-chatgpt"@,
        p == ProviderType::MiniMax ==> slug_of(p) == "minimax"@,
        p == ProviderType::Sakana ==> slug_of(p) == "sakana"@,
{
}

/// A provider is known by its own name and by its other names, and by no others.
pub proof fn law_names_of_providers(s: Seq<char>)
    ensures
        s == "anthropic"@ ==> provider_named(s) == Some(ProviderType::Anthropic),
        s == "openai"@ ==> provider_named(s) == Some(ProviderType::OpenAI),
        s == "bedrock"@ ==> provider_named(s) == Some(ProviderType::Bedrock),
        s == "vertex"@ ==> provider_named(s) == Some(ProviderType::Vertex),
        s == "gemini"@ ==> provider_named(s) == Some(ProviderType::Gemini),
        s == "azure-openai"@ ==> provider_named(s) == Some(ProviderType::AzureOpenAI),
        s == "together"@ ==> provider_named(s) == Some(ProviderType::Together),
        s == "fireworks"@ ==> provider_named(s) == Some(ProviderType::Fireworks),
        s == "nvidia"@ ==> provider_named(s) == Some(ProviderType::Nvidia),
        s == "perplexity"@ ==> provider_named(s) == Some(ProviderType::Perplexity),
        s == "cerebras"@ ==> provider_named(s) == Some(ProviderType::Cerebras),
        s == "openrouter"@ ==> provider_named(s) == Some(ProviderType::OpenRouter),
        s == "flux-router"@ ==> provider_named(s) == Some(ProviderType::FluxRouter),
        s == "deepseek"@ ==> provider_named(s) == Some(ProviderType::Deepseek),
        s == "xai"@ ==> provider_named(s) == Some(ProviderType::Xai),
        s == "groq"@ ==> provider_named(s) == Some(ProviderType::Groq),
        s == "moonshot"@ ==> provider_named(s) == Some(ProviderType::Moonshot),
        s == "qwen"@ ==> provider_named(s) == Some(ProviderType::Qwen),
        s == "mistral"@ ==> provider_named(s) == Some(ProviderType::Mistral),
        s == "cohere"@ ==> provider_named(s) == Some(ProviderType::Cohere),
        s == "openai-chatgpt"@ ==> provider_named(s) == Some(ProviderType::OpenAIChatGpt),
        s == "minimax"@ ==> provider_named(s) == Some(ProviderType::MiniMax),
        s == "sakana"@ ==> provider_named(s) == Some(ProviderType::Sakana),
        s == "google"@ ==> provider_named(s) == Some(ProviderType::Gemini),
        s == "azure"@ ==> provider_named(s) == Some(ProviderType::AzureOpenAI),
        s == "flux"@ ==> provider_named(s) == Some(ProviderType::FluxRouter),
        s == "grok"@ ==> provider_named(s) == Some(ProviderType::Xai),
        s == "kimi"@ ==> provider_named(s) == Some(ProviderType::Moonshot),
        s == "alibaba"@ ==> provider_named(s) == Some(ProviderType::Qwen),
        s == "dashscope"@ ==> provider_named(s) == Some(ProviderType::Qwen),
        s == "chatgpt"@ ==> provider_named(s) == Some(ProviderType::OpenAIChatGpt),
        s == "minimaxi"@ ==> provider_named(s) == Some(ProviderType::MiniMax),
        s == "fugu"@ ==> provider_named(s) == Some(ProviderType::Sakana),
        provider_named(s) is Some ==> s == "anthropic"@ || s == "openai"@ || s == "bedrock"@ || s
            == "vertex"@ || s == "gemini"@ || s == "azure-openai"@ || s == "together"@ || s
            == "fireworks"@ || s == "nvidia"@ || s == "perplexity"@ || s == "cerebras"@ || s
            == "openrouter"@ || s == "flux-router"@ || s == "deepseek"@ || s == "xai"@ || s
            == "groq"@ || s == "moonshot"@ || s == "qwen"@ || s == "mistral"@ || s == "cohere"@
            || s == "openai-chatgpt"@ || s == "minimax"@ || s == "sakana"@ || s == "google"@ || s
            == "azure"@ || s == "flux"@ || s == "grok"@ || s == "kimi"@ || s == "alibaba"@ || s
            == "dashscope"@ || s == "chatgpt"@ || s == "minimaxi"@ || s == "fugu"@,
{
    reveal_strlit("anthropic");
    reveal_strlit("openai");
    reveal_strlit("bedrock");
    reveal_strlit("vertex");
    reveal_strlit("gemini");
    reveal_strlit("azure-openai");
    reveal_strlit("together");
    reveal_strlit("fireworks");
    reveal_strlit("nvidia");
    reveal_strlit("perplexity");
    reveal_strlit("cerebras");
    reveal_strlit("openrouter");
    reveal_strlit("flux-router");
    reveal_strlit("deepseek");
    reveal_strlit("xai");
    reveal_strlit("groq");
    reveal_strlit("moonshot");
    reveal_strlit("qwen");
    reveal_strlit("mistral");
    reveal_strlit("cohere");
    reveal_strlit("openai-chatgpt");
    reveal_strlit("minimax");
    reveal_strlit("sakana");
    reveal_strlit("google");
    reveal_strlit("azure");
    reveal_strlit("flux");
    reveal_strlit("grok");
    reveal_strlit("kimi");
    reveal_strlit("alibaba");
    reveal_strlit("dashscope");
    reveal_strlit("chatgpt");
    reveal_strlit("minimaxi");
    reveal_strlit("fugu");
    assert("anthropic"@.len() == 9);
    assert("openai"@.len() == 6);
    assert("bedrock"@.len() == 7);
    assert("vertex"@.len() == 6);
    assert("gemini"@.len() == 6);
    assert("azure-openai"@.len() == 12);
    assert("together"@.len() == 8);
    assert("fireworks"@.len() == 9);
    assert("nvidia"@.len() == 6);
    assert("perplexity"@.len() == 10);
    assert("cerebras"@.len() == 8);
    assert("openrouter"@.len() == 10);
    assert("flux-router"@.len() == 11);
    assert("deepseek"@.len() == 8);
    assert("xai"@.len() == 3);
    assert("groq"@.len() == 4);
    assert("moonshot"@.len() == 8);
    assert("qwen"@.len() == 4);
    assert("mistral"@.len() == 7);
    assert("cohere"@.len() == 6);
    assert("openai-chatgpt"@.len() == 14);
    assert("minimax"@.len() == 7);
    assert("sakana"@.len() == 6);
    assert("google"@.len() == 6);
    assert("azure"@.len() == 5);
    assert("flux"@.len() == 4);
    assert("grok"@.len() == 4);
    assert("kimi"@.len() == 4);
    assert("alibaba"@.len() == 7);
    assert("dashscope"@.len() == 9);
    assert("chatgpt"@.len() == 7);
    assert("minimaxi"@.len() == 8);
    assert("fugu"@.len() == 4);
    assert("anthropic"@[0] == 'a' && "anthropic"@[1] == 'n' && "anthropic"@[2] == 't');
    assert("openai"@[0] == 'o' && "openai"@[1] == 'p' && "openai"@[2] == 'e');
    assert("bedrock"@[0] == 'b' && "bedrock"@[1] == 'e' && "bedrock"@[2] == 'd');
    assert("vertex"@[0] == 'v' && "vertex"@[1] == 'e' && "vertex"@[2] == 'r');
    assert("gemini"@[0] == 'g' && "gemini"@[1] == 'e' && "gemini"@[2] == 'm');
    assert("azure-openai"@[0] == 'a' && "azure-openai"@[1] == 'z' && "azure-openai"@[2] == 'u');
    assert("together"@[0] == 't' && "together"@[1] == 'o' && "together"@[2] == 'g');
    assert("fireworks"@[0] == 'f' && "fireworks"@[1] == 'i' && "fireworks"@[2] == 'r');
    assert("nvidia"@[0] == 'n' && "nvidia"@[1] == 'v' && "nvidia"@[2] == 'i');
    assert("perplexity"@[0] == 'p' && "perplexity"@[1] == 'e' && "perplexity"@[2] == 'r');
    assert("cerebras"@[0] == 'c' && "cerebras"@[1] == 'e' && "cerebras"@[2] == 'r');
    assert("openrouter"@[0] == 'o' && "openrouter"@[1] == 'p' && "openrouter"@[2] == 'e');
    assert("flux-router"@[0] == 'f' && "flux-router"@[1] == 'l' && "flux-router"@[2] == 'u');
    assert("deepseek"@[0] == 'd' && "deepseek"@[1] == 'e' && "deepseek"@[2] == 'e');
    assert("xai"@[0] == 'x' && "xai"@[1] == 'a' && "xai"@[2] == 'i');
    assert("groq"@[0] == 'g' && "groq"@[1] == 'r' && "groq"@[2] == 'o');
    assert("moonshot"@[0] == 'm' && "moonshot"@[1] == 'o' && "moonshot"@[2] == 'o');
    assert("qwen"@[0] == 'q' && "qwen"@[1] == 'w' && "qwen"@[2] == 'e');
    assert("mistral"@[0] == 'm' && "mistral"@[1] == 'i' && "mistral"@[2] == 's');
    assert("cohere"@[0] == 'c' && "cohere"@[1] == 'o' && "cohere"@[2] == 'h');
    assert("openai-chatgpt"@[0] == 'o' && "openai-chatgpt"@[1] == 'p' && "openai-chatgpt"@[2]
        == 'e');
    assert("minimax"@[0] == 'm' && "minimax"@[1] == 'i' && "minimax"@[2] == 'n');
    assert("sakana"@[0] == 's' && "sakana"@[1] == 'a' && "sakana"@[2] == 'k');
    assert("google"@[0] == 'g' && "google"@[1] == 'o' && "google"@[2] == 'o');
    assert("azure"@[0] == 'a' && "azure"@[1] == 'z' && "azure"@[2] == 'u');
    assert("flux"@[0] == 'f' && "flux"@[1] == 'l' && "flux"@[2] == 'u');
    assert("grok"@[0] == 'g' && "grok"@[1] == 'r' && "grok"@[2] == 'o');
    assert("kimi"@[0] == 'k' && "kimi"@[1] == 'i' && "kimi"@[2] == 'm');
    assert("alibaba"@[0] == 'a' && "alibaba"@[1] == 'l' && "alibaba"@[2] == 'i');
    assert("dashscope"@[0] == 'd' && "dashscope"@[1] == 'a' && "dashscope"@[2] == 's');
    assert("chatgpt"@[0] == 'c' && "chatgpt"@[1] == 'h' && "chatgpt"@[2] == 'a');
    assert("minimaxi"@[0] == 'm' && "minimaxi"@[1] == 'i' && "minimaxi"@[2] == 'n');
    assert("fugu"@[0] == 'f' && "fugu"@[1] == 'u' && "fugu"@[2] == 'g');
    assert("groq"@[3] == 'q' && "grok"@[3] == 'k');
}

/// A saved key is kept under the provider's own name; providers that sign in another way have no
/// such place.
pub proof fn law_place_of_a_saved_key(p: ProviderType)
    ensures
        store_key(p) is None <==> p == ProviderType::Bedrock || p == ProviderType::Vertex || p
            == ProviderType::OpenAIChatGpt,
        store_key(p) is Some ==> store_key(p) == Some("providers."@ + slug_of(p) + ".api_key"@),
{
}

/// The built-in providers that do not speak the OpenAI protocol are five.
pub proof fn law_who_speaks_the_openai_protocol(p: ProviderType)
    ensures
        !openai_wire(p) <==> p == ProviderType::Anthropic || p == ProviderType::Bedrock || p
            == ProviderType::Vertex || p == ProviderType::Gemini || p == ProviderType::MiniMax,
{
}

/// The address of a provider that has one of its own; the others have none.
pub proof fn law_provider_addresses(p: ProviderType)
    ensures
        p == ProviderType::Anthropic ==> default_base_url(p) == "https://api.anthropic.com"@,
        p == ProviderType::OpenAI ==> default_base_url(p) == "https://api.openai.com"@,
        p == ProviderType::Gemini ==> default_base_url(p)
            == "https://generativelanguage.googleapis.com"@,
        p == ProviderType::OpenAIChatGpt ==> default_base_url(p)
            == "https://chatgpt.com/backend-api/codex"@,
        p == ProviderType::MiniMax ==> default_base_url(p) == "https://api.minimax.io/anthropic"@,
        default_base_url(p).len() > 0 ==> p == ProviderType::Anthropic || p == ProviderType::OpenAI
            || p == ProviderType::Gemini || p == ProviderType::OpenAIChatGpt || p
            == ProviderType::MiniMax,
{
    reveal_strlit("");
}

/// The model that a provider starts with, and the one that drives its builders.
pub proof fn law_provider_models(p: ProviderType, models: ModelAliases)
    ensures
        p == ProviderType::Anthropic ==> default_model(p, models) == models.anthropic_sonnet@,
        p == ProviderType::OpenAI ==> default_model(p, models) == models.openai_gpt4o@,
        p == ProviderType::Bedrock ==> default_model(p, models) == models.bedrock_sonnet@,
        p == ProviderType::Vertex ==> default_model(p, models) == models.vertex_sonnet@,
        p == ProviderType::Gemini ==> default_model(p, models) == models.vertex_gemini_pro@,
        p == ProviderType::OpenAIChatGpt ==> default_model(p, models) == "gpt-5.5"@,
        p == ProviderType::MiniMax ==> default_model(p, models) == models.minimax_m2@,
        p == ProviderType::Sakana ==> default_model(p, models) == "fugu"@,
        p == ProviderType::Anthropic ==> driver_model(p, models) == models.anthropic_sonnet@,
        p != ProviderType::Anthropic ==> driver_model(p, models).len() == 0,
{
    reveal_strlit("");
}

/// A model takes an effort setting where its name, in any case, begins with `gpt-5` or with the
/// letter o and a digit; another name takes none.
pub proof fn law_effort_goes_by_the_name(rest: Seq<char>, digit: char, model: Seq<char>)
    ensures
        '0' <= digit && digit <= '9' ==> accepts_effort(seq!['o', digit] + rest),
        '0' <= digit && digit <= '9' ==> accepts_effort(seq!['O', digit] + rest),
        accepts_effort("gpt-5"@ + rest),
        accepts_effort("GPT-5"@ + rest),
        model.len() < 2 ==> !accepts_effort(model),
        model.len() >= 2 && model[0] != 'o' && model[0] != 'O' && model[0] != 'g' && model[0] != 'G'
            ==> !accepts_effort(model),
{
    reveal_strlit("gpt-5");
    reveal_strlit("GPT-5");
    let a = ascii_lower("gpt-5"@ + rest);
    let b = ascii_lower("GPT-5"@ + rest);
    assert("gpt-5"@.is_prefix_of(a)) by {
        assert(a.subrange(0, 5) =~= "gpt-5"@);
    }
    assert("gpt-5"@.is_prefix_of(b)) by {
        assert(b.subrange(0, 5) =~= "gpt-5"@);
    }
    let c = ascii_lower(seq!['o', digit] + rest);
    let d = ascii_lower(seq!['O', digit] + rest);
    assert('0' <= digit && digit <= '9' ==> c[0] == 'o' && c[1] == digit);
    assert('0' <= digit && digit <= '9' ==> d[0] == 'o' && d[1] == digit);
    let m = ascii_lower(model);
    if model.len() >= 2 && model[0] != 'o' && model[0] != 'O' && model[0] != 'g'
        && model[0] != 'G' {
        assert(m[0] != 'o' && m[0] != 'g');
        assert("gpt-5"@[0] == 'g');
        if "gpt-5"@.is_prefix_of(m) {
            assert(m.subrange(0, 5)[0] == m[0]);
        }
    }
    if model.len() < 2 {
        assert(m.len() < 2);
    }
}

/// A model takes an effort setting where its name begins so, and only there.
pub proof fn law_effort_models(model: Seq<char>)
    ensures
        accepts_effort(model) <==> (model.len() >= 2 && (model[0] == 'o' || model[0] == 'O') && '0'
            <= model[1] && model[1] <= '9') || (model.len() >= 5 && ascii_lower(model.take(5))
            == "gpt-5"@),
{
    reveal_strlit("gpt-5");
    let m = ascii_lower(model);
    if model.len() >= 2 {
        assert(m[0] == 'o' <==> model[0] == 'o' || model[0] == 'O');
        assert('0' <= m[1] && m[1] <= '9' <==> '0' <= model[1] && model[1] <= '9');
    }
    if model.len() >= 5 {
        assert(m.subrange(0, 5) =~= ascii_lower(model.take(5)));
    }
}

/// A provider is connected where what it signs in with is there: AWS credentials, Google
/// credentials, the ChatGPT login, and for every other provider a key that is not blank.
pub proof fn law_what_connects_a_provider(p: ProviderType, f: ConnectionFacts)
    ensures
        p == ProviderType::Bedrock ==> (connected(p, f) <==> (f.aws.access_key_id
            && f.aws.secret_access_key) || f.aws.profile || f.aws.container_relative_uri
            || f.aws.container_full_uri || f.aws.web_identity_token_file
            || f.aws.credentials_file_exists || f.aws.config_file_exists),
        p == ProviderType::Vertex ==> (connected(p, f) <==> f.gcp.application_credentials
            || f.gcp.default_credentials_exist),
        p == ProviderType::OpenAIChatGpt ==> (connected(p, f) <==> f.chatgpt_login),
        p != ProviderType::Bedrock && p != ProviderType::Vertex && p
            != ProviderType::OpenAIChatGpt && f.keys.stored@.contains_key(
            "providers."@ + slug_of(p) + ".api_key"@,
        ) ==> (connected(p, f) <==> !is_blank(
            f.keys.stored@["providers."@ + slug_of(p) + ".api_key"@]@,
        )),
        p != ProviderType::Bedrock && p != ProviderType::Vertex && p
            != ProviderType::OpenAIChatGpt && !f.keys.stored@.contains_key(
            "providers."@ + slug_of(p) + ".api_key"@,
        ) && f.keys.environment@.contains_key("API_KEY"@) ==> (connected(p, f) <==> !is_blank(
            f.keys.environment@["API_KEY"@]@,
        )),
        aws_present(f.aws) <==> (f.aws.access_key_id && f.aws.secret_access_key) || f.aws.profile
            || f.aws.container_relative_uri || f.aws.container_full_uri
            || f.aws.web_identity_token_file || f.aws.credentials_file_exists
            || f.aws.config_file_exists,
{
}

/// The providers that are looked at for a connection, in their order.
pub proof fn law_providers_looked_at()
    ensures
        known_providers() == seq![
            ProviderType::Anthropic,
            ProviderType::OpenAI,
            ProviderType::Bedrock,
            ProviderType::Vertex,
            ProviderType::Gemini,
            ProviderType::OpenAIChatGpt,
        ],
{
}

/// A variable of the environment counts where it is there and not empty.
pub proof fn law_empty_variables_do_not_count(env: Map<Seq<char>, String>, name: Seq<char>)
    ensures
        !env.contains_key(name) ==> !is_set(env, name),
        env.contains_key(name) ==> (is_set(env, name) <==> env[name]@.len() > 0),
{
}

/// Each fact of the AWS and Google sign-in is told by its own variable.
pub proof fn law_facts_come_from_their_variables(
    f: ConnectionFacts,
    env: StrMap<String>,
    stored: StrMap<String>,
    homes: HomeFacts,
    existing: Seq<String>,
)
    requires
        are_facts(f, env, stored, homes, existing),
    ensures
        f.aws.access_key_id <==> env@.contains_key("AWS_ACCESS_KEY_ID"@)
            && env@["AWS_ACCESS_KEY_ID"@]@.len() > 0,
        f.aws.secret_access_key <==> env@.contains_key("AWS_SECRET_ACCESS_KEY"@)
            && env@["AWS_SECRET_ACCESS_KEY"@]@.len() > 0,
        f.aws.profile <==> env@.contains_key("AWS_PROFILE"@)
            && env@["AWS_PROFILE"@]@.len() > 0,
        f.aws.container_relative_uri <==> env@.contains_key("AWS_CONTAINER_CREDENTIALS_RELATIVE_URI"@)
            && env@["AWS_CONTAINER_CREDENTIALS_RELATIVE_URI"@]@.len() > 0,
        f.aws.container_full_uri <==> env@.contains_key("AWS_CONTAINER_CREDENTIALS_FULL_URI"@)
            && env@["AWS_CONTAINER_CREDENTIALS_FULL_URI"@]@.len() > 0,
        f.aws.web_identity_token_file <==> env@.contains_key("AWS_WEB_IDENTITY_TOKEN_FILE"@)
            && env@["AWS_WEB_IDENTITY_TOKEN_FILE"@]@.len() > 0,
        f.gcp.application_credentials <==> env@.contains_key("GOOGLE_APPLICATION_CREDENTIALS"@)
            && env@["GOOGLE_APPLICATION_CREDENTIALS"@]@.len() > 0,
        f.keys.environment == env,
        f.keys.stored == stored,
{
}

/// Each fact about a file is told by its own path: the two AWS files where their variables point or
/// under `.aws`, the Google file under `.config/gcloud`, the ChatGPT and xAI logins in the
/// profile's home, and the Grok login under `GROK_HOME` or `.grok`.
pub proof fn law_facts_come_from_their_files(
    f: ConnectionFacts,
    env: StrMap<String>,
    stored: StrMap<String>,
    homes: HomeFacts,
    existing: Seq<String>,
    home: String,
)
    requires
        are_facts(f, env, stored, homes, existing),
        homes.home_dir == Some(home),
    ensures
        env@.contains_key("AWS_SHARED_CREDENTIALS_FILE"@) ==> (f.aws.credentials_file_exists
            <==> listed(existing, env@["AWS_SHARED_CREDENTIALS_FILE"@]@)),
        !env@.contains_key("AWS_SHARED_CREDENTIALS_FILE"@) ==> (f.aws.credentials_file_exists
            <==> listed(existing, joined(joined(home@, ".aws"@), "credentials"@))),
        env@.contains_key("AWS_CONFIG_FILE"@) ==> (f.aws.config_file_exists <==> listed(
            existing,
            env@["AWS_CONFIG_FILE"@]@,
        )),
        !env@.contains_key("AWS_CONFIG_FILE"@) ==> (f.aws.config_file_exists <==> listed(
            existing,
            joined(joined(home@, ".aws"@), "config"@),
        )),
        f.gcp.default_credentials_exist <==> listed(
            existing,
            joined(home@, ".config/gcloud/application_default_credentials.json"@),
        ),
        f.chatgpt_login <==> listed(
            existing,
            joined(joined(home_of_profile(homes), "oauth"@), "chatgpt.json"@),
        ),
        !env@.contains_key("GROK_HOME"@) ==> (f.keys.xai_login <==> listed(
            existing,
            joined(joined(home_of_profile(homes), "oauth"@), "xai.json"@),
        ) || listed(existing, joined(joined(home@, ".grok"@), "auth.json"@))),
        env@.contains_key("GROK_HOME"@) && !is_blank(env@["GROK_HOME"@]@) ==> (f.keys.xai_login
            <==> listed(existing, joined(joined(home_of_profile(homes), "oauth"@), "xai.json"@))
            || listed(existing, joined(env@["GROK_HOME"@]@, "auth.json"@))),
{
}

} // verus!
