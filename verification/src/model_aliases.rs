//! Model identifiers that the configuration refers to by role.
//!
//! The identifiers change as vendors retire models, so they are kept in one table that the
//! application hands to the rules that need it.

use vstd::prelude::*;

use crate::replica::opt_text;
use crate::table::StrMap;

verus! {

/// The model identifiers by role.
pub struct ModelAliases {
    /// The mid-tier model of Anthropic.
    pub anthropic_sonnet: String,
    /// The same model on AWS Bedrock.
    pub bedrock_sonnet: String,
    /// The same model on Google Vertex AI.
    pub vertex_sonnet: String,
    /// The general model of OpenAI.
    pub openai_gpt4o: String,
    /// Gemini Pro, on Vertex AI and on the native API alike.
    pub vertex_gemini_pro: String,
    /// The headline model of MiniMax.
    pub minimax_m2: String,
    /// The models that short forms such as `anthropic:sonnet` stand for.
    pub short_forms: StrMap<String>,
}

/// The model that a short form stands for.
pub open spec fn short_form(models: ModelAliases, model: Seq<char>) -> Option<Seq<char>> {
    if models.short_forms@.contains_key(model) {
        Some(models.short_forms@[model]@)
    } else {
        None
    }
}

/// The model that a short form stands for; `None` for a literal model identifier.
pub fn expand_short_form(models: &ModelAliases, model: &str) -> (r: Option<String>)
    ensures
        opt_text(r) == short_form(*models, model@),
{
    match models.short_forms.get(model) {
        Some(full) => Some(full.clone()),
        None => None,
    }
}

} // verus!
