//! Limits of models.

use vstd::prelude::*;

use crate::text::{ascii_lower, ascii_lowercase, same_text};

verus! {

/// The window that is safe to take for a Flux tier, which may be served by any model of its
/// pool.
pub const FLUX_TIER_WINDOW: u64 = 128000;

/// The limits of one model at one provider.
#[derive(Debug, Clone)]
pub struct ModelCeiling {
    /// The provider.
    pub provider: String,
    /// The model.
    pub model: String,
    /// The most tokens of an answer.
    pub output: u32,
    /// The context window.
    pub window: u32,
}

/// The limits of the models that are known.
#[derive(Debug, Clone)]
pub struct ModelLimits {
    /// One entry for each; of several for one model the first counts.
    pub ceilings: Vec<ModelCeiling>,
}

impl ModelCeiling {
    /// Whether the entry is for `model` at `provider`. The letter case of a model does not
    /// count.
    pub open spec fn is_for(self, provider: Seq<char>, model: Seq<char>) -> bool {
        self.provider@ == provider && ascii_lower(self.model@) == ascii_lower(model)
    }
}

/// The limits of `model` at `provider`, if they are known: the most tokens of an answer and
/// the context window.
pub open spec fn ceiling_of(
    ceilings: Seq<ModelCeiling>,
    provider: Seq<char>,
    model: Seq<char>,
) -> Option<(u32, u32)>
    decreases ceilings.len(),
{
    if ceilings.len() == 0 {
        None
    } else if ceilings[0].is_for(provider, model) {
        Some((ceilings[0].output, ceilings[0].window))
    } else {
        ceiling_of(ceilings.drop_first(), provider, model)
    }
}

/// The limits of `model` at `provider`, if they are known: the most tokens of an answer and
/// the context window.
pub fn model_output_ceiling(limits: &ModelLimits, provider: &str, model: &str) -> (r: Option<
    (u32, u32),
>)
    ensures
        r == ceiling_of(limits.ceilings@, provider@, model@),
{
    let low = ascii_lowercase(model);
    let mut i: usize = 0;
    proof {
        assert(limits.ceilings@.skip(0) =~= limits.ceilings@);
    }
    while i < limits.ceilings.len()
        invariant
            i <= limits.ceilings@.len(),
            low@ == ascii_lower(model@),
            ceiling_of(limits.ceilings@, provider@, model@) == ceiling_of(
                limits.ceilings@.skip(i as int),
                provider@,
                model@,
            ),
        decreases limits.ceilings.len() - i,
    {
        let entry = &limits.ceilings[i];
        proof {
            let rest = limits.ceilings@.skip(i as int);
            assert(rest[0] == limits.ceilings@[i as int]);
            assert(rest.drop_first() =~= limits.ceilings@.skip(i as int + 1));
        }
        if same_text(entry.provider.as_str(), provider) && same_text(
            ascii_lowercase(entry.model.as_str()).as_str(),
            low.as_str(),
        ) {
            return Some((entry.output, entry.window));
        }
        i = i + 1;
    }
    None
}

/// The context window of a Flux tier, in any letter case.
pub open spec fn tier_window(model: Seq<char>) -> Option<u64> {
    let m = ascii_lower(model);
    if m == "flux-auto"@ || m == "flux-fast"@ || m == "flux-standard"@ || m == "flux-reasoning"@ {
        Some(FLUX_TIER_WINDOW)
    } else {
        None
    }
}

/// The context window of a Flux tier, in any letter case.
pub fn flux_tier_context_window(model: &str) -> (r: Option<u64>)
    ensures
        r == tier_window(model@),
{
    let m = ascii_lowercase(model);
    if same_text(m.as_str(), "flux-auto") || same_text(m.as_str(), "flux-fast") || same_text(
        m.as_str(),
        "flux-standard",
    ) || same_text(m.as_str(), "flux-reasoning") {
        Some(FLUX_TIER_WINDOW)
    } else {
        None
    }
}

} // verus!
