//! How full the context window of the active model is.

use vstd::prelude::*;

use crate::double::{percent, percent_of};
use crate::limits::{
    ceiling_of, flux_tier_context_window, model_output_ceiling, tier_window, ModelLimits,
};

verus! {

/// The tokens of a request against the window of its model.
#[derive(Debug, Clone, Copy, PartialEq, Eq, Structural)]
pub struct ContextWindow {
    /// The tokens of the request.
    pub used_tokens: u64,
    /// The window of the model, if it is known.
    pub window: Option<u64>,
}

/// The window of a model: its real one where it is known, else that of a Flux tier, else the
/// configured one if it is not zero.
pub open spec fn window_of(known: Option<u64>, model: Seq<char>, config_window: u64) -> Option<u64> {
    match known {
        Some(w) => Some(w),
        None => match tier_window(model) {
            Some(w) => Some(w),
            None => if config_window > 0 {
                Some(config_window)
            } else {
                None
            },
        },
    }
}

/// The window of `model` at `provider`, if `limits` has it.
pub open spec fn known_window(
    limits: ModelLimits,
    provider: Seq<char>,
    model: Seq<char>,
) -> Option<u64> {
    match ceiling_of(limits.ceilings@, provider, model) {
        Some((_, window)) => Some(window as u64),
        None => None,
    }
}

impl ContextWindow {
    /// The view for a request to `model`, whose real window is `known` if there is one.
    pub fn resolve_known(
        used_tokens: u64,
        known: Option<u64>,
        model: &str,
        config_window: u64,
    ) -> (r: Self)
        ensures
            r.used_tokens == used_tokens,
            r.window == window_of(known, model@, config_window),
    {
        let window = match known {
            Some(w) => Some(w),
            None => match flux_tier_context_window(model) {
                Some(w) => Some(w),
                None => if config_window > 0 {
                    Some(config_window)
                } else {
                    None
                },
            },
        };
        ContextWindow { used_tokens, window }
    }

    /// The view for a request to `model` at `provider`, whose real window is that in `limits`
    /// if it is known there.
    pub fn resolve(
        used_tokens: u64,
        provider: &str,
        model: &str,
        config_window: u64,
        limits: &ModelLimits,
    ) -> (r: Self)
        ensures
            r.used_tokens == used_tokens,
            r.window == window_of(
                known_window(*limits, provider@, model@),
                model@,
                config_window,
            ),
    {
        let known = match model_output_ceiling(limits, provider, model) {
            Some((_, window)) => Some(window as u64),
            None => None,
        };
        ContextWindow::resolve_known(used_tokens, known, model, config_window)
    }

    /// How full the window is, in percent, as double precision gives it. It exceeds 100 where
    /// the request does not fit, and is unknown where the window is unknown or zero.
    pub fn percent(&self) -> (r: Option<u32>)
        ensures
            match self.window {
                Some(w) => if w == 0 {
                    r is None
                } else {
                    r matches Some(p) && p == if percent_of(self.used_tokens as nat, w as nat)
                        > u32::MAX {
                        u32::MAX as nat
                    } else {
                        percent_of(self.used_tokens as nat, w as nat)
                    }
                },
                None => r is None,
            },
    {
        match self.window {
            Some(w) => if w == 0 {
                None
            } else {
                Some(percent(self.used_tokens, w))
            },
            None => None,
        }
    }

    /// The most tokens a request may have: the window less what the answer and the reserve
    /// take, and never below zero.
    pub fn input_ceiling(&self, output_reserve: u64, emergency_buffer: u64) -> (r: Option<u64>)
        ensures
            match self.window {
                Some(w) => r matches Some(c) && c == if w >= output_reserve + emergency_buffer {
                    w - output_reserve - emergency_buffer
                } else {
                    0
                },
                None => r is None,
            },
    {
        match self.window {
            Some(w) => Some(
                w.saturating_sub(output_reserve).saturating_sub(emergency_buffer),
            ),
            None => None,
        }
    }
}

/// The configured window never takes the place of a known one or of a tier's.
pub proof fn law_configured_window_is_the_last_resort(
    known: Option<u64>,
    model: Seq<char>,
    a: u64,
    b: u64,
)
    requires
        known is Some || tier_window(model) is Some,
    ensures
        window_of(known, model, a) == window_of(known, model, b),
        window_of(known, model, a) is Some,
{
}

} // verus!
