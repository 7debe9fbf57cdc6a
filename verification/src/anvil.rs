//! The forge: whether it may run and which model drives its builders.

use vstd::prelude::*;

use crate::config::provider::{driver_model, driver_model_for, ProviderType};
use crate::model_aliases::ModelAliases;
use crate::replica::opt_text;

verus! {

/// Settings of the forge.
#[derive(Debug, Clone)]
pub struct AnvilConfig {
    /// Whether the forge is available.
    pub enabled: bool,
    /// The command that a candidate must pass. Empty: found out from the project.
    pub gate: Vec<String>,
    /// The provider that drives builders.
    pub driver_provider: Option<String>,
    /// The model that drives builders.
    pub driver_model: Option<String>,
}

impl Default for AnvilConfig {
    fn default() -> (r: Self)
        ensures
            r.enabled,
            r.gate@.len() == 0,
            r.driver_provider is None,
            r.driver_model is None,
    {
        AnvilConfig { enabled: true, gate: Vec::new(), driver_provider: None, driver_model: None }
    }
}

/// Where builders run.
#[derive(Debug, Clone, PartialEq, Eq)]
pub enum DriverSeatPlan {
    /// On the provider and model of the session.
    Session,
    /// On another model of the provider of the session.
    SessionModel {
        /// The model.
        model: String,
    },
    /// On another provider.
    Provider {
        /// The provider.
        provider: String,
        /// The model, if one is named.
        model: Option<String>,
    },
}

/// Whether `list` has the Flux router.
pub open spec fn has_flux(list: Seq<ProviderType>) -> bool {
    exists|i: int| 0 <= i < list.len() && #[trigger] list[i] == ProviderType::FluxRouter
}

/// Whether `plan` is the seat for a session on `session`, where `mid_tier` is the cheaper model
/// of its family and empty if it has none: the configured seat, else the Flux router if it is
/// connected and not the session itself, else the cheaper model, else the session.
pub open spec fn is_seat(
    plan: DriverSeatPlan,
    cfg: AnvilConfig,
    session: ProviderType,
    connected: Seq<ProviderType>,
    mid_tier: Seq<char>,
) -> bool {
    match cfg.driver_provider {
        Some(provider) => plan matches DriverSeatPlan::Provider { provider: p, model } && p@
            == provider@ && opt_text(model) == opt_text(cfg.driver_model),
        None => match cfg.driver_model {
            Some(model) => plan matches DriverSeatPlan::SessionModel { model: m } && m@ == model@,
            None => if session != ProviderType::FluxRouter && has_flux(connected) {
                plan matches DriverSeatPlan::Provider { provider, model: Some(model) } && provider@
                    == "flux-router"@ && model@ == "flux-auto"@
            } else if mid_tier.len() == 0 {
                plan is Session
            } else {
                plan matches DriverSeatPlan::SessionModel { model: m } && m@ == mid_tier
            },
        },
    }
}

fn knows_flux(list: &Vec<ProviderType>) -> (r: bool)
    ensures
        r == has_flux(list@),
{
    let mut i: usize = 0;
    while i < list.len()
        invariant
            i <= list@.len(),
            forall|j: int| 0 <= j < i ==> #[trigger] list@[j] != ProviderType::FluxRouter,
        decreases list.len() - i,
    {
        if list[i] == ProviderType::FluxRouter {
            return true;
        }
        i = i + 1;
    }
    false
}

impl AnvilConfig {
    /// The seat for a session on `session` whose family has the cheaper model `mid_tier`.
    pub fn driver_seat_with(
        &self,
        session: ProviderType,
        connected: &Vec<ProviderType>,
        mid_tier: &str,
    ) -> (r: DriverSeatPlan)
        ensures
            is_seat(r, *self, session, connected@, mid_tier@),
    {
        if let Some(provider) = &self.driver_provider {
            let model = match &self.driver_model {
                Some(m) => Some(m.clone()),
                None => None,
            };
            return DriverSeatPlan::Provider { provider: provider.clone(), model };
        }
        if let Some(model) = &self.driver_model {
            return DriverSeatPlan::SessionModel { model: model.clone() };
        }
        if session != ProviderType::FluxRouter && knows_flux(connected) {
            return DriverSeatPlan::Provider {
                provider: "flux-router".to_owned(),
                model: Some("flux-auto".to_owned()),
            };
        }
        if mid_tier.is_empty() {
            DriverSeatPlan::Session
        } else {
            DriverSeatPlan::SessionModel { model: mid_tier.to_owned() }
        }
    }

    /// The seat for a session on `session`.
    pub fn resolve_driver_seat(
        &self,
        session: ProviderType,
        connected: &Vec<ProviderType>,
        models: &ModelAliases,
    ) -> (r: DriverSeatPlan)
        ensures
            is_seat(r, *self, session, connected@, driver_model(session, *models)),
    {
        self.driver_seat_with(session, connected, driver_model_for(session, models))
    }
}

} // verus!
