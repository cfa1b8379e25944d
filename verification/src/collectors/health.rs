//! The health collector: one liveness probe per cycle, reported as a
//! service check with three states.

use vstd::prelude::*;
use crate::config::Configuration;
use crate::sink::{
    emit, error_increment, errors_total, service_check, Diagnostic, Effect, EffectView,
    MetricKind, QueryError, ServiceCheckStatus,
};
use crate::text::join;

verus! {

/// The name of the service check: the configured prefix, a dot, and
/// `health`.
pub open spec fn health_check_name(cfg: Configuration) -> Seq<char> {
    cfg.prefix@ + ".health"@
}

/// The state that a probe stands for: healthy where the engine answered
/// with status 200, critical where it answered with another status, unknown
/// where the probe did not get through.
pub open spec fn health_status(probe: Option<u16>) -> ServiceCheckStatus {
    match probe {
        Some(status) => if status == 200 {
            ServiceCheckStatus::Healthy
        } else {
            ServiceCheckStatus::Critical
        },
        None => ServiceCheckStatus::Unknown,
    }
}

/// What follows from a probe: the service check in the state that the probe
/// stands for and, where the probe did not get through, one increment of
/// the error counter and a warning.
pub open spec fn health_effects(cfg: Configuration, probe: Option<u16>) -> Seq<EffectView> {
    let check = service_check(health_check_name(cfg), health_status(probe));
    match probe {
        Some(_) => seq![check],
        None => seq![
            check,
            errors_total("type:health"@),
            EffectView::Warn(Diagnostic::Query(QueryError::TransportError)),
        ],
    }
}

/// Decides what follows from the liveness probe. `probe` is the status that
/// the engine answered with, or `None` where the probe did not get through.
pub fn check_health(cfg: &Configuration, probe: Option<u16>) -> (effects: Vec<Effect>)
    ensures
        effects.deep_view() == health_effects(*cfg, probe),
{
    let name = join(cfg.prefix.as_str(), ".health");
    let status = match probe {
        Some(code) => {
            if code == 200 {
                ServiceCheckStatus::Healthy
            } else {
                ServiceCheckStatus::Critical
            }
        },
        None => ServiceCheckStatus::Unknown,
    };
    let tags: Vec<String> = Vec::new();
    assert(tags.deep_view() =~= Seq::<Seq<char>>::empty());
    let mut effects: Vec<Effect> = Vec::new();
    effects.push(emit(name.as_str(), MetricKind::ServiceCheck(status), tags));
    if probe.is_none() {
        effects.push(error_increment("type:health"));
        effects.push(Effect::Warn(Diagnostic::Query(QueryError::TransportError)));
    }
    assert(effects.deep_view() =~= health_effects(*cfg, probe));
    effects
}

} // verus!
