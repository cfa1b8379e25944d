//! The metadata collector: the engine's version, whether its metadata is
//! consistent, and the export of the metadata for the event-trigger
//! collector.
//!
//! The two requests that need the admin credential are sent only where the
//! credential is there; without it they are skipped without a word.

use vstd::prelude::*;
use vstd::string::*;
use crate::collectors::sql::{
    fail, failure, is_success, lemma_failure_counts, outcome, query_result, Reply,
};
use crate::config::{Collectors, Configuration};
use crate::sink::{
    emit, error_increment, error_increments, errors_total, gauge, increment, is_error_increment,
    is_metric, lemma_count_concat, lemma_count_one, lemma_count_two, metric_emissions,
    Diagnostic, Effect, EffectView, MetricKind,
};
use crate::text::join;

verus! {

/// The request that asks whether the metadata is consistent. Its argument
/// object is always empty.
#[derive(Debug)]
pub struct MetadataCheckRequest {
    pub request_type: String,
}

impl MetadataCheckRequest {
    /// The consistency check.
    pub fn get_inconsistent_metadata() -> (request: MetadataCheckRequest)
        ensures
            request.request_type@ == "get_inconsistent_metadata"@,
    {
        MetadataCheckRequest { request_type: String::from_str("get_inconsistent_metadata") }
    }
}

/// The answer to the consistency check.
#[derive(Clone, Copy, Debug, PartialEq, Eq, Structural)]
pub struct MetadataCheckResponse {
    pub is_consistent: bool,
}

/// The request that exports the metadata. Its argument object is always
/// empty.
#[derive(Debug)]
pub struct MetadataExportRequest {
    pub request_type: String,
    pub version: i32,
}

impl MetadataExportRequest {
    /// The export, in version 2 of its format.
    pub fn export_metadata() -> (request: MetadataExportRequest)
        ensures
            request.request_type@ == "export_metadata"@,
            request.version == 2,
    {
        MetadataExportRequest { request_type: String::from_str("export_metadata"), version: 2 }
    }
}

/// The answer to the version query.
#[derive(Debug)]
pub struct VersionResponse {
    pub version: String,
}

/// One configured data source, as far as the collectors read it. A field is
/// `None` where the exported entry has no text under that key.
#[derive(Debug)]
pub struct DataSource {
    pub name: Option<String>,
    pub kind: Option<String>,
}

/// The exported metadata, as far as the collectors read it. `sources` is
/// `None` where the export holds no list of data sources; that is also the
/// value that stands for "nothing was exported".
#[derive(Debug)]
pub struct Metadata {
    pub sources: Option<Vec<DataSource>>,
}

impl Metadata {
    /// The metadata that stands for "nothing was exported".
    pub fn empty() -> (metadata: Metadata)
        ensures
            metadata.sources is None,
    {
        Metadata { sources: None }
    }
}

/// The label of the version query on the error counter.
pub open spec fn version_label() -> Seq<char> {
    "type:version"@
}

/// The label of the consistency check and of the export on the error
/// counter.
pub open spec fn metadata_label() -> Seq<char> {
    "type:metadata"@
}

/// What follows from the reply to the version query: one increment of the
/// version counter, tagged with the version, or the failure.
pub open spec fn version_effects(reply: Reply<VersionResponse>) -> Seq<EffectView> {
    match outcome(reply) {
        Ok(response) => seq![
            increment("metadata_version"@, seq!["version:"@ + response.version@]),
        ],
        Err(error) => failure(error, version_label()),
    }
}

/// Decides what follows from the reply to the version query.
pub fn fetch_version(reply: Reply<VersionResponse>) -> (effects: Vec<Effect>)
    ensures
        effects.deep_view() == version_effects(reply),
{
    match query_result(reply) {
        Ok(response) => {
            let mut tags: Vec<String> = Vec::new();
            tags.push(join("version:", response.version.as_str()));
            assert(tags.deep_view() =~= seq!["version:"@ + response.version@]);
            let mut effects: Vec<Effect> = Vec::new();
            effects.push(emit("metadata_version", MetricKind::Increment, tags));
            assert(effects.deep_view() =~= version_effects(reply));
            effects
        },
        Err(error) => fail(error, "type:version"),
    }
}

/// Whether a cycle sends the consistency check: the collector is enabled and
/// the admin credential is there.
pub open spec fn checks_consistency(cfg: Configuration) -> bool {
    !cfg.disables(Collectors::MetadataInconsistency) && cfg.hasura_admin is Some
}

/// What a cycle knows of the metadata's consistency after the check.
#[derive(Clone, Copy, Debug, PartialEq, Eq, Structural)]
pub enum Consistency {
    /// The engine said that the metadata is consistent.
    Consistent,
    /// The engine said that the metadata is inconsistent.
    Inconsistent,
    /// The check was not sent: the collector is disabled, or the admin
    /// credential is missing.
    NotChecked,
    /// The check was sent and failed.
    CheckFailed,
}

/// What is known of the metadata's consistency, given the reply to the
/// check: nothing where the check is not sent or failed, and otherwise what
/// the engine said.
pub open spec fn consistency_of(
    cfg: Configuration,
    reply: Reply<MetadataCheckResponse>,
) -> Consistency {
    if !checks_consistency(cfg) {
        Consistency::NotChecked
    } else {
        match outcome(reply) {
            Ok(response) => if response.is_consistent {
                Consistency::Consistent
            } else {
                Consistency::Inconsistent
            },
            Err(_) => Consistency::CheckFailed,
        }
    }
}

/// What follows from the reply to the consistency check: nothing where the
/// check is not sent; the consistency gauge, 1 for consistent and 0 for
/// inconsistent, where the engine answered; the failure otherwise.
pub open spec fn consistency_effects(
    cfg: Configuration,
    reply: Reply<MetadataCheckResponse>,
) -> Seq<EffectView> {
    if !checks_consistency(cfg) {
        seq![]
    } else {
        match outcome(reply) {
            Ok(response) => seq![
                gauge(
                    "metadata_consistency_status"@,
                    if response.is_consistent {
                        1i64
                    } else {
                        0i64
                    },
                    seq![],
                ),
            ],
            Err(error) => failure(error, metadata_label()),
        }
    }
}

/// Decides whether this cycle sends the consistency check.
pub fn metadata_consistency_request(cfg: &Configuration) -> (request: Option<
    MetadataCheckRequest,
>)
    ensures
        request is Some <==> checks_consistency(*cfg),
        request is Some ==> request->Some_0.request_type@ == "get_inconsistent_metadata"@,
{
    if cfg.is_disabled(Collectors::MetadataInconsistency) || cfg.hasura_admin.is_none() {
        None
    } else {
        Some(MetadataCheckRequest::get_inconsistent_metadata())
    }
}

/// Decides what follows from the reply to the consistency check, and what
/// is known of the metadata's consistency after it.
pub fn fetch_metadata_consistency(
    cfg: &Configuration,
    reply: Reply<MetadataCheckResponse>,
) -> (result: (Consistency, Vec<Effect>))
    ensures
        result.0 == consistency_of(*cfg, reply),
        result.1.deep_view() == consistency_effects(*cfg, reply),
{
    let mut effects: Vec<Effect> = Vec::new();
    if cfg.is_disabled(Collectors::MetadataInconsistency) || cfg.hasura_admin.is_none() {
        assert(effects.deep_view() =~= Seq::<EffectView>::empty());
        return (Consistency::NotChecked, effects);
    }
    match query_result(reply) {
        Ok(response) => {
            let tags: Vec<String> = Vec::new();
            assert(tags.deep_view() =~= Seq::<Seq<char>>::empty());
            let value: i64 = if response.is_consistent {
                1
            } else {
                0
            };
            effects.push(emit("metadata_consistency_status", MetricKind::Gauge(value), tags));
            assert(effects.deep_view() =~= consistency_effects(*cfg, reply));
            let known = if response.is_consistent {
                Consistency::Consistent
            } else {
                Consistency::Inconsistent
            };
            (known, effects)
        },
        Err(error) => (Consistency::CheckFailed, fail(error, "type:metadata")),
    }
}

/// Whether a cycle may send the export: the event-trigger collector, which
/// reads the export, is enabled and the admin credential is there.
pub open spec fn exports_metadata(cfg: Configuration) -> bool {
    !cfg.disables(Collectors::EventTriggers) && cfg.hasura_admin is Some
}

/// What follows from the reply to the export: nothing where the export is
/// not sent or succeeded, the failure otherwise.
pub open spec fn export_effects(cfg: Configuration, reply: Reply<Metadata>) -> Seq<EffectView> {
    if !exports_metadata(cfg) {
        seq![]
    } else {
        match outcome(reply) {
            Ok(_) => seq![],
            Err(error) => failure(error, metadata_label()),
        }
    }
}

/// The list of sources that a cycle has in hand after the export: that of
/// the exported metadata where the export was sent and succeeded, none
/// otherwise.
pub open spec fn exported_sources(cfg: Configuration, reply: Reply<Metadata>) -> Option<
    Vec<DataSource>,
> {
    if !exports_metadata(cfg) {
        None
    } else {
        match outcome(reply) {
            Ok(metadata) => metadata.sources,
            Err(_) => None,
        }
    }
}

/// Decides whether the export is sent in a cycle in which the metadata is
/// consistent.
pub fn metadata_export_request(cfg: &Configuration) -> (request: Option<MetadataExportRequest>)
    ensures
        request is Some <==> exports_metadata(*cfg),
        request is Some ==> request->Some_0.request_type@ == "export_metadata"@
            && request->Some_0.version == 2,
{
    if cfg.is_disabled(Collectors::EventTriggers) || cfg.hasura_admin.is_none() {
        None
    } else {
        Some(MetadataExportRequest::export_metadata())
    }
}

/// Decides what follows from the reply to the export, and which metadata
/// the cycle goes on with.
pub fn fetch_metadata(cfg: &Configuration, reply: Reply<Metadata>) -> (result: (
    Metadata,
    Vec<Effect>
))
    ensures
        result.0.sources == exported_sources(*cfg, reply),
        result.1.deep_view() == export_effects(*cfg, reply),
{
    let effects: Vec<Effect> = Vec::new();
    assert(effects.deep_view() =~= Seq::<EffectView>::empty());
    if cfg.is_disabled(Collectors::EventTriggers) || cfg.hasura_admin.is_none() {
        return (Metadata::empty(), effects);
    }
    match query_result(reply) {
        Ok(metadata) => (metadata, effects),
        Err(error) => (Metadata::empty(), fail(error, "type:metadata")),
    }
}

/// What the compound collector does once the consistency check is over.
#[derive(Debug)]
pub enum MetadataStep {
    /// The metadata is consistent: go on to the export.
    Export,
    /// The metadata is not known to be consistent: skip the export, go on
    /// with empty metadata, and perform these effects.
    Skip(Vec<Effect>),
}

/// What follows where the engine said that the metadata is inconsistent: a
/// warning, and one increment of the error counter.
pub open spec fn inconsistency_effects() -> Seq<EffectView> {
    seq![EffectView::Warn(Diagnostic::MetadataInconsistent), errors_total(metadata_label())]
}

/// What the step after the check adds to the check's own effects: the
/// effects of an inconsistency where the engine reported one, and nothing
/// otherwise. A check that was not sent stays silent, and a check that
/// failed has been counted already.
pub open spec fn step_effects(known: Consistency) -> Seq<EffectView> {
    if known == Consistency::Inconsistent {
        inconsistency_effects()
    } else {
        seq![]
    }
}

/// Decides between the export and the skip: the export where the metadata
/// is consistent, the skip in every other case.
pub fn check_metadata(known: Consistency) -> (step: MetadataStep)
    ensures
        known == Consistency::Consistent <==> step is Export,
        step is Skip ==> step->Skip_0.deep_view() == step_effects(known),
{
    match known {
        Consistency::Consistent => MetadataStep::Export,
        Consistency::Inconsistent => {
            let mut effects: Vec<Effect> = Vec::new();
            effects.push(Effect::Warn(Diagnostic::MetadataInconsistent));
            effects.push(error_increment("type:metadata"));
            assert(effects.deep_view() =~= inconsistency_effects());
            MetadataStep::Skip(effects)
        },
        _ => {
            let effects: Vec<Effect> = Vec::new();
            assert(effects.deep_view() =~= Seq::<EffectView>::empty());
            MetadataStep::Skip(effects)
        },
    }
}

/// The effects of the consistency check and of the step after it, in the
/// order in which a cycle performs them.
pub open spec fn chain_effects(cfg: Configuration, reply: Reply<MetadataCheckResponse>) -> Seq<
    EffectView,
> {
    consistency_effects(cfg, reply) + step_effects(consistency_of(cfg, reply))
}

/// Over the check and the step after it, a cycle counts no error where the
/// check is not sent or the engine says that the metadata is consistent,
/// and exactly one where the engine says that it is inconsistent or the
/// check fails. It sends the consistency gauge exactly where the engine
/// answered, and the export is due exactly where the answer was
/// "consistent".
pub proof fn lemma_chain_counts_one_error(cfg: Configuration, reply: Reply<MetadataCheckResponse>)
    ensures
        error_increments(chain_effects(cfg, reply)) == match consistency_of(cfg, reply) {
            Consistency::NotChecked => 0nat,
            Consistency::Consistent => 0nat,
            Consistency::Inconsistent => 1nat,
            Consistency::CheckFailed => 1nat,
        },
        metric_emissions(chain_effects(cfg, reply)) == match consistency_of(cfg, reply) {
            Consistency::NotChecked => 0nat,
            Consistency::Consistent => 1nat,
            Consistency::Inconsistent => 1nat,
            Consistency::CheckFailed => 0nat,
        },
        consistency_of(cfg, reply) == Consistency::NotChecked ==> chain_effects(cfg, reply)
            == Seq::<EffectView>::empty(),
{
    let counted = |effect: EffectView| is_error_increment(effect);
    let metric = |effect: EffectView| is_metric(effect);
    let check = consistency_effects(cfg, reply);
    let step = step_effects(consistency_of(cfg, reply));
    lemma_count_concat(check, step, counted);
    lemma_count_concat(check, step, metric);
    match consistency_of(cfg, reply) {
        Consistency::NotChecked => {
            assert(chain_effects(cfg, reply) =~= Seq::<EffectView>::empty());
        },
        Consistency::Consistent => {
            let sent = gauge("metadata_consistency_status"@, 1i64, seq![]);
            assert(check =~= seq![sent]);
            lemma_count_one(sent, counted);
            lemma_count_one(sent, metric);
        },
        Consistency::Inconsistent => {
            let sent = gauge("metadata_consistency_status"@, 0i64, seq![]);
            assert(check =~= seq![sent]);
            lemma_count_one(sent, counted);
            lemma_count_one(sent, metric);
            let warning = EffectView::Warn(Diagnostic::MetadataInconsistent);
            lemma_count_two(warning, errors_total(metadata_label()), counted);
            lemma_count_two(warning, errors_total(metadata_label()), metric);
        },
        Consistency::CheckFailed => {
            lemma_failure_counts(outcome(reply)->Err_0, metadata_label());
        },
    }
}

/// While the consistency collector is disabled, or without the admin
/// credential, a cycle sends no consistency check, neither the check nor
/// the step after it has any effect, and the export is not due.
pub proof fn lemma_consistency_check_disabled(
    cfg: Configuration,
    reply: Reply<MetadataCheckResponse>,
)
    requires
        cfg.disables(Collectors::MetadataInconsistency) || cfg.hasura_admin is None,
    ensures
        !checks_consistency(cfg),
        consistency_of(cfg, reply) == Consistency::NotChecked,
        consistency_effects(cfg, reply) == Seq::<EffectView>::empty(),
        step_effects(consistency_of(cfg, reply)) == Seq::<EffectView>::empty(),
        chain_effects(cfg, reply) == Seq::<EffectView>::empty(),
{
    assert(chain_effects(cfg, reply) =~= Seq::<EffectView>::empty());
}

/// While the event-trigger collector is disabled, or without the admin
/// credential, a cycle sends no export, the export has no effect, and the
/// cycle goes on without a list of sources.
pub proof fn lemma_export_disabled(cfg: Configuration, reply: Reply<Metadata>)
    requires
        cfg.disables(Collectors::EventTriggers) || cfg.hasura_admin is None,
    ensures
        !exports_metadata(cfg),
        export_effects(cfg, reply) == Seq::<EffectView>::empty(),
        exported_sources(cfg, reply) is None,
{
}

/// Where the version query fails, by transport, by status or by the shape
/// of the body, it gives exactly one increment of the error counter and
/// sends no metric.
pub proof fn lemma_version_failure(reply: Reply<VersionResponse>)
    requires
        reply is Unreachable || !is_success(reply->status) || reply->body is None,
    ensures
        version_effects(reply) == failure(outcome(reply)->Err_0, version_label()),
        error_increments(version_effects(reply)) == 1,
        metric_emissions(version_effects(reply)) == 0,
{
    lemma_failure_counts(outcome(reply)->Err_0, version_label());
}

/// Where the consistency check is sent and fails, by transport, by status
/// or by the shape of the body, the check and the step after it together
/// give exactly one increment of the error counter and send no metric, and
/// the export is not due.
pub proof fn lemma_consistency_check_failure(
    cfg: Configuration,
    reply: Reply<MetadataCheckResponse>,
)
    requires
        checks_consistency(cfg),
        reply is Unreachable || !is_success(reply->status) || reply->body is None,
    ensures
        consistency_of(cfg, reply) == Consistency::CheckFailed,
        chain_effects(cfg, reply) == failure(outcome(reply)->Err_0, metadata_label()),
        error_increments(chain_effects(cfg, reply)) == 1,
        metric_emissions(chain_effects(cfg, reply)) == 0,
{
    lemma_failure_counts(outcome(reply)->Err_0, metadata_label());
    assert(chain_effects(cfg, reply) =~= failure(outcome(reply)->Err_0, metadata_label()));
}

/// Where the export is sent and fails, by transport, by status or by the
/// shape of the body, it gives exactly one increment of the error counter
/// and sends no metric, and the cycle goes on without a list of sources.
pub proof fn lemma_export_failure(cfg: Configuration, reply: Reply<Metadata>)
    requires
        exports_metadata(cfg),
        reply is Unreachable || !is_success(reply->status) || reply->body is None,
    ensures
        export_effects(cfg, reply) == failure(outcome(reply)->Err_0, metadata_label()),
        error_increments(export_effects(cfg, reply)) == 1,
        metric_emissions(export_effects(cfg, reply)) == 0,
        exported_sources(cfg, reply) is None,
{
    lemma_failure_counts(outcome(reply)->Err_0, metadata_label());
}

} // verus!
