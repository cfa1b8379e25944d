//! The cron-trigger collector: four counts of cron events by status,
//! against the default data source.

use vstd::prelude::*;
use crate::collectors::sql::{
    bulk_request, conclude, conclusion, failure, four_queries, indices, is_success,
    lemma_failed_reply_counts, lemma_table_covers_batch, outcome, positions, IndexTable, Reply,
    SQLRequest, SQLRequestView, SQLResult,
};
use crate::config::{Collectors, Configuration};
use crate::sink::{error_increments, metric_emissions, Effect, EffectView};

verus! {

/// Counts the cron events that failed, by trigger.
pub const FAILED: &'static str =
    "SELECT COUNT(*), trigger_name FROM hdb_catalog.hdb_cron_events WHERE status = 'error' GROUP BY trigger_name;";

/// Counts the cron events that were delivered, by trigger.
pub const SUCCESSFUL: &'static str =
    "SELECT COUNT(*), trigger_name FROM hdb_catalog.hdb_cron_events WHERE status = 'delivered' GROUP BY trigger_name;";

/// Counts the cron events that are still scheduled, by trigger.
pub const PENDING: &'static str =
    "SELECT COUNT(*), trigger_name FROM hdb_catalog.hdb_cron_events WHERE status = 'scheduled' GROUP BY trigger_name;";

/// Counts the cron events that failed or were delivered, by trigger.
pub const PROCESSED: &'static str =
    "SELECT COUNT(*), trigger_name FROM hdb_catalog.hdb_cron_events WHERE status = 'error' or status = 'delivered' GROUP BY trigger_name;";

/// The statements of the cron-trigger batch, in the order of the index
/// table: failed, successful, pending, processed.
pub open spec fn cron_trigger_statements() -> Seq<Seq<char>> {
    seq![FAILED@, SUCCESSFUL@, PENDING@, PROCESSED@]
}

/// The metric names of the cron-trigger collector, by index.
pub open spec fn cron_trigger_names() -> Seq<Seq<char>> {
    seq![
        "failed_cron_triggers"@,
        "successful_cron_triggers"@,
        "pending_cron_triggers"@,
        "processed_cron_triggers"@,
    ]
}

/// The label of this collector on the error counter.
pub open spec fn cron_trigger_label() -> Seq<char> {
    "type:cron"@
}

/// The batch of the cron-trigger collector.
pub open spec fn cron_trigger_request() -> SQLRequestView {
    bulk_request("run_sql"@, "default"@, cron_trigger_statements())
}

/// Builds the batch that counts the cron events by status.
pub fn create_cron_trigger_request() -> (request: SQLRequest)
    ensures
        request@ == cron_trigger_request(),
{
    four_queries("run_sql", "default", FAILED, SUCCESSFUL, PENDING, PROCESSED)
}

/// Builds the index table of the cron-trigger collector.
pub fn cron_trigger_table() -> (table: IndexTable)
    ensures
        table@ == cron_trigger_names(),
{
    IndexTable::of_four(
        "failed_cron_triggers",
        "successful_cron_triggers",
        "pending_cron_triggers",
        "processed_cron_triggers",
    )
}

/// The batch that one cycle sends: none where the collector is disabled.
pub open spec fn cron_triggers_call(cfg: Configuration) -> Option<SQLRequestView> {
    if cfg.disables(Collectors::CronTriggers) {
        None
    } else {
        Some(cron_trigger_request())
    }
}

/// What one cycle leads to, given the reply to its batch: nothing where the
/// collector is disabled, and otherwise the conclusion under this
/// collector's table and label.
pub open spec fn cron_triggers_effects(cfg: Configuration, reply: Reply<Vec<SQLResult>>) -> Seq<
    EffectView,
> {
    if cfg.disables(Collectors::CronTriggers) {
        seq![]
    } else {
        conclusion(cron_trigger_names(), cron_trigger_label(), None, reply)
    }
}

/// Decides whether this cycle queries the engine, and with what.
pub fn cron_triggers_request(cfg: &Configuration) -> (request: Option<SQLRequest>)
    ensures
        cron_triggers_call(*cfg) == match request {
            Some(r) => Some(r@),
            None => None,
        },
{
    if cfg.is_disabled(Collectors::CronTriggers) {
        None
    } else {
        Some(create_cron_trigger_request())
    }
}

/// Decides what follows from the reply to this cycle's batch.
pub fn check_cron_triggers(cfg: &Configuration, reply: Reply<Vec<SQLResult>>) -> (effects: Vec<
    Effect,
>)
    ensures
        effects.deep_view() == cron_triggers_effects(*cfg, reply),
{
    if cfg.is_disabled(Collectors::CronTriggers) {
        let effects: Vec<Effect> = Vec::new();
        assert(effects.deep_view() =~= Seq::<EffectView>::empty());
        effects
    } else {
        conclude(&cron_trigger_table(), "type:cron", None, reply)
    }
}

/// The index table of this collector has an entry for each position of its
/// batch and for no other index.
pub proof fn lemma_cron_trigger_table_covers_batch()
    ensures
        indices(cron_trigger_names()) == positions(cron_trigger_request()),
{
    lemma_table_covers_batch(
        cron_trigger_names(),
        "run_sql"@,
        "default"@,
        cron_trigger_statements(),
    );
}

/// While the collector is disabled, a cycle sends no batch and has no
/// effect, whatever a reply would hold.
pub proof fn lemma_cron_triggers_disabled(cfg: Configuration, reply: Reply<Vec<SQLResult>>)
    requires
        cfg.disables(Collectors::CronTriggers),
    ensures
        cron_triggers_call(cfg) is None,
        cron_triggers_effects(cfg, reply) == Seq::<EffectView>::empty(),
{
}

/// Where the collector is enabled and its call fails, by transport, by
/// status or by the shape of the body, the cycle gives exactly one
/// increment of the error counter, under this collector's label, and sends
/// no metric.
pub proof fn lemma_cron_triggers_failure(cfg: Configuration, reply: Reply<Vec<SQLResult>>)
    requires
        !cfg.disables(Collectors::CronTriggers),
        reply is Unreachable || !is_success(reply->status) || reply->body is None,
    ensures
        cron_triggers_effects(cfg, reply) == failure(outcome(reply)->Err_0, cron_trigger_label()),
        error_increments(cron_triggers_effects(cfg, reply)) == 1,
        metric_emissions(cron_triggers_effects(cfg, reply)) == 0,
{
    lemma_failed_reply_counts(cron_trigger_names(), cron_trigger_label(), None, reply);
}

} // verus!
