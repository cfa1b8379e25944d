//! The scheduled-events collector: four counts of one-off events by status,
//! against the default data source.

use vstd::prelude::*;
use crate::collectors::sql::{
    bulk_request, conclude, conclusion, failure, four_queries, indices, is_success,
    lemma_failed_reply_counts, lemma_table_covers_batch, outcome, positions, IndexTable, Reply,
    SQLRequest, SQLRequestView, SQLResult,
};
use crate::config::{Collectors, Configuration};
use crate::sink::{error_increments, metric_emissions, Effect, EffectView};

verus! {

/// Counts the one-off events that failed.
pub const FAILED: &'static str =
    "SELECT COUNT(*) FROM hdb_catalog.hdb_scheduled_events WHERE status = 'error';";

/// Counts the one-off events that were delivered.
pub const SUCCESSFUL: &'static str =
    "SELECT COUNT(*) FROM hdb_catalog.hdb_scheduled_events WHERE status = 'delivered';";

/// Counts the one-off events that are still scheduled.
pub const PENDING: &'static str =
    "SELECT COUNT(*) FROM hdb_catalog.hdb_scheduled_events WHERE status = 'scheduled';";

/// Counts the one-off events that failed or were delivered.
pub const PROCESSED: &'static str =
    "SELECT COUNT(*) FROM hdb_catalog.hdb_scheduled_events WHERE status = 'error' or status = 'delivered';";

/// The statements of the scheduled-events batch, in the order of the index
/// table: failed, successful, pending, processed.
pub open spec fn scheduled_event_statements() -> Seq<Seq<char>> {
    seq![FAILED@, SUCCESSFUL@, PENDING@, PROCESSED@]
}

/// The metric names of the scheduled-events collector, by index.
pub open spec fn scheduled_event_names() -> Seq<Seq<char>> {
    seq![
        "failed_one_off_events"@,
        "successful_one_off_events"@,
        "pending_one_off_events"@,
        "processed_one_off_events"@,
    ]
}

/// The label of this collector on the error counter.
pub open spec fn scheduled_event_label() -> Seq<char> {
    "type:scheduled"@
}

/// The batch of the scheduled-events collector.
pub open spec fn scheduled_event_request() -> SQLRequestView {
    bulk_request("run_sql"@, "default"@, scheduled_event_statements())
}

/// Builds the batch that counts the one-off events by status.
pub fn create_scheduled_event_request() -> (request: SQLRequest)
    ensures
        request@ == scheduled_event_request(),
{
    four_queries("run_sql", "default", FAILED, SUCCESSFUL, PENDING, PROCESSED)
}

/// Builds the index table of the scheduled-events collector.
pub fn scheduled_event_table() -> (table: IndexTable)
    ensures
        table@ == scheduled_event_names(),
{
    IndexTable::of_four(
        "failed_one_off_events",
        "successful_one_off_events",
        "pending_one_off_events",
        "processed_one_off_events",
    )
}

/// The batch that one cycle sends: none where the collector is disabled.
pub open spec fn scheduled_events_call(cfg: Configuration) -> Option<SQLRequestView> {
    if cfg.disables(Collectors::ScheduledEvents) {
        None
    } else {
        Some(scheduled_event_request())
    }
}

/// What one cycle leads to, given the reply to its batch: nothing where the
/// collector is disabled, and otherwise the conclusion under this
/// collector's table and label.
pub open spec fn scheduled_events_effects(
    cfg: Configuration,
    reply: Reply<Vec<SQLResult>>,
) -> Seq<EffectView> {
    if cfg.disables(Collectors::ScheduledEvents) {
        seq![]
    } else {
        conclusion(scheduled_event_names(), scheduled_event_label(), None, reply)
    }
}

/// Decides whether this cycle queries the engine, and with what.
pub fn scheduled_events_request(cfg: &Configuration) -> (request: Option<SQLRequest>)
    ensures
        scheduled_events_call(*cfg) == match request {
            Some(r) => Some(r@),
            None => None,
        },
{
    if cfg.is_disabled(Collectors::ScheduledEvents) {
        None
    } else {
        Some(create_scheduled_event_request())
    }
}

/// Decides what follows from the reply to this cycle's batch.
pub fn check_scheduled_events(cfg: &Configuration, reply: Reply<Vec<SQLResult>>) -> (effects:
    Vec<Effect>)
    ensures
        effects.deep_view() == scheduled_events_effects(*cfg, reply),
{
    if cfg.is_disabled(Collectors::ScheduledEvents) {
        let effects: Vec<Effect> = Vec::new();
        assert(effects.deep_view() =~= Seq::<EffectView>::empty());
        effects
    } else {
        conclude(&scheduled_event_table(), "type:scheduled", None, reply)
    }
}

/// The index table of this collector has an entry for each position of its
/// batch and for no other index.
pub proof fn lemma_scheduled_event_table_covers_batch()
    ensures
        indices(scheduled_event_names()) == positions(scheduled_event_request()),
{
    lemma_table_covers_batch(
        scheduled_event_names(),
        "run_sql"@,
        "default"@,
        scheduled_event_statements(),
    );
}

/// While the collector is disabled, a cycle sends no batch and has no
/// effect, whatever a reply would hold.
pub proof fn lemma_scheduled_events_disabled(cfg: Configuration, reply: Reply<Vec<SQLResult>>)
    requires
        cfg.disables(Collectors::ScheduledEvents),
    ensures
        scheduled_events_call(cfg) is None,
        scheduled_events_effects(cfg, reply) == Seq::<EffectView>::empty(),
{
}

/// Where the collector is enabled and its call fails, by transport, by
/// status or by the shape of the body, the cycle gives exactly one
/// increment of the error counter, under this collector's label, and sends
/// no metric.
pub proof fn lemma_scheduled_events_failure(cfg: Configuration, reply: Reply<Vec<SQLResult>>)
    requires
        !cfg.disables(Collectors::ScheduledEvents),
        reply is Unreachable || !is_success(reply->status) || reply->body is None,
    ensures
        scheduled_events_effects(cfg, reply) == failure(outcome(reply)->Err_0, scheduled_event_label()),
        error_increments(scheduled_events_effects(cfg, reply)) == 1,
        metric_emissions(scheduled_events_effects(cfg, reply)) == 0,
{
    lemma_failed_reply_counts(scheduled_event_names(), scheduled_event_label(), None, reply);
}

} // verus!
