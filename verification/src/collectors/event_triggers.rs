//! The event-trigger collector: one batch of four queries per configured
//! data source, in the dialect of the source's engine.

use vstd::prelude::*;
use vstd::string::*;
use crate::collectors::metadata::{DataSource, Metadata};
use crate::collectors::sql::{
    bulk_request, conclude, conclusion, failure, four_queries, indices, is_success,
    lemma_failed_reply_counts, lemma_table_covers_batch, outcome, positions, IndexTable, Reply,
    SQLRequest, SQLRequestView, SQLResult,
};
use crate::config::{Collectors, Configuration};
use crate::sink::{
    error_increment, error_increments, errors_total, is_error_increment, is_metric,
    lemma_count_two, metric_emissions, Diagnostic, Effect, EffectView,
};
use crate::text::{join, owned_text, same_text, text_of};

verus! {

/// Counts the events whose delivery failed, by trigger.
pub const FAILED: &'static str =
    "SELECT COUNT(*), trigger_name FROM hdb_catalog.event_log WHERE error = 'true' GROUP BY trigger_name;";

/// Counts the events that were delivered without error, by trigger.
pub const SUCCESSFUL: &'static str =
    "SELECT COUNT(*), trigger_name FROM hdb_catalog.event_log WHERE error = 'false' AND delivered = 'true' GROUP BY trigger_name;";

/// Counts the events that wait for delivery, by trigger.
pub const PENDING: &'static str =
    "SELECT COUNT(*), trigger_name FROM hdb_catalog.event_log WHERE delivered = 'false' AND error = 'false' AND archived = 'false' GROUP BY trigger_name;";

/// Counts the events that were delivered or failed, by trigger.
pub const PROCESSED: &'static str =
    "SELECT COUNT(*), trigger_name FROM hdb_catalog.event_log WHERE delivered = 'true' OR error = 'true' GROUP BY trigger_name;";

/// The statements of the event-trigger batch, in the order of the index
/// table: failed, successful, pending, processed.
pub open spec fn event_trigger_statements() -> Seq<Seq<char>> {
    seq![FAILED@, SUCCESSFUL@, PENDING@, PROCESSED@]
}

/// The metric names of the event-trigger collector, by index.
pub open spec fn event_trigger_names() -> Seq<Seq<char>> {
    seq![
        "failed_event_triggers"@,
        "successful_event_triggers"@,
        "pending_event_triggers"@,
        "processed_event_triggers"@
    ]
}

/// The label of this collector on the error counter.
pub open spec fn event_trigger_label() -> Seq<char> {
    "type:event"@
}

/// Builds the batch that counts the event log of `source` by status, as
/// queries of `request_type`.
pub fn create_event_trigger_request(request_type: &String, source: &String) -> (request:
    SQLRequest)
    ensures
        request@ == bulk_request(request_type@, source@, event_trigger_statements()),
{
    four_queries(
        request_type.as_str(),
        source.as_str(),
        FAILED,
        SUCCESSFUL,
        PENDING,
        PROCESSED,
    )
}

/// Builds the index table of the event-trigger collector.
pub fn event_trigger_table() -> (table: IndexTable)
    ensures
        table@ == event_trigger_names(),
{
    IndexTable::of_four(
        "failed_event_triggers",
        "successful_event_triggers",
        "pending_event_triggers",
        "processed_event_triggers",
    )
}

/// The query dialect of a data source.
#[derive(Clone, Copy, Debug, PartialEq, Eq, Structural)]
pub enum Dialect {
    Postgres,
    Mssql,
    /// A kind of source that the collector has no queries for.
    Unsupported,
}

/// The dialect that a source of `kind` speaks.
pub open spec fn dialect_of(kind: Option<Seq<char>>) -> Dialect {
    match kind {
        Some(text) => if text == ("mssql"@) {
            Dialect::Mssql
        } else if text == ("postgres"@) {
            Dialect::Postgres
        } else {
            Dialect::Unsupported
        },
        None => Dialect::Unsupported,
    }
}

/// The request type under which a dialect runs a statement, where the
/// dialect is supported.
pub open spec fn request_type_of(dialect: Dialect) -> Option<Seq<char>> {
    match dialect {
        Dialect::Postgres => Some("run_sql"@),
        Dialect::Mssql => Some("mssql_run_sql"@),
        Dialect::Unsupported => None,
    }
}

impl Dialect {
    /// The dialect that a source of `kind` speaks.
    pub fn from_kind(kind: Option<&str>) -> (dialect: Dialect)
        ensures
            dialect == dialect_of(text_of(kind)),
    {
        match kind {
            Some(text) => {
                if same_text(text, "mssql") {
                    Dialect::Mssql
                } else if same_text(text, "postgres") {
                    Dialect::Postgres
                } else {
                    Dialect::Unsupported
                }
            },
            None => Dialect::Unsupported,
        }
    }

    /// The request type under which this dialect runs a statement.
    pub fn request_type(&self) -> (name: Option<&'static str>)
        ensures
            text_of(name) == request_type_of(*self),
    {
        match self {
            Dialect::Postgres => Some("run_sql"),
            Dialect::Mssql => Some("mssql_run_sql"),
            Dialect::Unsupported => None,
        }
    }
}

/// The batch for one data source: none where its kind is unsupported or it
/// has no name.
pub open spec fn source_request(source: DataSource) -> Option<SQLRequestView> {
    match (request_type_of(dialect_of(owned_text(source.kind))), owned_text(source.name)) {
        (Some(request_type), Some(name)) => Some(
            bulk_request(request_type, name, event_trigger_statements()),
        ),
        _ => None,
    }
}

/// The secondary tag that names a data source.
pub open spec fn source_tag(name: Seq<char>) -> Seq<char> {
    "db_name:"@ + name
}

/// What follows from the reply to the batch of one data source: nothing
/// where the source gets no batch, and otherwise the conclusion under this
/// collector's table and label, each metric tagged with the source's name.
pub open spec fn database_effects(source: DataSource, reply: Reply<Vec<SQLResult>>) -> Seq<
    EffectView,
> {
    match (source_request(source), owned_text(source.name)) {
        (Some(_), Some(name)) => conclusion(
            event_trigger_names(),
            event_trigger_label(),
            Some(source_tag(name)),
            reply,
        ),
        _ => seq![],
    }
}

fn text_ref(text: &Option<String>) -> (borrowed: Option<&str>)
    ensures
        text_of(borrowed) == owned_text(*text),
{
    match text {
        Some(t) => Some(t.as_str()),
        None => None,
    }
}

/// Builds the batch for one data source, where it gets one.
pub fn database_request(source: &DataSource) -> (request: Option<SQLRequest>)
    ensures
        source_request(*source) == match request {
            Some(r) => Some(r@),
            None => None,
        },
{
    let dialect = Dialect::from_kind(text_ref(&source.kind));
    match (dialect.request_type(), &source.name) {
        (Some(request_type), Some(name)) => Some(
            create_event_trigger_request(&String::from_str(request_type), name),
        ),
        _ => None,
    }
}

/// Decides what follows from the reply to the batch of one data source.
pub fn process_database(source: &DataSource, reply: Reply<Vec<SQLResult>>) -> (effects: Vec<
    Effect,
>)
    ensures
        effects.deep_view() == database_effects(*source, reply),
{
    let dialect = Dialect::from_kind(text_ref(&source.kind));
    match (dialect.request_type(), &source.name) {
        (Some(_), Some(name)) => {
            let tag = join("db_name:", name.as_str());
            conclude(&event_trigger_table(), "type:event", Some(tag.as_str()), reply)
        },
        _ => {
            let effects: Vec<Effect> = Vec::new();
            assert(effects.deep_view() =~= Seq::<EffectView>::empty());
            effects
        },
    }
}

/// One batch to dispatch: the position of its data source in the list of
/// sources, and the request.
#[derive(Debug)]
pub struct SourceQuery {
    pub source: usize,
    pub request: SQLRequest,
}

impl View for SourceQuery {
    type V = (int, SQLRequestView);

    open spec fn view(&self) -> (int, SQLRequestView) {
        (self.source as int, self.request@)
    }
}

impl DeepView for SourceQuery {
    type V = (int, SQLRequestView);

    open spec fn deep_view(&self) -> (int, SQLRequestView) {
        self@
    }
}

/// What the discovery of data sources led to: the effects of the discovery
/// itself, and the batches to dispatch.
#[derive(Debug)]
pub struct Discovery {
    pub effects: Vec<Effect>,
    pub queries: Vec<SourceQuery>,
}

/// The batches for a list of sources: one for each source that gets one,
/// in the order of the sources, each with the position of its source.
pub open spec fn planned_queries(sources: Seq<DataSource>) -> Seq<(int, SQLRequestView)>
    decreases sources.len(),
{
    if sources.len() == 0 {
        seq![]
    } else {
        let earlier = planned_queries(sources.drop_last());
        match source_request(sources.last()) {
            Some(request) => earlier.push((sources.len() - 1, request)),
            None => earlier,
        }
    }
}

/// The batches of one cycle: none where the collector is disabled or the
/// metadata holds no list of sources.
pub open spec fn discovered_queries(cfg: Configuration, metadata: Metadata) -> Seq<
    (int, SQLRequestView),
> {
    if cfg.disables(Collectors::EventTriggers) {
        seq![]
    } else {
        match metadata.sources {
            Some(sources) => planned_queries(sources@),
            None => seq![],
        }
    }
}

/// The effects of the discovery: a warning and one increment of the error
/// counter where the collector is enabled and the metadata holds no list of
/// sources, and nothing otherwise.
pub open spec fn discovery_effects(cfg: Configuration, metadata: Metadata) -> Seq<EffectView> {
    if !cfg.disables(Collectors::EventTriggers) && metadata.sources is None {
        seq![EffectView::Warn(Diagnostic::SourcesMissing), errors_total(event_trigger_label())]
    } else {
        seq![]
    }
}

/// Discovers the data sources in the exported metadata and plans one batch
/// for each source that is supported.
pub fn check_event_triggers(cfg: &Configuration, metadata: &Metadata) -> (plan: Discovery)
    ensures
        plan.effects.deep_view() == discovery_effects(*cfg, *metadata),
        plan.queries.deep_view() == discovered_queries(*cfg, *metadata),
{
    let mut effects: Vec<Effect> = Vec::new();
    let mut queries: Vec<SourceQuery> = Vec::new();
    assert(effects.deep_view() =~= Seq::<EffectView>::empty());
    assert(queries.deep_view() =~= Seq::<(int, SQLRequestView)>::empty());
    if cfg.is_disabled(Collectors::EventTriggers) {
        return Discovery { effects, queries };
    }
    match &metadata.sources {
        Some(sources) => {
            let mut i: usize = 0;
            assert(sources@.take(0) =~= Seq::<DataSource>::empty());
            while i < sources.len()
                invariant
                    i <= sources.len(),
                    queries.deep_view() == planned_queries(sources@.take(i as int)),
                decreases sources.len() - i,
            {
                let ghost before = queries;
                proof {
                    let next = sources@.take(i + 1);
                    assert(next.drop_last() =~= sources@.take(i as int));
                    assert(next.last() == sources@[i as int]);
                }
                if let Some(request) = database_request(&sources[i]) {
                    queries.push(SourceQuery { source: i, request });
                    assert(queries.deep_view() =~= before.deep_view().push((i as int, request@)));
                }
                i += 1;
            }
            assert(sources@.take(sources.len() as int) =~= sources@);
        },
        None => {
            effects.push(Effect::Warn(Diagnostic::SourcesMissing));
            effects.push(error_increment("type:event"));
            assert(effects.deep_view() =~= discovery_effects(*cfg, *metadata));
        },
    }
    Discovery { effects, queries }
}

/// The index table of this collector has an entry for each position of the
/// batch for any data source, and for no other index.
pub proof fn lemma_event_trigger_table_covers_batch(request_type: Seq<char>, source: Seq<char>)
    ensures
        indices(event_trigger_names()) == positions(
            bulk_request(request_type, source, event_trigger_statements()),
        ),
{
    lemma_table_covers_batch(
        event_trigger_names(),
        request_type,
        source,
        event_trigger_statements(),
    );
}

/// While the collector is disabled, a cycle plans no batch and the
/// discovery has no effect, whatever the metadata holds.
pub proof fn lemma_event_triggers_disabled(cfg: Configuration, metadata: Metadata)
    requires
        cfg.disables(Collectors::EventTriggers),
    ensures
        discovered_queries(cfg, metadata) == Seq::<(int, SQLRequestView)>::empty(),
        discovery_effects(cfg, metadata) == Seq::<EffectView>::empty(),
{
}

/// Where the metadata holds no list of sources, the enabled collector
/// plans no batch and reports a single error.
pub proof fn lemma_discovery_failure(cfg: Configuration, metadata: Metadata)
    requires
        !cfg.disables(Collectors::EventTriggers),
        metadata.sources is None,
    ensures
        discovered_queries(cfg, metadata) == Seq::<(int, SQLRequestView)>::empty(),
        error_increments(discovery_effects(cfg, metadata)) == 1,
        metric_emissions(discovery_effects(cfg, metadata)) == 0,
{
    let warning = EffectView::Warn(Diagnostic::SourcesMissing);
    let counted = errors_total(event_trigger_label());
    lemma_count_two(warning, counted, |effect: EffectView| is_error_increment(effect));
    lemma_count_two(warning, counted, |effect: EffectView| is_metric(effect));
}

/// Where the call for a data source fails, by transport, by status or by
/// the shape of the body, that source gives exactly one increment of the
/// error counter, under this collector's label, and sends no metric.
pub proof fn lemma_database_failure(source: DataSource, reply: Reply<Vec<SQLResult>>)
    requires
        source_request(source) is Some,
        reply is Unreachable || !is_success(reply->status) || reply->body is None,
    ensures
        database_effects(source, reply) == failure(outcome(reply)->Err_0, event_trigger_label()),
        error_increments(database_effects(source, reply)) == 1,
        metric_emissions(database_effects(source, reply)) == 0,
{
    lemma_failed_reply_counts(
        event_trigger_names(),
        event_trigger_label(),
        Some(source_tag(owned_text(source.name)->Some_0)),
        reply,
    );
}

/// The planned batches are in the order of the sources, and each belongs
/// to a source of the list that gets a batch: the batch is the one for that
/// source.
pub proof fn lemma_planned_queries(sources: Seq<DataSource>)
    ensures
        forall|k: int|
            0 <= k < planned_queries(sources).len() ==> {
                let planned = #[trigger] planned_queries(sources)[k];
                &&& 0 <= planned.0 < sources.len()
                &&& source_request(sources[planned.0]) == Some(planned.1)
            },
        forall|j: int, k: int|
            0 <= j < k < planned_queries(sources).len() ==> (#[trigger] planned_queries(
                sources,
            )[j]).0 < (#[trigger] planned_queries(sources)[k]).0,
    decreases sources.len(),
{
    if sources.len() > 0 {
        lemma_planned_queries(sources.drop_last());
        let earlier = planned_queries(sources.drop_last());
        assert forall|k: int| 0 <= k < earlier.len() implies source_request(
            sources[(#[trigger] earlier[k]).0],
        ) == Some(earlier[k].1) by {
            assert(sources.drop_last()[earlier[k].0] == sources[earlier[k].0]);
        }
    }
}

} // verus!
