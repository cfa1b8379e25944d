//! The batched query protocol: the request, what a reply to it means, and the
//! positional rule that turns ordered results into named metrics.
//!
//! A request carries no identifier per query. The only link between a query
//! and its result is the position, so the index table of a collector has to
//! cover exactly the positions of its request.

use vstd::prelude::*;
use vstd::string::*;
use crate::sink::{
    drift_warnings, emit, error_increment, error_increments, errors_total, gauge,
    is_drift_warning, is_error_increment, is_metric, lemma_append_effects, lemma_count_concat,
    lemma_count_one, lemma_count_two, metric_emissions, optional_tag, tag_list, Diagnostic,
    Effect, EffectView, MetricKind, QueryError,
};
use crate::text::text_of;

verus! {

/// The arguments of one query.
#[derive(Debug)]
pub struct RunSQLArgs {
    /// The data source that the statement runs against.
    pub source: String,
    pub cascade: bool,
    pub read_only: bool,
    /// The statement.
    pub sql: String,
}

/// The mathematical content of [`RunSQLArgs`].
pub struct RunSQLArgsView {
    pub source: Seq<char>,
    pub cascade: bool,
    pub read_only: bool,
    pub sql: Seq<char>,
}

impl View for RunSQLArgs {
    type V = RunSQLArgsView;

    open spec fn view(&self) -> RunSQLArgsView {
        RunSQLArgsView {
            source: self.source@,
            cascade: self.cascade,
            read_only: self.read_only,
            sql: self.sql@,
        }
    }
}

/// One query: the dialect's request type and the arguments.
#[derive(Debug)]
pub struct RunSQLQuery {
    pub request_type: String,
    pub args: RunSQLArgs,
}

/// The mathematical content of a [`RunSQLQuery`].
pub struct RunSQLQueryView {
    pub request_type: Seq<char>,
    pub args: RunSQLArgsView,
}

impl View for RunSQLQuery {
    type V = RunSQLQueryView;

    open spec fn view(&self) -> RunSQLQueryView {
        RunSQLQueryView { request_type: self.request_type@, args: self.args@ }
    }
}

impl DeepView for RunSQLQuery {
    type V = RunSQLQueryView;

    open spec fn deep_view(&self) -> RunSQLQueryView {
        self@
    }
}

/// An ordered batch of queries, sent as one remote call.
#[derive(Debug)]
pub struct SQLRequest {
    pub request_type: String,
    pub args: Vec<RunSQLQuery>,
}

/// The mathematical content of a [`SQLRequest`].
pub struct SQLRequestView {
    pub request_type: Seq<char>,
    pub args: Seq<RunSQLQueryView>,
}

impl View for SQLRequest {
    type V = SQLRequestView;

    open spec fn view(&self) -> SQLRequestView {
        SQLRequestView { request_type: self.request_type@, args: self.args.deep_view() }
    }
}

/// The decoded result of one query: the number it reports.
#[derive(Clone, Copy, Debug, PartialEq, Eq, Structural)]
pub struct SQLResult {
    pub count: i64,
}

/// The read-only, non-cascading query of `request_type` that runs `sql`
/// against `source`.
pub open spec fn read_only_query(
    request_type: Seq<char>,
    source: Seq<char>,
    sql: Seq<char>,
) -> RunSQLQueryView {
    RunSQLQueryView {
        request_type,
        args: RunSQLArgsView { source, cascade: false, read_only: true, sql },
    }
}

/// The batch of read-only queries of `request_type` against `source`, one
/// for each statement, in the order of the statements.
pub open spec fn bulk_request(
    request_type: Seq<char>,
    source: Seq<char>,
    statements: Seq<Seq<char>>,
) -> SQLRequestView {
    SQLRequestView {
        request_type: "bulk"@,
        args: Seq::new(
            statements.len(),
            |i: int| read_only_query(request_type, source, statements[i]),
        ),
    }
}

/// Builds the batch of four read-only queries of `request_type` against
/// `source`, in the order given.
pub fn four_queries(
    request_type: &str,
    source: &str,
    first: &str,
    second: &str,
    third: &str,
    fourth: &str,
) -> (request: SQLRequest)
    ensures
        request@ == bulk_request(request_type@, source@, seq![first@, second@, third@, fourth@]),
{
    let mut args: Vec<RunSQLQuery> = Vec::new();
    args.push(read_only(request_type, source, first));
    args.push(read_only(request_type, source, second));
    args.push(read_only(request_type, source, third));
    args.push(read_only(request_type, source, fourth));
    let request = SQLRequest { request_type: String::from_str("bulk"), args };
    assert(request@.args =~= bulk_request(
        request_type@,
        source@,
        seq![first@, second@, third@, fourth@],
    ).args);
    request
}

fn read_only(request_type: &str, source: &str, sql: &str) -> (query: RunSQLQuery)
    ensures
        query@ == read_only_query(request_type@, source@, sql@),
{
    RunSQLQuery {
        request_type: String::from_str(request_type),
        args: RunSQLArgs {
            source: String::from_str(source),
            cascade: false,
            read_only: true,
            sql: String::from_str(sql),
        },
    }
}

/// What came back from one remote call.
#[derive(Debug)]
pub enum Reply<T> {
    /// The call did not get through.
    Unreachable,
    /// The engine answered with `status`; `body` is the decoded body, or
    /// `None` where it did not decode into the expected shape.
    Answered { status: u16, body: Option<T> },
}

/// Whether a status lies in the success range.
pub open spec fn is_success(status: u16) -> bool {
    200 <= status <= 299
}

/// Whether a status lies in the success range.
pub fn succeeded(status: u16) -> (success: bool)
    ensures
        success == is_success(status),
{
    200 <= status && status <= 299
}

/// What a reply amounts to: the body where the call got through, the status
/// is a success and the body decoded, and otherwise the failure, the first of
/// these three that did not hold.
pub open spec fn outcome<T>(reply: Reply<T>) -> Result<T, QueryError> {
    match reply {
        Reply::Unreachable => Err(QueryError::TransportError),
        Reply::Answered { status, body } => if !is_success(status) {
            Err(QueryError::StatusError(status))
        } else {
            match body {
                Some(value) => Ok(value),
                None => Err(QueryError::DecodeError),
            }
        },
    }
}

/// Turns a reply into the body that it delivered or the typed failure.
pub fn query_result<T>(reply: Reply<T>) -> (result: Result<T, QueryError>)
    ensures
        result == outcome(reply),
{
    match reply {
        Reply::Unreachable => Err(QueryError::TransportError),
        Reply::Answered { status, body } => {
            if !succeeded(status) {
                Err(QueryError::StatusError(status))
            } else {
                match body {
                    Some(value) => Ok(value),
                    None => Err(QueryError::DecodeError),
                }
            }
        },
    }
}

/// The metric names of one collector, by the position of the query whose
/// result each one names.
#[derive(Debug)]
pub struct IndexTable {
    pub names: Vec<String>,
}

impl View for IndexTable {
    type V = Seq<Seq<char>>;

    open spec fn view(&self) -> Seq<Seq<char>> {
        self.names.deep_view()
    }
}

/// The indices that a table of `names` has an entry for.
pub open spec fn indices(names: Seq<Seq<char>>) -> Set<int> {
    Set::new(|i: int| 0 <= i < names.len())
}

/// The entry of a table of `names` at `index`, where it has one.
pub open spec fn entry(names: Seq<Seq<char>>, index: int) -> Option<Seq<char>> {
    if 0 <= index < names.len() {
        Some(names[index])
    } else {
        None
    }
}

impl IndexTable {
    /// The table of four names, for the positions 0 to 3.
    pub fn of_four(first: &str, second: &str, third: &str, fourth: &str) -> (table: IndexTable)
        ensures
            table@ == seq![first@, second@, third@, fourth@],
    {
        let mut names: Vec<String> = Vec::new();
        names.push(String::from_str(first));
        names.push(String::from_str(second));
        names.push(String::from_str(third));
        names.push(String::from_str(fourth));
        let table = IndexTable { names };
        assert(table@ =~= seq![first@, second@, third@, fourth@]);
        table
    }

    /// Looks up the metric name for the result at `index`.
    pub fn lookup(&self, index: usize) -> (name: Option<&str>)
        ensures
            text_of(name) == entry(self@, index as int),
    {
        if index < self.names.len() {
            Some(self.names[index].as_str())
        } else {
            None
        }
    }
}

/// What follows from the result at `index`: where the table names it, the
/// gauge of that name set to the reported number, with the secondary tag
/// where one was supplied; where the table does not cover the index, a
/// warning about protocol drift and one increment of the error counter.
pub open spec fn classify_entry(
    names: Seq<Seq<char>>,
    label: Seq<char>,
    tag: Option<Seq<char>>,
    index: int,
    result: SQLResult,
) -> Seq<EffectView> {
    match entry(names, index) {
        Some(name) => seq![gauge(name, result.count, optional_tag(tag))],
        None => seq![
            EffectView::Warn(Diagnostic::ProtocolDriftWarning(index as usize)),
            errors_total(label),
        ],
    }
}

/// What follows from an ordered list of results: what follows from each, in
/// the order of the results.
pub open spec fn classify(
    names: Seq<Seq<char>>,
    label: Seq<char>,
    tag: Option<Seq<char>>,
    results: Seq<SQLResult>,
) -> Seq<EffectView>
    decreases results.len(),
{
    if results.len() == 0 {
        seq![]
    } else {
        classify(names, label, tag, results.drop_last()) + classify_entry(
            names,
            label,
            tag,
            results.len() - 1,
            results.last(),
        )
    }
}

/// What follows from a failed call: the failure as a warning, and one
/// increment of the error counter for the collector.
pub open spec fn failure(error: QueryError, label: Seq<char>) -> Seq<EffectView> {
    seq![EffectView::Warn(Diagnostic::Query(error)), errors_total(label)]
}

/// What follows from the reply to a collector's batch: the classification of
/// the results where the call succeeded, the failure otherwise.
pub open spec fn conclusion(
    names: Seq<Seq<char>>,
    label: Seq<char>,
    tag: Option<Seq<char>>,
    reply: Reply<Vec<SQLResult>>,
) -> Seq<EffectView> {
    match outcome(reply) {
        Ok(results) => classify(names, label, tag, results@),
        Err(error) => failure(error, label),
    }
}

/// Classifies the result at `index`, given the table's entry for that index.
pub fn process_sql_result(
    query: &SQLResult,
    name: Option<&str>,
    index: usize,
    label: &str,
    tag: Option<&str>,
) -> (effects: Vec<Effect>)
    ensures
        effects.deep_view() == match name {
            Some(text) => seq![gauge(text@, query.count, optional_tag(text_of(tag)))],
            None => seq![
                EffectView::Warn(Diagnostic::ProtocolDriftWarning(index)),
                errors_total(label@),
            ],
        },
{
    let mut effects: Vec<Effect> = Vec::new();
    match name {
        Some(text) => {
            effects.push(emit(text, MetricKind::Gauge(query.count), tag_list(tag)));
            assert(effects.deep_view() =~= seq![
                gauge(text@, query.count, optional_tag(text_of(tag))),
            ]);
        },
        None => {
            effects.push(Effect::Warn(Diagnostic::ProtocolDriftWarning(index)));
            effects.push(error_increment(label));
            assert(effects.deep_view() =~= seq![
                EffectView::Warn(Diagnostic::ProtocolDriftWarning(index)),
                errors_total(label@),
            ]);
        },
    }
    effects
}

/// Classifies an ordered list of results against a collector's index table.
pub fn classify_results(
    table: &IndexTable,
    label: &str,
    tag: Option<&str>,
    results: &Vec<SQLResult>,
) -> (effects: Vec<Effect>)
    ensures
        effects.deep_view() == classify(table@, label@, text_of(tag), results@),
{
    let mut effects: Vec<Effect> = Vec::new();
    let mut i: usize = 0;
    assert(effects.deep_view() =~= classify(table@, label@, text_of(tag), results@.take(0)));
    while i < results.len()
        invariant
            i <= results.len(),
            effects.deep_view() == classify(table@, label@, text_of(tag), results@.take(i as int)),
        decreases results.len() - i,
    {
        let mut more = process_sql_result(&results[i], table.lookup(i), i, label, tag);
        let ghost before = effects;
        let ghost added = more;
        effects.append(&mut more);
        proof {
            lemma_append_effects(before, added, effects);
            let next = results@.take(i + 1);
            assert(next.drop_last() =~= results@.take(i as int));
            assert(next.last() == results@[i as int]);
        }
        i += 1;
    }
    assert(results@.take(results.len() as int) =~= results@);
    effects
}

/// Decides what follows from the reply to a collector's batch.
pub fn conclude(
    table: &IndexTable,
    label: &str,
    tag: Option<&str>,
    reply: Reply<Vec<SQLResult>>,
) -> (effects: Vec<Effect>)
    ensures
        effects.deep_view() == conclusion(table@, label@, text_of(tag), reply),
{
    match query_result(reply) {
        Ok(results) => classify_results(table, label, tag, &results),
        Err(error) => fail(error, label),
    }
}

/// Decides what follows from a failed call of the collector `label`.
pub fn fail(error: QueryError, label: &str) -> (effects: Vec<Effect>)
    ensures
        effects.deep_view() == failure(error, label@),
{
    let mut effects: Vec<Effect> = Vec::new();
    effects.push(Effect::Warn(Diagnostic::Query(error)));
    effects.push(error_increment(label));
    assert(effects.deep_view() =~= failure(error, label@));
    effects
}

/// The positions of the queries in a batch.
pub open spec fn positions(request: SQLRequestView) -> Set<int> {
    Set::new(|i: int| 0 <= i < request.args.len())
}

/// A table with as many names as a batch has statements has an entry for
/// each position of the batch and for nothing else: a lookup finds a name
/// exactly at the positions of the batch.
pub proof fn lemma_table_covers_batch(
    names: Seq<Seq<char>>,
    request_type: Seq<char>,
    source: Seq<char>,
    statements: Seq<Seq<char>>,
)
    requires
        names.len() == statements.len(),
    ensures
        indices(names) == positions(bulk_request(request_type, source, statements)),
        forall|i: int|
            #[trigger] entry(names, i) is Some <==> positions(
                bulk_request(request_type, source, statements),
            ).contains(i),
{
    assert(indices(names) =~= positions(bulk_request(request_type, source, statements)));
}

/// The results that the table covers become gauges named by the table, one
/// for one and in the order of the results, whatever the results hold: the
/// effect at a covered position is the gauge of the name at that position.
pub proof fn lemma_names_follow_table(
    names: Seq<Seq<char>>,
    label: Seq<char>,
    tag: Option<Seq<char>>,
    results: Seq<SQLResult>,
)
    ensures
        results.len() <= names.len() ==> classify(names, label, tag, results).len()
            == results.len(),
        forall|i: int|
            0 <= i < results.len() && i < names.len() ==> i < classify(
                names,
                label,
                tag,
                results,
            ).len() && #[trigger] classify(names, label, tag, results)[i] == gauge(
                names[i],
                results[i].count,
                optional_tag(tag),
            ),
    decreases results.len(),
{
    if results.len() > 0 {
        let earlier = results.drop_last();
        lemma_names_follow_table(names, label, tag, earlier);
        lemma_classification_length(names, label, tag, earlier);
        let last = classify_entry(names, label, tag, results.len() - 1, results.last());
        assert(classify(names, label, tag, results) == classify(names, label, tag, earlier)
            + last);
        assert forall|i: int| 0 <= i < results.len() && i < names.len() implies i < classify(
            names,
            label,
            tag,
            results,
        ).len() && #[trigger] classify(names, label, tag, results)[i] == gauge(
            names[i],
            results[i].count,
            optional_tag(tag),
        ) by {
            if i < earlier.len() {
                assert(classify(names, label, tag, earlier)[i] == gauge(
                    names[i],
                    earlier[i].count,
                    optional_tag(tag),
                ));
            } else {
                assert(earlier.len() <= names.len());
                assert(classify(names, label, tag, earlier).len() == earlier.len());
                assert(last[0] == gauge(names[i], results[i].count, optional_tag(tag)));
            }
        }
    }
}

/// Each covered result leads to one effect and each other result to two.
pub proof fn lemma_classification_length(
    names: Seq<Seq<char>>,
    label: Seq<char>,
    tag: Option<Seq<char>>,
    results: Seq<SQLResult>,
)
    ensures
        classify(names, label, tag, results).len() == if results.len() <= names.len() {
            results.len() as int
        } else {
            2 * results.len() - names.len()
        },
    decreases results.len(),
{
    if results.len() > 0 {
        lemma_classification_length(names, label, tag, results.drop_last());
    }
}

/// A list of results sends one metric for each result that the table
/// covers. For each result beyond the table it gives one warning about
/// protocol drift and one increment of the error counter, and nothing else.
pub proof fn lemma_classification_counts(
    names: Seq<Seq<char>>,
    label: Seq<char>,
    tag: Option<Seq<char>>,
    results: Seq<SQLResult>,
)
    ensures
        metric_emissions(classify(names, label, tag, results)) == if results.len()
            <= names.len() {
            results.len()
        } else {
            names.len()
        },
        drift_warnings(classify(names, label, tag, results)) == if results.len() <= names.len() {
            0
        } else {
            results.len() - names.len()
        },
        error_increments(classify(names, label, tag, results)) == drift_warnings(
            classify(names, label, tag, results),
        ),
    decreases results.len(),
{
    let metric = |effect: EffectView| is_metric(effect);
    let drift = |effect: EffectView| is_drift_warning(effect);
    let error = |effect: EffectView| is_error_increment(effect);
    if results.len() > 0 {
        let earlier = classify(names, label, tag, results.drop_last());
        let index = results.len() - 1;
        let last = classify_entry(names, label, tag, index, results.last());
        lemma_classification_counts(names, label, tag, results.drop_last());
        lemma_count_concat(earlier, last, metric);
        lemma_count_concat(earlier, last, drift);
        lemma_count_concat(earlier, last, error);
        if index < names.len() {
            let only = gauge(names[index], results.last().count, optional_tag(tag));
            assert(last =~= seq![only]);
            lemma_count_one(only, metric);
            lemma_count_one(only, drift);
            lemma_count_one(only, error);
        } else {
            let warning = EffectView::Warn(Diagnostic::ProtocolDriftWarning(index as usize));
            assert(last =~= seq![warning, errors_total(label)]);
            lemma_count_two(warning, errors_total(label), metric);
            lemma_count_two(warning, errors_total(label), drift);
            lemma_count_two(warning, errors_total(label), error);
        }
    }
}

/// A failed call gives exactly one increment of the error counter and sends
/// no metric.
pub proof fn lemma_failure_counts(error: QueryError, label: Seq<char>)
    ensures
        error_increments(failure(error, label)) == 1,
        metric_emissions(failure(error, label)) == 0,
{
    let warning = EffectView::Warn(Diagnostic::Query(error));
    let metric = |effect: EffectView| is_metric(effect);
    let counted = |effect: EffectView| is_error_increment(effect);
    lemma_count_two(warning, errors_total(label), metric);
    lemma_count_two(warning, errors_total(label), counted);
}

/// A call that did not get through, an answer with a status outside the
/// success range, and an answer whose body did not decode each lead to
/// exactly one increment of the error counter and to no metric.
pub proof fn lemma_failed_reply_counts(
    names: Seq<Seq<char>>,
    label: Seq<char>,
    tag: Option<Seq<char>>,
    reply: Reply<Vec<SQLResult>>,
)
    requires
        reply is Unreachable || !is_success(reply->status) || reply->body is None,
    ensures
        outcome(reply) is Err,
        error_increments(conclusion(names, label, tag, reply)) == 1,
        metric_emissions(conclusion(names, label, tag, reply)) == 0,
{
    lemma_failure_counts(outcome(reply)->Err_0, label);
}

} // verus!
