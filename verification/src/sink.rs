//! The metrics sink and the log as data: what a collector wants sent, and
//! what it wants reported.

use vstd::prelude::*;
use vstd::string::*;
use crate::text::text_of;

verus! {

/// Result reported by a service check.
#[derive(Clone, Copy, Debug, PartialEq, Eq, Structural)]
pub enum ServiceCheckStatus {
    Healthy,
    Critical,
    Unknown,
}

/// A duration in seconds, carried as the bit pattern of a double-precision
/// number. The library never computes with it; it hands it on unchanged.
#[derive(Clone, Copy, Debug, PartialEq, Eq, Structural)]
pub struct Seconds {
    pub bits: u64,
}

/// The operation asked of the sink, with the value where the operation has
/// one.
#[derive(Clone, Copy, Debug, PartialEq, Eq, Structural)]
pub enum MetricKind {
    Increment,
    Decrement,
    Gauge(i64),
    Timer(Seconds),
    ServiceCheck(ServiceCheckStatus),
}

/// One fire-and-forget message to the metrics sink.
#[derive(Debug)]
pub struct Emission {
    pub name: String,
    pub kind: MetricKind,
    pub tags: Vec<String>,
}

/// The mathematical content of an [`Emission`].
pub struct EmissionView {
    pub name: Seq<char>,
    pub kind: MetricKind,
    pub tags: Seq<Seq<char>>,
}

impl View for Emission {
    type V = EmissionView;

    open spec fn view(&self) -> EmissionView {
        EmissionView { name: self.name@, kind: self.kind, tags: self.tags.deep_view() }
    }
}

impl DeepView for Emission {
    type V = EmissionView;

    open spec fn deep_view(&self) -> EmissionView {
        self@
    }
}

/// How one attempt to query the engine failed.
#[derive(Clone, Copy, Debug, PartialEq, Eq, Structural)]
pub enum QueryError {
    /// The call did not get through.
    TransportError,
    /// The engine answered with a status outside the success range.
    StatusError(u16),
    /// The engine answered, but the body did not have the expected shape.
    DecodeError,
}

/// A condition worth a line in the log.
#[derive(Clone, Copy, Debug, PartialEq, Eq, Structural)]
pub enum Diagnostic {
    /// A remote call failed.
    Query(QueryError),
    /// A result arrived at an index that the index table does not cover.
    ProtocolDriftWarning(usize),
    /// The engine's metadata was not confirmed as consistent, so it was not
    /// exported.
    MetadataInconsistent,
    /// The exported metadata holds no list of data sources.
    SourcesMissing,
    /// A log line could not be decoded.
    InvalidLogLine,
    /// The detail of a log line did not have the shape that its type calls for.
    InvalidLogDetail,
}

/// What a decision of this library asks the surrounding program to do.
#[derive(Debug)]
pub enum Effect {
    Emit(Emission),
    Warn(Diagnostic),
}

/// The mathematical content of an [`Effect`].
pub enum EffectView {
    Emit(EmissionView),
    Warn(Diagnostic),
}

impl View for Effect {
    type V = EffectView;

    open spec fn view(&self) -> EffectView {
        match self {
            Effect::Emit(emission) => EffectView::Emit(emission@),
            Effect::Warn(diagnostic) => EffectView::Warn(*diagnostic),
        }
    }
}

impl DeepView for Effect {
    type V = EffectView;

    open spec fn deep_view(&self) -> EffectView {
        self@
    }
}

/// The tag list that holds `tag` where there is one, and nothing otherwise.
pub open spec fn optional_tag(tag: Option<Seq<char>>) -> Seq<Seq<char>> {
    match tag {
        Some(text) => seq![text],
        None => seq![],
    }
}

/// An increment of the counter `name`.
pub open spec fn increment(name: Seq<char>, tags: Seq<Seq<char>>) -> EffectView {
    EffectView::Emit(EmissionView { name, kind: MetricKind::Increment, tags })
}

/// A decrement of the counter `name`.
pub open spec fn decrement(name: Seq<char>, tags: Seq<Seq<char>>) -> EffectView {
    EffectView::Emit(EmissionView { name, kind: MetricKind::Decrement, tags })
}

/// The gauge `name` set to `value`.
pub open spec fn gauge(name: Seq<char>, value: i64, tags: Seq<Seq<char>>) -> EffectView {
    EffectView::Emit(EmissionView { name, kind: MetricKind::Gauge(value), tags })
}

/// The timer `name` fed with `seconds`.
pub open spec fn timer(name: Seq<char>, seconds: Seconds, tags: Seq<Seq<char>>) -> EffectView {
    EffectView::Emit(EmissionView { name, kind: MetricKind::Timer(seconds), tags })
}

/// The service check `name` reported as `status`, without tags.
pub open spec fn service_check(name: Seq<char>, status: ServiceCheckStatus) -> EffectView {
    EffectView::Emit(
        EmissionView { name, kind: MetricKind::ServiceCheck(status), tags: seq![] },
    )
}

/// One increment of the error counter, tagged with the label of the
/// collector that failed.
pub open spec fn errors_total(label: Seq<char>) -> EffectView {
    increment("errors_total"@, seq![label])
}

/// Whether an effect is an increment of the error counter.
pub open spec fn is_error_increment(effect: EffectView) -> bool {
    match effect {
        EffectView::Emit(emission) => emission.name == "errors_total"@ && emission.kind
            == MetricKind::Increment,
        EffectView::Warn(_) => false,
    }
}

/// Whether an effect sends a metric other than the error counter.
pub open spec fn is_metric(effect: EffectView) -> bool {
    effect is Emit && !is_error_increment(effect)
}

/// Whether an effect is a warning about protocol drift.
pub open spec fn is_drift_warning(effect: EffectView) -> bool {
    match effect {
        EffectView::Warn(Diagnostic::ProtocolDriftWarning(_)) => true,
        _ => false,
    }
}

/// How many effects of a list are `wanted`.
pub open spec fn count(effects: Seq<EffectView>, wanted: spec_fn(EffectView) -> bool) -> nat
    decreases effects.len(),
{
    if effects.len() == 0 {
        0
    } else {
        count(effects.drop_last(), wanted) + if wanted(effects.last()) {
            1nat
        } else {
            0nat
        }
    }
}

/// How many increments of the error counter a list of effects holds.
pub open spec fn error_increments(effects: Seq<EffectView>) -> nat {
    count(effects, |effect: EffectView| is_error_increment(effect))
}

/// How many metrics other than the error counter a list of effects sends.
pub open spec fn metric_emissions(effects: Seq<EffectView>) -> nat {
    count(effects, |effect: EffectView| is_metric(effect))
}

/// How many warnings about protocol drift a list of effects holds.
pub open spec fn drift_warnings(effects: Seq<EffectView>) -> nat {
    count(effects, |effect: EffectView| is_drift_warning(effect))
}

/// Counting over two lists in a row is counting over each and adding up.
pub proof fn lemma_count_concat(
    front: Seq<EffectView>,
    back: Seq<EffectView>,
    wanted: spec_fn(EffectView) -> bool,
)
    ensures
        count(front + back, wanted) == count(front, wanted) + count(back, wanted),
    decreases back.len(),
{
    if back.len() == 0 {
        assert(front + back =~= front);
    } else {
        assert((front + back).drop_last() =~= front + back.drop_last());
        assert((front + back).last() == back.last());
        lemma_count_concat(front, back.drop_last(), wanted);
    }
}

/// The count over a list of one effect is 1 where the effect is wanted and
/// 0 where it is not.
pub proof fn lemma_count_one(effect: EffectView, wanted: spec_fn(EffectView) -> bool)
    ensures
        count(seq![effect], wanted) == if wanted(effect) {
            1nat
        } else {
            0nat
        },
{
    let single = seq![effect];
    assert(single.drop_last() =~= Seq::<EffectView>::empty());
    assert(single.last() == effect);
    assert(count(single.drop_last(), wanted) == 0);
}

/// The count over a list of two effects is the number of wanted ones among
/// the two.
pub proof fn lemma_count_two(
    first: EffectView,
    second: EffectView,
    wanted: spec_fn(EffectView) -> bool,
)
    ensures
        count(seq![first, second], wanted) == if wanted(first) {
            1nat
        } else {
            0nat
        } + if wanted(second) {
            1nat
        } else {
            0nat
        },
{
    assert(seq![first, second] =~= seq![first] + seq![second]);
    lemma_count_concat(seq![first], seq![second], wanted);
    lemma_count_one(first, wanted);
    lemma_count_one(second, wanted);
}

/// Appending one list of effects to another appends their contents.
pub proof fn lemma_append_effects(before: Vec<Effect>, more: Vec<Effect>, after: Vec<Effect>)
    requires
        after@ == before@ + more@,
    ensures
        after.deep_view() == before.deep_view() + more.deep_view(),
{
    assert(after.deep_view() =~= before.deep_view() + more.deep_view());
}

/// The tag list for an optional secondary tag.
pub fn tag_list(tag: Option<&str>) -> (tags: Vec<String>)
    ensures
        tags.deep_view() == optional_tag(text_of(tag)),
{
    let mut tags: Vec<String> = Vec::new();
    if let Some(text) = tag {
        tags.push(String::from_str(text));
    }
    assert(tags.deep_view() =~= optional_tag(text_of(tag)));
    tags
}

/// Builds the emission of metric `name` with the given operation and tags.
pub fn emit(name: &str, kind: MetricKind, tags: Vec<String>) -> (effect: Effect)
    ensures
        effect@ == EffectView::Emit(
            EmissionView { name: name@, kind, tags: tags.deep_view() },
        ),
{
    Effect::Emit(Emission { name: String::from_str(name), kind, tags })
}

/// Builds one increment of the error counter for the collector `label`.
pub fn error_increment(label: &str) -> (effect: Effect)
    ensures
        effect@ == errors_total(label@),
{
    let mut tags: Vec<String> = Vec::new();
    tags.push(String::from_str(label));
    assert(tags.deep_view() =~= seq![label@]);
    emit("errors_total", MetricKind::Increment, tags)
}

} // verus!
