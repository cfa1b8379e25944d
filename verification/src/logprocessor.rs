//! The classifier of the engine's structured log: which counters and timers
//! follow from one log line.
//!
//! A line is decoded in two steps, the envelope first and then the detail
//! that its type calls for. The decoding itself is the caller's; this module
//! decides what is counted for a decoded line, and which detail to decode.

use vstd::prelude::*;
use vstd::string::*;
use crate::sink::{
    decrement, emit, increment, timer, Diagnostic, Effect, EffectView, MetricKind, Seconds,
};
use crate::text::{decimal, decimal_text, join, same_text};

verus! {

/// The envelope of a log line. The detail that comes with it is decoded
/// separately, by the type of the line.
#[derive(Debug)]
pub struct BaseLog {
    pub timestamp: String,
    pub level: String,
    pub logtype: String,
}

/// The HTTP side of a request: what was asked, by whom, and the status of
/// the answer.
#[derive(Debug)]
pub struct HttpLogDetailHttpInfo {
    pub status: i32,
    pub http_version: String,
    pub url: String,
    pub method: String,
    pub ip: String,
}

/// The error that an operation ended with.
#[derive(Debug)]
pub struct HttpLogDetailOperationError {
    pub path: String,
    pub error: String,
    pub code: String,
}

/// The query that a request carried.
#[derive(Debug)]
pub struct HttpLogDetailOperationQuery {
    pub operation_name: Option<String>,
    pub query: Option<String>,
}

/// The operation that a request asked for, and how it went.
#[derive(Debug)]
pub struct HttpLogDetailOperation {
    /// How long the query ran, where the line reports it.
    pub query_execution_time: Option<Seconds>,
    pub request_id: String,
    pub parameterized_query_hash: Option<String>,
    pub response_size: i32,
    pub error: Option<HttpLogDetailOperationError>,
    pub query: Option<HttpLogDetailOperationQuery>,
}

/// The detail of a line of type `http-log`.
#[derive(Debug)]
pub struct HttpLogDetails {
    pub request_id: String,
    pub operation: HttpLogDetailOperation,
    pub http_info: HttpLogDetailHttpInfo,
}

/// One event on a websocket connection.
#[derive(Debug)]
pub struct WebSocketDetailEvent {
    pub event_type: String,
    pub detail: Option<WebSocketDetailEventDetail>,
}

/// The step of a websocket operation that an event reports, with the error
/// where the step is a failure.
#[derive(Debug)]
pub struct WebSocketDetailEventDetailOperationType {
    pub operation_type: String,
    pub detail: Option<HttpLogDetailOperationError>,
}

/// The operation that a websocket event is about.
#[derive(Debug)]
pub struct WebSocketDetailEventDetail {
    pub operation_name: Option<String>,
    pub request_id: Option<String>,
    pub operation_type: WebSocketDetailEventDetailOperationType,
}

/// The connection of a websocket event. Nothing of it is read.
#[derive(Clone, Copy, Debug, PartialEq, Eq, Structural)]
pub struct WebSocketDetailConnInfo {}

/// The detail of a line of type `websocket-log`.
#[derive(Debug)]
pub struct WebSocketDetail {
    pub event: WebSocketDetailEvent,
    pub connection_info: WebSocketDetailConnInfo,
}

/// Which detail a log line carries.
#[derive(Clone, Copy, Debug, PartialEq, Eq, Structural)]
pub enum DetailKind {
    /// The detail of an HTTP request: decode it and hand it to
    /// [`handle_http_log`].
    Http,
    /// The detail of a websocket event: decode it and hand it to
    /// [`handle_websocket_log`].
    WebSocket,
    /// Nothing that is counted.
    Other,
}

/// The text of an optional field, empty where the field is absent.
pub open spec fn text_or_empty(text: Option<String>) -> Seq<char> {
    match text {
        Some(t) => t@,
        None => Seq::empty(),
    }
}

/// The code of an optional operation error, empty where there is none.
pub open spec fn code_or_empty(error: Option<HttpLogDetailOperationError>) -> Seq<char> {
    match error {
        Some(e) => e.code@,
        None => Seq::empty(),
    }
}

/// The detail that a line of type `logtype` carries.
pub open spec fn detail_kind_of(logtype: Seq<char>) -> DetailKind {
    if logtype == ("http-log"@) {
        DetailKind::Http
    } else if logtype == ("websocket-log"@) {
        DetailKind::WebSocket
    } else {
        DetailKind::Other
    }
}

/// The detail to decode for a line: that of the line's type where the
/// envelope decoded, none otherwise.
pub open spec fn wanted_detail(log: Option<&BaseLog>) -> DetailKind {
    match log {
        Some(envelope) => detail_kind_of(envelope.logtype@),
        None => DetailKind::Other,
    }
}

/// What is counted for a line before its detail is looked at: the line
/// itself, and then the line under its type where the envelope decoded, or
/// a warning where it did not.
pub open spec fn line_effects(log: Option<&BaseLog>) -> Seq<EffectView> {
    seq![
        increment("log_lines_counter_total"@, seq![]),
        match log {
            Some(envelope) => increment(
                "log_lines_counter"@,
                seq!["logtype:"@ + envelope.logtype@],
            ),
            None => EffectView::Warn(Diagnostic::InvalidLogLine),
        },
    ]
}

/// The two tags of the query counter and of the timer: the operation's name
/// and the error's code, each empty where absent.
pub open spec fn query_tags(
    query: HttpLogDetailOperationQuery,
    error: Option<HttpLogDetailOperationError>,
) -> Seq<Seq<char>> {
    seq![text_or_empty(query.operation_name), code_or_empty(error)]
}

/// What is counted for the query of an HTTP request: nothing where the
/// request carried no query; otherwise the query, and its execution time
/// where the line reports one.
pub open spec fn http_query_effects(operation: HttpLogDetailOperation) -> Seq<EffectView> {
    match operation.query {
        Some(query) => {
            let tags = query_tags(query, operation.error);
            let counted = seq![increment("request_query_counter"@, tags)];
            match operation.query_execution_time {
                Some(seconds) => counted.push(timer("query_execution_seconds"@, seconds, tags)),
                None => counted,
            }
        },
        None => seq![],
    }
}

/// What is counted for a line of type `http-log`: a warning where the
/// detail did not decode; otherwise the request, tagged with its URL, its
/// status and the line's type, and then what is counted for its query.
pub open spec fn http_effects(log: BaseLog, detail: Option<&HttpLogDetails>) -> Seq<EffectView> {
    match detail {
        Some(http) => seq![
            increment(
                "request_counter"@,
                seq![
                    "url:"@ + http.http_info.url@,
                    "status:"@ + decimal(http.http_info.status as int),
                    "logtype:"@ + log.logtype@,
                ],
            ),
        ] + http_query_effects(http.operation),
        None => seq![EffectView::Warn(Diagnostic::InvalidLogDetail)],
    }
}

/// What is counted for a websocket operation: a start opens an active
/// operation; a stop counts the operation under its name and closes the
/// active one; a query error counts the operation under its name and the
/// error's code; anything else counts nothing.
pub open spec fn websocket_operation_effects(detail: WebSocketDetailEventDetail) -> Seq<
    EffectView,
> {
    let name = "opname:"@ + text_or_empty(detail.operation_name);
    let kind = detail.operation_type.operation_type@;
    if kind == ("started"@) {
        seq![increment("active_websocket_operations"@, seq![])]
    } else if kind == ("stopped"@) {
        seq![
            increment("websockets_operations"@, seq![name]),
            decrement("active_websocket_operations"@, seq![]),
        ]
    } else if kind == ("query_err"@) {
        seq![
            increment(
                "websockets_operations"@,
                seq![name, "error:"@ + code_or_empty(detail.operation_type.detail)],
            ),
        ]
    } else {
        seq![]
    }
}

/// What is counted for a line of type `websocket-log`: a warning where the
/// detail did not decode; an accepted connection opens an active websocket
/// and a closed one closes it; an operation counts as
/// [`websocket_operation_effects`] says, where the event carries its detail;
/// anything else counts nothing.
pub open spec fn websocket_effects(detail: Option<&WebSocketDetail>) -> Seq<EffectView> {
    match detail {
        Some(socket) => {
            let kind = socket.event.event_type@;
            if kind == ("accepted"@) {
                seq![increment("websockets_active"@, seq![])]
            } else if kind == ("closed"@) {
                seq![decrement("websockets_active"@, seq![])]
            } else if kind == ("operation"@) {
                match socket.event.detail {
                    Some(operation) => websocket_operation_effects(operation),
                    None => seq![],
                }
            } else {
                seq![]
            }
        },
        None => seq![EffectView::Warn(Diagnostic::InvalidLogDetail)],
    }
}

fn or_empty(text: &Option<String>) -> (chosen: &str)
    ensures
        chosen@ == text_or_empty(*text),
{
    match text {
        Some(t) => t.as_str(),
        None => {
            proof {
                reveal_strlit("");
            }
            assert(""@ =~= Seq::<char>::empty());
            ""
        },
    }
}

fn error_code(error: &Option<HttpLogDetailOperationError>) -> (code: &str)
    ensures
        code@ == code_or_empty(*error),
{
    match error {
        Some(e) => e.code.as_str(),
        None => {
            proof {
                reveal_strlit("");
            }
            assert(""@ =~= Seq::<char>::empty());
            ""
        },
    }
}

fn no_tags() -> (tags: Vec<String>)
    ensures
        tags.deep_view() == Seq::<Seq<char>>::empty(),
{
    let tags: Vec<String> = Vec::new();
    assert(tags.deep_view() =~= Seq::<Seq<char>>::empty());
    tags
}

fn one_tag(tag: String) -> (tags: Vec<String>)
    ensures
        tags.deep_view() == seq![tag@],
{
    let mut tags: Vec<String> = Vec::new();
    tags.push(tag);
    assert(tags.deep_view() =~= seq![tag@]);
    tags
}

fn two_tags(first: String, second: String) -> (tags: Vec<String>)
    ensures
        tags.deep_view() == seq![first@, second@],
{
    let mut tags: Vec<String> = Vec::new();
    tags.push(first);
    tags.push(second);
    assert(tags.deep_view() =~= seq![first@, second@]);
    tags
}

/// Decides which detail a line of type `logtype` carries.
pub fn detail_kind(logtype: &str) -> (kind: DetailKind)
    ensures
        kind == detail_kind_of(logtype@),
{
    if same_text(logtype, "http-log") {
        DetailKind::Http
    } else if same_text(logtype, "websocket-log") {
        DetailKind::WebSocket
    } else {
        DetailKind::Other
    }
}

/// Decides what is counted for a log line, and which detail of it to decode
/// next. `log` is the decoded envelope, or `None` where the line did not
/// decode.
pub fn log_processor(log: Option<&BaseLog>) -> (result: (Vec<Effect>, DetailKind))
    ensures
        result.0.deep_view() == line_effects(log),
        result.1 == wanted_detail(log),
{
    let mut effects: Vec<Effect> = Vec::new();
    effects.push(emit("log_lines_counter_total", MetricKind::Increment, no_tags()));
    let kind = match log {
        Some(envelope) => {
            let tag = join("logtype:", envelope.logtype.as_str());
            effects.push(emit("log_lines_counter", MetricKind::Increment, one_tag(tag)));
            detail_kind(envelope.logtype.as_str())
        },
        None => {
            effects.push(Effect::Warn(Diagnostic::InvalidLogLine));
            DetailKind::Other
        },
    };
    assert(effects.deep_view() =~= line_effects(log));
    (effects, kind)
}

/// Decides what is counted for a line of type `http-log`. `detail` is the
/// decoded detail, or `None` where it did not decode.
pub fn handle_http_log(log: &BaseLog, detail: Option<&HttpLogDetails>) -> (effects: Vec<Effect>)
    ensures
        effects.deep_view() == http_effects(*log, detail),
{
    let mut effects: Vec<Effect> = Vec::new();
    match detail {
        Some(http) => {
            let mut tags: Vec<String> = Vec::new();
            tags.push(join("url:", http.http_info.url.as_str()));
            tags.push(join("status:", decimal_text(http.http_info.status).as_str()));
            tags.push(join("logtype:", log.logtype.as_str()));
            assert(tags.deep_view() =~= seq![
                "url:"@ + http.http_info.url@,
                "status:"@ + decimal(http.http_info.status as int),
                "logtype:"@ + log.logtype@,
            ]);
            effects.push(emit("request_counter", MetricKind::Increment, tags));
            if let Some(query) = &http.operation.query {
                let operation = or_empty(&query.operation_name);
                let error = error_code(&http.operation.error);
                effects.push(
                    emit(
                        "request_query_counter",
                        MetricKind::Increment,
                        two_tags(String::from_str(operation), String::from_str(error)),
                    ),
                );
                if let Some(seconds) = http.operation.query_execution_time {
                    effects.push(
                        emit(
                            "query_execution_seconds",
                            MetricKind::Timer(seconds),
                            two_tags(String::from_str(operation), String::from_str(error)),
                        ),
                    );
                }
            }
            assert(effects.deep_view() =~= http_effects(*log, detail));
        },
        None => {
            effects.push(Effect::Warn(Diagnostic::InvalidLogDetail));
            assert(effects.deep_view() =~= http_effects(*log, detail));
        },
    }
    effects
}

/// Decides what is counted for a line of type `websocket-log`. `detail` is
/// the decoded detail, or `None` where it did not decode.
pub fn handle_websocket_log(detail: Option<&WebSocketDetail>) -> (effects: Vec<Effect>)
    ensures
        effects.deep_view() == websocket_effects(detail),
{
    let mut effects: Vec<Effect> = Vec::new();
    match detail {
        Some(socket) => {
            let kind = socket.event.event_type.as_str();
            if same_text(kind, "accepted") {
                effects.push(emit("websockets_active", MetricKind::Increment, no_tags()));
            } else if same_text(kind, "closed") {
                effects.push(emit("websockets_active", MetricKind::Decrement, no_tags()));
            } else if same_text(kind, "operation") {
                if let Some(operation) = &socket.event.detail {
                    let name = or_empty(&operation.operation_name);
                    let step = operation.operation_type.operation_type.as_str();
                    if same_text(step, "started") {
                        effects.push(
                            emit("active_websocket_operations", MetricKind::Increment, no_tags()),
                        );
                    } else if same_text(step, "stopped") {
                        effects.push(
                            emit(
                                "websockets_operations",
                                MetricKind::Increment,
                                one_tag(join("opname:", name)),
                            ),
                        );
                        effects.push(
                            emit("active_websocket_operations", MetricKind::Decrement, no_tags()),
                        );
                    } else if same_text(step, "query_err") {
                        let code = error_code(&operation.operation_type.detail);
                        effects.push(
                            emit(
                                "websockets_operations",
                                MetricKind::Increment,
                                two_tags(join("opname:", name), join("error:", code)),
                            ),
                        );
                    }
                }
            }
        },
        None => {
            effects.push(Effect::Warn(Diagnostic::InvalidLogDetail));
        },
    }
    assert(effects.deep_view() =~= websocket_effects(detail));
    effects
}

} // verus!
