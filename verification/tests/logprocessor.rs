use metrics::logprocessor::{
    detail_kind, handle_http_log, handle_websocket_log, log_processor, BaseLog, DetailKind,
    HttpLogDetailHttpInfo, HttpLogDetailOperation, HttpLogDetailOperationError,
    HttpLogDetailOperationQuery, HttpLogDetails, WebSocketDetail, WebSocketDetailConnInfo,
    WebSocketDetailEvent, WebSocketDetailEventDetail, WebSocketDetailEventDetailOperationType,
};
use metrics::sink::{Diagnostic, Effect, Emission, MetricKind, Seconds};

fn emission(effect: &Effect) -> &Emission {
    match effect {
        Effect::Emit(emission) => emission,
        Effect::Warn(diagnostic) => panic!("a warning where a metric is due: {:?}", diagnostic),
    }
}

fn warning(effect: &Effect) -> Diagnostic {
    match effect {
        Effect::Warn(diagnostic) => *diagnostic,
        Effect::Emit(emission) => panic!("a metric where a warning is due: {:?}", emission),
    }
}

fn assert_sent(effect: &Effect, name: &str, kind: MetricKind, tags: &[&str]) {
    let sent = emission(effect);
    assert_eq!(sent.name, name);
    assert_eq!(sent.kind, kind);
    let expected: Vec<String> = tags.iter().map(|tag| tag.to_string()).collect();
    assert_eq!(sent.tags, expected);
}

fn envelope(logtype: &str) -> BaseLog {
    BaseLog {
        timestamp: "2024-01-01T00:00:00.000+0000".to_string(),
        level: "info".to_string(),
        logtype: logtype.to_string(),
    }
}

fn failure(code: &str) -> HttpLogDetailOperationError {
    HttpLogDetailOperationError {
        path: "$".to_string(),
        error: "something went wrong".to_string(),
        code: code.to_string(),
    }
}

fn http(
    status: i32,
    query: Option<Option<&str>>,
    error: Option<&str>,
    time: Option<f64>,
) -> HttpLogDetails {
    HttpLogDetails {
        request_id: "r-1".to_string(),
        operation: HttpLogDetailOperation {
            query_execution_time: time.map(|seconds| Seconds { bits: seconds.to_bits() }),
            request_id: "r-1".to_string(),
            parameterized_query_hash: None,
            response_size: 120,
            error: error.map(failure),
            query: query.map(|name| HttpLogDetailOperationQuery {
                operation_name: name.map(|text| text.to_string()),
                query: None,
            }),
        },
        http_info: HttpLogDetailHttpInfo {
            status,
            http_version: "HTTP/1.1".to_string(),
            url: "/v1/graphql".to_string(),
            method: "POST".to_string(),
            ip: "127.0.0.1".to_string(),
        },
    }
}

fn socket(event_type: &str, detail: Option<WebSocketDetailEventDetail>) -> WebSocketDetail {
    WebSocketDetail {
        event: WebSocketDetailEvent { event_type: event_type.to_string(), detail },
        connection_info: WebSocketDetailConnInfo {},
    }
}

fn operation(
    name: Option<&str>,
    operation_type: &str,
    error: Option<&str>,
) -> WebSocketDetailEventDetail {
    WebSocketDetailEventDetail {
        operation_name: name.map(|text| text.to_string()),
        request_id: None,
        operation_type: WebSocketDetailEventDetailOperationType {
            operation_type: operation_type.to_string(),
            detail: error.map(failure),
        },
    }
}

#[test]
fn detail_follows_the_type_of_the_line() {
    assert_eq!(detail_kind("http-log"), DetailKind::Http);
    assert_eq!(detail_kind("websocket-log"), DetailKind::WebSocket);
    assert_eq!(detail_kind("startup"), DetailKind::Other);
    assert_eq!(detail_kind("HTTP-LOG"), DetailKind::Other);
    assert_eq!(detail_kind(""), DetailKind::Other);
}

#[test]
fn every_line_is_counted_and_a_decoded_one_under_its_type() {
    let log = envelope("http-log");
    let (effects, kind) = log_processor(Some(&log));
    assert_eq!(kind, DetailKind::Http);
    assert_eq!(effects.len(), 2);
    assert_sent(&effects[0], "log_lines_counter_total", MetricKind::Increment, &[]);
    assert_sent(&effects[1], "log_lines_counter", MetricKind::Increment, &["logtype:http-log"]);

    let log = envelope("websocket-log");
    let (effects, kind) = log_processor(Some(&log));
    assert_eq!(kind, DetailKind::WebSocket);
    assert_sent(&effects[1], "log_lines_counter", MetricKind::Increment, &["logtype:websocket-log"]);

    let log = envelope("startup");
    let (effects, kind) = log_processor(Some(&log));
    assert_eq!(kind, DetailKind::Other);
    assert_eq!(effects.len(), 2);
    assert_sent(&effects[1], "log_lines_counter", MetricKind::Increment, &["logtype:startup"]);
}

#[test]
fn line_that_does_not_decode_is_counted_and_warned_about() {
    let (effects, kind) = log_processor(None);
    assert_eq!(kind, DetailKind::Other);
    assert_eq!(effects.len(), 2);
    assert_sent(&effects[0], "log_lines_counter_total", MetricKind::Increment, &[]);
    assert_eq!(warning(&effects[1]), Diagnostic::InvalidLogLine);
}

#[test]
fn request_without_query_counts_the_request_alone() {
    let effects = handle_http_log(&envelope("http-log"), Some(&http(200, None, None, Some(0.5))));
    assert_eq!(effects.len(), 1);
    assert_sent(
        &effects[0],
        "request_counter",
        MetricKind::Increment,
        &["url:/v1/graphql", "status:200", "logtype:http-log"],
    );
}

#[test]
fn request_with_query_counts_the_query_and_its_time() {
    let detail = http(200, Some(Some("GetUsers")), None, Some(0.25));
    let effects = handle_http_log(&envelope("http-log"), Some(&detail));
    assert_eq!(effects.len(), 3);
    assert_sent(
        &effects[0],
        "request_counter",
        MetricKind::Increment,
        &["url:/v1/graphql", "status:200", "logtype:http-log"],
    );
    assert_sent(&effects[1], "request_query_counter", MetricKind::Increment, &["GetUsers", ""]);
    assert_sent(
        &effects[2],
        "query_execution_seconds",
        MetricKind::Timer(Seconds { bits: 0.25f64.to_bits() }),
        &["GetUsers", ""],
    );
    match emission(&effects[2]).kind {
        MetricKind::Timer(seconds) => assert_eq!(f64::from_bits(seconds.bits), 0.25),
        other => panic!("a timer is due, not {:?}", other),
    }
}

#[test]
fn failed_query_is_tagged_with_the_code_of_its_error() {
    let detail = http(400, Some(None), Some("validation-failed"), None);
    let effects = handle_http_log(&envelope("http-log"), Some(&detail));
    assert_eq!(effects.len(), 2);
    assert_sent(
        &effects[0],
        "request_counter",
        MetricKind::Increment,
        &["url:/v1/graphql", "status:400", "logtype:http-log"],
    );
    assert_sent(
        &effects[1],
        "request_query_counter",
        MetricKind::Increment,
        &["", "validation-failed"],
    );
}

#[test]
fn status_is_written_in_decimal() {
    let effects = handle_http_log(&envelope("http-log"), Some(&http(-1, None, None, None)));
    assert_eq!(emission(&effects[0]).tags[1], "status:-1");
    let effects = handle_http_log(&envelope("http-log"), Some(&http(0, None, None, None)));
    assert_eq!(emission(&effects[0]).tags[1], "status:0");
}

#[test]
fn http_detail_that_does_not_decode_is_warned_about() {
    let effects = handle_http_log(&envelope("http-log"), None);
    assert_eq!(effects.len(), 1);
    assert_eq!(warning(&effects[0]), Diagnostic::InvalidLogDetail);
}

#[test]
fn connections_open_and_close_the_active_websockets() {
    let accepted = handle_websocket_log(Some(&socket("accepted", None)));
    assert_eq!(accepted.len(), 1);
    assert_sent(&accepted[0], "websockets_active", MetricKind::Increment, &[]);
    let closed = handle_websocket_log(Some(&socket("closed", None)));
    assert_eq!(closed.len(), 1);
    assert_sent(&closed[0], "websockets_active", MetricKind::Decrement, &[]);
}

#[test]
fn operations_are_counted_by_their_step() {
    let started =
        handle_websocket_log(Some(&socket("operation", Some(operation(Some("Feed"), "started", None)))));
    assert_eq!(started.len(), 1);
    assert_sent(&started[0], "active_websocket_operations", MetricKind::Increment, &[]);

    let stopped =
        handle_websocket_log(Some(&socket("operation", Some(operation(Some("Feed"), "stopped", None)))));
    assert_eq!(stopped.len(), 2);
    assert_sent(&stopped[0], "websockets_operations", MetricKind::Increment, &["opname:Feed"]);
    assert_sent(&stopped[1], "active_websocket_operations", MetricKind::Decrement, &[]);

    let failed = handle_websocket_log(Some(&socket(
        "operation",
        Some(operation(Some("Feed"), "query_err", Some("parse-failed"))),
    )));
    assert_eq!(failed.len(), 1);
    assert_sent(
        &failed[0],
        "websockets_operations",
        MetricKind::Increment,
        &["opname:Feed", "error:parse-failed"],
    );
}

#[test]
fn absent_name_and_error_are_empty_in_the_tags() {
    let stopped =
        handle_websocket_log(Some(&socket("operation", Some(operation(None, "stopped", None)))));
    assert_sent(&stopped[0], "websockets_operations", MetricKind::Increment, &["opname:"]);
    let failed =
        handle_websocket_log(Some(&socket("operation", Some(operation(None, "query_err", None)))));
    assert_sent(
        &failed[0],
        "websockets_operations",
        MetricKind::Increment,
        &["opname:", "error:"],
    );
}

#[test]
fn other_websocket_events_count_nothing() {
    assert!(handle_websocket_log(Some(&socket("operation", None))).is_empty());
    assert!(handle_websocket_log(Some(&socket(
        "operation",
        Some(operation(Some("Feed"), "completed", None))
    )))
    .is_empty());
    assert!(handle_websocket_log(Some(&socket("rejected", None))).is_empty());
    assert!(handle_websocket_log(Some(&socket(
        "accepted-late",
        Some(operation(Some("Feed"), "started", None))
    )))
    .is_empty());
}

#[test]
fn websocket_detail_that_does_not_decode_is_warned_about() {
    let effects = handle_websocket_log(None);
    assert_eq!(effects.len(), 1);
    assert_eq!(warning(&effects[0]), Diagnostic::InvalidLogDetail);
}
