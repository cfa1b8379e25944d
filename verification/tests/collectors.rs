use metrics::collectors::cron_triggers::{
    check_cron_triggers, create_cron_trigger_request, cron_trigger_table, cron_triggers_request,
};
use metrics::collectors::event_triggers::{
    check_event_triggers, create_event_trigger_request, database_request, event_trigger_table,
    process_database, Dialect,
};
use metrics::collectors::health::check_health;
use metrics::collectors::metadata::{
    check_metadata, fetch_metadata, fetch_metadata_consistency, fetch_version,
    metadata_consistency_request, metadata_export_request, Consistency, DataSource, Metadata,
    MetadataCheckRequest, MetadataCheckResponse, MetadataExportRequest, MetadataStep,
    VersionResponse,
};
use metrics::collectors::scheduled_events::{
    check_scheduled_events, create_scheduled_event_request, scheduled_event_table,
    scheduled_events_request,
};
use metrics::collectors::sql::{Reply, SQLRequest, SQLResult};
use metrics::config::{Collectors, Configuration};
use metrics::sink::{Diagnostic, Effect, Emission, MetricKind, QueryError, ServiceCheckStatus};

fn configuration(admin: Option<&str>, disabled: &[Collectors]) -> Configuration {
    Configuration {
        prefix: "hasura".to_string(),
        datadog_addr: "127.0.0.1:8125".to_string(),
        hasura_addr: "http://localhost:8080".to_string(),
        hasura_admin: admin.map(|secret| secret.to_string()),
        log_file: "engine.log".to_string(),
        sleep_time: 1000,
        collect_interval: 15000,
        disabled_collectors: disabled.to_vec(),
        common_labels: None,
        concurrency_limit: 0,
    }
}

fn emission(effect: &Effect) -> &Emission {
    match effect {
        Effect::Emit(emission) => emission,
        Effect::Warn(diagnostic) => panic!("a warning where a metric is due: {:?}", diagnostic),
    }
}

fn warning(effect: &Effect) -> Diagnostic {
    match effect {
        Effect::Warn(diagnostic) => *diagnostic,
        Effect::Emit(emission) => panic!("a metric where a warning is due: {:?}", emission),
    }
}

fn assert_error_increment(effect: &Effect, label: &str) {
    let sent = emission(effect);
    assert_eq!(sent.name, "errors_total");
    assert_eq!(sent.kind, MetricKind::Increment);
    assert_eq!(sent.tags, vec![label.to_string()]);
}

fn answered(values: &[i64]) -> Reply<Vec<SQLResult>> {
    Reply::Answered {
        status: 200,
        body: Some(values.iter().map(|count| SQLResult { count: *count }).collect()),
    }
}

fn failed_replies() -> Vec<Reply<Vec<SQLResult>>> {
    vec![
        Reply::Unreachable,
        Reply::Answered { status: 500, body: Some(vec![SQLResult { count: 1 }]) },
        Reply::Answered { status: 302, body: None },
        Reply::Answered { status: 200, body: None },
    ]
}

fn source(name: Option<&str>, kind: Option<&str>) -> DataSource {
    DataSource { name: name.map(|n| n.to_string()), kind: kind.map(|k| k.to_string()) }
}

fn statements(request: &SQLRequest) -> Vec<&str> {
    request.args.iter().map(|query| query.args.sql.as_str()).collect()
}

fn assert_default_batch(request: &SQLRequest) {
    assert_eq!(request.request_type, "bulk");
    assert_eq!(request.args.len(), 4);
    for query in &request.args {
        assert_eq!(query.request_type, "run_sql");
        assert_eq!(query.args.source, "default");
        assert!(query.args.read_only);
        assert!(!query.args.cascade);
    }
}

#[test]
fn cron_trigger_batch_counts_by_status() {
    let request = create_cron_trigger_request();
    assert_default_batch(&request);
    assert_eq!(
        statements(&request),
        vec![
            "SELECT COUNT(*), trigger_name FROM hdb_catalog.hdb_cron_events WHERE status = 'error' GROUP BY trigger_name;",
            "SELECT COUNT(*), trigger_name FROM hdb_catalog.hdb_cron_events WHERE status = 'delivered' GROUP BY trigger_name;",
            "SELECT COUNT(*), trigger_name FROM hdb_catalog.hdb_cron_events WHERE status = 'scheduled' GROUP BY trigger_name;",
            "SELECT COUNT(*), trigger_name FROM hdb_catalog.hdb_cron_events WHERE status = 'error' or status = 'delivered' GROUP BY trigger_name;",
        ]
    );
}

#[test]
fn scheduled_event_batch_counts_by_status() {
    let request = create_scheduled_event_request();
    assert_default_batch(&request);
    assert_eq!(
        statements(&request),
        vec![
            "SELECT COUNT(*) FROM hdb_catalog.hdb_scheduled_events WHERE status = 'error';",
            "SELECT COUNT(*) FROM hdb_catalog.hdb_scheduled_events WHERE status = 'delivered';",
            "SELECT COUNT(*) FROM hdb_catalog.hdb_scheduled_events WHERE status = 'scheduled';",
            "SELECT COUNT(*) FROM hdb_catalog.hdb_scheduled_events WHERE status = 'error' or status = 'delivered';",
        ]
    );
}

#[test]
fn event_trigger_batch_is_made_for_dialect_and_source() {
    let request = create_event_trigger_request(&"mssql_run_sql".to_string(), &"orders".to_string());
    assert_eq!(request.request_type, "bulk");
    assert_eq!(request.args.len(), 4);
    for query in &request.args {
        assert_eq!(query.request_type, "mssql_run_sql");
        assert_eq!(query.args.source, "orders");
        assert!(query.args.read_only);
        assert!(!query.args.cascade);
    }
    assert_eq!(
        statements(&request),
        vec![
            "SELECT COUNT(*), trigger_name FROM hdb_catalog.event_log WHERE error = 'true' GROUP BY trigger_name;",
            "SELECT COUNT(*), trigger_name FROM hdb_catalog.event_log WHERE error = 'false' AND delivered = 'true' GROUP BY trigger_name;",
            "SELECT COUNT(*), trigger_name FROM hdb_catalog.event_log WHERE delivered = 'false' AND error = 'false' AND archived = 'false' GROUP BY trigger_name;",
            "SELECT COUNT(*), trigger_name FROM hdb_catalog.event_log WHERE delivered = 'true' OR error = 'true' GROUP BY trigger_name;",
        ]
    );
}

#[test]
fn every_index_table_has_one_entry_per_query() {
    let pairs = [
        (cron_trigger_table(), create_cron_trigger_request()),
        (scheduled_event_table(), create_scheduled_event_request()),
        (
            event_trigger_table(),
            create_event_trigger_request(&"run_sql".to_string(), &"default".to_string()),
        ),
    ];
    for (table, request) in pairs.iter() {
        let positions = request.args.len();
        assert_eq!(table.names.len(), positions);
        for index in 0..positions {
            assert!(table.lookup(index).is_some());
        }
        assert!(table.lookup(positions).is_none());
    }
}

#[test]
fn index_tables_name_failed_successful_pending_processed() {
    assert_eq!(
        cron_trigger_table().names,
        vec![
            "failed_cron_triggers",
            "successful_cron_triggers",
            "pending_cron_triggers",
            "processed_cron_triggers"
        ]
    );
    assert_eq!(
        scheduled_event_table().names,
        vec![
            "failed_one_off_events",
            "successful_one_off_events",
            "pending_one_off_events",
            "processed_one_off_events"
        ]
    );
    assert_eq!(
        event_trigger_table().names,
        vec![
            "failed_event_triggers",
            "successful_event_triggers",
            "pending_event_triggers",
            "processed_event_triggers"
        ]
    );
}

#[test]
fn cron_triggers_scenario_of_four_counts() {
    let cfg = configuration(Some("secret"), &[]);
    assert!(cron_triggers_request(&cfg).is_some());
    let effects = check_cron_triggers(&cfg, answered(&[3, 7, 0, 10]));
    let expected = [
        ("failed_cron_triggers", 3i64),
        ("successful_cron_triggers", 7),
        ("pending_cron_triggers", 0),
        ("processed_cron_triggers", 10),
    ];
    assert_eq!(effects.len(), 4);
    for (effect, (name, value)) in effects.iter().zip(expected.iter()) {
        let sent = emission(effect);
        assert_eq!(sent.name, *name);
        assert_eq!(sent.kind, MetricKind::Gauge(*value));
        assert!(sent.tags.is_empty());
    }
}

#[test]
fn scheduled_events_scenario_of_four_counts() {
    let cfg = configuration(Some("secret"), &[]);
    assert!(scheduled_events_request(&cfg).is_some());
    let effects = check_scheduled_events(&cfg, answered(&[3, 7, 0, 10]));
    let expected = [
        ("failed_one_off_events", 3i64),
        ("successful_one_off_events", 7),
        ("pending_one_off_events", 0),
        ("processed_one_off_events", 10),
    ];
    assert_eq!(effects.len(), 4);
    for (effect, (name, value)) in effects.iter().zip(expected.iter()) {
        let sent = emission(effect);
        assert_eq!(sent.name, *name);
        assert_eq!(sent.kind, MetricKind::Gauge(*value));
    }
}

#[test]
fn failed_calls_count_one_error_for_their_collector() {
    let cfg = configuration(Some("secret"), &[]);
    for reply in failed_replies() {
        let effects = check_cron_triggers(&cfg, reply);
        assert_eq!(effects.len(), 2);
        assert!(matches!(warning(&effects[0]), Diagnostic::Query(_)));
        assert_error_increment(&effects[1], "type:cron");
    }
    for reply in failed_replies() {
        let effects = check_scheduled_events(&cfg, reply);
        assert_eq!(effects.len(), 2);
        assert!(matches!(warning(&effects[0]), Diagnostic::Query(_)));
        assert_error_increment(&effects[1], "type:scheduled");
    }
    let orders = source(Some("orders"), Some("postgres"));
    for reply in failed_replies() {
        let effects = process_database(&orders, reply);
        assert_eq!(effects.len(), 2);
        assert!(matches!(warning(&effects[0]), Diagnostic::Query(_)));
        assert_error_increment(&effects[1], "type:event");
    }
}

#[test]
fn disabled_collectors_neither_call_nor_emit() {
    let cfg = configuration(
        Some("secret"),
        &[
            Collectors::CronTriggers,
            Collectors::ScheduledEvents,
            Collectors::EventTriggers,
            Collectors::MetadataInconsistency,
        ],
    );
    for _cycle in 0..3 {
        assert!(cron_triggers_request(&cfg).is_none());
        assert!(scheduled_events_request(&cfg).is_none());
        assert!(metadata_consistency_request(&cfg).is_none());
        assert!(metadata_export_request(&cfg).is_none());
        assert!(check_cron_triggers(&cfg, answered(&[1, 2, 3, 4])).is_empty());
        assert!(check_cron_triggers(&cfg, Reply::Unreachable).is_empty());
        assert!(check_scheduled_events(&cfg, answered(&[1, 2, 3, 4])).is_empty());
        assert!(check_scheduled_events(&cfg, Reply::Unreachable).is_empty());
        let metadata = Metadata { sources: Some(vec![source(Some("default"), Some("postgres"))]) };
        let plan = check_event_triggers(&cfg, &metadata);
        assert!(plan.effects.is_empty());
        assert!(plan.queries.is_empty());
        let missing = check_event_triggers(&cfg, &Metadata::empty());
        assert!(missing.effects.is_empty());
        assert!(missing.queries.is_empty());
        let (known, effects) = fetch_metadata_consistency(
            &cfg,
            Reply::Answered { status: 200, body: Some(MetadataCheckResponse { is_consistent: true }) },
        );
        assert_eq!(known, Consistency::NotChecked);
        assert!(effects.is_empty());
        let (exported, effects) = fetch_metadata(&cfg, Reply::Answered { status: 200, body: Some(metadata) });
        assert!(exported.sources.is_none());
        assert!(effects.is_empty());
    }
}

#[test]
fn one_disabled_collector_leaves_the_others_running() {
    let cfg = configuration(Some("secret"), &[Collectors::CronTriggers]);
    assert!(cron_triggers_request(&cfg).is_none());
    assert!(scheduled_events_request(&cfg).is_some());
    assert!(metadata_consistency_request(&cfg).is_some());
    assert!(metadata_export_request(&cfg).is_some());
    assert_eq!(check_scheduled_events(&cfg, answered(&[1, 2, 3, 4])).len(), 4);
}

#[test]
fn dialect_follows_the_kind_of_source() {
    assert_eq!(Dialect::from_kind(Some("postgres")), Dialect::Postgres);
    assert_eq!(Dialect::from_kind(Some("mssql")), Dialect::Mssql);
    assert_eq!(Dialect::from_kind(Some("bigquery")), Dialect::Unsupported);
    assert_eq!(Dialect::from_kind(Some("Postgres")), Dialect::Unsupported);
    assert_eq!(Dialect::from_kind(Some("")), Dialect::Unsupported);
    assert_eq!(Dialect::from_kind(None), Dialect::Unsupported);
    assert_eq!(Dialect::Postgres.request_type(), Some("run_sql"));
    assert_eq!(Dialect::Mssql.request_type(), Some("mssql_run_sql"));
    assert_eq!(Dialect::Unsupported.request_type(), None);
}

#[test]
fn only_supported_and_named_sources_get_a_batch() {
    let postgres = database_request(&source(Some("main"), Some("postgres"))).unwrap();
    assert_eq!(postgres.args[0].request_type, "run_sql");
    assert_eq!(postgres.args[0].args.source, "main");
    let mssql = database_request(&source(Some("legacy"), Some("mssql"))).unwrap();
    assert_eq!(mssql.args[3].request_type, "mssql_run_sql");
    assert_eq!(mssql.args[3].args.source, "legacy");
    assert!(database_request(&source(Some("lake"), Some("bigquery"))).is_none());
    assert!(database_request(&source(None, Some("postgres"))).is_none());
    assert!(database_request(&source(Some("main"), None)).is_none());
}

#[test]
fn discovery_plans_one_batch_per_supported_source_in_order() {
    let cfg = configuration(Some("secret"), &[]);
    let metadata = Metadata {
        sources: Some(vec![
            source(Some("a"), Some("postgres")),
            source(Some("b"), Some("bigquery")),
            source(Some("c"), Some("mssql")),
            source(None, Some("postgres")),
            source(Some("e"), Some("postgres")),
        ]),
    };
    let plan = check_event_triggers(&cfg, &metadata);
    assert!(plan.effects.is_empty());
    let planned: Vec<(usize, &str, &str)> = plan
        .queries
        .iter()
        .map(|query| {
            (
                query.source,
                query.request.args[0].request_type.as_str(),
                query.request.args[0].args.source.as_str(),
            )
        })
        .collect();
    assert_eq!(planned, vec![(0, "run_sql", "a"), (2, "mssql_run_sql", "c"), (4, "run_sql", "e")]);
}

#[test]
fn missing_source_list_is_a_single_error() {
    let cfg = configuration(Some("secret"), &[]);
    let plan = check_event_triggers(&cfg, &Metadata::empty());
    assert!(plan.queries.is_empty());
    assert_eq!(plan.effects.len(), 2);
    assert_eq!(warning(&plan.effects[0]), Diagnostic::SourcesMissing);
    assert_error_increment(&plan.effects[1], "type:event");
}

#[test]
fn empty_source_list_is_no_error() {
    let cfg = configuration(Some("secret"), &[]);
    let plan = check_event_triggers(&cfg, &Metadata { sources: Some(vec![]) });
    assert!(plan.queries.is_empty());
    assert!(plan.effects.is_empty());
}

#[test]
fn results_of_a_source_are_tagged_with_its_name() {
    let orders = source(Some("orders"), Some("postgres"));
    let effects = process_database(&orders, answered(&[3, 7, 0, 10]));
    let expected = [
        ("failed_event_triggers", 3i64),
        ("successful_event_triggers", 7),
        ("pending_event_triggers", 0),
        ("processed_event_triggers", 10),
    ];
    assert_eq!(effects.len(), 4);
    for (effect, (name, value)) in effects.iter().zip(expected.iter()) {
        let sent = emission(effect);
        assert_eq!(sent.name, *name);
        assert_eq!(sent.kind, MetricKind::Gauge(*value));
        assert_eq!(sent.tags, vec!["db_name:orders".to_string()]);
    }
}

#[test]
fn unsupported_source_is_skipped_in_silence() {
    let lake = source(Some("lake"), Some("bigquery"));
    assert!(process_database(&lake, answered(&[1, 2, 3, 4])).is_empty());
    assert!(process_database(&lake, Reply::Unreachable).is_empty());
    let unnamed = source(None, Some("postgres"));
    assert!(process_database(&unnamed, answered(&[1, 2, 3, 4])).is_empty());
}

#[test]
fn version_is_counted_under_its_tag() {
    let effects = fetch_version(Reply::Answered {
        status: 200,
        body: Some(VersionResponse { version: "v2.8.1".to_string() }),
    });
    assert_eq!(effects.len(), 1);
    let sent = emission(&effects[0]);
    assert_eq!(sent.name, "metadata_version");
    assert_eq!(sent.kind, MetricKind::Increment);
    assert_eq!(sent.tags, vec!["version:v2.8.1".to_string()]);
}

#[test]
fn failed_version_query_counts_one_error() {
    let replies: Vec<Reply<VersionResponse>> = vec![
        Reply::Unreachable,
        Reply::Answered { status: 500, body: None },
        Reply::Answered { status: 200, body: None },
    ];
    let failures = [
        QueryError::TransportError,
        QueryError::StatusError(500),
        QueryError::DecodeError,
    ];
    for (reply, failure) in replies.into_iter().zip(failures.iter()) {
        let effects = fetch_version(reply);
        assert_eq!(effects.len(), 2);
        assert_eq!(warning(&effects[0]), Diagnostic::Query(*failure));
        assert_error_increment(&effects[1], "type:version");
    }
}

#[test]
fn consistency_is_a_binary_gauge() {
    let cfg = configuration(Some("secret"), &[]);
    let (known, effects) = fetch_metadata_consistency(
        &cfg,
        Reply::Answered { status: 200, body: Some(MetadataCheckResponse { is_consistent: true }) },
    );
    assert_eq!(known, Consistency::Consistent);
    assert_eq!(effects.len(), 1);
    assert_eq!(emission(&effects[0]).name, "metadata_consistency_status");
    assert_eq!(emission(&effects[0]).kind, MetricKind::Gauge(1));
    assert!(emission(&effects[0]).tags.is_empty());

    let (known, effects) = fetch_metadata_consistency(
        &cfg,
        Reply::Answered { status: 200, body: Some(MetadataCheckResponse { is_consistent: false }) },
    );
    assert_eq!(known, Consistency::Inconsistent);
    assert_eq!(effects.len(), 1);
    assert_eq!(emission(&effects[0]).name, "metadata_consistency_status");
    assert_eq!(emission(&effects[0]).kind, MetricKind::Gauge(0));
}

#[test]
fn failed_consistency_check_counts_one_error() {
    let cfg = configuration(Some("secret"), &[]);
    let replies: Vec<Reply<MetadataCheckResponse>> = vec![
        Reply::Unreachable,
        Reply::Answered { status: 403, body: Some(MetadataCheckResponse { is_consistent: true }) },
        Reply::Answered { status: 200, body: None },
    ];
    for reply in replies {
        let (known, effects) = fetch_metadata_consistency(&cfg, reply);
        assert_eq!(known, Consistency::CheckFailed);
        assert_eq!(effects.len(), 2);
        assert!(matches!(warning(&effects[0]), Diagnostic::Query(_)));
        assert_error_increment(&effects[1], "type:metadata");
    }
}

#[test]
fn missing_credential_is_a_silent_gap() {
    let cfg = configuration(None, &[]);
    assert!(metadata_consistency_request(&cfg).is_none());
    assert!(metadata_export_request(&cfg).is_none());
    let (known, effects) = fetch_metadata_consistency(
        &cfg,
        Reply::Answered { status: 200, body: Some(MetadataCheckResponse { is_consistent: true }) },
    );
    assert_eq!(known, Consistency::NotChecked);
    assert!(effects.is_empty());
    let (metadata, effects) = fetch_metadata(&cfg, Reply::Unreachable);
    assert!(metadata.sources.is_none());
    assert!(effects.is_empty());
}

#[test]
fn metadata_requests_have_their_fixed_shape() {
    let cfg = configuration(Some("secret"), &[]);
    assert_eq!(
        metadata_consistency_request(&cfg).unwrap().request_type,
        "get_inconsistent_metadata"
    );
    let export = metadata_export_request(&cfg).unwrap();
    assert_eq!(export.request_type, "export_metadata");
    assert_eq!(export.version, 2);
    assert_eq!(
        MetadataCheckRequest::get_inconsistent_metadata().request_type,
        "get_inconsistent_metadata"
    );
    assert_eq!(MetadataExportRequest::export_metadata().version, 2);
}

#[test]
fn export_hands_on_the_sources_or_counts_one_error() {
    let cfg = configuration(Some("secret"), &[]);
    let exported = Metadata { sources: Some(vec![source(Some("default"), Some("postgres"))]) };
    let (metadata, effects) = fetch_metadata(&cfg, Reply::Answered { status: 200, body: Some(exported) });
    assert!(effects.is_empty());
    let sources = metadata.sources.unwrap();
    assert_eq!(sources.len(), 1);
    assert_eq!(sources[0].name.as_deref(), Some("default"));
    assert_eq!(sources[0].kind.as_deref(), Some("postgres"));

    let replies: Vec<Reply<Metadata>> = vec![
        Reply::Unreachable,
        Reply::Answered { status: 500, body: None },
        Reply::Answered { status: 200, body: None },
    ];
    for reply in replies {
        let (metadata, effects) = fetch_metadata(&cfg, reply);
        assert!(metadata.sources.is_none());
        assert_eq!(effects.len(), 2);
        assert!(matches!(warning(&effects[0]), Diagnostic::Query(_)));
        assert_error_increment(&effects[1], "type:metadata");
    }
}

#[test]
fn export_is_due_only_where_the_metadata_is_consistent() {
    assert!(matches!(check_metadata(Consistency::Consistent), MetadataStep::Export));
    for known in [Consistency::Inconsistent, Consistency::NotChecked, Consistency::CheckFailed] {
        assert!(matches!(check_metadata(known), MetadataStep::Skip(_)));
    }
}

#[test]
fn only_a_reported_inconsistency_counts_the_skip_as_an_error() {
    match check_metadata(Consistency::Inconsistent) {
        MetadataStep::Skip(effects) => {
            assert_eq!(effects.len(), 2);
            assert_eq!(warning(&effects[0]), Diagnostic::MetadataInconsistent);
            assert_error_increment(&effects[1], "type:metadata");
        }
        MetadataStep::Export => panic!("the export is not due"),
    }
    for known in [Consistency::NotChecked, Consistency::CheckFailed] {
        match check_metadata(known) {
            MetadataStep::Skip(effects) => assert!(effects.is_empty()),
            MetadataStep::Export => panic!("the export is not due"),
        }
    }
}

/// Runs the consistency check and the step after it as a cycle does, and
/// returns all their effects, and whether the export is due.
fn chain(cfg: &Configuration, reply: Reply<MetadataCheckResponse>) -> (Vec<Effect>, bool) {
    let (known, mut effects) = fetch_metadata_consistency(cfg, reply);
    match check_metadata(known) {
        MetadataStep::Export => (effects, true),
        MetadataStep::Skip(mut more) => {
            effects.append(&mut more);
            (effects, false)
        }
    }
}

fn error_increments(effects: &[Effect]) -> usize {
    effects
        .iter()
        .filter(|effect| match effect {
            Effect::Emit(sent) => sent.name == "errors_total" && sent.kind == MetricKind::Increment,
            Effect::Warn(_) => false,
        })
        .count()
}

fn consistency_answers() -> Vec<Reply<MetadataCheckResponse>> {
    vec![
        Reply::Unreachable,
        Reply::Answered { status: 500, body: None },
        Reply::Answered { status: 200, body: None },
        Reply::Answered { status: 200, body: Some(MetadataCheckResponse { is_consistent: true }) },
        Reply::Answered { status: 200, body: Some(MetadataCheckResponse { is_consistent: false }) },
    ]
}

#[test]
fn chain_with_the_check_disabled_is_silent() {
    let cfg = configuration(Some("secret"), &[Collectors::MetadataInconsistency]);
    assert!(metadata_consistency_request(&cfg).is_none());
    for _cycle in 0..3 {
        for reply in consistency_answers() {
            let (effects, export) = chain(&cfg, reply);
            assert!(effects.is_empty());
            assert!(!export);
        }
    }
}

#[test]
fn chain_without_credential_is_silent() {
    let cfg = configuration(None, &[]);
    assert!(metadata_consistency_request(&cfg).is_none());
    assert!(metadata_export_request(&cfg).is_none());
    for reply in consistency_answers() {
        let (effects, export) = chain(&cfg, reply);
        assert!(effects.is_empty());
        assert!(!export);
    }
}

#[test]
fn chain_with_a_failed_check_counts_exactly_one_error() {
    let cfg = configuration(Some("secret"), &[]);
    let replies: Vec<Reply<MetadataCheckResponse>> = vec![
        Reply::Unreachable,
        Reply::Answered { status: 503, body: Some(MetadataCheckResponse { is_consistent: true }) },
        Reply::Answered { status: 200, body: None },
    ];
    let failures = [
        QueryError::TransportError,
        QueryError::StatusError(503),
        QueryError::DecodeError,
    ];
    for (reply, failure) in replies.into_iter().zip(failures.iter()) {
        let (effects, export) = chain(&cfg, reply);
        assert!(!export);
        assert_eq!(error_increments(&effects), 1);
        assert_eq!(effects.len(), 2);
        assert_eq!(warning(&effects[0]), Diagnostic::Query(*failure));
        assert_error_increment(&effects[1], "type:metadata");
    }
}

#[test]
fn chain_with_inconsistent_metadata_sets_the_gauge_and_counts_one_error() {
    let cfg = configuration(Some("secret"), &[]);
    let (effects, export) = chain(
        &cfg,
        Reply::Answered { status: 200, body: Some(MetadataCheckResponse { is_consistent: false }) },
    );
    assert!(!export);
    assert_eq!(effects.len(), 3);
    assert_eq!(emission(&effects[0]).name, "metadata_consistency_status");
    assert_eq!(emission(&effects[0]).kind, MetricKind::Gauge(0));
    assert_eq!(warning(&effects[1]), Diagnostic::MetadataInconsistent);
    assert_error_increment(&effects[2], "type:metadata");
    assert_eq!(error_increments(&effects), 1);
}

#[test]
fn chain_with_consistent_metadata_goes_on_to_the_export_without_error() {
    let cfg = configuration(Some("secret"), &[]);
    let (effects, export) = chain(
        &cfg,
        Reply::Answered { status: 200, body: Some(MetadataCheckResponse { is_consistent: true }) },
    );
    assert!(export);
    assert_eq!(effects.len(), 1);
    assert_eq!(emission(&effects[0]).kind, MetricKind::Gauge(1));
    assert_eq!(error_increments(&effects), 0);
}

#[test]
fn health_is_a_service_check_with_three_states() {
    let cfg = configuration(None, &[]);
    let healthy = check_health(&cfg, Some(200));
    assert_eq!(healthy.len(), 1);
    assert_eq!(emission(&healthy[0]).name, "hasura.health");
    assert_eq!(
        emission(&healthy[0]).kind,
        MetricKind::ServiceCheck(ServiceCheckStatus::Healthy)
    );
    assert!(emission(&healthy[0]).tags.is_empty());

    for status in [204u16, 404, 500, 503] {
        let critical = check_health(&cfg, Some(status));
        assert_eq!(critical.len(), 1);
        assert_eq!(
            emission(&critical[0]).kind,
            MetricKind::ServiceCheck(ServiceCheckStatus::Critical)
        );
    }

    let unknown = check_health(&cfg, None);
    assert_eq!(unknown.len(), 3);
    assert_eq!(emission(&unknown[0]).name, "hasura.health");
    assert_eq!(
        emission(&unknown[0]).kind,
        MetricKind::ServiceCheck(ServiceCheckStatus::Unknown)
    );
    assert_error_increment(&unknown[1], "type:health");
    assert_eq!(warning(&unknown[2]), Diagnostic::Query(QueryError::TransportError));
}

#[test]
fn health_check_name_takes_the_configured_prefix() {
    let mut cfg = configuration(None, &[]);
    cfg.prefix = String::new();
    assert_eq!(emission(&check_health(&cfg, Some(200))[0]).name, ".health");
}
