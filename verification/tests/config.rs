use metrics::config::{Collectors, Configuration};

fn configuration(admin: Option<&str>, disabled: &[Collectors], limit: usize) -> Configuration {
    Configuration {
        prefix: String::new(),
        datadog_addr: "127.0.0.1:8125".to_string(),
        hasura_addr: "http://localhost:8080".to_string(),
        hasura_admin: admin.map(|secret| secret.to_string()),
        log_file: "engine.log".to_string(),
        sleep_time: 1000,
        collect_interval: 15000,
        disabled_collectors: disabled.to_vec(),
        common_labels: None,
        concurrency_limit: limit,
    }
}

#[test]
fn membership_in_the_disabled_list() {
    let cfg = configuration(Some("secret"), &[Collectors::EventTriggers, Collectors::CronTriggers], 0);
    assert!(cfg.is_disabled(Collectors::CronTriggers));
    assert!(cfg.is_disabled(Collectors::EventTriggers));
    assert!(!cfg.is_disabled(Collectors::ScheduledEvents));
    assert!(!cfg.is_disabled(Collectors::MetadataInconsistency));
    let none = configuration(Some("secret"), &[], 0);
    assert!(!none.is_disabled(Collectors::CronTriggers));
}

#[test]
fn without_credential_all_four_are_off() {
    let cfg = configuration(None, &[], 0);
    assert_eq!(
        cfg.effective_disabled(),
        vec![
            Collectors::CronTriggers,
            Collectors::EventTriggers,
            Collectors::ScheduledEvents,
            Collectors::MetadataInconsistency,
        ]
    );
    let some_named = configuration(None, &[Collectors::ScheduledEvents], 0);
    assert_eq!(some_named.effective_disabled().len(), 4);
}

#[test]
fn with_credential_the_named_ones_are_off_sorted_and_once() {
    let cfg = configuration(
        Some("secret"),
        &[
            Collectors::MetadataInconsistency,
            Collectors::CronTriggers,
            Collectors::MetadataInconsistency,
            Collectors::CronTriggers,
        ],
        0,
    );
    assert_eq!(
        cfg.effective_disabled(),
        vec![Collectors::CronTriggers, Collectors::MetadataInconsistency]
    );
    let none = configuration(Some("secret"), &[], 0);
    assert!(none.effective_disabled().is_empty());
}

#[test]
fn effective_list_agrees_with_sort_and_dedup() {
    let named = [
        Collectors::ScheduledEvents,
        Collectors::EventTriggers,
        Collectors::ScheduledEvents,
    ];
    let cfg = configuration(Some("secret"), &named, 0);
    let mut expected = named.to_vec();
    expected.sort();
    expected.dedup();
    assert_eq!(cfg.effective_disabled(), expected);
}
