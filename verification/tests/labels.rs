use metrics::labels::{key_value_parser, pair_from_parts, CommonLabels, MapValueParser};

fn pair(key: &str, value: &str) -> (String, String) {
    (key.to_string(), value.to_string())
}

fn parsed(value: &str) -> Result<Vec<(String, String)>, String> {
    MapValueParser::new().parse_ref(value).map(|labels| labels.pairs().clone())
}

fn labels_of(pairs: &[(&str, &str)]) -> CommonLabels {
    let mut labels = CommonLabels::new();
    for (key, value) in pairs {
        labels.put(key.to_string(), value.to_string());
    }
    labels
}

fn texts(parts: &[&str]) -> Vec<String> {
    parts.iter().map(|part| part.to_string()).collect()
}

#[test]
fn key_and_value_are_split_at_the_colon() {
    assert_eq!(key_value_parser("env:prod"), Ok(pair("env", "prod")));
    assert_eq!(key_value_parser("a:b"), Ok(pair("a", "b")));
}

#[test]
fn empty_key_or_value_is_a_pair() {
    assert_eq!(key_value_parser(":"), Ok(pair("", "")));
    assert_eq!(key_value_parser("key:"), Ok(pair("key", "")));
    assert_eq!(key_value_parser(":value"), Ok(pair("", "value")));
}

#[test]
fn text_without_colon_is_rejected_with_its_message() {
    assert_eq!(
        key_value_parser("envprod"),
        Err("invalid KEY:value: no `:` found in `envprod`".to_string())
    );
    assert_eq!(key_value_parser(""), Err("invalid KEY:value: no `:` found in ``".to_string()));
}

#[test]
fn text_with_two_colons_is_rejected() {
    assert_eq!(
        key_value_parser("a:b:c"),
        Err("invalid KEY:value: no `:` found in `a:b:c`".to_string())
    );
    assert_eq!(key_value_parser("::"), Err("invalid KEY:value: no `:` found in `::`".to_string()));
}

#[test]
fn pair_is_made_of_exactly_two_parts() {
    assert_eq!(pair_from_parts(&texts(&["k", "v"]), "k:v"), Ok(pair("k", "v")));
    assert_eq!(
        pair_from_parts(&texts(&["k"]), "k"),
        Err("invalid KEY:value: no `:` found in `k`".to_string())
    );
    assert_eq!(
        pair_from_parts(&texts(&[]), "x"),
        Err("invalid KEY:value: no `:` found in `x`".to_string())
    );
    assert_eq!(
        pair_from_parts(&texts(&["a", "b", "c"]), "a:b:c"),
        Err("invalid KEY:value: no `:` found in `a:b:c`".to_string())
    );
}

#[test]
fn labels_are_read_in_order() {
    assert_eq!(
        parsed("env:prod;region:eu;team:data"),
        Ok(vec![pair("env", "prod"), pair("region", "eu"), pair("team", "data")])
    );
    assert_eq!(parsed("env:prod"), Ok(vec![pair("env", "prod")]));
    assert_eq!(parsed("env:prod;team:core"), Ok(vec![pair("env", "prod"), pair("team", "core")]));
}

#[test]
fn later_value_replaces_earlier_one_of_the_same_key() {
    assert_eq!(
        parsed("env:dev;region:eu;env:prod"),
        Ok(vec![pair("env", "prod"), pair("region", "eu")])
    );
    assert_eq!(parsed("a:1;a:2;a:3"), Ok(vec![pair("a", "3")]));
}

#[test]
fn first_text_that_is_no_pair_is_the_error() {
    assert_eq!(
        parsed("env:prod;oops;also bad"),
        Err("invalid KEY:value: no `:` found in `oops`".to_string())
    );
    assert_eq!(parsed("env:prod;"), Err("invalid KEY:value: no `:` found in ``".to_string()));
    assert_eq!(parsed(""), Err("invalid KEY:value: no `:` found in ``".to_string()));
    assert_eq!(parsed(";a:b"), Err("invalid KEY:value: no `:` found in ``".to_string()));
    assert_eq!(parsed("a:b;;c:d"), Err("invalid KEY:value: no `:` found in ``".to_string()));
}

#[test]
fn text_is_cut_at_every_separator() {
    assert_eq!(parsed("a:;:b"), Ok(vec![pair("a", ""), pair("", "b")]));
    assert_eq!(parsed(":"), Ok(vec![pair("", "")]));
    assert_eq!(parsed("k:v w"), Ok(vec![pair("k", "v w")]));
    assert_eq!(key_value_parser("a;b:c"), Ok(pair("a;b", "c")));
    assert_eq!(key_value_parser("caf\u{e9}:\u{2603}"), Ok(pair("caf\u{e9}", "\u{2603}")));
}

#[test]
fn setting_a_key_replaces_in_place_or_appends() {
    let mut labels = labels_of(&[("a", "1"), ("b", "2")]);
    labels.put("c".to_string(), "3".to_string());
    assert_eq!(labels.pairs(), &vec![pair("a", "1"), pair("b", "2"), pair("c", "3")]);
    labels.put("a".to_string(), "9".to_string());
    assert_eq!(labels.pairs(), &vec![pair("a", "9"), pair("b", "2"), pair("c", "3")]);
    let mut empty = CommonLabels::new();
    assert!(empty.pairs().is_empty());
    empty.put("k".to_string(), "v".to_string());
    assert_eq!(empty.pairs(), &vec![pair("k", "v")]);
}

#[test]
fn no_key_occurs_twice() {
    let mut labels = CommonLabels::new();
    for (key, value) in [("a", "1"), ("b", "2"), ("a", "3"), ("b", "4"), ("a", "5")] {
        labels.put(key.to_string(), value.to_string());
    }
    assert_eq!(labels.pairs(), &vec![pair("a", "5"), pair("b", "4")]);
}

#[test]
fn copy_of_the_labels_holds_the_same_pairs() {
    let labels = labels_of(&[("env", "prod"), ("region", "eu")]);
    let copy = labels.clone();
    assert_eq!(copy.pairs(), labels.pairs());
    assert_eq!(copy.pairs(), &vec![pair("env", "prod"), pair("region", "eu")]);
}

#[test]
fn labels_become_tags_of_key_colon_value() {
    assert_eq!(
        labels_of(&[("env", "prod"), ("region", "eu")]).tags(),
        vec!["env:prod".to_string(), "region:eu".to_string()]
    );
    assert_eq!(labels_of(&[("", "")]).tags(), vec![":".to_string()]);
    assert!(CommonLabels::new().tags().is_empty());
}
