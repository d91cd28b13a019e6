use usage_monitor::model::{Metric, MetricType};
use usage_monitor::row::{decode_dimensions, encode_dimensions, MetricRow};
use usage_monitor::store::{instant_before, MetricsStore};

const NOW: i64 = 1_750_000_000;
const DAY: i64 = 86_400;

fn metric(id: &str, provider: &str, ts: i64, dims: Vec<(String, String)>) -> Metric {
    Metric {
        id: id.to_string(),
        provider_id: provider.to_string(),
        metric_type: MetricType::TokensIn,
        value: 1,
        unit: "tokens".to_string(),
        timestamp: ts,
        dimensions: dims,
    }
}

#[test]
fn stored_metric_round_trips_with_its_dimensions() {
    let mut store = MetricsStore::new();
    let dims = vec![("model".to_string(), "m1".to_string()), ("region".to_string(), "eu".to_string())];
    store.insert(metric("a", "openai", NOW - 60, dims.clone()));
    store.insert(metric("b", "openai", NOW - 30, vec![]));
    let got = store.query_recent(&"openai".to_string(), NOW, 1);
    assert_eq!(got.len(), 2);
    assert_eq!(got[0].id, "b");
    assert!(got[0].dimensions.is_empty());
    assert_eq!(got[1].id, "a");
    assert_eq!(got[1].dimensions, dims);
}

#[test]
fn query_is_newest_first_and_per_provider() {
    let mut store = MetricsStore::new();
    store.insert(metric("old", "p", NOW - 3 * 3600, vec![]));
    store.insert(metric("mid", "p", NOW - 3600 + 1, vec![]));
    store.insert(metric("other", "q", NOW - 10, vec![]));
    store.insert(metric("new", "p", NOW - 5, vec![]));
    store.insert(metric("tie", "p", NOW - 5, vec![]));
    let got = store.query_recent(&"p".to_string(), NOW, 1);
    let ids: Vec<&str> = got.iter().map(|m| m.id.as_str()).collect();
    assert_eq!(ids, vec!["new", "tie", "mid"]);
    // a metric exactly at the cutoff is not newer than it
    let mut edge = MetricsStore::new();
    edge.insert(metric("edge", "p", NOW - 3600, vec![]));
    assert!(edge.query_recent(&"p".to_string(), NOW, 1).is_empty());
}

#[test]
fn purge_removes_only_metrics_older_than_the_cutoff() {
    let mut store = MetricsStore::new();
    store.insert(metric("a", "p", NOW - 40 * DAY, vec![]));
    store.insert(metric("b", "p", NOW - 31 * DAY, vec![]));
    store.insert(metric("c", "p", NOW - 30 * DAY, vec![]));
    store.insert(metric("d", "q", NOW - 2 * DAY, vec![]));
    store.insert(metric("e", "p", NOW, vec![]));
    assert_eq!(store.len(), 5);
    let removed = store.purge_older_than(NOW, 30);
    assert_eq!(removed, 2);
    assert_eq!(store.len(), 3);
    let left = store.query_recent(&"p".to_string(), NOW, 24 * 365);
    let ids: Vec<&str> = left.iter().map(|m| m.id.as_str()).collect();
    assert_eq!(ids, vec!["e", "c"]);
    assert_eq!(store.purge_older_than(NOW, 30), 0);
}

#[test]
fn cutoffs_clamp_instead_of_overflowing() {
    assert_eq!(instant_before(NOW, 30, DAY), NOW - 30 * DAY);
    assert_eq!(instant_before(i64::MIN, 1, DAY), i64::MIN);
    assert_eq!(instant_before(i64::MAX, -1, 3600), i64::MAX);
}

#[test]
fn rows_round_trip_metrics() {
    let dims = vec![("model".to_string(), "m\"1".to_string())];
    let m = metric("id-1", "anthropic", NOW, dims.clone());
    let row = MetricRow::from_metric(&m);
    assert_eq!(row.metric_type, "TokensIn");
    assert_eq!(row.dimensions.as_deref(), Some("{\"model\":\"m\\\"1\"}"));
    let back = row.into_metric();
    assert_eq!(back.id, "id-1");
    assert_eq!(back.metric_type, MetricType::TokensIn);
    assert_eq!(back.timestamp, NOW);
    assert_eq!(back.dimensions, dims);
}

#[test]
fn missing_or_malformed_dimensions_read_as_empty() {
    assert!(decode_dimensions(&None).is_empty());
    assert!(decode_dimensions(&Some("not json".to_string())).is_empty());
    assert!(decode_dimensions(&Some("{\"a\":1}".to_string())).is_empty());
    assert_eq!(
        decode_dimensions(&Some("{\"b\":\"2\",\"a\":\"1\"}".to_string())),
        vec![("a".to_string(), "1".to_string()), ("b".to_string(), "2".to_string())]
    );
    assert_eq!(encode_dimensions(&vec![]), "{}");
    let row = MetricRow {
        id: "x".to_string(),
        provider_id: "p".to_string(),
        metric_type: "Mystery".to_string(),
        value: 4,
        unit: "usd".to_string(),
        timestamp: 0,
        dimensions: None,
    };
    let m = row.into_metric();
    assert_eq!(m.metric_type, MetricType::CostUsd);
    assert!(m.dimensions.is_empty());
}

#[test]
fn kind_names_round_trip() {
    for k in [
        MetricType::TokensIn,
        MetricType::TokensOut,
        MetricType::TokensCached,
        MetricType::CostUsd,
        MetricType::CreditsRemaining,
        MetricType::Balance,
    ] {
        assert_eq!(MetricType::from_code(&k.code()), k);
    }
    assert_eq!(MetricType::CreditsRemaining.code(), "CreditsRemaining");
}

#[test]
fn inserting_the_same_fact_twice_keeps_one() {
    let mut store = MetricsStore::new();
    let dims = vec![("model".to_string(), "m".to_string())];
    assert_eq!(store.insert_if_new(metric("a", "p", NOW, dims.clone())), Some(0));
    // another identity, same fact
    assert_eq!(store.insert_if_new(metric("b", "p", NOW, dims.clone())), None);
    assert_eq!(store.len(), 1);
    // a different dimension value is a different fact
    let other = vec![("model".to_string(), "n".to_string())];
    assert_eq!(store.insert_if_new(metric("c", "p", NOW, other)), Some(1));
    assert!(store.contains_key(&metric("z", "p", NOW, dims)));
    assert!(!store.contains_key(&metric("z", "q", NOW, vec![])));
    assert!(usage_monitor::store::same_dimensions(&vec![], &vec![]));
    assert!(!usage_monitor::store::same_dimensions(&vec![("a".to_string(), "1".to_string())], &vec![]));
}
