use usage_monitor::anthropic;
use usage_monitor::model::{MetricType, ProviderType};
use usage_monitor::openai;
use usage_monitor::openrouter;
use usage_monitor::usage::budget_used_percentage;

const NOW: i64 = 1_750_000_000;

fn usage_item(input: u64, output: u64, cached: Option<u64>, ts: &str) -> anthropic::UsageItem {
    anthropic::UsageItem {
        input_tokens: input,
        output_tokens: output,
        input_cached_tokens: cached,
        model: "model-a".to_string(),
        timestamp: ts.to_string(),
    }
}

#[test]
fn usage_item_without_cache_gives_two_metrics() {
    let items = vec![usage_item(100, 50, None, "2025-06-15T10:00:00Z")];
    let ms = anthropic::usage_metrics(&items, NOW);
    assert_eq!(ms.len(), 2);
    assert_eq!(ms[0].metric_type, MetricType::TokensIn);
    assert_eq!(ms[0].value, 100);
    assert_eq!(ms[1].metric_type, MetricType::TokensOut);
    assert_eq!(ms[1].value, 50);
    assert!(ms.iter().all(|m| m.metric_type != MetricType::TokensCached));
    for m in &ms {
        assert_eq!(m.unit, "tokens");
        assert_eq!(m.provider_id, "anthropic");
        assert_eq!(m.timestamp, 1_749_981_600);
        assert_eq!(m.dimensions, vec![("model".to_string(), "model-a".to_string())]);
        assert_eq!(m.id.len(), 36);
    }
    assert_ne!(ms[0].id, ms[1].id);
}

#[test]
fn usage_item_with_cache_gives_three_metrics() {
    let items = vec![usage_item(7, 8, Some(9), "2025-06-15T10:00:00Z")];
    let ms = anthropic::usage_metrics(&items, NOW);
    assert_eq!(ms.len(), 3);
    assert_eq!(ms[2].metric_type, MetricType::TokensCached);
    assert_eq!(ms[2].value, 9);
}

#[test]
fn unparsable_event_time_falls_back_to_ingestion() {
    let items = vec![usage_item(1, 2, None, "yesterday-ish")];
    let ms = anthropic::usage_metrics(&items, NOW);
    assert_eq!(ms[0].timestamp, NOW);
}

#[test]
fn cost_item_gives_one_cost_metric_in_lowercase_unit() {
    let costs = vec![anthropic::CostItem {
        amount: 3_500_000,
        currency: "USD".to_string(),
        timestamp: "2025-06-15T00:00:00+00:00".to_string(),
    }];
    let ms = anthropic::cost_metrics(&costs, NOW);
    assert_eq!(ms.len(), 1);
    assert_eq!(ms[0].metric_type, MetricType::CostUsd);
    assert_eq!(ms[0].value, 3_500_000);
    assert_eq!(ms[0].unit, "usd");
    assert!(ms[0].dimensions.is_empty());
}

#[test]
fn anthropic_normalize_puts_usage_before_costs() {
    let usage = vec![usage_item(1, 2, None, "2025-06-15T10:00:00Z")];
    let costs = vec![anthropic::CostItem { amount: 5, currency: "Usd".to_string(), timestamp: "x".to_string() }];
    let ms = anthropic::normalize(&usage, &costs, NOW);
    let kinds: Vec<MetricType> = ms.iter().map(|m| m.metric_type).collect();
    assert_eq!(kinds, vec![MetricType::TokensIn, MetricType::TokensOut, MetricType::CostUsd]);
}

#[test]
fn anthropic_current_usage_splits_today_from_month() {
    // NOW is 2025-06-15T15:06:40Z
    let usage = vec![
        usage_item(100, 50, Some(1000), "2025-06-15T10:00:00Z"),
        usage_item(10, 5, None, "2025-06-02T10:00:00Z"),
    ];
    let costs = vec![
        anthropic::CostItem { amount: 2_000_000, currency: "USD".to_string(), timestamp: "2025-06-15T01:00:00Z".to_string() },
        anthropic::CostItem { amount: 1_000_000, currency: "USD".to_string(), timestamp: "2025-06-01T01:00:00Z".to_string() },
    ];
    let u = anthropic::current_usage(&usage, &costs, NOW).unwrap();
    assert_eq!(u.today_tokens, 150);
    assert_eq!(u.mtd_tokens, 165);
    assert_eq!(u.today_cost, 2_000_000);
    assert_eq!(u.mtd_cost, 3_000_000);
    assert_eq!(u.provider.id, "anthropic");
    assert_eq!(u.provider.provider_type, ProviderType::Anthropic);
    assert_eq!(u.budget_used_percentage, None);
}

fn openai_bucket(secs: i64, ctx: u64, gen: u64, cached: Option<u64>) -> openai::UsageData {
    openai::UsageData {
        aggregation_timestamp: secs,
        n_requests: 3,
        operation: "completion".to_string(),
        snapshot_id: "gpt".to_string(),
        n_context_tokens_total: ctx,
        n_generated_tokens_total: gen,
        n_cached_context_tokens_total: cached,
    }
}

#[test]
fn openai_buckets_expand_and_tag_operation() {
    let data = vec![openai_bucket(1_749_900_000, 11, 22, Some(33)), openai_bucket(i64::MAX, 1, 2, None)];
    let ms = openai::usage_metrics(&data, NOW);
    assert_eq!(ms.len(), 5);
    assert_eq!(ms[0].timestamp, 1_749_900_000);
    assert_eq!(ms[2].metric_type, MetricType::TokensCached);
    assert_eq!(ms[2].value, 33);
    assert_eq!(ms[0].dimensions, vec![("operation".to_string(), "completion".to_string())]);
    // out of chrono's range: stamped at ingestion
    assert_eq!(ms[3].timestamp, NOW);
    assert_eq!(ms[0].provider_id, "openai");
}

#[test]
fn openai_daily_cost_sums_line_items() {
    let items = vec![
        openai::LineItem { name: "a".to_string(), cost: 1_250_000 },
        openai::LineItem { name: "b".to_string(), cost: 750_000 },
    ];
    assert_eq!(openai::total_cost(&items), 2_000_000);
    let big = vec![
        openai::LineItem { name: "a".to_string(), cost: u64::MAX },
        openai::LineItem { name: "b".to_string(), cost: 1 },
    ];
    assert_eq!(openai::total_cost(&big), u64::MAX);
    let days = vec![openai::DailyCost { timestamp: 1_749_945_600, line_items: items }];
    let ms = openai::normalize(&vec![], &Some(days), NOW);
    assert_eq!(ms.len(), 1);
    assert_eq!(ms[0].metric_type, MetricType::CostUsd);
    assert_eq!(ms[0].value, 2_000_000);
    assert_eq!(ms[0].unit, "usd");
    assert!(openai::normalize(&vec![], &None, NOW).is_empty());
}

#[test]
fn openai_current_usage_counts_only_in_and_out_tokens() {
    let data = vec![openai_bucket(1_749_990_000, 10, 20, Some(500))];
    let u = openai::current_usage(&data, &None, NOW).unwrap();
    assert_eq!(u.today_tokens, 30);
    assert_eq!(u.mtd_tokens, 30);
    assert_eq!(u.today_cost, 0);
    assert_eq!(u.provider.name, "OpenAI");
    assert_eq!(u.provider.api_key_ref, Some("openai_key".to_string()));
}

#[test]
fn openrouter_reports_credits_not_tokens() {
    let credits = openrouter::CreditsInfo { total_credits: 10_000_000, used_credits: 4_000_000, remaining_credits: 6_000_000 };
    let ms = openrouter::credit_metrics(&credits, NOW);
    assert_eq!(ms.len(), 2);
    assert_eq!(ms[0].metric_type, MetricType::CreditsRemaining);
    assert_eq!(ms[0].value, 6_000_000);
    assert_eq!(ms[1].metric_type, MetricType::CostUsd);
    assert_eq!(ms[1].value, 4_000_000);
    assert_eq!(ms[1].unit, "credits");
    assert_eq!(ms[1].timestamp, NOW);

    let key = openrouter::KeyData { limit: Some(20_000_000), usage: 5_000_000, limit_remaining: Some(15_000_000), is_free_tier: false };
    assert_eq!(openrouter::balance(&key), Some(15_000_000));
    let u = openrouter::usage_snapshot(&key, &credits, NOW);
    assert_eq!(u.today_tokens, 0);
    assert_eq!(u.mtd_tokens, 0);
    assert_eq!(u.today_cost, 0);
    assert_eq!(u.mtd_cost, 4_000_000);
    assert_eq!(u.credits, Some(6_000_000));
    assert_eq!(u.balance, Some(15_000_000));
    // 25 percent, in millionths of a percent
    assert_eq!(u.budget_used_percentage, Some(25_000_000));
    assert_eq!(u.provider.id, "openrouter");
}

#[test]
fn budget_share_absent_without_a_usable_limit() {
    assert_eq!(budget_used_percentage(5, None), None);
    assert_eq!(budget_used_percentage(5, Some(0)), None);
    assert_eq!(budget_used_percentage(1, Some(3)), Some(33_333_333));
    let p = budget_used_percentage(1_500_000, Some(2_000_000)).unwrap();
    assert!(((p as f64) / 1e6 - 75.0).abs() < 1e-6);
    assert_eq!(budget_used_percentage(u64::MAX, Some(1)), Some(u64::MAX as u128 * 100_000_000));
}
