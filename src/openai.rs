//! Normalisation of the OpenAI usage report and its daily costs.
use vstd::prelude::*;
use crate::metrics::{fact_of, ids_formed, new_metric, no_dimensions, push_token_metrics, token_facts};
use crate::model::{Metric, MetricFact, MetricType, Provider, ProviderType, ProviderUsage, facts_of, is_builtin};
use crate::usage::summary_of;
use crate::time::{day_start_of, month_start_of, representable_instant, seconds_or};

verus! {

/// One aggregation bucket of the usage report.
#[derive(Debug, Clone)]
pub struct UsageData {
    /// Seconds since the epoch.
    pub aggregation_timestamp: i64,
    pub n_requests: u32,
    pub operation: String,
    pub snapshot_id: String,
    pub n_context_tokens_total: u64,
    pub n_generated_tokens_total: u64,
    pub n_cached_context_tokens_total: Option<u64>,
}

/// One priced line of a day; `cost` is in millionths of a dollar.
#[derive(Debug, Clone)]
pub struct LineItem {
    pub name: String,
    pub cost: u64,
}

#[derive(Debug, Clone)]
pub struct DailyCost {
    /// Seconds since the epoch.
    pub timestamp: i64,
    pub line_items: Vec<LineItem>,
}

/// The provider identity that OpenAI metrics carry.
pub open spec fn provider_id() -> Seq<char> {
    "openai"@
}

/// The instant of a report's seconds count, or `fallback` where chrono cannot
/// represent it.
pub open spec fn seconds_time(secs: i64, fallback: i64) -> i64 {
    if representable_instant(secs) { secs } else { fallback }
}

pub open spec fn usage_data_facts(d: UsageData, ingested_at: i64) -> Seq<MetricFact> {
    token_facts(
        provider_id(),
        d.n_context_tokens_total,
        d.n_generated_tokens_total,
        d.n_cached_context_tokens_total,
        seconds_time(d.aggregation_timestamp, ingested_at),
        seq![("operation"@, d.operation@)],
    )
}

/// The metrics that a usage report expands into, bucket by bucket.
pub open spec fn usage_facts(data: Seq<UsageData>, ingested_at: i64) -> Seq<MetricFact>
    decreases data.len(),
{
    if data.len() == 0 {
        Seq::empty()
    } else {
        usage_facts(data.drop_last(), ingested_at) + usage_data_facts(data.last(), ingested_at)
    }
}

/// The exact sum of a day's line costs.
pub open spec fn line_total(items: Seq<LineItem>) -> nat
    decreases items.len(),
{
    if items.len() == 0 {
        0
    } else {
        line_total(items.drop_last()) + (items.last().cost as nat)
    }
}

/// A day's total cost, capped at the largest `u64`.
pub open spec fn capped_total(items: Seq<LineItem>) -> u64 {
    if line_total(items) <= u64::MAX { line_total(items) as u64 } else { u64::MAX }
}

pub open spec fn daily_cost_fact(c: DailyCost, ingested_at: i64) -> MetricFact {
    fact_of(
        provider_id(),
        MetricType::CostUsd,
        capped_total(c.line_items@),
        "usd"@,
        seconds_time(c.timestamp, ingested_at),
        Seq::empty(),
    )
}

pub open spec fn cost_facts(days: Seq<DailyCost>, ingested_at: i64) -> Seq<MetricFact> {
    days.map_values(|c: DailyCost| daily_cost_fact(c, ingested_at))
}

/// The sum of a day's line costs, capped at the largest `u64`.
pub fn total_cost(items: &Vec<LineItem>) -> (r: u64)
    ensures
        r == capped_total(items@),
{
    let mut total: u64 = 0;
    let mut i: usize = 0;
    while i < items.len()
        invariant
            i <= items.len(),
            total == capped_total(items@.take(i as int)),
        decreases items.len() - i,
    {
        proof {
            assert(items@.take(i + 1).drop_last() =~= items@.take(i as int));
        }
        let c = items[i].cost;
        if total <= u64::MAX - c {
            total = total + c;
        } else {
            total = u64::MAX;
        }
        i += 1;
    }
    proof {
        assert(items@.take(items.len() as int) =~= items@);
    }
    total
}

/// The metrics of a usage report. Buckets whose time chrono cannot represent
/// are stamped with `ingested_at`.
pub fn usage_metrics(data: &Vec<UsageData>, ingested_at: i64) -> (r: Vec<Metric>)
    ensures
        facts_of(r@) == usage_facts(data@, ingested_at),
        ids_formed(r@),
{
    let mut out: Vec<Metric> = Vec::new();
    let mut i: usize = 0;
    proof {
        assert(facts_of(out@) =~= usage_facts(data@.take(0), ingested_at));
    }
    while i < data.len()
        invariant
            i <= data.len(),
            facts_of(out@) == usage_facts(data@.take(i as int), ingested_at),
            ids_formed(out@),
        decreases data.len() - i,
    {
        let d = &data[i];
        let ts = seconds_or(d.aggregation_timestamp, ingested_at);
        push_token_metrics(
            &mut out,
            "openai",
            d.n_context_tokens_total,
            d.n_generated_tokens_total,
            d.n_cached_context_tokens_total,
            ts,
            "operation",
            &d.operation,
        );
        proof {
            reveal_strlit("openai");
            reveal_strlit("operation");
            assert(data@.take(i + 1).drop_last() =~= data@.take(i as int));
        }
        i += 1;
    }
    proof {
        assert(data@.take(data.len() as int) =~= data@);
    }
    out
}

/// One `CostUsd` metric per day, valued at the day's total.
pub fn cost_metrics(days: &Vec<DailyCost>, ingested_at: i64) -> (r: Vec<Metric>)
    ensures
        facts_of(r@) == cost_facts(days@, ingested_at),
        ids_formed(r@),
{
    let mut out: Vec<Metric> = Vec::new();
    let mut i: usize = 0;
    while i < days.len()
        invariant
            i <= days.len(),
            facts_of(out@) == cost_facts(days@.take(i as int), ingested_at),
            ids_formed(out@),
        decreases days.len() - i,
    {
        let day = &days[i];
        let ts = seconds_or(day.timestamp, ingested_at);
        let m = new_metric(
            "openai",
            MetricType::CostUsd,
            total_cost(&day.line_items),
            "usd".to_string(),
            ts,
            no_dimensions(),
        );
        let ghost before = out@;
        let ghost mf = m.fact();
        out.push(m);
        proof {
            reveal_strlit("openai");
            reveal_strlit("usd");
            assert(facts_of(out@) =~= facts_of(before).push(mf));
            assert(ids_formed(out@));
            assert(cost_facts(days@.take(i + 1), ingested_at) =~= cost_facts(
                days@.take(i as int),
                ingested_at,
            ).push(daily_cost_fact(days@[i as int], ingested_at)));
        }
        i += 1;
    }
    proof {
        assert(days@.take(days.len() as int) =~= days@);
    }
    out
}

/// Everything one fetch yields: the usage metrics, then the daily cost
/// metrics where the report carries them.
pub fn normalize(data: &Vec<UsageData>, daily_costs: &Option<Vec<DailyCost>>, ingested_at: i64) -> (r: Vec<Metric>)
    ensures
        facts_of(r@) == usage_facts(data@, ingested_at) + match daily_costs {
            Some(days) => cost_facts(days@, ingested_at),
            None => Seq::empty(),
        },
        ids_formed(r@),
{
    let mut out = usage_metrics(data, ingested_at);
    match daily_costs {
        Some(days) => {
            let mut tail = cost_metrics(days, ingested_at);
            let ghost a = out@;
            let ghost b = tail@;
            out.append(&mut tail);
            proof {
                assert(facts_of(out@) =~= facts_of(a) + facts_of(b));
                assert forall|k: int| 0 <= k < out@.len() implies (#[trigger] out@[k]).id@.len() == 36 by {
                    if k < a.len() {
                        assert(out@[k] == a[k]);
                    } else {
                        assert(out@[k] == b[k - a.len()]);
                    }
                }
            }
        },
        None => {
            proof {
                assert(facts_of(out@) =~= facts_of(out@) + Seq::<MetricFact>::empty());
            }
        },
    }
    out
}

/// The usage snapshot at `now` from one fetch's reports, every record
/// ingested at `now`. `None` where `now` cannot be placed in a day and month.
pub fn current_usage(data: &Vec<UsageData>, daily_costs: &Option<Vec<DailyCost>>, now: i64) -> (r: Option<ProviderUsage>)
    ensures
        r is Some <==> (now >= i64::MIN + 86400 && month_start_of(now) is Some),
        r matches Some(u) ==> summary_of(
            u,
            u.provider,
            usage_facts(data@, now) + match daily_costs {
                Some(days) => cost_facts(days@, now),
                None => Seq::empty(),
            },
            day_start_of(now as int),
            month_start_of(now)->0 as int,
        ) && is_builtin(u.provider, ProviderType::OpenAI, now),
{
    let metrics = normalize(data, daily_costs, now);
    crate::usage::current_usage(Provider::builtin(ProviderType::OpenAI, now), &metrics, now)
}

} // verus!
