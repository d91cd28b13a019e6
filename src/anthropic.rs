//! Normalisation of the Anthropic usage and cost reports.
use vstd::prelude::*;
use crate::metrics::{fact_of, ids_formed, lower_of, lowercase, new_metric, no_dimensions, push_token_metrics, token_facts};
use crate::model::{Metric, MetricFact, MetricType, Provider, ProviderType, ProviderUsage, facts_of, is_builtin};
use crate::usage::summary_of;
use crate::time::{day_start_of, event_time, event_time_or, month_start_of};

verus! {

/// One record of the messages usage report.
#[derive(Debug, Clone)]
pub struct UsageItem {
    pub input_tokens: u64,
    pub output_tokens: u64,
    pub input_cached_tokens: Option<u64>,
    pub model: String,
    /// RFC 3339 event time.
    pub timestamp: String,
}

/// One record of the cost report; `amount` is in millionths of `currency`.
#[derive(Debug, Clone)]
pub struct CostItem {
    pub amount: u64,
    pub currency: String,
    /// RFC 3339 event time.
    pub timestamp: String,
}

/// The provider identity that Anthropic metrics carry.
pub open spec fn provider_id() -> Seq<char> {
    "anthropic"@
}

/// The metrics that one usage record expands into, tagged with its model.
pub open spec fn usage_item_facts(item: UsageItem, ingested_at: i64) -> Seq<MetricFact> {
    token_facts(
        provider_id(),
        item.input_tokens,
        item.output_tokens,
        item.input_cached_tokens,
        event_time(item.timestamp@, ingested_at),
        seq![("model"@, item.model@)],
    )
}

/// The metrics that a usage report expands into, record by record.
pub open spec fn usage_facts(items: Seq<UsageItem>, ingested_at: i64) -> Seq<MetricFact>
    decreases items.len(),
{
    if items.len() == 0 {
        Seq::empty()
    } else {
        usage_facts(items.drop_last(), ingested_at) + usage_item_facts(items.last(), ingested_at)
    }
}

/// The cost metric of one cost record: unit is the lower-cased currency.
pub open spec fn cost_item_fact(item: CostItem, ingested_at: i64) -> MetricFact {
    fact_of(
        provider_id(),
        MetricType::CostUsd,
        item.amount,
        lower_of(item.currency@),
        event_time(item.timestamp@, ingested_at),
        Seq::empty(),
    )
}

pub open spec fn cost_facts(items: Seq<CostItem>, ingested_at: i64) -> Seq<MetricFact> {
    items.map_values(|c: CostItem| cost_item_fact(c, ingested_at))
}

/// The metrics of a usage report. Records whose time does not parse are
/// stamped with `ingested_at`.
pub fn usage_metrics(items: &Vec<UsageItem>, ingested_at: i64) -> (r: Vec<Metric>)
    ensures
        facts_of(r@) == usage_facts(items@, ingested_at),
        ids_formed(r@),
{
    let mut out: Vec<Metric> = Vec::new();
    let mut i: usize = 0;
    proof {
        assert(facts_of(out@) =~= usage_facts(items@.take(0), ingested_at));
    }
    while i < items.len()
        invariant
            i <= items.len(),
            facts_of(out@) == usage_facts(items@.take(i as int), ingested_at),
            ids_formed(out@),
        decreases items.len() - i,
    {
        let item = &items[i];
        let ts = event_time_or(item.timestamp.as_str(), ingested_at);
        push_token_metrics(
            &mut out,
            "anthropic",
            item.input_tokens,
            item.output_tokens,
            item.input_cached_tokens,
            ts,
            "model",
            &item.model,
        );
        proof {
            reveal_strlit("anthropic");
            reveal_strlit("model");
            assert(items@.take(i + 1).drop_last() =~= items@.take(i as int));
        }
        i += 1;
    }
    proof {
        assert(items@.take(items.len() as int) =~= items@);
    }
    out
}

/// The metrics of a cost report, one `CostUsd` metric per record.
pub fn cost_metrics(items: &Vec<CostItem>, ingested_at: i64) -> (r: Vec<Metric>)
    ensures
        facts_of(r@) == cost_facts(items@, ingested_at),
        ids_formed(r@),
{
    let mut out: Vec<Metric> = Vec::new();
    let mut i: usize = 0;
    while i < items.len()
        invariant
            i <= items.len(),
            facts_of(out@) == cost_facts(items@.take(i as int), ingested_at),
            ids_formed(out@),
        decreases items.len() - i,
    {
        let item = &items[i];
        let ts = event_time_or(item.timestamp.as_str(), ingested_at);
        let m = new_metric(
            "anthropic",
            MetricType::CostUsd,
            item.amount,
            lowercase(item.currency.as_str()),
            ts,
            no_dimensions(),
        );
        let ghost before = out@;
        let ghost mf = m.fact();
        out.push(m);
        proof {
            reveal_strlit("anthropic");
            assert(facts_of(out@) =~= facts_of(before).push(mf));
            assert(ids_formed(out@));
            assert(cost_facts(items@.take(i + 1), ingested_at) =~= cost_facts(
                items@.take(i as int),
                ingested_at,
            ).push(cost_item_fact(items@[i as int], ingested_at)));
        }
        i += 1;
    }
    proof {
        assert(items@.take(items.len() as int) =~= items@);
    }
    out
}

/// Everything one fetch yields: the usage metrics, then the cost metrics.
pub fn normalize(usage: &Vec<UsageItem>, costs: &Vec<CostItem>, ingested_at: i64) -> (r: Vec<Metric>)
    ensures
        facts_of(r@) == usage_facts(usage@, ingested_at) + cost_facts(costs@, ingested_at),
        ids_formed(r@),
{
    let mut out = usage_metrics(usage, ingested_at);
    let mut tail = cost_metrics(costs, ingested_at);
    let ghost a = out@;
    let ghost b = tail@;
    out.append(&mut tail);
    proof {
        assert(facts_of(out@) =~= facts_of(a) + facts_of(b));
        assert(ids_formed(out@)) by {
            assert forall|k: int| 0 <= k < out@.len() implies (#[trigger] out@[k]).id@.len() == 36 by {
                if k < a.len() {
                    assert(out@[k] == a[k]);
                } else {
                    assert(out@[k] == b[k - a.len()]);
                }
            }
        }
    }
    out
}

/// The usage snapshot at `now` from one fetch's reports, every record
/// ingested at `now`. `None` where `now` cannot be placed in a day and month.
pub fn current_usage(usage: &Vec<UsageItem>, costs: &Vec<CostItem>, now: i64) -> (r: Option<ProviderUsage>)
    ensures
        r is Some <==> (now >= i64::MIN + 86400 && month_start_of(now) is Some),
        r matches Some(u) ==> summary_of(
            u,
            u.provider,
            usage_facts(usage@, now) + cost_facts(costs@, now),
            day_start_of(now as int),
            month_start_of(now)->0 as int,
        ) && is_builtin(u.provider, ProviderType::Anthropic, now),
{
    let metrics = normalize(usage, costs, now);
    crate::usage::current_usage(Provider::builtin(ProviderType::Anthropic, now), &metrics, now)
}

} // verus!
