//! Usage snapshots: token and cost totals over a window, and the share of a
//! spending limit that has been used.
use vstd::prelude::*;
use crate::model::{Metric, MetricFact, MetricType, Provider, ProviderUsage, facts_of};
use crate::time::{day_start_of, month_start_of, start_of_day, start_of_month};

verus! {

/// Whether a metric kind counts toward the token totals (input and output,
/// not cached) or, for `tokens == false`, toward the cost totals.
pub open spec fn counted(kind: MetricType, tokens: bool) -> bool {
    if tokens {
        kind == MetricType::TokensIn || kind == MetricType::TokensOut
    } else {
        kind == MetricType::CostUsd
    }
}

/// The exact sum of the counted metrics stamped at or after `since`.
pub open spec fn window_sum(ms: Seq<MetricFact>, since: int, tokens: bool) -> nat
    decreases ms.len(),
{
    if ms.len() == 0 {
        0
    } else {
        let m = ms.last();
        window_sum(ms.drop_last(), since, tokens) + if m.timestamp >= since && counted(m.metric_type, tokens) {
            m.value as nat
        } else {
            0
        }
    }
}

/// A total capped at the largest `u64`.
pub open spec fn capped(n: nat) -> u64 {
    if n <= u64::MAX { n as u64 } else { u64::MAX }
}

/// Sum of input and output token counts stamped at or after `since`.
pub open spec fn token_total(ms: Seq<MetricFact>, since: int) -> u64 {
    capped(window_sum(ms, since, true))
}

/// Sum of `CostUsd` values stamped at or after `since`.
pub open spec fn cost_total(ms: Seq<MetricFact>, since: int) -> u64 {
    capped(window_sum(ms, since, false))
}

/// Sums the token (or cost) metrics stamped at or after `since`, capped at
/// the largest `u64`.
pub fn sum_since(metrics: &Vec<Metric>, since: i64, tokens: bool) -> (r: u64)
    ensures
        r == capped(window_sum(facts_of(metrics@), since as int, tokens)),
{
    let mut total: u64 = 0;
    let mut i: usize = 0;
    while i < metrics.len()
        invariant
            i <= metrics.len(),
            total == capped(window_sum(facts_of(metrics@.take(i as int)), since as int, tokens)),
        decreases metrics.len() - i,
    {
        proof {
            assert(facts_of(metrics@.take(i + 1)).drop_last() =~= facts_of(metrics@.take(i as int)));
            assert(facts_of(metrics@.take(i + 1)).last() == metrics@[i as int].fact());
        }
        let m = &metrics[i];
        let counts = if tokens {
            m.metric_type == MetricType::TokensIn || m.metric_type == MetricType::TokensOut
        } else {
            m.metric_type == MetricType::CostUsd
        };
        if m.timestamp >= since && counts {
            if total <= u64::MAX - m.value {
                total = total + m.value;
            } else {
                total = u64::MAX;
            }
        }
        i += 1;
    }
    proof {
        assert(metrics@.take(metrics.len() as int) =~= metrics@);
    }
    total
}

/// The snapshot of `provider` from its metrics: today's totals count metrics
/// stamped at or after `day_start`, the month-to-date ones those at or after
/// `month_start`. Balance, credits and budget share are left empty.
pub open spec fn summary_of(
    u: ProviderUsage,
    provider: Provider,
    ms: Seq<MetricFact>,
    day_start: int,
    month_start: int,
) -> bool {
    &&& u.provider == provider
    &&& u.today_tokens == token_total(ms, day_start)
    &&& u.today_cost == cost_total(ms, day_start)
    &&& u.mtd_tokens == token_total(ms, month_start)
    &&& u.mtd_cost == cost_total(ms, month_start)
    &&& u.balance is None
    &&& u.credits is None
    &&& u.budget_used_percentage is None
}

/// Reduces a provider's metrics to a snapshot (see `summary_of`).
pub fn summarize(provider: Provider, metrics: &Vec<Metric>, day_start: i64, month_start: i64) -> (r: ProviderUsage)
    ensures
        summary_of(r, provider, facts_of(metrics@), day_start as int, month_start as int),
{
    ProviderUsage {
        provider,
        today_tokens: sum_since(metrics, day_start, true),
        today_cost: sum_since(metrics, day_start, false),
        mtd_tokens: sum_since(metrics, month_start, true),
        mtd_cost: sum_since(metrics, month_start, false),
        balance: None,
        credits: None,
        budget_used_percentage: None,
    }
}

/// The snapshot at instant `now`: today is the UTC calendar day of `now`, the
/// month its UTC calendar month. `None` where chrono cannot place `now` in a
/// month or the day's start is no `i64`.
pub fn current_usage(provider: Provider, metrics: &Vec<Metric>, now: i64) -> (r: Option<ProviderUsage>)
    ensures
        r is Some <==> (now >= i64::MIN + 86400 && month_start_of(now) is Some),
        r matches Some(u) ==> summary_of(
            u,
            provider,
            facts_of(metrics@),
            day_start_of(now as int),
            month_start_of(now)->0 as int,
        ),
{
    if now < i64::MIN + 86400 {
        return None;
    }
    let day_start = start_of_day(now);
    match start_of_month(now) {
        Some(month_start) => Some(summarize(provider, metrics, day_start, month_start)),
        None => None,
    }
}

/// Totals over no metrics are zero, for tokens and for cost, whatever the window.
pub proof fn lemma_empty_totals_are_zero(since: int)
    ensures
        token_total(Seq::<MetricFact>::empty(), since) == 0,
        cost_total(Seq::<MetricFact>::empty(), since) == 0,
{
}

/// Millionths of a percent per unit ratio: `usage / limit * 100` percent.
pub const PERCENT_MICROS: u128 = 100000000;

/// The used share of a limit, in millionths of a percent, rounded down;
/// `None` where there is no limit or the limit is zero.
pub open spec fn used_share(usage: u64, limit: Option<u64>) -> Option<u128> {
    match limit {
        Some(l) => if l == 0 {
            None
        } else {
            Some(((usage as int * 100000000) / (l as int)) as u128)
        },
        None => None,
    }
}

/// The used share of a limit, `usage / limit * 100` percent, in millionths
/// of a percent; `None` where the limit is absent or zero.
pub fn budget_used_percentage(usage: u64, limit: Option<u64>) -> (r: Option<u128>)
    ensures
        r == used_share(usage, limit),
{
    match limit {
        Some(l) => {
            if l == 0 {
                None
            } else {
                let scaled: u128 = (usage as u128) * PERCENT_MICROS;
                Some(scaled / (l as u128))
            }
        },
        None => None,
    }
}

/// The used share is absent exactly when the limit is absent or zero, and
/// otherwise is `usage / limit * 100` percent to within one millionth of a
/// percent (rounded down).
pub proof fn lemma_used_share(usage: u64, limit: Option<u64>)
    ensures
        used_share(usage, limit) is None <==> (limit is None || limit == Some(0u64)),
        forall|l: u64|
            limit == Some(l) && l != 0 ==> {
                let p = used_share(usage, limit)->0 as int;
                &&& p * l <= usage * 100000000
                &&& usage * 100000000 < (p + 1) * l
            },
{
    if let Some(l) = limit {
        if l != 0 {
            let n = usage as int * 100000000;
            let p = n / (l as int);
            assert(p * l <= n && n < (p + 1) * l) by (nonlinear_arith)
                requires
                    p == n / (l as int),
                    l > 0,
                    n >= 0,
            ;
            assert(p <= n) by (nonlinear_arith)
                requires
                    p == n / (l as int),
                    l > 0,
                    n >= 0,
            ;
        }
    }
}

} // verus!
