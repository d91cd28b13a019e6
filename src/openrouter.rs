//! Normalisation of the OpenRouter key and credit reports. OpenRouter reports
//! a credit balance rather than itemised usage, so its token totals are
//! always zero.
use vstd::prelude::*;
use crate::metrics::{fact_of, ids_formed, new_metric, no_dimensions};
use crate::model::{Metric, MetricFact, MetricType, Provider, ProviderType, ProviderUsage, facts_of, is_builtin};
use crate::usage::{budget_used_percentage, used_share};

verus! {

/// The key report. Amounts are in millionths of a credit.
#[derive(Debug, Clone)]
pub struct KeyData {
    pub limit: Option<u64>,
    pub usage: u64,
    pub limit_remaining: Option<u64>,
    pub is_free_tier: bool,
}

/// The credit report. Amounts are in millionths of a credit.
#[derive(Debug, Clone)]
pub struct CreditsInfo {
    pub total_credits: u64,
    pub used_credits: u64,
    pub remaining_credits: u64,
}

/// The provider identity that OpenRouter metrics carry.
pub open spec fn provider_id() -> Seq<char> {
    "openrouter"@
}

/// Remaining credits, then credits consumed as cost, both stamped `now`.
pub open spec fn credit_facts(c: CreditsInfo, now: i64) -> Seq<MetricFact> {
    seq![
        fact_of(provider_id(), MetricType::CreditsRemaining, c.remaining_credits, "credits"@, now, Seq::empty()),
        fact_of(provider_id(), MetricType::CostUsd, c.used_credits, "credits"@, now, Seq::empty()),
    ]
}

/// The metrics of one credit report, taken at `now`.
pub fn credit_metrics(credits: &CreditsInfo, now: i64) -> (r: Vec<Metric>)
    ensures
        facts_of(r@) == credit_facts(*credits, now),
        ids_formed(r@),
{
    let mut out: Vec<Metric> = Vec::new();
    out.push(new_metric("openrouter", MetricType::CreditsRemaining, credits.remaining_credits,
        "credits".to_string(), now, no_dimensions()));
    out.push(new_metric("openrouter", MetricType::CostUsd, credits.used_credits,
        "credits".to_string(), now, no_dimensions()));
    proof {
        reveal_strlit("openrouter");
        reveal_strlit("credits");
        assert(facts_of(out@) =~= credit_facts(*credits, now));
    }
    out
}

/// The spendable balance: what remains of the key's limit, if it has one.
pub fn balance(key: &KeyData) -> (r: Option<u64>)
    ensures
        r == key.limit_remaining,
{
    key.limit_remaining
}

/// The snapshot built from one key report and one credit report.
pub open spec fn snapshot_of(u: ProviderUsage, provider: Provider, key: KeyData, credits: CreditsInfo) -> bool {
    &&& u.provider == provider
    &&& u.today_tokens == 0
    &&& u.today_cost == 0
    &&& u.mtd_tokens == 0
    &&& u.mtd_cost == credits.used_credits
    &&& u.balance == key.limit_remaining
    &&& u.credits == Some(credits.remaining_credits)
    &&& u.budget_used_percentage == used_share(key.usage, key.limit)
}

/// The snapshot of the OpenRouter account from its key and credit reports.
pub fn usage_snapshot(key: &KeyData, credits: &CreditsInfo, created_at: i64) -> (r: ProviderUsage)
    ensures
        snapshot_of(r, r.provider, *key, *credits),
        is_builtin(r.provider, ProviderType::OpenRouter, created_at),
{
    let provider = Provider::builtin(ProviderType::OpenRouter, created_at);
    ProviderUsage {
        provider,
        today_tokens: 0,
        today_cost: 0,
        mtd_tokens: 0,
        mtd_cost: credits.used_credits,
        balance: key.limit_remaining,
        credits: Some(credits.remaining_credits),
        budget_used_percentage: budget_used_percentage(key.usage, key.limit),
    }
}

} // verus!
