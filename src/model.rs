//! The canonical data model: providers, metrics, budgets, alerts and the
//! derived usage snapshot.
//!
//! Money-like quantities (cost, credits, balance, limits) are held as
//! non-negative integers in millionths of their unit; token quantities are
//! plain counts. Instants are whole seconds since the Unix epoch, UTC.
use vstd::prelude::*;
use vstd::string::StringExecFns;
use crate::metrics::fresh_id;

verus! {

/// Millionths per unit of a money-like quantity.
pub const MICROS_PER_UNIT: u64 = 1000000;

/// The closed set of supported providers.
#[derive(Debug, Clone, Copy, PartialEq, Eq, Structural)]
pub enum ProviderType {
    OpenAI,
    Anthropic,
    OpenRouter,
}

/// The closed set of metric kinds.
#[derive(Debug, Clone, Copy, PartialEq, Eq, Structural)]
pub enum MetricType {
    TokensIn,
    TokensOut,
    TokensCached,
    CostUsd,
    CreditsRemaining,
    Balance,
}

#[derive(Debug, Clone, Copy, PartialEq, Eq, Structural)]
pub enum BudgetPeriod {
    Daily,
    Weekly,
    Monthly,
}

#[derive(Debug, Clone, Copy, PartialEq, Eq, Structural)]
pub enum AlertStatus {
    Active,
    Triggered,
    Snoozed,
    Disabled,
}

/// What makes an alert fire. Amounts are in millionths of a unit.
#[derive(Debug, Clone, Copy, PartialEq, Eq, Structural)]
pub enum AlertRule {
    SpendThreshold { amount: u64, is_soft: bool },
    CreditThreshold { amount: u64, is_soft: bool },
    ProjectedRunOut { days_before: u32 },
}

#[derive(Debug, Clone)]
pub struct Provider {
    pub id: String,
    pub name: String,
    pub provider_type: ProviderType,
    pub api_key_ref: Option<String>,
    pub enabled: bool,
    pub created_at: i64,
}

/// One canonical, timestamped fact about a provider account.
///
/// `value` is a token count for the token kinds and millionths of the unit
/// for the others. `dimensions` is a mapping from key to value, held as
/// pairs; its stored JSON form is keyed, so a repeated key keeps only its
/// last value there.
#[derive(Debug, Clone)]
pub struct Metric {
    pub id: String,
    pub provider_id: String,
    pub metric_type: MetricType,
    pub value: u64,
    pub unit: String,
    pub timestamp: i64,
    pub dimensions: Vec<(String, String)>,
}

/// A metric without its generated identity: what the metric says.
pub struct MetricFact {
    pub provider_id: Seq<char>,
    pub metric_type: MetricType,
    pub value: u64,
    pub unit: Seq<char>,
    pub timestamp: i64,
    pub dimensions: Seq<(Seq<char>, Seq<char>)>,
}

impl Metric {
    pub open spec fn fact(&self) -> MetricFact {
        MetricFact {
            provider_id: self.provider_id@,
            metric_type: self.metric_type,
            value: self.value,
            unit: self.unit@,
            timestamp: self.timestamp,
            dimensions: self.dimensions.deep_view(),
        }
    }
}

/// The facts that a sequence of metrics states, in order.
pub open spec fn facts_of(ms: Seq<Metric>) -> Seq<MetricFact> {
    ms.map_values(|m: Metric| m.fact())
}

#[derive(Debug, Clone)]
pub struct Budget {
    pub provider_id: String,
    pub period: BudgetPeriod,
    pub soft_limit: Option<u64>,
    pub hard_limit: Option<u64>,
    pub notes: Option<String>,
}

#[derive(Debug, Clone)]
pub struct Alert {
    pub id: String,
    pub provider_id: String,
    pub rule: AlertRule,
    pub last_fired_at: Option<i64>,
    pub status: AlertStatus,
}

/// A point-in-time usage snapshot of one provider; never stored.
///
/// Costs, balance and credits are in millionths of their unit; the budget
/// percentage is in millionths of a percent.
#[derive(Debug, Clone)]
pub struct ProviderUsage {
    pub provider: Provider,
    pub today_tokens: u64,
    pub today_cost: u64,
    pub mtd_tokens: u64,
    pub mtd_cost: u64,
    pub balance: Option<u64>,
    pub credits: Option<u64>,
    pub budget_used_percentage: Option<u128>,
}

/// The name under which a metric kind is stored.
pub open spec fn code_of(k: MetricType) -> Seq<char> {
    match k {
        MetricType::TokensIn => "TokensIn"@,
        MetricType::TokensOut => "TokensOut"@,
        MetricType::TokensCached => "TokensCached"@,
        MetricType::CostUsd => "CostUsd"@,
        MetricType::CreditsRemaining => "CreditsRemaining"@,
        MetricType::Balance => "Balance"@,
    }
}

/// The metric kind stored under `code`; an unknown name reads as `CostUsd`.
pub open spec fn kind_of_code(code: Seq<char>) -> MetricType {
    if code == "TokensIn"@ {
        MetricType::TokensIn
    } else if code == "TokensOut"@ {
        MetricType::TokensOut
    } else if code == "TokensCached"@ {
        MetricType::TokensCached
    } else if code == "CreditsRemaining"@ {
        MetricType::CreditsRemaining
    } else if code == "Balance"@ {
        MetricType::Balance
    } else {
        MetricType::CostUsd
    }
}

impl MetricType {
    /// The name under which this kind is stored.
    pub fn code(&self) -> (r: String)
        ensures
            r@ == code_of(*self),
    {
        match self {
            MetricType::TokensIn => "TokensIn".to_string(),
            MetricType::TokensOut => "TokensOut".to_string(),
            MetricType::TokensCached => "TokensCached".to_string(),
            MetricType::CostUsd => "CostUsd".to_string(),
            MetricType::CreditsRemaining => "CreditsRemaining".to_string(),
            MetricType::Balance => "Balance".to_string(),
        }
    }

    /// Reads a stored kind name back; an unknown name reads as `CostUsd`.
    pub fn from_code(code: &String) -> (r: MetricType)
        ensures
            r == kind_of_code(code@),
    {
        if *code == "TokensIn".to_string() {
            MetricType::TokensIn
        } else if *code == "TokensOut".to_string() {
            MetricType::TokensOut
        } else if *code == "TokensCached".to_string() {
            MetricType::TokensCached
        } else if *code == "CreditsRemaining".to_string() {
            MetricType::CreditsRemaining
        } else if *code == "Balance".to_string() {
            MetricType::Balance
        } else {
            MetricType::CostUsd
        }
    }
}

/// Storing a metric kind by name and reading the name back gives the same kind.
pub proof fn lemma_code_round_trip(k: MetricType)
    ensures
        kind_of_code(code_of(k)) == k,
{
    reveal_strlit("TokensIn");
    reveal_strlit("TokensOut");
    reveal_strlit("TokensCached");
    reveal_strlit("CostUsd");
    reveal_strlit("CreditsRemaining");
    reveal_strlit("Balance");
    // the names differ in length, or else in their first letter
    assert("TokensIn"@.len() == 8);
    assert("TokensOut"@.len() == 9);
    assert("TokensCached"@.len() == 12);
    assert("CostUsd"@.len() == 7);
    assert("CreditsRemaining"@.len() == 16);
    assert("Balance"@.len() == 7);
    assert("CostUsd"@[0] != "Balance"@[0]);
}

/// The identity, display name and credential reference of a built-in provider.
pub open spec fn builtin_id(kind: ProviderType) -> Seq<char> {
    match kind {
        ProviderType::OpenAI => "openai"@,
        ProviderType::Anthropic => "anthropic"@,
        ProviderType::OpenRouter => "openrouter"@,
    }
}

pub open spec fn builtin_name(kind: ProviderType) -> Seq<char> {
    match kind {
        ProviderType::OpenAI => "OpenAI"@,
        ProviderType::Anthropic => "Anthropic"@,
        ProviderType::OpenRouter => "OpenRouter"@,
    }
}

pub open spec fn builtin_key_ref(kind: ProviderType) -> Seq<char> {
    match kind {
        ProviderType::OpenAI => "openai_key"@,
        ProviderType::Anthropic => "anthropic_key"@,
        ProviderType::OpenRouter => "openrouter_key"@,
    }
}

/// Whether `p` is the enabled, built-in account record of `kind`.
pub open spec fn is_builtin(p: Provider, kind: ProviderType, created_at: i64) -> bool {
    &&& p.id@ == builtin_id(kind)
    &&& p.name@ == builtin_name(kind)
    &&& p.provider_type == kind
    &&& p.api_key_ref matches Some(k) && k@ == builtin_key_ref(kind)
    &&& p.enabled
    &&& p.created_at == created_at
}

impl Provider {
    /// The enabled, built-in account record of a provider kind.
    pub fn builtin(kind: ProviderType, created_at: i64) -> (r: Provider)
        ensures
            is_builtin(r, kind, created_at),
    {
        let (id, name, key_ref) = match kind {
            ProviderType::OpenAI => ("openai", "OpenAI", "openai_key"),
            ProviderType::Anthropic => ("anthropic", "Anthropic", "anthropic_key"),
            ProviderType::OpenRouter => ("openrouter", "OpenRouter", "openrouter_key"),
        };
        Provider {
            id: id.to_string(),
            name: name.to_string(),
            provider_type: kind,
            api_key_ref: Some(key_ref.to_string()),
            enabled: true,
            created_at,
        }
    }

    /// A new enabled account of `kind` called `name`. Its identity is the
    /// kind's name, `_`, and a fresh random 36-character id; its credential
    /// is filed under that identity.
    pub fn new_account(kind: ProviderType, name: String, created_at: i64) -> (r: Provider)
        ensures
            r.id@.len() == builtin_name(kind).len() + 37,
            r.id@.take(builtin_name(kind).len() as int + 1) == builtin_name(kind) + "_"@,
            r.name == name,
            r.provider_type == kind,
            r.api_key_ref matches Some(k) && k@ == r.id@,
            r.enabled,
            r.created_at == created_at,
    {
        let kind_name = match kind {
            ProviderType::OpenAI => "OpenAI",
            ProviderType::Anthropic => "Anthropic",
            ProviderType::OpenRouter => "OpenRouter",
        };
        let mut id = kind_name.to_string();
        id.append("_");
        let suffix = fresh_id();
        id.append(suffix.as_str());
        proof {
            reveal_strlit("_");
            assert(id@.take(builtin_name(kind).len() as int + 1) =~= builtin_name(kind) + "_"@);
        }
        Provider {
            id: id.clone(),
            name,
            provider_type: kind,
            api_key_ref: Some(id),
            enabled: true,
            created_at,
        }
    }
}

impl ProviderUsage {
    /// The snapshot of a provider with nothing counted yet.
    pub fn empty(provider: Provider) -> (r: ProviderUsage)
        ensures
            r.provider == provider,
            r.today_tokens == 0,
            r.today_cost == 0,
            r.mtd_tokens == 0,
            r.mtd_cost == 0,
            r.balance is None,
            r.credits is None,
            r.budget_used_percentage is None,
    {
        ProviderUsage {
            provider,
            today_tokens: 0,
            today_cost: 0,
            mtd_tokens: 0,
            mtd_cost: 0,
            balance: None,
            credits: None,
            budget_used_percentage: None,
        }
    }
}

} // verus!
