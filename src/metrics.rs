//! Building canonical metrics: the shared expansion of one provider usage
//! record into token metrics, and the outside helpers that metric
//! construction leans on.
use vstd::prelude::*;
use crate::model::{Metric, MetricFact, MetricType, facts_of};

verus! {

/// What the lower-case form of a text is (full Unicode case mapping).
pub uninterp spec fn lower_of(s: Seq<char>) -> Seq<char>;

/// Relies on std's `str::to_lowercase`: the lower-case form depends on the
/// text alone.
#[verifier::external_body]
pub(crate) fn lowercase(s: &str) -> (r: String)
    ensures
        r@ == lower_of(s@),
{
    s.to_lowercase()
}

/// Relies on uuid's `Uuid::new_v4` and its hyphenated text form: a fresh
/// random identity, always 36 characters long.
#[verifier::external_body]
pub(crate) fn fresh_id() -> (r: String)
    ensures
        r@.len() == 36,
{
    uuid::Uuid::new_v4().to_string()
}

/// Whether every metric carries a generated 36-character identity.
pub open spec fn ids_formed(ms: Seq<Metric>) -> bool {
    forall|k: int| 0 <= k < ms.len() ==> (#[trigger] ms[k]).id@.len() == 36
}

/// The fact a metric built from these parts states.
pub open spec fn fact_of(
    provider_id: Seq<char>,
    kind: MetricType,
    value: u64,
    unit: Seq<char>,
    timestamp: i64,
    dimensions: Seq<(Seq<char>, Seq<char>)>,
) -> MetricFact {
    MetricFact { provider_id, metric_type: kind, value, unit, timestamp, dimensions }
}

/// The metrics one usage record expands into: tokens in, tokens out, and
/// cached tokens only where the record reports them.
pub open spec fn token_facts(
    provider_id: Seq<char>,
    input: u64,
    output: u64,
    cached: Option<u64>,
    timestamp: i64,
    dimensions: Seq<(Seq<char>, Seq<char>)>,
) -> Seq<MetricFact> {
    let both = seq![
        fact_of(provider_id, MetricType::TokensIn, input, "tokens"@, timestamp, dimensions),
        fact_of(provider_id, MetricType::TokensOut, output, "tokens"@, timestamp, dimensions),
    ];
    match cached {
        Some(c) => both.push(
            fact_of(provider_id, MetricType::TokensCached, c, "tokens"@, timestamp, dimensions),
        ),
        None => both,
    }
}

/// A fresh metric with a new random identity.
pub fn new_metric(
    provider_id: &str,
    kind: MetricType,
    value: u64,
    unit: String,
    timestamp: i64,
    dimensions: Vec<(String, String)>,
) -> (m: Metric)
    ensures
        m.fact() == fact_of(provider_id@, kind, value, unit@, timestamp, dimensions.deep_view()),
        m.id@.len() == 36,
{
    Metric {
        id: fresh_id(),
        provider_id: provider_id.to_string(),
        metric_type: kind,
        value,
        unit,
        timestamp,
        dimensions,
    }
}

/// The empty dimension mapping.
pub fn no_dimensions() -> (r: Vec<(String, String)>)
    ensures
        r.deep_view() == Seq::<(Seq<char>, Seq<char>)>::empty(),
{
    let r: Vec<(String, String)> = Vec::new();
    proof {
        assert(r.deep_view() =~= Seq::<(Seq<char>, Seq<char>)>::empty());
    }
    r
}

/// A dimension mapping with the one entry `key -> value`.
pub fn single_dimension(key: &str, value: &String) -> (r: Vec<(String, String)>)
    ensures
        r.deep_view() == seq![(key@, value@)],
{
    let mut r: Vec<(String, String)> = Vec::new();
    r.push((key.to_string(), value.clone()));
    proof {
        assert(r.deep_view() =~= seq![(key@, value@)]);
    }
    r
}

/// Appends the metrics that one usage record expands into (see `token_facts`),
/// each tagged with the single dimension `dim_key -> dim_value`.
pub fn push_token_metrics(
    out: &mut Vec<Metric>,
    provider_id: &str,
    input: u64,
    output: u64,
    cached: Option<u64>,
    timestamp: i64,
    dim_key: &str,
    dim_value: &String,
)
    ensures
        facts_of(final(out)@) == facts_of(old(out)@) + token_facts(
            provider_id@,
            input,
            output,
            cached,
            timestamp,
            seq![(dim_key@, dim_value@)],
        ),
        ids_formed(old(out)@) ==> ids_formed(final(out)@),
{
    let ghost start = facts_of(out@);
    let ghost dims = seq![(dim_key@, dim_value@)];
    let m_in = new_metric(provider_id, MetricType::TokensIn, input, "tokens".to_string(), timestamp,
        single_dimension(dim_key, dim_value));
    out.push(m_in);
    let m_out = new_metric(provider_id, MetricType::TokensOut, output, "tokens".to_string(), timestamp,
        single_dimension(dim_key, dim_value));
    out.push(m_out);
    if let Some(c) = cached {
        let m_cached = new_metric(provider_id, MetricType::TokensCached, c, "tokens".to_string(),
            timestamp, single_dimension(dim_key, dim_value));
        out.push(m_cached);
    }
    proof {
        assert(facts_of(out@) =~= start + token_facts(provider_id@, input, output, cached, timestamp, dims));
    }
}

} // verus!
