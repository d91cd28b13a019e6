//! The stored form of a metric: its kind by name and its dimension mapping
//! as a JSON object.
use vstd::prelude::*;
use crate::model::{Metric, MetricType, code_of, kind_of_code};

verus! {

/// The JSON object text of a dimension mapping.
pub uninterp spec fn dimensions_json(d: Seq<(Seq<char>, Seq<char>)>) -> Seq<char>;

/// The entries of a JSON object text whose members are all strings, where
/// the text is one.
pub uninterp spec fn dimensions_from_json(s: Seq<char>) -> Option<Seq<(Seq<char>, Seq<char>)>>;

/// Relies on `serde_json::to_string` over a `BTreeMap` of the entries: the
/// JSON object of the mapping, members in key order, which depends on the
/// entries alone. A map with string keys always serialises.
#[verifier::external_body]
fn encode_dimension_map(d: &Vec<(String, String)>) -> (r: String)
    ensures
        r@ == dimensions_json(d.deep_view()),
{
    let map: std::collections::BTreeMap<&str, &str> = d.iter().map(|(k, v)| (k.as_str(), v.as_str())).collect();
    serde_json::to_string(&map).unwrap_or_default()
}

/// Relies on `serde_json::from_str` into a `BTreeMap<String, String>`: the
/// entries of the object, or `None` where the text is not a JSON object of
/// strings; the answer depends on the text alone.
#[verifier::external_body]
fn decode_dimension_map(s: &str) -> (r: Option<Vec<(String, String)>>)
    ensures
        r is Some <==> dimensions_from_json(s@) is Some,
        r matches Some(v) ==> v.deep_view() == dimensions_from_json(s@)->0,
{
    serde_json::from_str::<std::collections::BTreeMap<String, String>>(s).ok().map(|m| m.into_iter().collect())
}

/// The dimension mapping a stored blob reads as: no blob, or one that is not
/// a JSON object of strings, reads as the empty mapping.
pub open spec fn decoded_dimensions(blob: Option<Seq<char>>) -> Seq<(Seq<char>, Seq<char>)> {
    match blob {
        Some(s) => match dimensions_from_json(s) {
            Some(d) => d,
            None => Seq::empty(),
        },
        None => Seq::empty(),
    }
}

/// Reads a stored dimension blob; malformed data degrades to no dimensions.
pub fn decode_dimensions(blob: &Option<String>) -> (r: Vec<(String, String)>)
    ensures
        r.deep_view() == decoded_dimensions(match blob {
            Some(s) => Some(s@),
            None => None,
        }),
{
    match blob {
        Some(s) => match decode_dimension_map(s.as_str()) {
            Some(d) => d,
            None => {
                let r: Vec<(String, String)> = Vec::new();
                proof {
                    assert(r.deep_view() =~= Seq::<(Seq<char>, Seq<char>)>::empty());
                }
                r
            },
        },
        None => {
            let r: Vec<(String, String)> = Vec::new();
            proof {
                assert(r.deep_view() =~= Seq::<(Seq<char>, Seq<char>)>::empty());
            }
            r
        },
    }
}

/// The JSON text a dimension mapping is stored as.
pub fn encode_dimensions(d: &Vec<(String, String)>) -> (r: String)
    ensures
        r@ == dimensions_json(d.deep_view()),
{
    encode_dimension_map(d)
}

/// A metric as one stored row.
#[derive(Debug, Clone)]
pub struct MetricRow {
    pub id: String,
    pub provider_id: String,
    pub metric_type: String,
    pub value: u64,
    pub unit: String,
    pub timestamp: i64,
    pub dimensions: Option<String>,
}

impl MetricRow {
    /// The row a metric is stored as: its kind by name, its dimensions as JSON.
    pub fn from_metric(m: &Metric) -> (r: MetricRow)
        ensures
            r.id@ == m.id@,
            r.provider_id@ == m.provider_id@,
            r.metric_type@ == code_of(m.metric_type),
            r.value == m.value,
            r.unit@ == m.unit@,
            r.timestamp == m.timestamp,
            r.dimensions matches Some(j) && j@ == dimensions_json(m.dimensions.deep_view()),
    {
        MetricRow {
            id: m.id.clone(),
            provider_id: m.provider_id.clone(),
            metric_type: m.metric_type.code(),
            value: m.value,
            unit: m.unit.clone(),
            timestamp: m.timestamp,
            dimensions: Some(encode_dimensions(&m.dimensions)),
        }
    }

    /// The metric a row holds. An unknown kind name reads as `CostUsd`; a
    /// missing or malformed dimension blob reads as no dimensions.
    pub fn into_metric(self) -> (r: Metric)
        ensures
            r.id == self.id,
            r.provider_id == self.provider_id,
            r.metric_type == kind_of_code(self.metric_type@),
            r.value == self.value,
            r.unit == self.unit,
            r.timestamp == self.timestamp,
            r.dimensions.deep_view() == decoded_dimensions(match self.dimensions {
                Some(s) => Some(s@),
                None => None,
            }),
    {
        let metric_type = MetricType::from_code(&self.metric_type);
        let dimensions = decode_dimensions(&self.dimensions);
        Metric {
            id: self.id,
            provider_id: self.provider_id,
            metric_type,
            value: self.value,
            unit: self.unit,
            timestamp: self.timestamp,
            dimensions,
        }
    }
}

/// A row with no dimension blob reads as the empty mapping, never a failure.
pub proof fn lemma_missing_dimensions_read_empty()
    ensures
        decoded_dimensions(None) == Seq::<(Seq<char>, Seq<char>)>::empty(),
{
}

} // verus!
