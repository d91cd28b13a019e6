//! The metrics store: an append-only collection of metrics, kept newest
//! first, with windowed queries and retention purging.
use vstd::prelude::*;
use crate::model::Metric;

verus! {

/// Whether metrics are ordered newest first.
pub open spec fn newest_first(s: Seq<Metric>) -> bool {
    forall|i: int, j: int| 0 <= i < j < s.len() ==> s[i].timestamp >= s[j].timestamp
}

/// Whether a metric belongs to `provider` and is stamped strictly after `cutoff`.
pub open spec fn is_recent(m: Metric, provider: Seq<char>, cutoff: int) -> bool {
    m.provider_id@ == provider && m.timestamp > cutoff
}

/// The metrics of `provider` stamped strictly after `cutoff`, in store order.
pub open spec fn recent_of(s: Seq<Metric>, provider: Seq<char>, cutoff: int) -> Seq<Metric>
    decreases s.len(),
{
    if s.len() == 0 {
        Seq::empty()
    } else {
        let rest = recent_of(s.drop_last(), provider, cutoff);
        if is_recent(s.last(), provider, cutoff) {
            rest.push(s.last())
        } else {
            rest
        }
    }
}

/// `x` clamped into the range of `i64`.
pub open spec fn clamp_i64(x: int) -> i64 {
    if x < i64::MIN { i64::MIN } else if x > i64::MAX { i64::MAX } else { x as i64 }
}

/// `now` minus `count` units of `unit_secs` seconds, clamped into `i64`.
pub fn instant_before(now: i64, count: i64, unit_secs: i64) -> (r: i64)
    requires
        0 < unit_secs <= 86400,
    ensures
        r == clamp_i64(now - count * unit_secs),
{
    let c: i128 = count as i128;
    let u: i128 = unit_secs as i128;
    proof {
        if c >= 0 {
            assert(0 <= c * u <= c * 86400) by (nonlinear_arith)
                requires
                    c >= 0,
                    0 < u <= 86400,
            ;
        } else {
            assert(c * 86400 <= c * u <= 0) by (nonlinear_arith)
                requires
                    c < 0,
                    0 < u <= 86400,
            ;
        }
    }
    let x: i128 = (now as i128) - c * u;
    if x < i64::MIN as i128 {
        i64::MIN
    } else if x > i64::MAX as i128 {
        i64::MAX
    } else {
        x as i64
    }
}

impl Metric {
    /// Whether two metrics agree field for field.
    pub open spec fn same_as(&self, o: Metric) -> bool {
        &&& self.id@ == o.id@
        &&& self.provider_id@ == o.provider_id@
        &&& self.metric_type == o.metric_type
        &&& self.value == o.value
        &&& self.unit@ == o.unit@
        &&& self.timestamp == o.timestamp
        &&& self.dimensions@ == o.dimensions@
    }

    /// A copy of this metric, field for field.
    pub fn duplicate(&self) -> (r: Metric)
        ensures
            r.same_as(*self),
    {
        let mut dims: Vec<(String, String)> = Vec::new();
        let mut i: usize = 0;
        while i < self.dimensions.len()
            invariant
                i <= self.dimensions.len(),
                dims@ == self.dimensions@.take(i as int),
            decreases self.dimensions.len() - i,
        {
            let (k, v) = &self.dimensions[i];
            dims.push((k.clone(), v.clone()));
            proof {
                assert(dims@ =~= self.dimensions@.take(i + 1));
            }
            i += 1;
        }
        proof {
            assert(dims@ =~= self.dimensions@);
        }
        Metric {
            id: self.id.clone(),
            provider_id: self.provider_id.clone(),
            metric_type: self.metric_type,
            value: self.value,
            unit: self.unit.clone(),
            timestamp: self.timestamp,
            dimensions: dims,
        }
    }
}

/// An in-memory metrics store. Metrics are facts: they are only ever added
/// and, by retention, removed; never changed. The store keeps them newest
/// first, and metrics with the same timestamp in the order they came.
pub struct MetricsStore {
    metrics: Vec<Metric>,
}

impl View for MetricsStore {
    type V = Seq<Metric>;

    closed spec fn view(&self) -> Seq<Metric> {
        self.metrics@
    }
}

impl MetricsStore {
    pub open spec fn wf(&self) -> bool {
        newest_first(self@)
    }

    pub fn new() -> (r: MetricsStore)
        ensures
            r.wf(),
            r@ == Seq::<Metric>::empty(),
    {
        MetricsStore { metrics: Vec::new() }
    }

    pub fn len(&self) -> (r: usize)
        ensures
            r == self@.len(),
    {
        self.metrics.len()
    }

    /// Adds one metric, after every stored metric at least as new and before
    /// every older one; returns the position it took.
    pub fn insert(&mut self, metric: Metric) -> (j: usize)
        requires
            old(self).wf(),
        ensures
            final(self).wf(),
            j <= old(self)@.len(),
            final(self)@ == old(self)@.insert(j as int, metric),
            forall|i: int| 0 <= i < j ==> old(self)@[i].timestamp >= metric.timestamp,
            forall|i: int| j <= i < old(self)@.len() ==> old(self)@[i].timestamp < metric.timestamp,
    {
        let ghost before = self.metrics@;
        let mut j: usize = 0;
        while j < self.metrics.len() && self.metrics[j].timestamp >= metric.timestamp
            invariant
                j <= self.metrics.len(),
                self.metrics@ == before,
                forall|i: int| 0 <= i < j ==> before[i].timestamp >= metric.timestamp,
            decreases self.metrics.len() - j,
        {
            j += 1;
        }
        proof {
            if j < before.len() {
                assert forall|i: int| j <= i < before.len() implies before[i].timestamp < metric.timestamp by {
                    assert(before[j as int].timestamp < metric.timestamp);
                    assert(newest_first(before));
                }
            }
        }
        self.metrics.insert(j, metric);
        proof {
            let after = self.metrics@;
            assert(after == before.insert(j as int, metric));
            assert forall|a: int, b: int| 0 <= a < b < after.len() implies after[a].timestamp
                >= after[b].timestamp by {
                assert(newest_first(before));
                if a < j && b < j {
                } else if a < j && b == j {
                } else if a < j {
                    assert(after[b] == before[b - 1]);
                } else if a == j {
                    assert(after[b] == before[b - 1]);
                } else {
                    assert(after[a] == before[a - 1]);
                    assert(after[b] == before[b - 1]);
                }
            }
        }
        j
    }

    /// Whether a stored metric has the natural key of `metric`.
    pub fn contains_key(&self, metric: &Metric) -> (r: bool)
        ensures
            r == exists|i: int| 0 <= i < self@.len() && #[trigger] same_key(self@[i], *metric),
    {
        let mut i: usize = 0;
        while i < self.metrics.len()
            invariant
                i <= self.metrics.len(),
                forall|k: int| 0 <= k < i ==> !#[trigger] same_key(self.metrics@[k], *metric),
            decreases self.metrics.len() - i,
        {
            let m = &self.metrics[i];
            if m.provider_id.eq(&metric.provider_id) && m.metric_type == metric.metric_type
                && m.timestamp == metric.timestamp && same_dimensions(&m.dimensions, &metric.dimensions) {
                proof {
                    assert(same_key(self@[i as int], *metric));
                }
                return true;
            }
            i += 1;
        }
        false
    }

    /// Adds `metric` unless a stored metric already states the same fact, so
    /// that polling an overlapping window again adds nothing twice. Returns
    /// the position taken, or `None` where the store already had the fact.
    pub fn insert_if_new(&mut self, metric: Metric) -> (r: Option<usize>)
        requires
            old(self).wf(),
        ensures
            final(self).wf(),
            r is None <==> exists|i: int| 0 <= i < old(self)@.len() && #[trigger] same_key(old(self)@[i], metric),
            r is None ==> final(self)@ == old(self)@,
            r matches Some(j) ==> {
                &&& j <= old(self)@.len()
                &&& final(self)@ == old(self)@.insert(j as int, metric)
                &&& forall|i: int| 0 <= i < j ==> old(self)@[i].timestamp >= metric.timestamp
                &&& forall|i: int| j <= i < old(self)@.len() ==> old(self)@[i].timestamp < metric.timestamp
            },
    {
        if self.contains_key(&metric) {
            None
        } else {
            Some(self.insert(metric))
        }
    }

    /// The metrics of `provider` stamped strictly after `hours` hours before
    /// `now`, newest first.
    pub fn query_recent(&self, provider_id: &String, now: i64, hours: i64) -> (r: Vec<Metric>)
        requires
            self.wf(),
        ensures
            same_metrics(r@, recent_of(self@, provider_id@, clamp_i64(now - hours * 3600) as int)),
            newest_first(r@),
    {
        let cutoff = instant_before(now, hours, 3600);
        let ghost p = provider_id@;
        let mut out: Vec<Metric> = Vec::new();
        let mut i: usize = 0;
        while i < self.metrics.len()
            invariant
                i <= self.metrics.len(),
                p == provider_id@,
                same_metrics(out@, recent_of(self.metrics@.take(i as int), p, cutoff as int)),
            decreases self.metrics.len() - i,
        {
            proof {
                assert(self.metrics@.take(i + 1).drop_last() =~= self.metrics@.take(i as int));
            }
            let m = &self.metrics[i];
            let ghost before = out@;
            let ghost next = recent_of(self.metrics@.take(i + 1), p, cutoff as int);
            assert(self.metrics@.take(i + 1).last() == self.metrics@[i as int]);
            let same_provider = m.provider_id.eq(provider_id);
            if same_provider && m.timestamp > cutoff {
                let d = m.duplicate();
                out.push(d);
                proof {
                    assert(is_recent(self.metrics@[i as int], p, cutoff as int));
                    assert(next == recent_of(self.metrics@.take(i as int), p, cutoff as int).push(
                        self.metrics@[i as int],
                    ));
                    assert forall|k: int| 0 <= k < out@.len() implies #[trigger] out@[k].same_as(
                        next[k],
                    ) by {
                        if k < before.len() {
                            assert(out@[k] == before[k]);
                        }
                    }
                }
            } else {
                proof {
                    assert(!is_recent(self.metrics@[i as int], p, cutoff as int));
                    assert(next == recent_of(self.metrics@.take(i as int), p, cutoff as int));
                }
            }
            i += 1;
        }
        proof {
            assert(self.metrics@.take(self.metrics.len() as int) =~= self.metrics@);
            lemma_recent_newest_first(self@, p, cutoff as int);
            let rs = recent_of(self@, p, cutoff as int);
            assert forall|a: int, b: int| 0 <= a < b < out@.len() implies out@[a].timestamp
                >= out@[b].timestamp by {
                assert(out@[a].same_as(rs[a]));
                assert(out@[b].same_as(rs[b]));
            }
        }
        out
    }

    /// Removes every metric stamped strictly before `days` days ahead of
    /// `now` and keeps every other one as it was; returns how many went.
    pub fn purge_older_than(&mut self, now: i64, days: i64) -> (r: usize)
        requires
            old(self).wf(),
        ensures
            final(self).wf(),
            final(self)@.len() + r == old(self)@.len(),
            forall|i: int|
                0 <= i < final(self)@.len() ==> final(self)@[i] == old(self)@[i]
                    && final(self)@[i].timestamp >= clamp_i64(now - days * 86400),
            forall|i: int|
                final(self)@.len() <= i < old(self)@.len() ==> old(self)@[i].timestamp < clamp_i64(
                    now - days * 86400,
                ),
    {
        let cutoff = instant_before(now, days, 86400);
        let ghost before = self.metrics@;
        let mut j: usize = 0;
        while j < self.metrics.len() && self.metrics[j].timestamp >= cutoff
            invariant
                j <= self.metrics.len(),
                self.metrics@ == before,
                forall|i: int| 0 <= i < j ==> before[i].timestamp >= cutoff,
            decreases self.metrics.len() - j,
        {
            j += 1;
        }
        proof {
            if j < before.len() {
                assert forall|i: int| j <= i < before.len() implies before[i].timestamp < cutoff by {
                    assert(before[j as int].timestamp < cutoff);
                    assert(newest_first(before));
                }
            }
        }
        let removed = self.metrics.len() - j;
        self.metrics.truncate(j);
        proof {
            assert(newest_first(before));
        }
        removed
    }
}

/// Whether two metrics state the same fact: same provider, kind, timestamp
/// and dimensions. This is the store's natural key.
pub open spec fn same_key(a: Metric, b: Metric) -> bool {
    &&& a.provider_id@ == b.provider_id@
    &&& a.metric_type == b.metric_type
    &&& a.timestamp == b.timestamp
    &&& a.dimensions.deep_view() == b.dimensions.deep_view()
}

/// Whether two dimension mappings hold the same entries in the same order.
pub fn same_dimensions(a: &Vec<(String, String)>, b: &Vec<(String, String)>) -> (r: bool)
    ensures
        r == (a.deep_view() == b.deep_view()),
{
    if a.len() != b.len() {
        proof {
            assert(a.deep_view().len() != b.deep_view().len());
        }
        return false;
    }
    let mut i: usize = 0;
    while i < a.len()
        invariant
            i <= a.len(),
            a.len() == b.len(),
            forall|k: int| 0 <= k < i ==> a.deep_view()[k] == b.deep_view()[k],
        decreases a.len() - i,
    {
        let (ka, va) = &a[i];
        let (kb, vb) = &b[i];
        if !(ka.eq(kb) && va.eq(vb)) {
            proof {
                assert(a.deep_view()[i as int] != b.deep_view()[i as int]);
            }
            return false;
        }
        i += 1;
    }
    proof {
        assert(a.deep_view() =~= b.deep_view());
    }
    true
}

/// Whether two sequences of metrics agree element for element.
pub open spec fn same_metrics(a: Seq<Metric>, b: Seq<Metric>) -> bool {
    a.len() == b.len() && forall|i: int| 0 <= i < a.len() ==> #[trigger] a[i].same_as(b[i])
}

/// Every metric of a window query is at least as new as a bound that every
/// stored metric meets.
proof fn lemma_recent_bounded(s: Seq<Metric>, provider: Seq<char>, cutoff: int, t: int)
    requires
        forall|i: int| 0 <= i < s.len() ==> s[i].timestamp >= t,
    ensures
        forall|k: int| 0 <= k < recent_of(s, provider, cutoff).len() ==> #[trigger] recent_of(
            s,
            provider,
            cutoff,
        )[k].timestamp >= t,
    decreases s.len(),
{
    if s.len() > 0 {
        lemma_recent_bounded(s.drop_last(), provider, cutoff, t);
    }
}

/// A window query over a newest-first store is itself newest first.
pub proof fn lemma_recent_newest_first(s: Seq<Metric>, provider: Seq<char>, cutoff: int)
    requires
        newest_first(s),
    ensures
        newest_first(recent_of(s, provider, cutoff)),
    decreases s.len(),
{
    if s.len() > 0 {
        let rest = s.drop_last();
        assert(newest_first(rest));
        lemma_recent_newest_first(rest, provider, cutoff);
        lemma_recent_bounded(rest, provider, cutoff, s.last().timestamp as int);
    }
}

/// A stored metric that a window query selects is among its results.
pub proof fn lemma_recent_contains(s: Seq<Metric>, provider: Seq<char>, cutoff: int, i: int)
    requires
        0 <= i < s.len(),
        is_recent(s[i], provider, cutoff),
    ensures
        recent_of(s, provider, cutoff).contains(s[i]),
    decreases s.len(),
{
    let r = recent_of(s, provider, cutoff);
    if i == s.len() - 1 {
        assert(r[r.len() - 1] == s[i]);
    } else {
        let rest = s.drop_last();
        lemma_recent_contains(rest, provider, cutoff, i);
        let k = choose|k: int| 0 <= k < recent_of(rest, provider, cutoff).len() && recent_of(rest, provider, cutoff)[k] == rest[i];
        assert(r[k] == s[i]);
    }
}

/// A metric inserted into the store is found, unchanged and with its
/// dimensions, by a query for its provider over any window that holds its
/// timestamp.
pub proof fn lemma_stored_metric_is_found(s: Seq<Metric>, m: Metric, j: int, cutoff: int)
    requires
        0 <= j <= s.len(),
        m.timestamp > cutoff,
    ensures
        recent_of(s.insert(j, m), m.provider_id@, cutoff).contains(m),
{
    lemma_recent_contains(s.insert(j, m), m.provider_id@, cutoff, j);
}

} // verus!
