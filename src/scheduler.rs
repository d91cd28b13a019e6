//! The polling scheduler's decisions. Each tick takes a snapshot of the
//! enabled providers and polls them one after another; a provider's poll runs
//! credential, snapshot, usage fetch and storing in turn. Whatever one
//! provider's poll ends in, the tick moves on to the next provider, and the
//! loop fires again on the next interval.
use vstd::prelude::*;
use crate::model::Provider;

verus! {

/// The fixed interval between ticks, in seconds. The first tick fires one
/// interval after the loop starts.
pub const POLL_INTERVAL_SECS: u64 = 60;

/// Why a provider's poll failed.
#[derive(Debug, Clone, Copy, PartialEq, Eq, Structural)]
pub enum PollFailure {
    /// No secret is stored for the provider.
    CredentialMissing,
    /// Network failure or a 5xx answer: retried on the next tick.
    Transient,
    /// A 4xx answer or a payload of the wrong shape: not retried until the
    /// configuration changes.
    Permanent,
    /// The metrics store could not take a metric.
    Store,
}

#[derive(Debug, Clone, Copy, PartialEq, Eq, Structural)]
pub enum PollOutcome {
    Succeeded,
    Failed(PollFailure),
}

/// How a provider shows after a poll.
#[derive(Debug, Clone, Copy, PartialEq, Eq, Structural)]
pub enum ProviderHealth {
    Healthy,
    /// A failure that the next tick may clear.
    Retrying,
    /// A credential or authorisation failure that needs the user.
    NeedsAttention,
}

pub open spec fn failure_of_status(status: Option<u16>) -> PollFailure {
    match status {
        Some(code) => if 500 <= code <= 599 { PollFailure::Transient } else { PollFailure::Permanent },
        None => PollFailure::Transient,
    }
}

/// Classifies a failed provider call: no answer (`None`) or a 5xx status is
/// transient, any other status permanent.
pub fn classify_failure(status: Option<u16>) -> (r: PollFailure)
    ensures
        r == failure_of_status(status),
{
    match status {
        Some(code) => {
            if 500 <= code && code <= 599 {
                PollFailure::Transient
            } else {
                PollFailure::Permanent
            }
        },
        None => PollFailure::Transient,
    }
}

pub open spec fn health_of(outcome: PollOutcome) -> ProviderHealth {
    match outcome {
        PollOutcome::Succeeded => ProviderHealth::Healthy,
        PollOutcome::Failed(PollFailure::CredentialMissing) => ProviderHealth::NeedsAttention,
        PollOutcome::Failed(PollFailure::Permanent) => ProviderHealth::NeedsAttention,
        PollOutcome::Failed(_) => ProviderHealth::Retrying,
    }
}

/// How a provider shows after a poll that ended in `outcome`.
pub fn health(outcome: PollOutcome) -> (r: ProviderHealth)
    ensures
        r == health_of(outcome),
{
    match outcome {
        PollOutcome::Succeeded => ProviderHealth::Healthy,
        PollOutcome::Failed(PollFailure::CredentialMissing) => ProviderHealth::NeedsAttention,
        PollOutcome::Failed(PollFailure::Permanent) => ProviderHealth::NeedsAttention,
        PollOutcome::Failed(_) => ProviderHealth::Retrying,
    }
}

/// Where one provider's poll stands.
#[derive(Debug, Clone, Copy, PartialEq, Eq, Structural)]
pub enum PollStage {
    /// Resolving the provider's credential.
    Credential,
    /// Taking the usage snapshot.
    Snapshot,
    /// Fetching the month-to-date metrics.
    Usage,
    /// Storing the fetched metrics, `stored` of `total` so far.
    Storing { stored: usize, total: usize },
    Finished(PollOutcome),
}

/// What the outside work of a stage came back with.
#[derive(Debug, Clone, Copy, PartialEq, Eq, Structural)]
pub enum PollEvent {
    Succeeded,
    /// The usage fetch returned this many metrics.
    Fetched(usize),
    Failed(PollFailure),
}

/// The stage after `event`: a failure at any stage ends the poll with that
/// failure; success moves through the stages in turn; storing ends once every
/// fetched metric is stored. An event that does not fit the stage, or any
/// event after the end, changes nothing.
pub open spec fn advance_of(stage: PollStage, event: PollEvent) -> PollStage {
    match (stage, event) {
        (PollStage::Finished(_), _) => stage,
        (_, PollEvent::Failed(f)) => PollStage::Finished(PollOutcome::Failed(f)),
        (PollStage::Credential, PollEvent::Succeeded) => PollStage::Snapshot,
        (PollStage::Snapshot, PollEvent::Succeeded) => PollStage::Usage,
        (PollStage::Usage, PollEvent::Fetched(n)) => if n == 0 {
            PollStage::Finished(PollOutcome::Succeeded)
        } else {
            PollStage::Storing { stored: 0, total: n }
        },
        (PollStage::Storing { stored, total }, PollEvent::Succeeded) => if stored + 1 < total {
            PollStage::Storing { stored: (stored + 1) as usize, total }
        } else {
            PollStage::Finished(PollOutcome::Succeeded)
        },
        _ => stage,
    }
}

/// The next stage of a provider's poll.
pub fn advance(stage: PollStage, event: PollEvent) -> (r: PollStage)
    ensures
        r == advance_of(stage, event),
{
    match (stage, event) {
        (PollStage::Finished(_), _) => stage,
        (_, PollEvent::Failed(f)) => PollStage::Finished(PollOutcome::Failed(f)),
        (PollStage::Credential, PollEvent::Succeeded) => PollStage::Snapshot,
        (PollStage::Snapshot, PollEvent::Succeeded) => PollStage::Usage,
        (PollStage::Usage, PollEvent::Fetched(n)) => {
            if n == 0 {
                PollStage::Finished(PollOutcome::Succeeded)
            } else {
                PollStage::Storing { stored: 0, total: n }
            }
        },
        (PollStage::Storing { stored, total }, PollEvent::Succeeded) => {
            if stored < total && total - stored > 1 {
                PollStage::Storing { stored: stored + 1, total }
            } else {
                PollStage::Finished(PollOutcome::Succeeded)
            }
        },
        _ => stage,
    }
}

/// The positions of the enabled providers, in order.
pub open spec fn enabled_indices(ps: Seq<Provider>) -> Seq<usize>
    decreases ps.len(),
{
    if ps.len() == 0 {
        Seq::empty()
    } else {
        let rest = enabled_indices(ps.drop_last());
        if ps.last().enabled {
            rest.push((ps.len() - 1) as usize)
        } else {
            rest
        }
    }
}

/// The provider a tick polls next, once `outcomes` are recorded.
pub open spec fn next_of(queue: Seq<usize>, outcomes: Seq<PollOutcome>) -> Option<usize> {
    if outcomes.len() < queue.len() {
        Some(queue[outcomes.len() as int])
    } else {
        None
    }
}

/// One tick: the snapshot of enabled providers to poll, and the outcome of
/// each poll so far, in order.
pub struct Tick {
    pub queue: Vec<usize>,
    pub outcomes: Vec<PollOutcome>,
}

impl Tick {
    pub open spec fn wf(&self) -> bool {
        self.outcomes@.len() <= self.queue@.len()
    }

    /// A tick over the providers enabled now; later changes to the list do
    /// not affect it.
    pub fn start(providers: &Vec<Provider>) -> (r: Tick)
        requires
            providers@.len() <= usize::MAX,
        ensures
            r.wf(),
            r.queue@ == enabled_indices(providers@),
            r.outcomes@.len() == 0,
    {
        let mut queue: Vec<usize> = Vec::new();
        let mut i: usize = 0;
        while i < providers.len()
            invariant
                i <= providers.len(),
                queue@ == enabled_indices(providers@.take(i as int)),
            decreases providers.len() - i,
        {
            proof {
                assert(providers@.take(i + 1).drop_last() =~= providers@.take(i as int));
            }
            if providers[i].enabled {
                queue.push(i);
            }
            i += 1;
        }
        proof {
            assert(providers@.take(providers.len() as int) =~= providers@);
        }
        Tick { queue, outcomes: Vec::new() }
    }

    /// The provider to poll next, if any is left.
    pub fn current(&self) -> (r: Option<usize>)
        requires
            self.wf(),
        ensures
            r == next_of(self.queue@, self.outcomes@),
    {
        if self.outcomes.len() < self.queue.len() {
            Some(self.queue[self.outcomes.len()])
        } else {
            None
        }
    }

    /// Records how the current provider's poll ended, success or failure
    /// alike, and moves on to the next provider.
    pub fn record(&mut self, outcome: PollOutcome)
        requires
            old(self).wf(),
            old(self).outcomes@.len() < old(self).queue@.len(),
        ensures
            final(self).wf(),
            final(self).queue@ == old(self).queue@,
            final(self).outcomes@ == old(self).outcomes@.push(outcome),
    {
        self.outcomes.push(outcome);
    }

    pub fn is_done(&self) -> (r: bool)
        ensures
            r == (self.outcomes@.len() >= self.queue@.len()),
    {
        self.outcomes.len() >= self.queue.len()
    }
}

/// Every enabled provider has a place in a tick's queue, and a place holds
/// only an enabled provider.
pub proof fn lemma_enabled_indices(ps: Seq<Provider>)
    requires
        ps.len() <= usize::MAX,
    ensures
        forall|i: int| 0 <= i < ps.len() && ps[i].enabled ==> enabled_indices(ps).contains(i as usize),
        forall|k: int|
            0 <= k < enabled_indices(ps).len() ==> (#[trigger] enabled_indices(ps)[k]) < ps.len()
                && ps[enabled_indices(ps)[k] as int].enabled,
    decreases ps.len(),
{
    if ps.len() > 0 {
        let rest = ps.drop_last();
        lemma_enabled_indices(rest);
        let q = enabled_indices(ps);
        let qr = enabled_indices(rest);
        assert forall|i: int| 0 <= i < ps.len() && ps[i].enabled implies q.contains(i as usize) by {
            if i < ps.len() - 1 {
                assert(rest[i] == ps[i]);
                let k = choose|k: int| 0 <= k < qr.len() && qr[k] == i as usize;
                assert(q[k] == i as usize);
            } else {
                assert(q[q.len() - 1] == i as usize);
            }
        }
        assert forall|k: int| 0 <= k < q.len() implies (#[trigger] q[k]) < ps.len() && ps[q[k] as int].enabled by {
            if k < qr.len() {
                assert(q[k] == qr[k]);
                assert(rest[qr[k] as int] == ps[qr[k] as int]);
            } else {
                assert(ps.last().enabled);
                assert(q[k] == (ps.len() - 1) as usize);
            }
        }
    }
}

/// Failure isolation: in a tick over a list where `first` and `second` are
/// enabled, both have a turn; which provider is polled next depends only on
/// how many polls have ended, never on whether they failed; so once an
/// outcome, failure or success, is recorded for each queued provider, both
/// have been polled.
pub proof fn lemma_failure_isolation(
    providers: Seq<Provider>,
    first: int,
    second: int,
    outcomes: Seq<PollOutcome>,
)
    requires
        providers.len() <= usize::MAX,
        0 <= first < providers.len(),
        0 <= second < providers.len(),
        providers[first].enabled,
        providers[second].enabled,
        outcomes.len() == enabled_indices(providers).len(),
    ensures
        enabled_indices(providers).contains(first as usize),
        enabled_indices(providers).contains(second as usize),
        forall|a: Seq<PollOutcome>, b: Seq<PollOutcome>|
            a.len() == b.len() ==> #[trigger] next_of(enabled_indices(providers), a) == #[trigger] next_of(
                enabled_indices(providers),
                b,
            ),
        ({
            let polled = enabled_indices(providers).take(outcomes.len() as int);
            polled.contains(first as usize) && polled.contains(second as usize)
        }),
{
    lemma_enabled_indices(providers);
    let q = enabled_indices(providers);
    assert(q.take(outcomes.len() as int) =~= q);
}

} // verus!
