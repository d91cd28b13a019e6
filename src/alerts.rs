//! Budget and alert evaluation over accumulated usage.
use vstd::prelude::*;
use crate::model::{Alert, AlertRule, AlertStatus, Budget, BudgetPeriod, Metric, facts_of};
use crate::time::{day_start_of, month_start_of, start_of_day, start_of_month};
use crate::usage::{cost_total, sum_since};

verus! {

/// How a period's spend stands against a budget.
#[derive(Debug, Clone, Copy, PartialEq, Eq, Structural)]
pub enum BudgetSignal {
    Within,
    /// The soft limit is reached: a non-fatal signal.
    SoftExceeded,
    /// The hard limit is reached: a stronger signal, which still only
    /// changes alert state.
    HardExceeded,
}

pub open spec fn signal_of(soft: Option<u64>, hard: Option<u64>, spend: u64) -> BudgetSignal {
    if hard matches Some(h) && spend >= h {
        BudgetSignal::HardExceeded
    } else if soft matches Some(s) && spend >= s {
        BudgetSignal::SoftExceeded
    } else {
        BudgetSignal::Within
    }
}

/// Midnight UTC of the Monday that starts the week holding `t`.
pub open spec fn week_start_of(t: int) -> int {
    let day = day_start_of(t) / 86400;
    // the epoch fell on a Thursday: three days after a Monday
    (day - (day + 3) % 7) * 86400
}

/// Midnight UTC of the Monday that starts the week holding `t`.
pub fn start_of_week(t: i64) -> (r: i64)
    requires
        t >= i64::MIN + 8 * 86400,
    ensures
        r == week_start_of(t as int),
        r <= t,
{
    let day_start = start_of_day(t);
    let day: i64 = day_start / 86400;
    let back: i64 = (day + 3) % 7;
    let back = if back < 0 { back + 7 } else { back };
    proof {
        assert(day_start == day * 86400);
    }
    (day - back) * 86400
}

/// The instant a budget period that holds `now` began.
pub open spec fn period_start_of(period: BudgetPeriod, now: i64) -> Option<int> {
    match period {
        BudgetPeriod::Daily => Some(day_start_of(now as int)),
        BudgetPeriod::Weekly => Some(week_start_of(now as int)),
        BudgetPeriod::Monthly => match month_start_of(now) {
            Some(m) => Some(m as int),
            None => None,
        },
    }
}

/// The instant the period holding `now` began; `None` where chrono cannot
/// place `now` in a month.
pub fn period_start(period: BudgetPeriod, now: i64) -> (r: Option<i64>)
    requires
        now >= i64::MIN + 8 * 86400,
    ensures
        match r {
            Some(s) => period_start_of(period, now) == Some(s as int),
            None => period_start_of(period, now) is None,
        },
{
    match period {
        BudgetPeriod::Daily => Some(start_of_day(now)),
        BudgetPeriod::Weekly => Some(start_of_week(now)),
        BudgetPeriod::Monthly => start_of_month(now),
    }
}

impl Budget {
    /// How `spend` stands against this budget's limits: the hard limit is
    /// checked first.
    pub fn signal(&self, spend: u64) -> (r: BudgetSignal)
        ensures
            r == signal_of(self.soft_limit, self.hard_limit, spend),
    {
        if let Some(h) = self.hard_limit {
            if spend >= h {
                return BudgetSignal::HardExceeded;
            }
        }
        if let Some(s) = self.soft_limit {
            if spend >= s {
                return BudgetSignal::SoftExceeded;
            }
        }
        BudgetSignal::Within
    }

    /// The cost accumulated in the budget's current period at `now`, and how
    /// it stands against the limits; `None` where the period cannot be placed.
    pub fn evaluate(&self, metrics: &Vec<Metric>, now: i64) -> (r: Option<(u64, BudgetSignal)>)
        requires
            now >= i64::MIN + 8 * 86400,
        ensures
            r is Some <==> period_start_of(self.period, now) is Some,
            r matches Some((spend, sig)) ==> spend == cost_total(
                facts_of(metrics@),
                period_start_of(self.period, now)->0,
            ) && sig == signal_of(self.soft_limit, self.hard_limit, spend),
    {
        match period_start(self.period, now) {
            Some(start) => {
                let spend = sum_since(metrics, start, false);
                Some((spend, self.signal(spend)))
            },
            None => None,
        }
    }
}

/// What an alert's rule is judged against. Amounts are in millionths of a
/// unit; `burn_per_day` is the recent daily rate at which credits are used.
#[derive(Debug, Clone, Copy)]
pub struct AlertInputs {
    pub period_cost: u64,
    pub credits: Option<u64>,
    pub burn_per_day: u64,
}

/// Whether a rule holds: spend reached the amount; remaining credits fell to
/// the amount; or, at the current burn rate, credits run out within
/// `days_before` days.
pub open spec fn rule_holds(rule: AlertRule, inputs: AlertInputs) -> bool {
    match rule {
        AlertRule::SpendThreshold { amount, .. } => inputs.period_cost >= amount,
        AlertRule::CreditThreshold { amount, .. } => inputs.credits matches Some(c) && c <= amount,
        AlertRule::ProjectedRunOut { days_before } => inputs.credits matches Some(c)
            && inputs.burn_per_day > 0 && c <= inputs.burn_per_day as int * days_before as int,
    }
}

pub fn rule_satisfied(rule: &AlertRule, inputs: &AlertInputs) -> (r: bool)
    ensures
        r == rule_holds(*rule, *inputs),
{
    match rule {
        AlertRule::SpendThreshold { amount, .. } => inputs.period_cost >= *amount,
        AlertRule::CreditThreshold { amount, .. } => match inputs.credits {
            Some(c) => c <= *amount,
            None => false,
        },
        AlertRule::ProjectedRunOut { days_before } => match inputs.credits {
            Some(c) => {
                let b: u128 = inputs.burn_per_day as u128;
                let d: u128 = *days_before as u128;
                assert(b * d <= 0xffff_ffff_ffff_ffff * d) by (nonlinear_arith)
                    requires
                        b <= 0xffff_ffff_ffff_ffff,
                ;
                let horizon: u128 = b * d;
                inputs.burn_per_day > 0 && (c as u128) <= horizon
            },
            None => false,
        },
    }
}

/// The daily burn rate over the week before `now`: the cost stamped in the
/// last seven days, divided by seven.
pub fn burn_rate_per_day(metrics: &Vec<Metric>, now: i64) -> (r: u64)
    requires
        now >= i64::MIN + 7 * 86400,
    ensures
        r == cost_total(facts_of(metrics@), now - 7 * 86400) / 7,
{
    sum_since(metrics, now - 7 * 86400, false) / 7
}

/// The status, last firing and whether it fires, after one evaluation.
///
/// An active alert whose rule holds fires and becomes triggered. A triggered
/// alert does not fire again while the rule keeps holding; once the rule
/// clears it is active again. Snoozed and disabled alerts are left alone.
pub open spec fn step_of(status: AlertStatus, last_fired: Option<i64>, holds: bool, now: i64) -> (
    AlertStatus,
    Option<i64>,
    bool,
) {
    match status {
        AlertStatus::Active => if holds {
            (AlertStatus::Triggered, Some(now), true)
        } else {
            (AlertStatus::Active, last_fired, false)
        },
        AlertStatus::Triggered => if holds {
            (AlertStatus::Triggered, last_fired, false)
        } else {
            (AlertStatus::Active, last_fired, false)
        },
        _ => (status, last_fired, false),
    }
}

impl Alert {
    /// Evaluates this alert at `now` against whether its rule holds; returns
    /// whether it fired.
    pub fn evaluate(&mut self, holds: bool, now: i64) -> (fired: bool)
        ensures
            (final(self).status, final(self).last_fired_at, fired) == step_of(
                old(self).status,
                old(self).last_fired_at,
                holds,
                now,
            ),
            final(self).id == old(self).id,
            final(self).provider_id == old(self).provider_id,
            final(self).rule == old(self).rule,
    {
        match self.status {
            AlertStatus::Active => {
                if holds {
                    self.status = AlertStatus::Triggered;
                    self.last_fired_at = Some(now);
                    true
                } else {
                    false
                }
            },
            AlertStatus::Triggered => {
                if !holds {
                    self.status = AlertStatus::Active;
                }
                false
            },
            _ => false,
        }
    }

    /// Judges this alert's rule against `inputs` and evaluates it at `now`.
    pub fn evaluate_rule(&mut self, inputs: &AlertInputs, now: i64) -> (fired: bool)
        ensures
            (final(self).status, final(self).last_fired_at, fired) == step_of(
                old(self).status,
                old(self).last_fired_at,
                rule_holds(old(self).rule, *inputs),
                now,
            ),
            final(self).rule == old(self).rule,
    {
        let holds = rule_satisfied(&self.rule, inputs);
        self.evaluate(holds, now)
    }
}

/// An active alert whose rule holds fires once, becoming triggered and
/// recording when; evaluated again while the rule still holds, it does not
/// fire and keeps that record.
pub proof fn lemma_fires_once(last_fired: Option<i64>, now: i64, later: i64)
    ensures
        ({
            let (s1, f1, fired1) = step_of(AlertStatus::Active, last_fired, true, now);
            let (s2, f2, fired2) = step_of(s1, f1, true, later);
            &&& fired1 && s1 == AlertStatus::Triggered && f1 == Some(now)
            &&& !fired2 && s2 == AlertStatus::Triggered && f2 == Some(now)
        }),
{
}

/// Nothing that evaluation does leaves the disabled state or fires there.
pub proof fn lemma_disabled_stays(last_fired: Option<i64>, holds: bool, now: i64)
    ensures
        step_of(AlertStatus::Disabled, last_fired, holds, now) == (AlertStatus::Disabled, last_fired, false),
{
}

} // verus!
