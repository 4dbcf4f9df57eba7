//! A throttle on how often the action may be triggered.
use vstd::prelude::*;

verus! {

/// Milliseconds from `earlier` to `later`; zero when `later` comes first.
pub open spec fn elapsed(earlier: u64, later: u64) -> nat {
    if later >= earlier { (later - earlier) as nat } else { 0 }
}

/// The interval gate: remembers when the action was last triggered and
/// allows a new trigger once `min_interval` milliseconds have passed.
/// Times are milliseconds on a monotonic clock.
#[derive(Debug, Clone, Copy)]
pub struct IntervalGate {
    pub min_interval: u64,
    pub last_triggered: Option<u64>,
}

impl IntervalGate {
    /// Whether a trigger at `now` is allowed.
    pub open spec fn allows(self, now: u64) -> bool {
        match self.last_triggered {
            None => true,
            Some(t) => elapsed(t, now) >= self.min_interval,
        }
    }

    /// A gate that has never been triggered.
    pub fn new(min_interval: u64) -> (r: IntervalGate)
        ensures
            r.min_interval == min_interval,
            r.last_triggered is None,
    {
        IntervalGate { min_interval, last_triggered: None }
    }

    /// Whether a trigger at `now` is allowed. Changes nothing.
    pub fn allow(&self, now: u64) -> (r: bool)
        ensures
            r == self.allows(now),
    {
        match self.last_triggered {
            None => true,
            Some(t) => {
                let passed: u64 = if now >= t { now - t } else { 0 };
                passed >= self.min_interval
            },
        }
    }

    /// Records a trigger at `now`; the cooling window starts again from it.
    pub fn mark_triggered(&mut self, now: u64)
        ensures
            final(self).min_interval == old(self).min_interval,
            final(self).last_triggered == Some(now),
    {
        self.last_triggered = Some(now);
    }
}

/// Before any trigger, the interval gate allows every time.
pub proof fn lemma_idle_gate_allows(g: IntervalGate, now: u64)
    requires
        g.last_triggered is None,
    ensures
        g.allows(now),
{
}

/// After a trigger at `t`, a check earlier than `min_interval` later is
/// refused and one at least `min_interval` later is allowed; checking never
/// changes the interval gate, so the two checks can come in this order.
pub proof fn lemma_gate_cools_then_reopens(g: IntervalGate, t: u64, soon: u64, later: u64)
    requires
        g.last_triggered == Some(t),
        t <= soon,
        soon - t < g.min_interval,
        t <= later,
        later - t >= g.min_interval,
    ensures
        !g.allows(soon),
        g.allows(later),
{
}

} // verus!
