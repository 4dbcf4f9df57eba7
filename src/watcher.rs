//! The reaction engine: configuration, the action supervisor and the step
//! that turns one change event into a decision.
use vstd::prelude::*;
use crate::event::ChangeEvent;
use crate::gate::IntervalGate;
use crate::pattern::{qualifies, qualifies_by, texts, GlobPattern};

verus! {

/// One call that the caller makes on the action to carry out a trigger.
#[derive(Debug, PartialEq, Eq)]
pub enum ActionCall {
    /// `stop_child`: ask the run started last to stop, without waiting.
    Stop,
    /// `restart_child` for the given event (`None` at startup).
    Start(Option<ChangeEvent>),
}

/// The calls of one trigger, in order: a stop first when `stop` holds, then
/// one start for `event`.
pub open spec fn trigger_calls(stop: bool, event: Option<ChangeEvent>) -> Seq<ActionCall> {
    if stop {
        seq![ActionCall::Stop, ActionCall::Start(event)]
    } else {
        seq![ActionCall::Start(event)]
    }
}

/// The action that a watcher runs again on every qualifying change: a
/// process, a callback, or anything else the user supplies. The watcher
/// decides which calls to make; its caller makes them, in order, and reports
/// back with `Fwatcher::record_started`.
pub trait WatchingMode {
    /// Starts a new run of the action for `event` (`None` for the run at
    /// startup), without waiting for it. Returns whether it started.
    fn restart_child(&mut self, event: Option<&ChangeEvent>) -> bool;

    /// Asks the run started last to stop, without waiting for it to end.
    fn stop_child(&mut self);
}

/// What a watcher holds, in mathematical terms.
pub struct WatcherModel {
    /// Directories to watch; none means the current directory.
    pub dirs: Seq<Seq<char>>,
    /// A path qualifies only if it matches one of these.
    pub watched: Seq<Seq<char>>,
    /// A path matching any of these never qualifies.
    pub excluded: Seq<Seq<char>>,
    /// Coalescing window handed to the watch source, in milliseconds.
    pub delay: u64,
    /// The interval gate: minimum spacing and last trigger time.
    pub gate: IntervalGate,
    /// Whether the previous run is stopped before a new one starts.
    pub restart: bool,
    /// Whether the run started last is known to have started; it is the
    /// one a restart stops.
    pub running: bool,
}

/// The outcome of one change event.
#[derive(Debug, PartialEq, Eq)]
pub enum Reaction {
    /// The event was dropped: the interval gate was cooling, the event had no path,
    /// or the path did not qualify.
    Ignored,
    /// The action is to be triggered for the change of `path`, by making
    /// `calls` on it in order.
    Triggered { path: String, calls: Vec<ActionCall> },
}

/// Watches directories and runs an action again whenever a qualifying file
/// changes, no more often than the interval allows.
pub struct Fwatcher<T: WatchingMode> {
    dirs: Vec<String>,
    patterns: Vec<GlobPattern>,
    exclude_patterns: Vec<GlobPattern>,
    delay: u64,
    gate: IntervalGate,
    restart: bool,
    cmd: T,
    child: bool,
}

impl<T: WatchingMode> View for Fwatcher<T> {
    type V = WatcherModel;

    closed spec fn view(&self) -> WatcherModel {
        WatcherModel {
            dirs: dir_texts(self.dirs@),
            watched: texts(self.patterns@),
            excluded: texts(self.exclude_patterns@),
            delay: self.delay,
            gate: self.gate,
            restart: self.restart,
            running: self.child,
        }
    }
}

/// The texts of the directory names.
pub open spec fn dir_texts(dirs: Seq<String>) -> Seq<Seq<char>> {
    dirs.map_values(|d: String| d@)
}

impl WatcherModel {
    /// This model with `watched` replaced.
    pub open spec fn with_watched(self, watched: Seq<Seq<char>>) -> WatcherModel {
        WatcherModel { watched, ..self }
    }

    /// This model with `excluded` replaced.
    pub open spec fn with_excluded(self, excluded: Seq<Seq<char>>) -> WatcherModel {
        WatcherModel { excluded, ..self }
    }

    /// This model with the delay replaced.
    pub open spec fn with_delay(self, delay: u64) -> WatcherModel {
        WatcherModel { delay, ..self }
    }

    /// This model with the interval gate's minimum spacing replaced.
    pub open spec fn with_interval(self, min_interval: u64) -> WatcherModel {
        WatcherModel { gate: IntervalGate { min_interval, ..self.gate }, ..self }
    }

    /// This model with the restart flag replaced.
    pub open spec fn with_restart(self, restart: bool) -> WatcherModel {
        WatcherModel { restart, ..self }
    }

    /// This model with the running flag replaced.
    pub open spec fn with_running(self, running: bool) -> WatcherModel {
        WatcherModel { running, ..self }
    }

    /// This model with the interval gate replaced.
    pub open spec fn with_gate(self, gate: IntervalGate) -> WatcherModel {
        WatcherModel { gate, ..self }
    }

    /// Whether the event at `now` triggers the action: the interval gate allows,
    /// the event names a path, and that path qualifies.
    pub open spec fn fires(self, event: ChangeEvent, now: u64) -> bool {
        self.gate.allows(now) && event.subject() is Some && qualifies_by(
            self.watched,
            self.excluded,
            event.subject()->0,
        )
    }

    /// The calls of the next trigger: a stop first exactly when restarting
    /// is on and a started run is known, then one start for `event`.
    pub open spec fn next_calls(self, event: Option<ChangeEvent>) -> Seq<ActionCall> {
        trigger_calls(self.restart && self.running, event)
    }
}

impl<T: WatchingMode> Fwatcher<T> {
    /// The action value the watcher holds.
    pub closed spec fn action(&self) -> T {
        self.cmd
    }

    /// A watcher over `dirs` that runs `cmd`: no patterns, a delay of two
    /// seconds, an interval of one second, no restarting, never triggered.
    pub fn new(dirs: Vec<String>, cmd: T) -> (r: Self)
        ensures
            r@.dirs == dir_texts(dirs@),
            r@.watched.len() == 0,
            r@.excluded.len() == 0,
            r@.delay == 2000,
            r@.gate.min_interval == 1000,
            r@.gate.last_triggered is None,
            !r@.restart,
            !r@.running,
            r.action() == cmd,
    {
        Fwatcher {
            dirs,
            patterns: Vec::new(),
            exclude_patterns: Vec::new(),
            delay: 2000,
            gate: IntervalGate::new(1000),
            restart: false,
            cmd,
            child: false,
        }
    }

    /// Adds a pattern that paths may match to qualify.
    pub fn pattern(&mut self, pat: GlobPattern) -> (r: &mut Self)
        ensures
            r@ == old(self)@.with_watched(old(self)@.watched.push(pat@)),
            r.action() == old(self).action(),
            *final(self) == *final(r),
    {
        self.patterns.push(pat);
        proof {
            assert(texts(self.patterns@) =~= texts(old(self).patterns@).push(pat@));
        }
        self
    }

    /// Adds patterns that paths may match to qualify.
    pub fn patterns(&mut self, pats: &[GlobPattern]) -> (r: &mut Self)
        ensures
            r@ == old(self)@.with_watched(old(self)@.watched + texts(pats@)),
            r.action() == old(self).action(),
            *final(self) == *final(r),
    {
        let mut i: usize = 0;
        while i < pats.len()
            invariant
                i <= pats@.len(),
                self@ == old(self)@.with_watched(old(self)@.watched + texts(pats@.subrange(0, i as int))),
                self.action() == old(self).action(),
            decreases pats@.len() - i,
        {
            let ghost prev = self.patterns@;
            let copy = pats[i].clone();
            self.patterns.push(copy);
            proof {
                assert(texts(self.patterns@) =~= texts(prev).push(copy@));
                assert(texts(pats@.subrange(0, i + 1)) =~= texts(pats@.subrange(0, i as int)).push(pats@[i as int]@));
                assert(texts(self.patterns@) =~= texts(old(self).patterns@) + texts(pats@.subrange(0, i + 1)));
            }
            i = i + 1;
        }
        proof {
            assert(pats@.subrange(0, pats@.len() as int) =~= pats@);
        }
        self
    }

    /// Adds a pattern that keeps every path it matches from qualifying.
    pub fn exclude_pattern(&mut self, pat: GlobPattern) -> (r: &mut Self)
        ensures
            r@ == old(self)@.with_excluded(old(self)@.excluded.push(pat@)),
            r.action() == old(self).action(),
            *final(self) == *final(r),
    {
        self.exclude_patterns.push(pat);
        proof {
            assert(texts(self.exclude_patterns@) =~= texts(old(self).exclude_patterns@).push(pat@));
        }
        self
    }

    /// Adds patterns that keep every path they match from qualifying.
    pub fn exclude_patterns(&mut self, pats: &[GlobPattern]) -> (r: &mut Self)
        ensures
            r@ == old(self)@.with_excluded(old(self)@.excluded + texts(pats@)),
            r.action() == old(self).action(),
            *final(self) == *final(r),
    {
        let mut i: usize = 0;
        while i < pats.len()
            invariant
                i <= pats@.len(),
                self@ == old(self)@.with_excluded(old(self)@.excluded + texts(pats@.subrange(0, i as int))),
                self.action() == old(self).action(),
            decreases pats@.len() - i,
        {
            let ghost prev = self.exclude_patterns@;
            let copy = pats[i].clone();
            self.exclude_patterns.push(copy);
            proof {
                assert(texts(self.exclude_patterns@) =~= texts(prev).push(copy@));
                assert(texts(pats@.subrange(0, i + 1)) =~= texts(pats@.subrange(0, i as int)).push(pats@[i as int]@));
                assert(texts(self.exclude_patterns@) =~= texts(old(self).exclude_patterns@) + texts(pats@.subrange(0, i + 1)));
            }
            i = i + 1;
        }
        proof {
            assert(pats@.subrange(0, pats@.len() as int) =~= pats@);
        }
        self
    }

    /// Sets the coalescing window of the watch source, in milliseconds.
    pub fn delay(&mut self, millis: u64) -> (r: &mut Self)
        ensures
            r@ == old(self)@.with_delay(millis),
            r.action() == old(self).action(),
            *final(self) == *final(r),
    {
        self.delay = millis;
        self
    }

    /// Sets the minimum spacing between triggers, in milliseconds.
    pub fn interval(&mut self, millis: u64) -> (r: &mut Self)
        ensures
            r@ == old(self)@.with_interval(millis),
            r.action() == old(self).action(),
            *final(self) == *final(r),
    {
        self.gate.min_interval = millis;
        self
    }

    /// Sets whether the previous run is stopped before a new one starts.
    pub fn restart(&mut self, flag: bool) -> (r: &mut Self)
        ensures
            r@ == old(self)@.with_restart(flag),
            r.action() == old(self).action(),
            *final(self) == *final(r),
    {
        self.restart = flag;
        self
    }

    /// The directories to watch.
    pub fn dirs(&self) -> (r: &[String])
        ensures
            dir_texts(r@) == self@.dirs,
    {
        self.dirs.as_slice()
    }

    /// The coalescing window of the watch source, in milliseconds.
    pub fn delay_millis(&self) -> (r: u64)
        ensures
            r == self@.delay,
    {
        self.delay
    }

    /// The action supervisor: the calls that trigger the action, in order.
    /// Until the caller reports how the new start went, no run is known.
    fn trigger(&mut self, event: Option<ChangeEvent>) -> (r: Vec<ActionCall>)
        ensures
            r@ == old(self)@.next_calls(event),
            final(self)@ == old(self)@.with_running(false),
            final(self).action() == old(self).action(),
    {
        let mut calls: Vec<ActionCall> = Vec::new();
        if self.restart && self.child {
            calls.push(ActionCall::Stop);
        }
        calls.push(ActionCall::Start(event));
        self.child = false;
        proof {
            if old(self).restart && old(self).child {
                assert(calls@ =~= seq![ActionCall::Stop, ActionCall::Start(event)]);
            } else {
                assert(calls@ =~= seq![ActionCall::Start(event)]);
            }
        }
        calls
    }

    /// The trigger at startup: the action is started once, with no event,
    /// whatever the interval gate says; the interval gate is left as it was.
    pub fn start(&mut self) -> (r: Vec<ActionCall>)
        ensures
            r@ == old(self)@.next_calls(None),
            final(self)@ == old(self)@.with_running(false),
            final(self).action() == old(self).action(),
    {
        self.trigger(None)
    }

    /// Records whether the start of the last trigger succeeded; a run that
    /// started is the one the next restart stops.
    pub fn record_started(&mut self, started: bool)
        ensures
            final(self)@ == old(self)@.with_running(started),
            final(self).action() == old(self).action(),
    {
        self.child = started;
    }

    /// The action, for the caller to make the calls of a trigger on it.
    pub fn action_mut(&mut self) -> (r: &mut T)
        ensures
            *r == old(self).action(),
            final(self)@ == old(self)@,
            final(self).action() == *final(r),
    {
        &mut self.cmd
    }

    /// Handles one change event observed at `now` (milliseconds): drops it
    /// while the interval gate is cooling, or when it names no qualifying path;
    /// otherwise marks the interval gate at `now` and triggers the action for
    /// this event.
    pub fn handle_event(&mut self, event: &ChangeEvent, now: u64) -> (r: Reaction)
        ensures
            r is Triggered <==> old(self)@.fires(*event, now),
            !old(self)@.fires(*event, now) ==> *final(self) == *old(self),
            r matches Reaction::Triggered { path, calls } ==> {
                &&& Some(path@) == event.subject()
                &&& calls@ == old(self)@.next_calls(Some(*event))
                &&& final(self)@ == old(self)@.with_gate(
                    IntervalGate { last_triggered: Some(now), ..old(self)@.gate },
                ).with_running(false)
                &&& final(self).action() == old(self).action()
            },
    {
        if !self.gate.allow(now) {
            return Reaction::Ignored;
        }
        match event.path() {
            None => Reaction::Ignored,
            Some(p) => {
                if qualifies(p, self.patterns.as_slice(), self.exclude_patterns.as_slice()) {
                    self.gate.mark_triggered(now);
                    let calls = self.trigger(Some(event.clone()));
                    Reaction::Triggered { path: p.to_string(), calls }
                } else {
                    Reaction::Ignored
                }
            },
        }
    }
}

/// After a trigger whose start the caller reported as `started`, the next
/// trigger asks that run to stop before starting the new one exactly when
/// restarting is on and the run started; with restarting off no stop is
/// ever asked for. The interval gate may be marked in between.
pub proof fn lemma_restart_semantics(
    m: WatcherModel,
    started: bool,
    marked: IntervalGate,
    event: Option<ChangeEvent>,
)
    ensures
        ({
            let after = m.with_running(false).with_running(started).with_gate(marked);
            &&& m.restart && started ==> after.next_calls(event) == seq![
                ActionCall::Stop,
                ActionCall::Start(event),
            ]
            &&& !(m.restart && started) ==> after.next_calls(event) == seq![ActionCall::Start(event)]
        }),
{
}

/// On a watcher that knows of no started run, as a new one, the trigger at
/// startup is exactly one start, with no event, and no stop.
pub proof fn lemma_startup_starts_once(m: WatcherModel)
    requires
        !m.running,
    ensures
        m.next_calls(None) == seq![ActionCall::Start(None)],
{
}

/// With restarting off, no trigger ever asks for a stop.
pub proof fn lemma_no_restart_never_stops(m: WatcherModel, event: Option<ChangeEvent>)
    requires
        !m.restart,
    ensures
        !m.next_calls(event).contains(ActionCall::Stop),
{
    assert(m.next_calls(event)[0] == ActionCall::Start(event));
}

/// While the interval gate is open, an event with a path triggers exactly
/// when that path matches some watched pattern and no excluded one.
pub proof fn lemma_open_gate_fires_iff_qualifies(m: WatcherModel, event: ChangeEvent, now: u64)
    requires
        m.gate.allows(now),
        event.subject() is Some,
    ensures
        m.fires(event, now) == qualifies_by(m.watched, m.excluded, event.subject()->0),
{
}

/// After a trigger at `t`, every event before `min_interval` has passed is
/// dropped, and once it has passed an event triggers exactly when its path
/// qualifies; how the start went does not matter.
pub proof fn lemma_trigger_then_cooling(m: WatcherModel, t: u64, started: bool, event: ChangeEvent, now: u64)
    requires
        t <= now,
    ensures
        ({
            let after = m.with_gate(IntervalGate { last_triggered: Some(t), ..m.gate }).with_running(
                false,
            ).with_running(started);
            &&& now - t < m.gate.min_interval ==> !after.fires(event, now)
            &&& now - t >= m.gate.min_interval ==> (after.fires(event, now) == (event.subject() is Some
                && qualifies_by(m.watched, m.excluded, event.subject()->0)))
        }),
{
}

/// A rename is judged by its source path; the destination plays no part.
pub proof fn lemma_rename_judged_by_source(m: WatcherModel, from: String, to: String, now: u64)
    ensures
        m.fires(ChangeEvent::Renamed(from, to), now) == (m.gate.allows(now) && qualifies_by(
            m.watched,
            m.excluded,
            from@,
        )),
{
}

} // verus!
