use fwatcher::pattern::qualifies;
use fwatcher::{ActionCall, ChangeEvent, Fwatcher, GlobPattern, IntervalGate, Reaction, WatchingMode};
use std::cell::RefCell;
use std::rc::Rc;

/// What a recording action saw: one entry per call, in order.
#[derive(Debug, Clone, PartialEq)]
enum Call {
    Start(Option<String>),
    Stop,
}

struct Recorder {
    log: Rc<RefCell<Vec<Call>>>,
    starts_ok: bool,
}

impl WatchingMode for Recorder {
    fn restart_child(&mut self, event: Option<&ChangeEvent>) -> bool {
        let path = event.and_then(|e| e.path()).map(|p| p.to_string());
        self.log.borrow_mut().push(Call::Start(path));
        self.starts_ok
    }

    fn stop_child(&mut self) {
        self.log.borrow_mut().push(Call::Stop);
    }
}

fn recorder(starts_ok: bool) -> (Recorder, Rc<RefCell<Vec<Call>>>) {
    let log = Rc::new(RefCell::new(Vec::new()));
    (Recorder { log: log.clone(), starts_ok }, log)
}

fn pat(text: &str) -> GlobPattern {
    GlobPattern::new(text).unwrap()
}

/// Makes the calls of one trigger on the action and reports how it went.
fn carry_out(fw: &mut Fwatcher<Recorder>, calls: Vec<ActionCall>) {
    let mut started = false;
    for call in calls {
        match call {
            ActionCall::Stop => fw.action_mut().stop_child(),
            ActionCall::Start(event) => started = fw.action_mut().restart_child(event.as_ref()),
        }
    }
    fw.record_started(started);
}

/// Handles an event and carries out the trigger, if any; returns the calls.
fn react(fw: &mut Fwatcher<Recorder>, event: ChangeEvent, now: u64) -> Option<Vec<ActionCall>> {
    match fw.handle_event(&event, now) {
        Reaction::Triggered { calls, .. } => {
            let copy = calls.iter().map(|c| match c {
                ActionCall::Stop => ActionCall::Stop,
                ActionCall::Start(e) => ActionCall::Start(e.clone()),
            }).collect();
            carry_out(fw, calls);
            Some(copy)
        }
        Reaction::Ignored => None,
    }
}

fn modified(path: &str) -> ChangeEvent {
    ChangeEvent::Modified(path.to_string())
}

#[test]
fn pattern_keeps_its_text() {
    assert_eq!(pat("**/*.py").as_str(), "**/*.py");
}

#[test]
fn malformed_pattern_is_rejected() {
    let e = GlobPattern::new("a/**b").unwrap_err();
    assert_eq!(e.position, 4);
    assert!(!e.message.is_empty());
    assert_eq!(GlobPattern::new("a/bc**").unwrap_err().position, 3);
}

#[test]
fn qualifies_with_disjoint_patterns() {
    let watched = vec![pat("**/*.py")];
    let excluded = vec![pat("**/*.rs")];
    assert!(qualifies("src/a.py", &watched, &excluded));
    assert!(!qualifies("src/a.rs", &watched, &excluded));
    assert!(!qualifies("src/a.txt", &watched, &excluded));
}

#[test]
fn qualifies_with_overlapping_patterns() {
    let watched = vec![pat("**/*.py"), pat("src/*")];
    let excluded = vec![pat("**/.git/**")];
    assert!(qualifies("src/a.py", &watched, &excluded));
    assert!(qualifies("src/notes", &watched, &excluded));
    assert!(!qualifies("src/.git/x.py", &watched, &excluded));
}

#[test]
fn qualifies_with_empty_pattern_sets() {
    let none: Vec<GlobPattern> = Vec::new();
    let all = vec![pat("**")];
    assert!(!qualifies("src/a.py", &none, &none));
    assert!(!qualifies("src/a.py", &none, &all));
    assert!(qualifies("src/a.py", &all, &none));
    assert!(!qualifies("src/a.py", &all, &all));
}

#[test]
fn gate_allows_before_any_trigger() {
    let g = IntervalGate::new(1000);
    assert!(g.allow(0));
    assert!(g.allow(u64::MAX));
}

#[test]
fn gate_cools_for_the_interval() {
    let mut g = IntervalGate::new(1000);
    g.mark_triggered(5000);
    assert!(!g.allow(5000));
    assert!(!g.allow(5999));
    assert!(g.allow(6000));
    assert!(g.allow(7200));
    assert!(!g.allow(4000));
    g.mark_triggered(7200);
    assert!(!g.allow(7300));
    assert_eq!(g.last_triggered, Some(7200));
}

#[test]
fn zero_interval_never_cools() {
    let mut g = IntervalGate::new(0);
    g.mark_triggered(10);
    assert!(g.allow(10));
    assert!(g.allow(3));
}

#[test]
fn new_watcher_defaults() {
    let (rec, log) = recorder(true);
    let fw = Fwatcher::new(vec!["src".to_string(), "src".to_string()], rec);
    assert_eq!(fw.dirs(), &["src".to_string(), "src".to_string()][..]);
    assert_eq!(fw.delay_millis(), 2000);
    assert!(log.borrow().is_empty());
}

#[test]
fn startup_triggers_once_without_events() {
    let (rec, log) = recorder(true);
    let mut fw = Fwatcher::new(Vec::new(), rec);
    fw.pattern(pat("**/*.py")).restart(true);
    let calls = fw.start();
    assert_eq!(calls, vec![ActionCall::Start(None)]);
    carry_out(&mut fw, calls);
    assert_eq!(*log.borrow(), vec![Call::Start(None)]);
}

#[test]
fn startup_leaves_the_gate_open() {
    let (rec, log) = recorder(true);
    let mut fw = Fwatcher::new(Vec::new(), rec);
    fw.pattern(pat("*.py")).interval(1000);
    let calls = fw.start();
    carry_out(&mut fw, calls);
    assert!(react(&mut fw, modified("a.py"), 0).is_some());
    assert_eq!(log.borrow().len(), 2);
}

#[test]
fn restart_stops_the_previous_run() {
    let (rec, log) = recorder(true);
    let mut fw = Fwatcher::new(Vec::new(), rec);
    fw.pattern(pat("*")).interval(0).restart(true);
    let calls = fw.start();
    carry_out(&mut fw, calls);
    let r = fw.handle_event(&modified("a"), 10);
    assert_eq!(
        r,
        Reaction::Triggered {
            path: "a".to_string(),
            calls: vec![ActionCall::Stop, ActionCall::Start(Some(modified("a")))],
        }
    );
    if let Reaction::Triggered { calls, .. } = r {
        carry_out(&mut fw, calls);
    }
    assert_eq!(
        *log.borrow(),
        vec![Call::Start(None), Call::Stop, Call::Start(Some("a".to_string()))]
    );
}

#[test]
fn without_restart_the_previous_run_is_untouched() {
    let (rec, log) = recorder(true);
    let mut fw = Fwatcher::new(Vec::new(), rec);
    fw.pattern(pat("*")).interval(0).restart(false);
    let calls = fw.start();
    carry_out(&mut fw, calls);
    assert_eq!(
        react(&mut fw, modified("a"), 10),
        Some(vec![ActionCall::Start(Some(modified("a")))])
    );
    assert_eq!(
        react(&mut fw, modified("b"), 20),
        Some(vec![ActionCall::Start(Some(modified("b")))])
    );
    assert!(!log.borrow().contains(&Call::Stop));
    assert_eq!(log.borrow().len(), 3);
}

#[test]
fn restart_with_no_run_started_only_starts() {
    let (rec, _log) = recorder(true);
    let mut fw = Fwatcher::new(Vec::new(), rec);
    fw.pattern(pat("*")).interval(0).restart(true);
    assert_eq!(
        react(&mut fw, modified("a"), 1),
        Some(vec![ActionCall::Start(Some(modified("a")))])
    );
}

#[test]
fn failed_start_is_not_stopped_later() {
    let (rec, log) = recorder(false);
    let mut fw = Fwatcher::new(Vec::new(), rec);
    fw.pattern(pat("*")).interval(0).restart(true);
    let calls = fw.start();
    assert_eq!(calls, vec![ActionCall::Start(None)]);
    carry_out(&mut fw, calls);
    assert_eq!(
        react(&mut fw, modified("a"), 1),
        Some(vec![ActionCall::Start(Some(modified("a")))])
    );
    assert!(!log.borrow().contains(&Call::Stop));
}

#[test]
fn rename_is_judged_by_its_source() {
    let (rec, _log) = recorder(true);
    let mut fw = Fwatcher::new(Vec::new(), rec);
    fw.pattern(pat("*.py")).interval(0);
    let away = ChangeEvent::Renamed("a.py".to_string(), "a.txt".to_string());
    let into = ChangeEvent::Renamed("b.txt".to_string(), "b.py".to_string());
    assert_eq!(away.path(), Some("a.py"));
    assert_eq!(
        fw.handle_event(&away, 0),
        Reaction::Triggered { path: "a.py".to_string(), calls: vec![ActionCall::Start(Some(away.clone()))] }
    );
    assert_eq!(fw.handle_event(&into, 5), Reaction::Ignored);
}

#[test]
fn star_stays_within_one_segment() {
    let watched = vec![pat("src/*.py")];
    let none: Vec<GlobPattern> = Vec::new();
    assert!(qualifies("src/a.py", &watched, &none));
    assert!(!qualifies("src/x/b.py", &watched, &none));
    assert!(qualifies("src/x/b.py", &[pat("src/**/*.py")], &none));
}

#[test]
fn other_notifications_never_trigger() {
    let (rec, log) = recorder(true);
    let mut fw = Fwatcher::new(Vec::new(), rec);
    fw.pattern(pat("**")).interval(0);
    assert_eq!(ChangeEvent::Other.path(), None);
    assert_eq!(fw.handle_event(&ChangeEvent::Other, 0), Reaction::Ignored);
    assert!(log.borrow().is_empty());
}

#[test]
fn each_event_kind_names_its_path() {
    assert_eq!(ChangeEvent::Created("c".to_string()).path(), Some("c"));
    assert_eq!(ChangeEvent::Modified("m".to_string()).path(), Some("m"));
    assert_eq!(ChangeEvent::Removed("r".to_string()).path(), Some("r"));
}

#[test]
fn patterns_and_exclusions_added_in_bulk() {
    let (rec, log) = recorder(true);
    let mut fw = Fwatcher::new(Vec::new(), rec);
    fw.patterns(&[pat("*.py"), pat("*.rs")])
        .exclude_patterns(&[pat("skip*"), pat("tmp*")])
        .exclude_pattern(pat("old*"))
        .delay(500)
        .interval(0);
    assert_eq!(fw.delay_millis(), 500);
    assert!(react(&mut fw, modified("a.rs"), 0).is_some());
    assert_eq!(react(&mut fw, modified("tmp.py"), 1), None);
    assert_eq!(react(&mut fw, modified("old.rs"), 2), None);
    assert_eq!(react(&mut fw, modified("a.txt"), 3), None);
    assert_eq!(log.borrow().len(), 1);
}

#[test]
fn end_to_end_scenario() {
    let (rec, log) = recorder(true);
    let mut fw = Fwatcher::new(vec!["src".to_string()], rec);
    fw.pattern(pat("**/*.py"))
        .exclude_pattern(pat("**/.git/**"))
        .interval(1000)
        .restart(true);
    let calls = fw.start();
    carry_out(&mut fw, calls);
    log.borrow_mut().clear();

    assert_eq!(
        react(&mut fw, modified("src/a.py"), 10_000),
        Some(vec![ActionCall::Stop, ActionCall::Start(Some(modified("src/a.py")))])
    );
    assert_eq!(react(&mut fw, modified("src/a.py"), 10_200), None);
    assert_eq!(react(&mut fw, modified("src/.git/x"), 10_500), None);
    assert_eq!(react(&mut fw, modified("src/.git/x"), 11_100), None);
    assert_eq!(log.borrow().len(), 2);

    assert_eq!(
        react(&mut fw, modified("src/a.py"), 11_200),
        Some(vec![ActionCall::Stop, ActionCall::Start(Some(modified("src/a.py")))])
    );
    assert_eq!(
        *log.borrow(),
        vec![
            Call::Stop,
            Call::Start(Some("src/a.py".to_string())),
            Call::Stop,
            Call::Start(Some("src/a.py".to_string())),
        ]
    );
}
