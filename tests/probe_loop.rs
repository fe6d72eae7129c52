use pingmon::config::Config;
use pingmon::probe::{
    Decision, Event, LogEvent, Next, Phase, ProbeAttempt, ProbeLoop, Target,
};
use pingmon::supervisor::fan_out;

fn attempt(t: Target) -> Next {
    Next::Probe(ProbeAttempt { target: t, timeout_ms: 300 })
}

#[test]
fn new_loop_is_opening() {
    let l = ProbeLoop::new(Target::V4(5), 300);
    assert_eq!(l.phase(), Phase::Opening);
    assert_eq!(l.target(), Target::V4(5));
    assert_eq!(l.timeout_ms(), 300);
    assert!(l.accepts(Event::Opened));
    assert!(l.accepts(Event::OpenFailed));
    assert!(!l.accepts(Event::Replied));
    assert!(!l.accepts(Event::TimedOut));
}

#[test]
fn open_failure_stops_loop() {
    let t = Target::V4(5);
    let mut l = ProbeLoop::new(t, 300);
    let d = l.step(Event::OpenFailed);
    assert_eq!(d, Decision { log: Some(LogEvent::OpenFailed(t)), next: Next::Stop });
    assert_eq!(l.phase(), Phase::Stopped);
    assert!(!l.accepts(Event::Opened));
    assert!(!l.accepts(Event::Replied));
}

#[test]
fn opening_starts_probing() {
    let t = Target::V6(0x2001_0db8 << 96);
    let mut l = ProbeLoop::new(t, 300);
    let d = l.step(Event::Opened);
    assert_eq!(d, Decision { log: Some(LogEvent::Started(t)), next: attempt(t) });
    assert_eq!(l.phase(), Phase::Probing);
    assert!(!l.accepts(Event::Opened));
    assert!(l.accepts(Event::TimedOut));
}

#[test]
fn timeout_logs_once_with_target() {
    let t = Target::V4(0xc0a8_0001);
    let mut l = ProbeLoop::new(t, 300);
    l.step(Event::Opened);
    let d = l.step(Event::TimedOut);
    assert_eq!(d.log, Some(LogEvent::Timeout(t)));
    assert_eq!(d.next, attempt(t));
    assert_eq!(l.phase(), Phase::Probing);
}

#[test]
fn reply_is_silent() {
    let t = Target::V4(0xc0a8_0001);
    let mut l = ProbeLoop::new(t, 300);
    l.step(Event::Opened);
    let d = l.step(Event::Replied);
    assert_eq!(d, Decision { log: None, next: attempt(t) });
    assert_eq!(l.phase(), Phase::Probing);
}

#[test]
fn probing_never_stops_on_outcomes() {
    let t = Target::V4(9);
    let mut l = ProbeLoop::new(t, 300);
    l.step(Event::Opened);
    let mut timeouts = 0;
    for k in 0..1000 {
        let e = if k % 3 == 0 { Event::TimedOut } else { Event::Replied };
        assert!(l.accepts(e));
        let d = l.step(e);
        assert_eq!(d.next, attempt(t));
        if d.log.is_some() {
            timeouts += 1;
        }
    }
    assert_eq!(timeouts, 334);
    assert_eq!(l.phase(), Phase::Probing);
}

#[test]
fn probe_failure_stops_loop() {
    let t = Target::V4(9);
    let mut l = ProbeLoop::new(t, 300);
    l.step(Event::Opened);
    let d = l.step(Event::ProbeFailed);
    assert_eq!(d, Decision { log: Some(LogEvent::ProbeFailed(t)), next: Next::Stop });
    assert_eq!(l.phase(), Phase::Stopped);
    assert!(!l.accepts(Event::Replied));
    assert!(!l.accepts(Event::TimedOut));
}

#[test]
fn custom_timeout_is_carried() {
    let t = Target::V4(9);
    let mut l = ProbeLoop::new(t, 1500);
    let d = l.step(Event::Opened);
    assert_eq!(d.next, Next::Probe(ProbeAttempt { target: t, timeout_ms: 1500 }));
}

fn config(targets: Vec<Target>) -> Config {
    let given: Vec<Option<Target>> = targets.into_iter().map(Some).collect();
    match Config::from_args(None, &given) {
        Ok(c) => c,
        Err(_) => panic!("valid arguments refused"),
    }
}

#[test]
fn fan_out_starts_one_loop_per_target() {
    let (a, b, c) = (Target::V4(1), Target::V4(2), Target::V6(3));
    let loops = fan_out(&config(vec![a, b, c]));
    assert_eq!(loops.len(), 3);
    let got: Vec<Target> = loops.iter().map(|l| l.target()).collect();
    assert_eq!(got, vec![a, b, c]);
    for l in &loops {
        assert_eq!(l.phase(), Phase::Opening);
        assert_eq!(l.timeout_ms(), 300);
    }
}

#[test]
fn fan_out_loops_advance_independently() {
    let (a, b, c) = (Target::V4(1), Target::V4(2), Target::V6(3));
    let mut loops = fan_out(&config(vec![a, b, c]));
    loops[2].step(Event::Opened);
    loops[2].step(Event::TimedOut);
    assert_eq!(loops[0].phase(), Phase::Opening);
    assert_eq!(loops[1].phase(), Phase::Opening);
    assert_eq!(loops[2].phase(), Phase::Probing);
    loops[0].step(Event::Opened);
    assert_eq!(loops[0].phase(), Phase::Probing);
}

#[test]
fn failed_target_does_not_stop_others() {
    let (a, b) = (Target::V4(1), Target::V4(2));
    let mut loops = fan_out(&config(vec![a, b]));
    let da = loops[0].step(Event::OpenFailed);
    assert_eq!(da.next, Next::Stop);
    loops[1].step(Event::Opened);
    for _ in 0..10 {
        let d = loops[1].step(Event::TimedOut);
        assert_eq!(d.log, Some(LogEvent::Timeout(b)));
        assert_eq!(d.next, attempt(b));
    }
    assert_eq!(loops[0].phase(), Phase::Stopped);
    assert_eq!(loops[1].phase(), Phase::Probing);
}

#[test]
fn duplicate_targets_get_own_loops() {
    let a = Target::V4(0x0101_0101);
    let mut loops = fan_out(&config(vec![a, a]));
    assert_eq!(loops.len(), 2);
    assert_eq!(loops[0].target(), a);
    assert_eq!(loops[1].target(), a);
    loops[0].step(Event::OpenFailed);
    assert_eq!(loops[0].phase(), Phase::Stopped);
    assert_eq!(loops[1].phase(), Phase::Opening);
    let d = loops[1].step(Event::Opened);
    assert_eq!(d.next, attempt(a));
}
