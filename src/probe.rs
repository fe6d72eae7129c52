//! The decisions of one target's probe loop.
//!
//! A loop first opens a prober session, then issues attempts back to back,
//! one at a time, for as long as the session lasts. The caller performs each
//! action and reports what came of it as an [`Event`]; [`ProbeLoop::step`]
//! answers with the log line to emit, if any, and what to do next.

use vstd::prelude::*;

verus! {

/// The per-attempt timeout of a configuration, in milliseconds.
pub const DEFAULT_TIMEOUT_MS: u64 = 300;

/// A network address to probe, held as its bits: an IPv4 address as a `u32`,
/// an IPv6 address as a `u128`, most significant octet first.
#[derive(Clone, Copy, Debug, PartialEq, Eq, Structural)]
pub enum Target {
    V4(u32),
    V6(u128),
}

/// Where a probe loop stands.
#[derive(Clone, Copy, Debug, PartialEq, Eq, Structural)]
pub enum Phase {
    /// The prober session is being opened; no attempt has been issued.
    Opening,
    /// The session is open and exactly one attempt is outstanding.
    Probing,
    /// The loop has ended; nothing is outstanding.
    Stopped,
}

/// What came of the last action of a probe loop.
#[derive(Clone, Copy, Debug, PartialEq, Eq, Structural)]
pub enum Event {
    /// The prober session was opened.
    Opened,
    /// The prober session could not be opened.
    OpenFailed,
    /// The outstanding attempt got a reply.
    Replied,
    /// The outstanding attempt got no reply before its timeout.
    TimedOut,
    /// The session failed while probing, other than by a timeout.
    ProbeFailed,
}

/// A log line that a probe loop asks for, with the target it concerns.
#[derive(Clone, Copy, Debug, PartialEq, Eq, Structural)]
pub enum LogEvent {
    /// The session is open and probing starts.
    Started(Target),
    /// The session could not be opened; the loop ends.
    OpenFailed(Target),
    /// An attempt got no reply in time.
    Timeout(Target),
    /// The session failed while probing; the loop ends.
    ProbeFailed(Target),
}

/// One echo request to issue: where to, and how long to wait for its reply.
#[derive(Clone, Copy, Debug, PartialEq, Eq, Structural)]
pub struct ProbeAttempt {
    pub target: Target,
    pub timeout_ms: u64,
}

/// What a probe loop does after an event.
#[derive(Clone, Copy, Debug, PartialEq, Eq, Structural)]
pub enum Next {
    /// Issue this attempt now.
    Probe(ProbeAttempt),
    /// End the loop.
    Stop,
}

/// The answer of a probe loop to one event.
#[derive(Clone, Copy, Debug, PartialEq, Eq, Structural)]
pub struct Decision {
    pub log: Option<LogEvent>,
    pub next: Next,
}

/// What a probe loop is, mathematically: its target and timeout, its phase,
/// and how many attempts it has issued and how many of their outcomes are
/// known.
pub struct LoopView {
    pub target: Target,
    pub timeout_ms: u64,
    pub phase: Phase,
    pub issued: nat,
    pub resolved: nat,
}

impl LoopView {
    /// Nothing is issued before the session opens, and at most one attempt
    /// is outstanding: exactly one while probing, none once stopped.
    pub open spec fn wf(self) -> bool {
        match self.phase {
            Phase::Opening => self.issued == 0 && self.resolved == 0,
            Phase::Probing => self.issued == self.resolved + 1,
            Phase::Stopped => self.issued == self.resolved,
        }
    }

    /// A fresh loop for `target`, about to open its session.
    pub open spec fn fresh(target: Target, timeout_ms: u64) -> LoopView {
        LoopView { target, timeout_ms, phase: Phase::Opening, issued: 0, resolved: 0 }
    }

    /// The events that can come in each phase: the result of opening while
    /// opening, the outcome of the outstanding attempt while probing.
    pub open spec fn accepts(self, e: Event) -> bool {
        match self.phase {
            Phase::Opening => e == Event::Opened || e == Event::OpenFailed,
            Phase::Probing => e == Event::Replied || e == Event::TimedOut || e
                == Event::ProbeFailed,
            Phase::Stopped => false,
        }
    }

    /// The next attempt of this loop.
    pub open spec fn attempt(self) -> ProbeAttempt {
        ProbeAttempt { target: self.target, timeout_ms: self.timeout_ms }
    }

    /// The answer to `e`: a log line on opening, on a failure and on each
    /// timeout, none on a reply; a next attempt at once unless the session
    /// is gone.
    pub open spec fn decide(self, e: Event) -> Decision {
        let t = self.target;
        match e {
            Event::Opened => Decision {
                log: Some(LogEvent::Started(t)),
                next: Next::Probe(self.attempt()),
            },
            Event::OpenFailed => Decision { log: Some(LogEvent::OpenFailed(t)), next: Next::Stop },
            Event::Replied => Decision { log: None, next: Next::Probe(self.attempt()) },
            Event::TimedOut => Decision {
                log: Some(LogEvent::Timeout(t)),
                next: Next::Probe(self.attempt()),
            },
            Event::ProbeFailed => Decision {
                log: Some(LogEvent::ProbeFailed(t)),
                next: Next::Stop,
            },
        }
    }

    /// The loop after `e`: an outstanding attempt is resolved by it, and a
    /// next attempt, if any, is issued.
    pub open spec fn after(self, e: Event) -> LoopView {
        let resolved = if self.phase == Phase::Probing {
            self.resolved + 1
        } else {
            self.resolved
        };
        match self.decide(e).next {
            Next::Probe(_) => LoopView {
                phase: Phase::Probing,
                issued: self.issued + 1,
                resolved,
                ..self
            },
            Next::Stop => LoopView { phase: Phase::Stopped, resolved, ..self },
        }
    }
}

/// The loop after each of `evs` in turn.
pub open spec fn run(v: LoopView, evs: Seq<Event>) -> LoopView
    decreases evs.len(),
{
    if evs.len() == 0 {
        v
    } else {
        run(v, evs.drop_last()).after(evs.last())
    }
}

/// Each of `evs` can come where it stands.
pub open spec fn valid_run(v: LoopView, evs: Seq<Event>) -> bool {
    forall|k: int| 0 <= k < evs.len() ==> #[trigger] run(v, evs.take(k)).accepts(evs[k])
}

/// One event keeps a loop well formed.
pub proof fn lemma_after_wf(v: LoopView, e: Event)
    requires
        v.wf(),
        v.accepts(e),
    ensures
        v.after(e).wf(),
{
}

/// Running `k + 1` events is running `k` of them and then the next.
pub proof fn lemma_run_take(v: LoopView, evs: Seq<Event>, k: int)
    requires
        0 <= k < evs.len(),
    ensures
        run(v, evs.take(k + 1)) == run(v, evs.take(k)).after(evs[k]),
{
    assert(evs.take(k + 1).drop_last() =~= evs.take(k));
}

/// Attempts against one target are strictly sequential: along any run of a
/// well-formed loop, at most one attempt is ever outstanding, and whenever a
/// next attempt is issued, every attempt issued before it has its outcome.
pub proof fn lemma_sequential_attempts(v: LoopView, evs: Seq<Event>)
    requires
        v.wf(),
        valid_run(v, evs),
    ensures
        forall|k: int|
            #![trigger run(v, evs.take(k))]
            0 <= k <= evs.len() ==> run(v, evs.take(k)).wf() && run(v, evs.take(k)).issued
                <= run(v, evs.take(k)).resolved + 1,
        forall|k: int|
            0 <= k < evs.len() && (#[trigger] run(v, evs.take(k)).decide(evs[k])).next is Probe
                ==> {
                &&& run(v, evs.take(k + 1)).resolved == run(v, evs.take(k)).issued
                &&& run(v, evs.take(k + 1)).issued == run(v, evs.take(k)).issued + 1
            },
{
    assert forall|k: int| #![trigger run(v, evs.take(k))] 0 <= k <= evs.len() implies run(
        v,
        evs.take(k),
    ).wf() by {
        lemma_run_wf(v, evs, k);
    }
    assert forall|k: int|
        0 <= k < evs.len() && (#[trigger] run(v, evs.take(k)).decide(evs[k])).next is Probe
        implies {
        &&& run(v, evs.take(k + 1)).resolved == run(v, evs.take(k)).issued
        &&& run(v, evs.take(k + 1)).issued == run(v, evs.take(k)).issued + 1
    } by {
        lemma_run_wf(v, evs, k);
        lemma_run_take(v, evs, k);
        assert(run(v, evs.take(k)).accepts(evs[k]));
    }
}

/// Every prefix of a valid run leaves the loop well formed.
pub proof fn lemma_run_wf(v: LoopView, evs: Seq<Event>, k: int)
    requires
        v.wf(),
        valid_run(v, evs),
        0 <= k <= evs.len(),
    ensures
        run(v, evs.take(k)).wf(),
    decreases k,
{
    if k == 0 {
        assert(evs.take(0) =~= Seq::<Event>::empty());
    } else {
        lemma_run_wf(v, evs, k - 1);
        lemma_run_take(v, evs, k - 1);
        assert(run(v, evs.take(k - 1)).accepts(evs[k - 1]));
        lemma_after_wf(run(v, evs.take(k - 1)), evs[k - 1]);
    }
}

/// The state of one target's probe loop.
pub struct ProbeLoop {
    target: Target,
    timeout_ms: u64,
    phase: Phase,
    issued: Ghost<nat>,
    resolved: Ghost<nat>,
}

impl View for ProbeLoop {
    type V = LoopView;

    closed spec fn view(&self) -> LoopView {
        LoopView {
            target: self.target,
            timeout_ms: self.timeout_ms,
            phase: self.phase,
            issued: self.issued@,
            resolved: self.resolved@,
        }
    }
}

impl ProbeLoop {
    /// A loop for `target` whose attempts wait `timeout_ms` for a reply.
    pub fn new(target: Target, timeout_ms: u64) -> (r: ProbeLoop)
        ensures
            r@ == LoopView::fresh(target, timeout_ms),
            r@.wf(),
    {
        ProbeLoop {
            target,
            timeout_ms,
            phase: Phase::Opening,
            issued: Ghost(0),
            resolved: Ghost(0),
        }
    }

    pub fn target(&self) -> (r: Target)
        ensures
            r == self@.target,
    {
        self.target
    }

    pub fn timeout_ms(&self) -> (r: u64)
        ensures
            r == self@.timeout_ms,
    {
        self.timeout_ms
    }

    pub fn phase(&self) -> (r: Phase)
        ensures
            r == self@.phase,
    {
        self.phase
    }

    /// Whether `e` can come in the current phase.
    pub fn accepts(&self, e: Event) -> (r: bool)
        ensures
            r == self@.accepts(e),
    {
        match self.phase {
            Phase::Opening => e == Event::Opened || e == Event::OpenFailed,
            Phase::Probing => e == Event::Replied || e == Event::TimedOut || e
                == Event::ProbeFailed,
            Phase::Stopped => false,
        }
    }

    /// Takes the outcome of the last action and answers with the log line to
    /// emit and what to do next. A timeout asks for exactly one log line,
    /// naming the target; a reply asks for none. While the session lasts the
    /// next attempt follows at once, and only after the outcome of the
    /// previous one is known.
    pub fn step(&mut self, e: Event) -> (d: Decision)
        requires
            old(self)@.wf(),
            old(self)@.accepts(e),
        ensures
            d == old(self)@.decide(e),
            final(self)@ == old(self)@.after(e),
            final(self)@.wf(),
            final(self)@.target == old(self)@.target,
            e == Event::TimedOut ==> d.log == Some(LogEvent::Timeout(old(self)@.target)),
            e == Event::Replied ==> d.log.is_none(),
            (e == Event::Replied || e == Event::TimedOut) ==> d.next == Next::Probe(
                old(self)@.attempt(),
            ),
            (e == Event::OpenFailed || e == Event::ProbeFailed) <==> final(self)@.phase
                == Phase::Stopped,
    {
        let t = self.target;
        let attempt = ProbeAttempt { target: t, timeout_ms: self.timeout_ms };
        let d = match e {
            Event::Opened => Decision { log: Some(LogEvent::Started(t)), next: Next::Probe(attempt) },
            Event::OpenFailed => Decision { log: Some(LogEvent::OpenFailed(t)), next: Next::Stop },
            Event::Replied => Decision { log: None, next: Next::Probe(attempt) },
            Event::TimedOut => Decision { log: Some(LogEvent::Timeout(t)), next: Next::Probe(attempt) },
            Event::ProbeFailed => Decision { log: Some(LogEvent::ProbeFailed(t)), next: Next::Stop },
        };
        if self.phase == Phase::Probing {
            self.resolved = Ghost(self.resolved@ + 1);
        }
        match d.next {
            Next::Probe(_) => {
                self.phase = Phase::Probing;
                self.issued = Ghost(self.issued@ + 1);
            },
            Next::Stop => {
                self.phase = Phase::Stopped;
            },
        }
        d
    }
}

} // verus!
