//! The fan-out of one probe loop per target. The loops share nothing: each
//! owns its own session and takes its own events, so what happens to one is
//! invisible to the others.

use vstd::prelude::*;
use crate::config::Config;
use crate::probe::{Event, LogEvent, LoopView, Next, Phase, ProbeLoop, Target, run};

verus! {

/// The loops started for `targets`: one fresh loop per target, in order,
/// repeated targets included.
pub open spec fn planned(targets: Seq<Target>, timeout_ms: u64) -> Seq<LoopView> {
    Seq::new(targets.len(), |i: int| LoopView::fresh(targets[i], timeout_ms))
}

/// The loops after loop `i` alone takes `e`.
pub open spec fn deliver(loops: Seq<LoopView>, i: int, e: Event) -> Seq<LoopView> {
    loops.update(i, loops[i].after(e))
}

/// Every event of `evs` is the outcome of an attempt: a reply or a timeout.
pub open spec fn all_outcomes(evs: Seq<Event>) -> bool {
    forall|k: int| 0 <= k < evs.len() ==> #[trigger] evs[k] == Event::Replied || evs[k]
        == Event::TimedOut
}

/// Starts one probe loop per configured target, in order, without merging
/// repeated targets. Each loop is fresh: it has its own session to open.
pub fn fan_out(config: &Config) -> (loops: Vec<ProbeLoop>)
    ensures
        loops@.len() == config.targets@.len(),
        forall|i: int|
            0 <= i < loops@.len() ==> (#[trigger] loops@[i])@ == planned(
                config.targets@,
                config.timeout_ms,
            )[i],
{
    let mut loops: Vec<ProbeLoop> = Vec::new();
    let mut i: usize = 0;
    while i < config.targets.len()
        invariant
            i <= config.targets@.len(),
            loops@.len() == i,
            forall|j: int|
                0 <= j < i ==> (#[trigger] loops@[j])@ == planned(
                    config.targets@,
                    config.timeout_ms,
                )[j],
        decreases config.targets@.len() - i,
    {
        loops.push(ProbeLoop::new(config.targets[i], config.timeout_ms));
        i = i + 1;
    }
    loops
}

/// All loops of a fan-out run side by side: each starts well formed, about
/// to open its own session for its own target, and an event taken by one
/// loop leaves every other loop as it was, so no loop waits on another.
pub proof fn lemma_fan_out_concurrent(targets: Seq<Target>, timeout_ms: u64)
    ensures
        planned(targets, timeout_ms).len() == targets.len(),
        forall|i: int|
            #![trigger planned(targets, timeout_ms)[i]]
            0 <= i < targets.len() ==> {
                &&& planned(targets, timeout_ms)[i].wf()
                &&& planned(targets, timeout_ms)[i].phase == Phase::Opening
                &&& planned(targets, timeout_ms)[i].target == targets[i]
                &&& planned(targets, timeout_ms)[i].accepts(Event::Opened)
                &&& planned(targets, timeout_ms)[i].accepts(Event::OpenFailed)
            },
        forall|i: int, j: int, e: Event|
            #![trigger deliver(planned(targets, timeout_ms), i, e)[j]]
            0 <= i < targets.len() && 0 <= j < targets.len() && i != j ==> deliver(
                planned(targets, timeout_ms),
                i,
                e,
            )[j] == planned(targets, timeout_ms)[j],
{
}

/// A target given twice gets two loops of its own: both start alike, each
/// takes only its own events, and neither sees what the other takes.
pub proof fn lemma_duplicate_targets(targets: Seq<Target>, timeout_ms: u64, i: int, j: int)
    requires
        0 <= i < targets.len(),
        0 <= j < targets.len(),
        i != j,
        targets[i] == targets[j],
    ensures
        planned(targets, timeout_ms)[i] == LoopView::fresh(targets[i], timeout_ms),
        planned(targets, timeout_ms)[j] == LoopView::fresh(targets[i], timeout_ms),
        forall|e: Event|
            #![trigger deliver(planned(targets, timeout_ms), i, e)]
            {
                &&& deliver(planned(targets, timeout_ms), i, e)[i] == planned(
                    targets,
                    timeout_ms,
                )[i].after(e)
                &&& deliver(planned(targets, timeout_ms), i, e)[j] == planned(
                    targets,
                    timeout_ms,
                )[j]
            },
{
}

/// Outcomes keep a probing loop probing, on the same target and timeout.
pub proof fn lemma_outcomes_keep_probing(v: LoopView, outs: Seq<Event>, k: int)
    requires
        v.phase == Phase::Probing,
        all_outcomes(outs),
        0 <= k <= outs.len(),
    ensures
        run(v, outs.take(k)).phase == Phase::Probing,
        run(v, outs.take(k)).target == v.target,
        run(v, outs.take(k)).timeout_ms == v.timeout_ms,
    decreases k,
{
    if k == 0 {
        assert(outs.take(0) =~= Seq::<Event>::empty());
    } else {
        lemma_outcomes_keep_probing(v, outs, k - 1);
        assert(outs.take(k).drop_last() =~= outs.take(k - 1));
        assert(outs[k - 1] == Event::Replied || outs[k - 1] == Event::TimedOut);
    }
}

/// A target whose session fails to open stops alone: another loop that
/// opens its session keeps probing afterwards, issuing an attempt after
/// every outcome and logging every timeout with its own target, while the
/// failed loop stays stopped.
pub proof fn lemma_isolation(loops: Seq<LoopView>, a: int, b: int, outcomes: Seq<Event>)
    requires
        0 <= a < loops.len(),
        0 <= b < loops.len(),
        a != b,
        loops[a].wf(),
        loops[a].phase == Phase::Opening,
        loops[b].wf(),
        loops[b].phase == Phase::Opening,
        all_outcomes(outcomes),
    ensures
        ({
            let failed = deliver(loops, a, Event::OpenFailed);
            let opened = deliver(failed, b, Event::Opened);
            &&& failed[a].phase == Phase::Stopped
            &&& failed[b] == loops[b]
            &&& opened[a] == failed[a]
            &&& opened[b].phase == Phase::Probing
            &&& forall|k: int|
                #![trigger run(opened[b], outcomes.take(k))]
                0 <= k < outcomes.len() ==> {
                    &&& run(opened[b], outcomes.take(k)).phase == Phase::Probing
                    &&& run(opened[b], outcomes.take(k)).decide(outcomes[k]).next == Next::Probe(
                        loops[b].attempt(),
                    )
                    &&& outcomes[k] == Event::TimedOut ==> run(
                        opened[b],
                        outcomes.take(k),
                    ).decide(outcomes[k]).log == Some(LogEvent::Timeout(loops[b].target))
                }
        }),
{
    let failed = deliver(loops, a, Event::OpenFailed);
    let opened = deliver(failed, b, Event::Opened);
    assert forall|k: int|
        #![trigger run(opened[b], outcomes.take(k))]
        0 <= k < outcomes.len() implies {
        &&& run(opened[b], outcomes.take(k)).phase == Phase::Probing
        &&& run(opened[b], outcomes.take(k)).decide(outcomes[k]).next == Next::Probe(
            loops[b].attempt(),
        )
        &&& outcomes[k] == Event::TimedOut ==> run(opened[b], outcomes.take(k)).decide(
            outcomes[k],
        ).log == Some(LogEvent::Timeout(loops[b].target))
    } by {
        lemma_outcomes_keep_probing(opened[b], outcomes, k);
        assert(outcomes[k] == Event::Replied || outcomes[k] == Event::TimedOut);
    }
}

} // verus!
