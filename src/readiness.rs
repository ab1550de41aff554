use vstd::prelude::*;

verus! {

/// Budget of one loopback connect attempt.
pub const PROBE_BUDGET_MS: u64 = 1000;

/// Pause between a refused probe and the next one.
pub const RETRY_DELAY_MS: u64 = 200;

/// Pause after the first accepted connection, before the server is declared ready.
pub const SETTLE_DELAY_MS: u64 = 300;

/// How long the shell waits for the sidecar by default.
pub const DEFAULT_TIMEOUT_MS: u64 = 15000;

/// The outcome of waiting for the sidecar.
#[derive(Clone, Copy, Debug, PartialEq, Eq, Structural)]
pub enum Readiness {
    Ready,
    TimedOut,
}

/// Where the poller stands between two events.
#[derive(Clone, Copy, Debug, PartialEq, Eq, Structural)]
pub enum PollPhase {
    /// About to compare the clock with the deadline (at start and after a retry pause).
    Checking,
    /// A connect attempt is in flight.
    Probing,
    /// A connection was accepted; the settle pause is running.
    Settling,
    /// The outcome is known.
    Done(Readiness),
}

/// What the poller reports back, along with the milliseconds elapsed since it started.
#[derive(Clone, Copy, Debug, PartialEq, Eq, Structural)]
pub enum PollEvent {
    /// The poller was started, or a pause asked for has passed.
    Woke,
    /// The connect attempt asked for has ended.
    Probed { accepted: bool },
}

/// What the driver of the poller does next.
#[derive(Clone, Copy, Debug, PartialEq, Eq, Structural)]
pub enum PollAction {
    /// Try a TCP connect to the loopback port, waiting at most `budget_ms`.
    Connect { budget_ms: u64 },
    /// Sleep for `ms` milliseconds, then report `Woke`.
    Sleep { ms: u64 },
    /// Stop polling with this outcome.
    Finish(Readiness),
}

/// The readiness poller's decisions, kept apart from the clock, the socket and
/// the sleeps that its driver performs.
#[derive(Clone, Copy, Debug, PartialEq, Eq, Structural)]
pub struct ReadinessPoller {
    pub timeout_ms: u64,
    pub phase: PollPhase,
}

/// One step of the poller: its next state and action, given the time elapsed
/// since it started and the event that just happened.
pub open spec fn poll_step(p: ReadinessPoller, elapsed: nat, ev: PollEvent) -> (ReadinessPoller, PollAction) {
    let t = p.timeout_ms as nat;
    match p.phase {
        PollPhase::Checking => if elapsed < t {
            (ReadinessPoller { phase: PollPhase::Probing, ..p }, PollAction::Connect { budget_ms: PROBE_BUDGET_MS })
        } else {
            (ReadinessPoller { phase: PollPhase::Done(Readiness::TimedOut), ..p }, PollAction::Finish(Readiness::TimedOut))
        },
        PollPhase::Probing => {
            let accepted = match ev {
                PollEvent::Probed { accepted } => accepted,
                PollEvent::Woke => false,
            };
            if accepted {
                (ReadinessPoller { phase: PollPhase::Settling, ..p }, PollAction::Sleep { ms: SETTLE_DELAY_MS })
            } else if elapsed >= t {
                (ReadinessPoller { phase: PollPhase::Done(Readiness::TimedOut), ..p }, PollAction::Finish(Readiness::TimedOut))
            } else {
                (ReadinessPoller { phase: PollPhase::Checking, ..p }, PollAction::Sleep { ms: RETRY_DELAY_MS })
            }
        },
        PollPhase::Settling => (ReadinessPoller { phase: PollPhase::Done(Readiness::Ready), ..p }, PollAction::Finish(Readiness::Ready)),
        PollPhase::Done(r) => (p, PollAction::Finish(r)),
    }
}

impl ReadinessPoller {
    /// A poller that gives up once `timeout_ms` have elapsed; its driver starts
    /// it by reporting `Woke` at elapsed time zero.
    pub fn new(timeout_ms: u64) -> (r: ReadinessPoller)
        ensures
            r.timeout_ms == timeout_ms,
            r.phase == PollPhase::Checking,
    {
        ReadinessPoller { timeout_ms, phase: PollPhase::Checking }
    }

    /// Advances the poller. A refused probe is followed by a retry pause only
    /// while the deadline lies ahead; an accepted one by the settle pause, after
    /// which the sidecar is ready. A `Woke` that arrives while a probe is
    /// awaited counts as a refused probe.
    pub fn step(&mut self, elapsed_ms: u64, ev: PollEvent) -> (r: PollAction)
        ensures
            (*final(self), r) == poll_step(*old(self), elapsed_ms as nat, ev),
    {
        match self.phase {
            PollPhase::Checking => {
                if elapsed_ms < self.timeout_ms {
                    self.phase = PollPhase::Probing;
                    PollAction::Connect { budget_ms: PROBE_BUDGET_MS }
                } else {
                    self.phase = PollPhase::Done(Readiness::TimedOut);
                    PollAction::Finish(Readiness::TimedOut)
                }
            },
            PollPhase::Probing => {
                let accepted = match ev {
                    PollEvent::Probed { accepted } => accepted,
                    PollEvent::Woke => false,
                };
                if accepted {
                    self.phase = PollPhase::Settling;
                    PollAction::Sleep { ms: SETTLE_DELAY_MS }
                } else if elapsed_ms >= self.timeout_ms {
                    self.phase = PollPhase::Done(Readiness::TimedOut);
                    PollAction::Finish(Readiness::TimedOut)
                } else {
                    self.phase = PollPhase::Checking;
                    PollAction::Sleep { ms: RETRY_DELAY_MS }
                }
            },
            PollPhase::Settling => {
                self.phase = PollPhase::Done(Readiness::Ready);
                PollAction::Finish(Readiness::Ready)
            },
            PollPhase::Done(r) => PollAction::Finish(r),
        }
    }
}

/// A run of the poller against a clock: sleeps take exactly as long as asked,
/// and the `i`-th connect attempt takes `probes[i].1` milliseconds and is
/// accepted when `probes[i].0` holds. Gives the outcome and the elapsed time at
/// which it is returned, or `None` when the probes or the step budget run out
/// first.
pub open spec fn run_poller(
    p: ReadinessPoller,
    now: nat,
    act: PollAction,
    probes: Seq<(bool, nat)>,
    steps: nat,
) -> Option<(Readiness, nat)>
    decreases steps,
{
    if steps == 0 {
        None
    } else {
        match act {
            PollAction::Finish(r) => Some((r, now)),
            PollAction::Sleep { ms } => {
                let at = (now + ms) as nat;
                let (q, next) = poll_step(p, at, PollEvent::Woke);
                run_poller(q, at, next, probes, (steps - 1) as nat)
            },
            PollAction::Connect { .. } => if probes.len() == 0 {
                None
            } else {
                let at = (now + probes[0].1) as nat;
                let (q, next) = poll_step(p, at, PollEvent::Probed { accepted: probes[0].0 });
                run_poller(q, at, next, probes.drop_first(), (steps - 1) as nat)
            },
        }
    }
}

/// What holds at each point of a run started at time zero, in terms of the deadline.
pub open spec fn run_bounds(p: ReadinessPoller, now: nat, act: PollAction) -> bool {
    let t = p.timeout_ms as nat;
    match act {
        PollAction::Connect { .. } => p.phase == PollPhase::Probing && now < t,
        PollAction::Sleep { ms } => (p.phase == PollPhase::Checking && ms == RETRY_DELAY_MS && now < t)
            || (p.phase == PollPhase::Settling && ms == SETTLE_DELAY_MS && now <= t + PROBE_BUDGET_MS),
        PollAction::Finish(Readiness::TimedOut) => t <= now <= t + PROBE_BUDGET_MS,
        PollAction::Finish(Readiness::Ready) => now <= t + PROBE_BUDGET_MS + SETTLE_DELAY_MS,
    }
}

proof fn lemma_run_bounds(p: ReadinessPoller, now: nat, act: PollAction, probes: Seq<(bool, nat)>, steps: nat)
    requires
        run_bounds(p, now, act),
        forall|i: int| 0 <= i < probes.len() ==> #[trigger] probes[i].1 <= PROBE_BUDGET_MS,
    ensures
        run_poller(p, now, act, probes, steps) matches Some((r, end)) ==> end <= p.timeout_ms
            + PROBE_BUDGET_MS + (if r == Readiness::Ready { SETTLE_DELAY_MS as int } else { 0int })
            && (r == Readiness::TimedOut ==> p.timeout_ms <= end),
    decreases steps,
{
    if steps > 0 {
        match act {
            PollAction::Finish(r) => {},
            PollAction::Sleep { ms } => {
                let at = (now + ms) as nat;
                let (q, next) = poll_step(p, at, PollEvent::Woke);
                lemma_run_bounds(q, at, next, probes, (steps - 1) as nat);
            },
            PollAction::Connect { .. } => {
                if probes.len() > 0 {
                    let at = (now + probes[0].1) as nat;
                    let (q, next) = poll_step(p, at, PollEvent::Probed { accepted: probes[0].0 });
                    let rest = probes.drop_first();
                    assert forall|i: int| 0 <= i < rest.len() implies #[trigger] rest[i].1 <= PROBE_BUDGET_MS by {
                        assert(rest[i] == probes[i + 1]);
                    }
                    assert(probes[0].1 <= PROBE_BUDGET_MS);
                    lemma_run_bounds(q, at, next, rest, (steps - 1) as nat);
                }
            },
        }
    }
}

/// Bounded startup: a poller started at time zero, whose connect attempts each
/// end within their budget, returns `TimedOut` no earlier than the deadline and
/// no later than one connect budget after it, and `Ready` no later than that
/// plus the settle pause.
pub proof fn lemma_bounded_startup(timeout_ms: u64, probes: Seq<(bool, nat)>, steps: nat)
    requires
        forall|i: int| 0 <= i < probes.len() ==> #[trigger] probes[i].1 <= PROBE_BUDGET_MS,
    ensures
        ({
            let p = ReadinessPoller { timeout_ms, phase: PollPhase::Checking };
            let (q, act) = poll_step(p, 0, PollEvent::Woke);
            run_poller(q, 0, act, probes, steps) matches Some((r, end)) ==> (if r == Readiness::TimedOut {
                timeout_ms <= end <= timeout_ms + PROBE_BUDGET_MS
            } else {
                end <= timeout_ms + PROBE_BUDGET_MS + SETTLE_DELAY_MS
            })
        }),
{
    let p = ReadinessPoller { timeout_ms, phase: PollPhase::Checking };
    let (q, act) = poll_step(p, 0, PollEvent::Woke);
    lemma_run_bounds(q, 0, act, probes, steps);
}

/// Nothing on the way to `act` has seen an accepted connection.
pub open spec fn unaccepted(p: ReadinessPoller, act: PollAction) -> bool {
    p.phase != PollPhase::Settling && p.phase != PollPhase::Done(Readiness::Ready) && act
        != PollAction::Finish(Readiness::Ready) && (act matches PollAction::Sleep { .. } ==> p.phase
        == PollPhase::Checking)
}

proof fn lemma_refused_run(p: ReadinessPoller, now: nat, act: PollAction, probes: Seq<(bool, nat)>, steps: nat)
    requires
        unaccepted(p, act),
        forall|i: int| 0 <= i < probes.len() ==> !(#[trigger] probes[i].0),
    ensures
        run_poller(p, now, act, probes, steps) matches Some((r, end)) ==> r == Readiness::TimedOut,
    decreases steps,
{
    if steps > 0 {
        match act {
            PollAction::Finish(r) => {},
            PollAction::Sleep { ms } => {
                let at = (now + ms) as nat;
                let (q, next) = poll_step(p, at, PollEvent::Woke);
                lemma_refused_run(q, at, next, probes, (steps - 1) as nat);
            },
            PollAction::Connect { .. } => {
                if probes.len() > 0 {
                    let at = (now + probes[0].1) as nat;
                    assert(!probes[0].0);
                    let (q, next) = poll_step(p, at, PollEvent::Probed { accepted: probes[0].0 });
                    let rest = probes.drop_first();
                    assert forall|i: int| 0 <= i < rest.len() implies !(#[trigger] rest[i].0) by {
                        assert(rest[i] == probes[i + 1]);
                    }
                    lemma_refused_run(q, at, next, rest, (steps - 1) as nat);
                }
            },
        }
    }
}

/// A server that never accepts: whatever each refused connect costs, a
/// poller started at time zero can only return `TimedOut`.
pub proof fn lemma_refused_probes_time_out(timeout_ms: u64, probes: Seq<(bool, nat)>, steps: nat)
    requires
        forall|i: int| 0 <= i < probes.len() ==> !(#[trigger] probes[i].0),
    ensures
        ({
            let p = ReadinessPoller { timeout_ms, phase: PollPhase::Checking };
            let (q, act) = poll_step(p, 0, PollEvent::Woke);
            run_poller(q, 0, act, probes, steps) matches Some((r, end)) ==> r == Readiness::TimedOut
        }),
{
    let p = ReadinessPoller { timeout_ms, phase: PollPhase::Checking };
    let (q, act) = poll_step(p, 0, PollEvent::Woke);
    lemma_refused_run(q, 0, act, probes, steps);
}

/// A run against a loopback port, where a connect attempt ends at once: it is
/// accepted when the server accepts from `accept_from` on and that time has
/// come, and refused otherwise (always, for `None`). Sleeps take exactly as
/// long as asked. Gives the outcome and the elapsed time at which it is
/// returned, or `None` when the step budget runs out first.
pub open spec fn run_on_loopback(
    p: ReadinessPoller,
    now: nat,
    act: PollAction,
    accept_from: Option<nat>,
    steps: nat,
) -> Option<(Readiness, nat)>
    decreases steps,
{
    if steps == 0 {
        None
    } else {
        match act {
            PollAction::Finish(r) => Some((r, now)),
            PollAction::Sleep { ms } => {
                let at = (now + ms) as nat;
                let (q, next) = poll_step(p, at, PollEvent::Woke);
                run_on_loopback(q, at, next, accept_from, (steps - 1) as nat)
            },
            PollAction::Connect { .. } => {
                let accepted = accept_from matches Some(a) && now >= a;
                let (q, next) = poll_step(p, now, PollEvent::Probed { accepted });
                run_on_loopback(q, now, next, accept_from, (steps - 1) as nat)
            },
        }
    }
}

proof fn lemma_loopback_ready(p: ReadinessPoller, now: nat, a: nat, steps: nat)
    requires
        p.phase == PollPhase::Probing,
        now <= a + RETRY_DELAY_MS - 1,
        a + RETRY_DELAY_MS <= p.timeout_ms,
        steps >= 3,
        steps >= 5 + a - now,
    ensures
        run_on_loopback(p, now, PollAction::Connect { budget_ms: PROBE_BUDGET_MS }, Some(a), steps) matches Some((r, end))
            && r == Readiness::Ready && a + SETTLE_DELAY_MS <= end < a + RETRY_DELAY_MS + SETTLE_DELAY_MS,
    decreases a + RETRY_DELAY_MS - now,
{
    let c = PollAction::Connect { budget_ms: PROBE_BUDGET_MS };
    if now >= a {
        let (q, next) = poll_step(p, now, PollEvent::Probed { accepted: true });
        assert(next == PollAction::Sleep { ms: SETTLE_DELAY_MS });
        let at = (now + SETTLE_DELAY_MS) as nat;
        let (q2, next2) = poll_step(q, at, PollEvent::Woke);
        assert(next2 == PollAction::Finish(Readiness::Ready));
        assert(run_on_loopback(q2, at, next2, Some(a), (steps - 2) as nat) == Some((Readiness::Ready, at)));
        assert(run_on_loopback(q, now, next, Some(a), (steps - 1) as nat) == Some((Readiness::Ready, at)));
    } else {
        let (q, next) = poll_step(p, now, PollEvent::Probed { accepted: false });
        assert(next == PollAction::Sleep { ms: RETRY_DELAY_MS });
        let at = (now + RETRY_DELAY_MS) as nat;
        let (q2, next2) = poll_step(q, at, PollEvent::Woke);
        assert(next2 == c);
        lemma_loopback_ready(q2, at, a, (steps - 2) as nat);
        assert(run_on_loopback(q, now, next, Some(a), (steps - 1) as nat) == run_on_loopback(
            q2,
            at,
            next2,
            Some(a),
            (steps - 2) as nat,
        ));
    }
}

proof fn lemma_loopback_timeout(p: ReadinessPoller, now: nat, steps: nat)
    requires
        p.phase == PollPhase::Probing,
        now < p.timeout_ms,
        steps >= 3 + p.timeout_ms - now,
    ensures
        run_on_loopback(p, now, PollAction::Connect { budget_ms: PROBE_BUDGET_MS }, None, steps) matches Some((r, end))
            && r == Readiness::TimedOut && p.timeout_ms <= end < p.timeout_ms + RETRY_DELAY_MS,
    decreases p.timeout_ms - now,
{
    let c = PollAction::Connect { budget_ms: PROBE_BUDGET_MS };
    let (q, next) = poll_step(p, now, PollEvent::Probed { accepted: false });
    assert(next == PollAction::Sleep { ms: RETRY_DELAY_MS });
    let at = (now + RETRY_DELAY_MS) as nat;
    let (q2, next2) = poll_step(q, at, PollEvent::Woke);
    if at >= p.timeout_ms {
        assert(next2 == PollAction::Finish(Readiness::TimedOut));
        assert(run_on_loopback(q2, at, next2, None, (steps - 2) as nat) == Some((Readiness::TimedOut, at)));
    } else {
        assert(next2 == c);
        lemma_loopback_timeout(q2, at, (steps - 2) as nat);
    }
    assert(run_on_loopback(q, now, next, None, (steps - 1) as nat) == run_on_loopback(
        q2,
        at,
        next2,
        None,
        (steps - 2) as nat,
    ));
}

/// Ready after the next tick: when the server starts accepting at `a`, at
/// least one retry pause before the deadline, a poller started at time zero on
/// loopback returns `Ready` at the first probe at or after `a` plus the settle
/// pause: no earlier than `a + 300` ms and before `a + 500` ms.
pub proof fn lemma_ready_after_next_tick(timeout_ms: u64, a: nat, steps: nat)
    requires
        a + RETRY_DELAY_MS <= timeout_ms,
        steps >= a + 5,
    ensures
        ({
            let p = ReadinessPoller { timeout_ms, phase: PollPhase::Checking };
            let (q, act) = poll_step(p, 0, PollEvent::Woke);
            run_on_loopback(q, 0, act, Some(a), steps) matches Some((r, end)) && r == Readiness::Ready
                && a + SETTLE_DELAY_MS <= end < a + RETRY_DELAY_MS + SETTLE_DELAY_MS
        }),
{
    let p = ReadinessPoller { timeout_ms, phase: PollPhase::Checking };
    let (q, act) = poll_step(p, 0, PollEvent::Woke);
    lemma_loopback_ready(q, 0, a, steps);
}

/// Timeout when never accepting: on a loopback port where nothing accepts, a
/// poller started at time zero returns `TimedOut` at the deadline or less than
/// one retry pause after it.
pub proof fn lemma_timeout_when_never_accepting(timeout_ms: u64, steps: nat)
    requires
        steps >= timeout_ms + 4,
    ensures
        ({
            let p = ReadinessPoller { timeout_ms, phase: PollPhase::Checking };
            let (q, act) = poll_step(p, 0, PollEvent::Woke);
            run_on_loopback(q, 0, act, None, steps) matches Some((r, end)) && r == Readiness::TimedOut
                && timeout_ms <= end < timeout_ms + RETRY_DELAY_MS
        }),
{
    let p = ReadinessPoller { timeout_ms, phase: PollPhase::Checking };
    let (q, act) = poll_step(p, 0, PollEvent::Woke);
    if timeout_ms > 0 {
        lemma_loopback_timeout(q, 0, steps);
    }
}

} // verus!
