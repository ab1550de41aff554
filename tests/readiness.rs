use vwork::readiness::{
    PollAction, PollEvent, PollPhase, Readiness, ReadinessPoller, DEFAULT_TIMEOUT_MS, PROBE_BUDGET_MS,
    RETRY_DELAY_MS, SETTLE_DELAY_MS,
};

/// Drives a poller against a simulated clock. The server accepts from
/// `accept_at` on (never when `None`); a refused connect costs `refused_cost`
/// milliseconds. Returns the outcome and the elapsed time when it came.
fn simulate(timeout_ms: u64, accept_at: Option<u64>, refused_cost: u64) -> (Readiness, u64) {
    let mut poller = ReadinessPoller::new(timeout_ms);
    let mut now: u64 = 0;
    let mut action = poller.step(now, PollEvent::Woke);
    for _ in 0..10_000 {
        match action {
            PollAction::Connect { budget_ms } => {
                assert_eq!(budget_ms, PROBE_BUDGET_MS);
                let accepted = matches!(accept_at, Some(t) if now >= t);
                if !accepted {
                    now += refused_cost.min(budget_ms);
                }
                action = poller.step(now, PollEvent::Probed { accepted });
            }
            PollAction::Sleep { ms } => {
                now += ms;
                action = poller.step(now, PollEvent::Woke);
            }
            PollAction::Finish(r) => return (r, now),
        }
    }
    panic!("poller did not finish");
}

#[test]
fn happy_path_ready_after_next_tick_and_settle() {
    let (r, at) = simulate(DEFAULT_TIMEOUT_MS, Some(800), 0);
    assert_eq!(r, Readiness::Ready);
    assert!(at >= 1000 && at <= 1300, "ready at {}", at);
}

#[test]
fn slow_start_within_budget() {
    let (r, at) = simulate(15_000, Some(10_000), 0);
    assert_eq!(r, Readiness::Ready);
    assert!(at <= 10_500, "ready at {}", at);
}

#[test]
fn readiness_timeout_when_never_accepting() {
    let (r, at) = simulate(15_000, None, 0);
    assert_eq!(r, Readiness::TimedOut);
    assert!(at >= 15_000 && at <= 16_000, "timed out at {}", at);
}

#[test]
fn timeout_with_slow_connects_stays_within_one_budget() {
    for cost in [1u64, 150, 700, 999, 1000] {
        let (r, at) = simulate(15_000, None, cost);
        assert_eq!(r, Readiness::TimedOut);
        assert!(at >= 15_000 && at <= 15_000 + PROBE_BUDGET_MS, "cost {} timed out at {}", cost, at);
    }
}

#[test]
fn zero_timeout_gives_up_without_probing() {
    let mut poller = ReadinessPoller::new(0);
    assert_eq!(poller.step(0, PollEvent::Woke), PollAction::Finish(Readiness::TimedOut));
    assert_eq!(poller.phase, PollPhase::Done(Readiness::TimedOut));
}

#[test]
fn accepted_probe_settles_before_ready() {
    let mut poller = ReadinessPoller::new(15_000);
    assert_eq!(poller.step(0, PollEvent::Woke), PollAction::Connect { budget_ms: 1000 });
    assert_eq!(poller.step(5, PollEvent::Probed { accepted: true }), PollAction::Sleep { ms: SETTLE_DELAY_MS });
    assert_eq!(poller.phase, PollPhase::Settling);
    assert_eq!(poller.step(305, PollEvent::Woke), PollAction::Finish(Readiness::Ready));
    assert_eq!(poller.step(400, PollEvent::Woke), PollAction::Finish(Readiness::Ready));
}

#[test]
fn refused_probe_before_deadline_retries_after_pause() {
    let mut poller = ReadinessPoller::new(15_000);
    poller.step(0, PollEvent::Woke);
    assert_eq!(poller.step(10, PollEvent::Probed { accepted: false }), PollAction::Sleep { ms: RETRY_DELAY_MS });
    assert_eq!(poller.phase, PollPhase::Checking);
    assert_eq!(poller.step(210, PollEvent::Woke), PollAction::Connect { budget_ms: 1000 });
}

#[test]
fn refused_probe_past_deadline_gives_up_at_once() {
    let mut poller = ReadinessPoller::new(15_000);
    assert_eq!(poller.step(14_900, PollEvent::Woke), PollAction::Connect { budget_ms: 1000 });
    assert_eq!(
        poller.step(15_900, PollEvent::Probed { accepted: false }),
        PollAction::Finish(Readiness::TimedOut)
    );
}

#[test]
fn late_acceptance_still_counts_when_the_probe_began_in_time() {
    let mut poller = ReadinessPoller::new(15_000);
    assert_eq!(poller.step(14_999, PollEvent::Woke), PollAction::Connect { budget_ms: 1000 });
    assert_eq!(poller.step(15_500, PollEvent::Probed { accepted: true }), PollAction::Sleep { ms: 300 });
    assert_eq!(poller.step(15_800, PollEvent::Woke), PollAction::Finish(Readiness::Ready));
}
