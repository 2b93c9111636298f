use clientats_shell::probe::{
    probe_endpoint_once, probe_schedule, probe_step, ProbeConfig, ProbeDecision,
};

fn cfg(timeout_ms: u64, interval_ms: u64) -> ProbeConfig {
    ProbeConfig { timeout_ms, interval_ms }
}

#[test]
fn never_ready_times_out_at_ceiling() {
    // 30 s ceiling, 500 ms interval, endpoint never accepts: failure is
    // reported exactly at the ceiling, never earlier.
    let r = probe_schedule(&ProbeConfig::standard(), &vec![]);
    assert!(!r.ready);
    assert_eq!(r.elapsed_ms, 30000);
}

#[test]
fn never_ready_explicit_outcomes() {
    let r = probe_schedule(&ProbeConfig::standard(), &vec![false; 100]);
    assert!(!r.ready);
    assert_eq!(r.elapsed_ms, 30000);
}

#[test]
fn timeout_window_when_interval_does_not_divide() {
    // T = 1001, I = 500: attempts at 0, 500, 1000; the prober gives up at
    // 1500, within one interval past the timeout.
    let r = probe_schedule(&cfg(1001, 500), &vec![]);
    assert!(!r.ready);
    assert_eq!(r.elapsed_ms, 1500);
    assert!(r.elapsed_ms >= 1001 && r.elapsed_ms < 1001 + 500);
}

#[test]
fn ready_on_first_attempt() {
    let r = probe_schedule(&ProbeConfig::standard(), &vec![true]);
    assert!(r.ready);
    assert_eq!(r.elapsed_ms, 0);
}

#[test]
fn ready_within_one_interval_of_acceptance() {
    // The endpoint becomes acceptable at t = 1500 ms: the first successful
    // attempt is the one at 1500 ms.
    let outcomes = vec![false, false, false, true, true, true];
    let r = probe_schedule(&ProbeConfig::standard(), &outcomes);
    assert!(r.ready);
    assert_eq!(r.elapsed_ms, 1500);
}

#[test]
fn ready_within_two_seconds() {
    let outcomes = vec![false, false, false, false, true];
    let r = probe_schedule(&ProbeConfig::standard(), &outcomes);
    assert!(r.ready);
    assert_eq!(r.elapsed_ms, 2000);
}

#[test]
fn success_after_the_ceiling_is_too_late() {
    // Attempt 60 would happen at 30000 ms, which is not before the 30 s
    // ceiling: the prober never sees it.
    let mut outcomes = vec![false; 60];
    outcomes.push(true);
    let r = probe_schedule(&ProbeConfig::standard(), &outcomes);
    assert!(!r.ready);
    assert_eq!(r.elapsed_ms, 30000);
}

#[test]
fn step_decisions() {
    let c = ProbeConfig::standard();
    assert_eq!(probe_step(&c, 0, true), ProbeDecision::Ready);
    assert_eq!(probe_step(&c, 0, false), ProbeDecision::RetryAfterInterval);
    assert_eq!(probe_step(&c, 29999, false), ProbeDecision::RetryAfterInterval);
    assert_eq!(probe_step(&c, 30000, false), ProbeDecision::TimedOut);
    assert_eq!(probe_step(&c, 30000, true), ProbeDecision::TimedOut);
}

#[test]
fn endpoint_attempt_obeys_the_step_table() {
    let c = ProbeConfig::standard();
    let address = "127.0.0.1:1".to_string();
    // Past the ceiling no connection is attempted: the answer is to give up.
    assert_eq!(probe_endpoint_once(&c, 30000, &address), ProbeDecision::TimedOut);
    // Before the ceiling a real attempt is made; whatever it found, the
    // answer is never to give up early.
    let d = probe_endpoint_once(&c, 0, &address);
    assert_ne!(d, ProbeDecision::TimedOut);
}
