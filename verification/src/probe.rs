//! The readiness prober.
//!
//! The supervisor considers the backend ready as soon as a TCP connection to
//! its endpoint succeeds. It attempts a connection, sleeps for a fixed
//! interval after each failure, and gives up once the elapsed time reaches a
//! ceiling. Attempts therefore happen at times `0, I, 2I, ...` while the
//! elapsed time is below the timeout `T`.
//!
//! One connection attempt, with its decision, is [`probe_endpoint_once`],
//! which calls through `port_check`; the decision alone is [`probe_step`].
//! [`probe_schedule`]
//! runs the whole schedule against a given sequence of attempt outcomes and
//! carries the timing guarantees: a probe that never succeeds reports
//! failure no earlier than `T` and strictly before `T + I`, and a probe that
//! finds the endpoint ready reports the very first successful attempt.

use vstd::prelude::*;
use vstd::arithmetic::mul::lemma_mul_inequality;
use vstd::arithmetic::div_mod::lemma_fundamental_div_mod;
use vstd::arithmetic::div_mod::lemma_mod_bound;

verus! {

/// The default probe ceiling, in milliseconds.
pub const MAX_STARTUP_WAIT_MS: u64 = 30000;

/// The pause between two connection attempts, in milliseconds.
pub const PROBE_INTERVAL_MS: u64 = 500;

/// Timing of the probe loop: the ceiling and the pause between attempts.
#[derive(Clone, Copy, PartialEq, Eq, Structural, Debug)]
pub struct ProbeConfig {
    pub timeout_ms: u64,
    pub interval_ms: u64,
}

impl ProbeConfig {
    /// The interval must not be zero (the loop would busy-spin and the
    /// attempt times would collapse), and the elapsed counter must be able
    /// to pass the timeout by one interval without wrapping.
    pub open spec fn wf(self) -> bool {
        &&& self.interval_ms >= 1
        &&& self.timeout_ms <= u64::MAX - self.interval_ms
    }

    /// The standard timing: a 30 s ceiling probed every half second.
    pub fn standard() -> (c: ProbeConfig)
        ensures
            c.wf(),
            c.timeout_ms == MAX_STARTUP_WAIT_MS,
            c.interval_ms == PROBE_INTERVAL_MS,
    {
        ProbeConfig { timeout_ms: MAX_STARTUP_WAIT_MS, interval_ms: PROBE_INTERVAL_MS }
    }
}

/// What the prober does after looking at the clock and, if time remains,
/// making one connection attempt.
#[derive(Clone, Copy, PartialEq, Eq, Structural, Debug)]
pub enum ProbeDecision {
    /// The endpoint accepted a connection: the backend is ready.
    Ready,
    /// The elapsed time reached the ceiling: give up.
    TimedOut,
    /// The attempt failed with time remaining: sleep one interval and retry.
    RetryAfterInterval,
}

/// The decision for one iteration of the probe loop: give up once the
/// elapsed time has reached the ceiling, succeed on a reachable endpoint,
/// otherwise retry after one interval.
pub open spec fn spec_probe_step(cfg: ProbeConfig, elapsed_ms: u64, reachable: bool) -> ProbeDecision {
    if elapsed_ms >= cfg.timeout_ms {
        ProbeDecision::TimedOut
    } else if reachable {
        ProbeDecision::Ready
    } else {
        ProbeDecision::RetryAfterInterval
    }
}

/// Decide one iteration of the probe loop. The host performs the attempt
/// and the sleep; this fixes what each outcome means.
pub fn probe_step(cfg: &ProbeConfig, elapsed_ms: u64, reachable: bool) -> (d: ProbeDecision)
    ensures
        d == spec_probe_step(*cfg, elapsed_ms, reachable),
{
    if elapsed_ms >= cfg.timeout_ms {
        ProbeDecision::TimedOut
    } else if reachable {
        ProbeDecision::Ready
    } else {
        ProbeDecision::RetryAfterInterval
    }
}

/// Relies on `port_check::is_port_reachable`: attempts one TCP connection
/// to the address and returns whether it succeeded. The outcome depends on
/// the state of the machine's network stack, so nothing is promised of it.
#[verifier::external_body]
fn probe_once(address: &String) -> bool {
    port_check::is_port_reachable(address.as_str())
}

/// One iteration of the real probe loop: attempt a TCP connection to the
/// address (only while time remains) and decide what follows. Whatever the
/// attempt found, the decision obeys the step table: once the elapsed time
/// has reached the ceiling the answer is to give up, and before that the
/// answer is to succeed or to retry, never to give up early.
pub fn probe_endpoint_once(cfg: &ProbeConfig, elapsed_ms: u64, address: &String) -> (d: ProbeDecision)
    ensures
        exists|reachable: bool| d == spec_probe_step(*cfg, elapsed_ms, reachable),
        elapsed_ms >= cfg.timeout_ms <==> d == ProbeDecision::TimedOut,
{
    if elapsed_ms >= cfg.timeout_ms {
        ProbeDecision::TimedOut
    } else {
        let reachable = probe_once(address);
        let d = probe_step(cfg, elapsed_ms, reachable);
        proof {
            assert(d == spec_probe_step(*cfg, elapsed_ms, reachable));
        }
        d
    }
}

/// Whether attempt `k` of a probe schedule finds the endpoint reachable;
/// attempts beyond the recorded outcomes find nothing.
pub open spec fn spec_reachable_at(outcomes: Seq<bool>, k: int) -> bool {
    0 <= k < outcomes.len() && outcomes[k]
}

/// Attempt `k` succeeds and every earlier attempt fails.
pub open spec fn spec_first_ready_at(outcomes: Seq<bool>, k: int) -> bool {
    &&& spec_reachable_at(outcomes, k)
    &&& forall|j: int| 0 <= j < k ==> !spec_reachable_at(outcomes, j)
}

/// Some attempt scheduled before the timeout finds the endpoint reachable.
pub open spec fn spec_ready_within(outcomes: Seq<bool>, timeout_ms: u64, interval_ms: u64) -> bool {
    exists|k: int|
        0 <= k && #[trigger] (k * interval_ms) < timeout_ms && spec_reachable_at(outcomes, k)
}

/// The outcome of a whole probe run: whether the endpoint became ready, and
/// the elapsed time at the moment the prober stopped.
#[derive(Clone, Copy, PartialEq, Eq, Structural, Debug)]
pub struct ProbeResult {
    pub ready: bool,
    pub elapsed_ms: u64,
}

/// Run the probe schedule against a given sequence of attempt outcomes:
/// entry `k` is whether the connection attempt at time `k * interval`
/// succeeds. The result reports success exactly when some attempt scheduled
/// before the timeout succeeds, stopping at the first such attempt; a probe
/// that never succeeds stops no earlier than the timeout and strictly
/// before one interval past it.
pub fn probe_schedule(cfg: &ProbeConfig, outcomes: &Vec<bool>) -> (r: ProbeResult)
    requires
        cfg.wf(),
    ensures
        r.ready == spec_ready_within(outcomes@, cfg.timeout_ms, cfg.interval_ms),
        r.ready ==> exists|k: int|
            #![trigger spec_first_ready_at(outcomes@, k)]
            spec_first_ready_at(outcomes@, k) && k * cfg.interval_ms < cfg.timeout_ms
                && r.elapsed_ms == k * cfg.interval_ms,
        !r.ready ==> cfg.timeout_ms <= r.elapsed_ms < cfg.timeout_ms + cfg.interval_ms,
{
    let mut elapsed: u64 = 0;
    let mut k: u64 = 0;
    while elapsed < cfg.timeout_ms
        invariant
            cfg.wf(),
            elapsed == k * cfg.interval_ms,
            elapsed < cfg.timeout_ms + cfg.interval_ms,
            forall|j: int| 0 <= j < k ==> !spec_reachable_at(outcomes@, j),
        decreases cfg.timeout_ms + cfg.interval_ms - elapsed,
    {
        let reachable = if k < outcomes.len() as u64 {
            outcomes[k as usize]
        } else {
            false
        };
        if reachable {
            proof {
                assert(spec_first_ready_at(outcomes@, k as int));
            }
            return ProbeResult { ready: true, elapsed_ms: elapsed };
        }
        proof {
            assert(k <= k * cfg.interval_ms) by (nonlinear_arith)
                requires cfg.interval_ms >= 1 && k >= 0;
            assert((k + 1) * cfg.interval_ms == k * cfg.interval_ms + cfg.interval_ms)
                by (nonlinear_arith);
        }
        elapsed = elapsed + cfg.interval_ms;
        k = k + 1;
    }
    proof {
        assert forall|j: int| 0 <= j && #[trigger] (j * cfg.interval_ms) < cfg.timeout_ms
            implies !spec_reachable_at(outcomes@, j) by {
            if j >= k {
                lemma_mul_inequality(k as int, j, cfg.interval_ms as int);
            }
        }
    }
    ProbeResult { ready: false, elapsed_ms: elapsed }
}

/// Two attempts cannot both be the first successful one.
pub proof fn lemma_first_ready_unique(outcomes: Seq<bool>, k1: int, k2: int)
    requires
        spec_first_ready_at(outcomes, k1),
        spec_first_ready_at(outcomes, k2),
    ensures
        k1 == k2,
{
}

/// A probe over outcomes in which no attempt scheduled before the timeout
/// succeeds reports failure, no earlier than the timeout and strictly
/// before one interval past it.
pub proof fn lemma_probe_times_out_in_window(
    cfg: ProbeConfig,
    outcomes: Seq<bool>,
    r: ProbeResult,
)
    requires
        cfg.wf(),
        forall|k: int| 0 <= k && #[trigger] (k * cfg.interval_ms) < cfg.timeout_ms
            ==> !spec_reachable_at(outcomes, k),
        r.ready == spec_ready_within(outcomes, cfg.timeout_ms, cfg.interval_ms),
        !r.ready ==> cfg.timeout_ms <= r.elapsed_ms < cfg.timeout_ms + cfg.interval_ms,
    ensures
        !r.ready,
        cfg.timeout_ms <= r.elapsed_ms < cfg.timeout_ms + cfg.interval_ms,
{
}

/// If the endpoint becomes acceptable at time `t` — attempts before `t`
/// fail, attempts at or after `t` succeed — and at least one attempt is
/// still scheduled at or after `t` (`t + interval <= timeout`), then the
/// first successful attempt falls within one interval after `t`, before the
/// timeout.
pub proof fn lemma_probe_ready_within_interval(
    cfg: ProbeConfig,
    outcomes: Seq<bool>,
    t: u64,
)
    requires
        cfg.wf(),
        t + cfg.interval_ms <= cfg.timeout_ms,
        forall|k: int| 0 <= k && #[trigger] (k * cfg.interval_ms) < t
            ==> !spec_reachable_at(outcomes, k),
        forall|k: int| 0 <= k && t <= #[trigger] (k * cfg.interval_ms) < cfg.timeout_ms
            ==> spec_reachable_at(outcomes, k),
    ensures
        spec_ready_within(outcomes, cfg.timeout_ms, cfg.interval_ms),
        forall|k: int|
            #![trigger spec_first_ready_at(outcomes, k)]
            spec_first_ready_at(outcomes, k) ==> t <= k * cfg.interval_ms < t + cfg.interval_ms,
{
    let i = cfg.interval_ms as int;
    let tt = t as int;
    let k0 = (tt + i - 1) / i;
    lemma_fundamental_div_mod(tt + i - 1, i);
    lemma_mod_bound(tt + i - 1, i);
    assert(k0 * i == tt + i - 1 - ((tt + i - 1) % i));
    assert(tt - 1 < k0 * i <= tt + i - 1);
    assert(0 <= k0) by {
        if k0 < 0 {
            lemma_mul_inequality(k0, -1, i);
        }
    }
    assert(spec_reachable_at(outcomes, k0));
    assert forall|j: int| 0 <= j < k0 implies !spec_reachable_at(outcomes, j) by {
        lemma_mul_inequality(j, k0 - 1, i);
        assert((k0 - 1) * i == k0 * i - i) by (nonlinear_arith);
    }
    assert(spec_first_ready_at(outcomes, k0));
    assert(spec_ready_within(outcomes, cfg.timeout_ms, cfg.interval_ms));
    assert forall|k: int| spec_first_ready_at(outcomes, k)
        implies t <= k * cfg.interval_ms < t + cfg.interval_ms by {
        lemma_first_ready_unique(outcomes, k, k0);
    }
}

} // verus!
