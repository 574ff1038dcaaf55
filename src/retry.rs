use crate::engine::CycleResult;
use crate::error::{recoverable, CycleError};
use vstd::prelude::*;

verus! {

/// How often, and after what pauses, a failed run is tried again.
#[derive(Clone, Copy, Debug, PartialEq, Eq, Structural)]
pub struct RetryPolicy {
    /// Attempts in all, the first one included.
    pub max_attempts: u32,
    /// Pause before the first retry, in milliseconds.
    pub min_delay_ms: u64,
    /// No pause is longer than this, in milliseconds.
    pub max_delay_ms: u64,
}

/// The pause before retry number `k + 1` without jitter: the least pause,
/// doubled `k` times, and never above the greatest.
pub open spec fn base_delay(p: RetryPolicy, k: nat) -> nat
    decreases k,
{
    if k == 0 {
        if p.min_delay_ms <= p.max_delay_ms {
            p.min_delay_ms as nat
        } else {
            p.max_delay_ms as nat
        }
    } else {
        let before = base_delay(p, (k - 1) as nat);
        if 2 * before >= p.max_delay_ms {
            p.max_delay_ms as nat
        } else {
            2 * before
        }
    }
}

/// The pause before retry number `k + 1`, with jitter: the base pause plus
/// `draw` modulo the base pause, never above the greatest pause.
pub open spec fn jittered_delay(p: RetryPolicy, k: nat, draw: u64) -> nat {
    let b = base_delay(p, k);
    if b == 0 {
        0
    } else if b + (draw as nat) % b >= p.max_delay_ms {
        p.max_delay_ms as nat
    } else {
        b + (draw as nat) % b
    }
}

/// No base pause exceeds the greatest pause.
pub proof fn lemma_base_bounded(p: RetryPolicy, k: nat)
    ensures
        base_delay(p, k) <= p.max_delay_ms,
    decreases k,
{
    if k > 0 {
        lemma_base_bounded(p, (k - 1) as nat);
    }
}

/// A draw of zero gives the shortest pause.
pub proof fn lemma_zero_draw_least(p: RetryPolicy, k: nat, d: u64)
    ensures
        jittered_delay(p, k, 0) <= jittered_delay(p, k, d),
{
    let b = base_delay(p, k);
    if b > 0 {
        assert((0u64 as nat) % b == 0) by (nonlinear_arith)
            requires
                b > 0,
        ;
    }
}

/// Any pause is at most the shortest pause of the next retry.
pub proof fn lemma_next_pause_longer(p: RetryPolicy, k: nat, d: u64)
    ensures
        jittered_delay(p, k, d) <= jittered_delay(p, k + 1, 0),
{
    lemma_base_bounded(p, k);
    lemma_base_bounded(p, k + 1);
    let b = base_delay(p, k);
    if b > 0 {
        assert((d as nat) % b < b) by (nonlinear_arith)
            requires
                b > 0,
        ;
    }
    let nb = base_delay(p, k + 1);
    if nb > 0 {
        assert((0u64 as nat) % nb == 0) by (nonlinear_arith)
            requires
                nb > 0,
        ;
    }
}

/// Later pauses are never shorter, whatever the jitter draws: the pause
/// before retry `j + 1` is at most the one before retry `k + 1` for `j < k`.
pub proof fn lemma_delays_non_decreasing(p: RetryPolicy, j: nat, k: nat, d1: u64, d2: u64)
    requires
        j < k,
    ensures
        jittered_delay(p, j, d1) <= jittered_delay(p, k, d2),
    decreases k - j,
{
    lemma_next_pause_longer(p, j, d1);
    if j + 1 < k {
        lemma_delays_non_decreasing(p, j + 1, k, 0, d2);
    } else {
        lemma_zero_draw_least(p, k, d2);
    }
}

impl RetryPolicy {
    /// Ten attempts, pauses from a tenth of a second up to ten seconds.
    pub fn standard() -> (r: RetryPolicy)
        ensures
            r.max_attempts == 10,
            r.min_delay_ms == 100,
            r.max_delay_ms == 10_000,
    {
        RetryPolicy { max_attempts: 10, min_delay_ms: 100, max_delay_ms: 10_000 }
    }

    /// The pause before retry number `k + 1`, without jitter.
    pub fn base_delay_ms(&self, k: u32) -> (r: u64)
        ensures
            r == base_delay(*self, k as nat),
    {
        let mut b: u64 = if self.min_delay_ms <= self.max_delay_ms {
            self.min_delay_ms
        } else {
            self.max_delay_ms
        };
        let mut i: u32 = 0;
        while i < k
            invariant
                i <= k,
                b == base_delay(*self, i as nat),
            decreases k - i,
        {
            proof {
                lemma_base_bounded(*self, i as nat);
            }
            if b >= self.max_delay_ms - b {
                b = self.max_delay_ms;
            } else {
                b = 2 * b;
            }
            i = i + 1;
        }
        b
    }

    /// The pause before retry number `k + 1`, with the jitter that `draw`
    /// (any number, such as a random one) gives.
    pub fn delay_ms(&self, k: u32, draw: u64) -> (r: u64)
        ensures
            r == jittered_delay(*self, k as nat, draw),
    {
        let b = self.base_delay_ms(k);
        proof {
            lemma_base_bounded(*self, k as nat);
        }
        if b == 0 {
            0
        } else {
            let extra = draw % b;
            if extra >= self.max_delay_ms - b {
                self.max_delay_ms
            } else {
                b + extra
            }
        }
    }
}

/// What to do once an attempt of a run has ended.
#[derive(Debug, PartialEq, Eq, Structural)]
pub enum RetryStep {
    /// The run is over: the attempt succeeded or was skipped.
    Done,
    /// Wait this many milliseconds, then attempt again.
    RetryAfter(u64),
    /// The run failed: the error cannot be helped by a retry, or no attempt
    /// is left.
    GiveUp,
}

/// The decision after `attempts` attempts, the last of which ended with
/// `result`: a failure is retried only when it is recoverable and fewer than
/// the allowed attempts were made, after the pause for that retry.
pub open spec fn retry_spec(p: RetryPolicy, attempts: nat, result: CycleResult, draw: u64) -> RetryStep {
    match result {
        CycleResult::Failed(e) => if recoverable(e) && attempts < p.max_attempts {
            RetryStep::RetryAfter(jittered_delay(p, (attempts - 1) as nat, draw) as u64)
        } else {
            RetryStep::GiveUp
        },
        _ => RetryStep::Done,
    }
}

/// Decides what follows an attempt of a run: `attempts` counts the attempts
/// made so far, this one included, and `draw` feeds the jitter.
pub fn after_attempt(p: &RetryPolicy, attempts: u32, result: &CycleResult, draw: u64) -> (r:
    RetryStep)
    requires
        attempts >= 1,
    ensures
        r == retry_spec(*p, attempts as nat, *result, draw),
{
    match result {
        CycleResult::Failed(e) => {
            if e.is_recoverable() && attempts < p.max_attempts {
                RetryStep::RetryAfter(p.delay_ms(attempts - 1, draw))
            } else {
                RetryStep::GiveUp
            }
        },
        _ => RetryStep::Done,
    }
}

/// A run that retries makes at most the allowed number of attempts (the
/// first attempt is always made): a retry is decided only while fewer
/// attempts than allowed were made, so the attempt it leads to is still
/// within the bound, and a recoverable failure is retried until then. Where
/// every attempt fails, the pauses between them never shrink.
pub proof fn lemma_retry_bounded(
    p: RetryPolicy,
    attempts: nat,
    e: CycleError,
    f: CycleError,
    d1: u64,
    d2: u64,
)
    requires
        attempts >= 1,
    ensures
        retry_spec(p, attempts, CycleResult::Failed(e), d1) is RetryAfter ==> attempts + 1
            <= p.max_attempts,
        attempts >= p.max_attempts ==> retry_spec(p, attempts, CycleResult::Failed(e), d1)
            is GiveUp,
        recoverable(e) && attempts < p.max_attempts ==> retry_spec(
            p,
            attempts,
            CycleResult::Failed(e),
            d1,
        ) is RetryAfter,
        retry_spec(p, attempts, CycleResult::Failed(e), d1) matches RetryStep::RetryAfter(x)
            ==> (retry_spec(p, attempts + 1, CycleResult::Failed(f), d2) matches RetryStep::RetryAfter(y)
            ==> x <= y),
{
    lemma_base_bounded(p, (attempts - 1) as nat);
    lemma_delays_non_decreasing(p, (attempts - 1) as nat, attempts, d1, d2);
    lemma_base_bounded(p, attempts);
}

} // verus!
