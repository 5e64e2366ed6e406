//! Exponential reconnection backoff: the delay doubles from a base of
//! two seconds on every consecutive transient failure, stops doubling
//! after a fixed exponent, and never exceeds the sixty-second cap.

use vstd::prelude::*;

verus! {

/// Base reconnection delay, in seconds.
pub const BASE_DELAY_SECS: u64 = 2;

/// Longest reconnection delay, in seconds.
pub const MAX_DELAY_SECS: u64 = 60;

/// The doubling stops after this many consecutive failures.
pub const CAP_EXPONENT: u32 = 6;

/// Two to the power `e`.
pub open spec fn pow2(e: nat) -> nat
    decreases e,
{
    if e == 0 {
        1
    } else {
        2 * pow2((e - 1) as nat)
    }
}

/// Powers of two are positive.
pub proof fn lemma_pow2_pos(e: nat)
    ensures
        pow2(e) >= 1,
    decreases e,
{
    if e > 0 {
        lemma_pow2_pos((e - 1) as nat);
    }
}

/// Powers of two grow with the exponent.
pub proof fn lemma_pow2_monotone(a: nat, b: nat)
    requires
        a <= b,
    ensures
        pow2(a) <= pow2(b),
    decreases b,
{
    if a < b {
        lemma_pow2_monotone(a, (b - 1) as nat);
    }
}

/// The delay before reconnection attempt number `attempt` (counting
/// consecutive transient failures from zero): the base delay doubled
/// `attempt` times, with the exponent and the delay both capped.
pub open spec fn spec_delay(attempt: nat) -> int {
    let e: nat = if attempt > CAP_EXPONENT { CAP_EXPONENT as nat } else { attempt };
    let raw = BASE_DELAY_SECS * pow2(e);
    if raw > MAX_DELAY_SECS {
        MAX_DELAY_SECS as int
    } else {
        raw as int
    }
}

/// The delay sequence stays between the base and the cap.
pub proof fn lemma_backoff_bounded(attempt: nat)
    ensures
        BASE_DELAY_SECS <= spec_delay(attempt) <= MAX_DELAY_SECS,
{
    let e: nat = if attempt > CAP_EXPONENT { CAP_EXPONENT as nat } else { attempt };
    lemma_pow2_pos(e);
}

/// The delay sequence is monotonically non-decreasing in the failure
/// count.
pub proof fn lemma_backoff_monotone(a: nat, b: nat)
    requires
        a <= b,
    ensures
        spec_delay(a) <= spec_delay(b),
{
    let ea: nat = if a > CAP_EXPONENT { CAP_EXPONENT as nat } else { a };
    let eb: nat = if b > CAP_EXPONENT { CAP_EXPONENT as nat } else { b };
    lemma_pow2_monotone(ea, eb);
}

/// Computes the delay before the given attempt.
pub fn delay_for_attempt(attempt: u32) -> (d: u64)
    ensures
        d == spec_delay(attempt as nat),
{
    let e: u32 = if attempt > CAP_EXPONENT {
        CAP_EXPONENT
    } else {
        attempt
    };
    let mut d: u64 = BASE_DELAY_SECS;
    let mut k: u32 = 0;
    while k < e
        invariant
            k <= e,
            e <= CAP_EXPONENT,
            d == BASE_DELAY_SECS * pow2(k as nat),
        decreases e - k,
    {
        proof {
            lemma_pow2_monotone(k as nat, (CAP_EXPONENT - 1) as nat);
            reveal_with_fuel(pow2, 7);
        }
        d = d * 2;
        k = k + 1;
    }
    if d > MAX_DELAY_SECS {
        MAX_DELAY_SECS
    } else {
        d
    }
}

/// Retry bookkeeping of the supervisor: how many consecutive transient
/// failures have been seen, and the delay to sleep before the next
/// attempt. The delay is always the one the failure count dictates.
#[derive(Debug, Clone, Copy, PartialEq, Eq, Structural)]
pub struct RetryState {
    pub attempt: u32,
    pub delay_secs: u64,
}

impl RetryState {
    /// The stored delay matches the failure count.
    pub open spec fn well_formed(self) -> bool {
        self.delay_secs == spec_delay(self.attempt as nat)
    }

    /// Fresh retry state: no failures yet, base delay.
    pub fn new() -> (r: RetryState)
        ensures
            r.attempt == 0,
            r.delay_secs == BASE_DELAY_SECS,
            r.well_formed(),
    {
        RetryState { attempt: 0, delay_secs: BASE_DELAY_SECS }
    }

    /// Back to the base state, as on every successful session
    /// establishment.
    pub fn reset(&mut self)
        ensures
            final(self).attempt == 0,
            final(self).delay_secs == BASE_DELAY_SECS,
            final(self).well_formed(),
    {
        self.attempt = 0;
        self.delay_secs = BASE_DELAY_SECS;
    }

    /// One more transient failure: count it (saturating) and move to the
    /// delay of the new count.
    pub fn advance(&mut self)
        ensures
            final(self).attempt == if old(self).attempt < u32::MAX {
                old(self).attempt + 1
            } else {
                old(self).attempt as int
            },
            final(self).well_formed(),
    {
        if self.attempt < u32::MAX {
            self.attempt = self.attempt + 1;
        }
        self.delay_secs = delay_for_attempt(self.attempt);
    }
}

} // verus!
