//! Reconnection backoff of the bus client.

use vstd::prelude::*;

verus! {

/// Longest pause between two reconnection attempts, in seconds.
pub const MAX_BACKOFF_SECS: u64 = 32;

/// Number of consecutive failures after which the client stops retrying.
pub const MAX_RECONNECT_ATTEMPTS: u32 = 5;

/// Two to the power `e`.
pub open spec fn pow2(e: nat) -> nat
    decreases e,
{
    if e == 0 {
        1
    } else {
        2 * pow2((e - 1) as nat)
    }
}

/// Pause after the `attempts`-th consecutive connection error:
/// `min(2^(attempts-1), 32)` seconds.
pub open spec fn spec_backoff_delay(attempts: nat) -> nat
    recommends
        attempts >= 1,
{
    if pow2((attempts - 1) as nat) <= MAX_BACKOFF_SECS as nat {
        pow2((attempts - 1) as nat)
    } else {
        MAX_BACKOFF_SECS as nat
    }
}

/// `pow2` never shrinks as its exponent grows.
pub proof fn lemma_pow2_monotone(a: nat, b: nat)
    requires
        a <= b,
    ensures
        pow2(a) <= pow2(b),
    decreases b,
{
    if a < b {
        lemma_pow2_monotone(a, (b - 1) as nat);
    }
}

/// The pause never shrinks as the errors go on, and never exceeds the cap.
pub proof fn lemma_backoff_monotone(earlier: nat, later: nat)
    requires
        1 <= earlier <= later,
    ensures
        spec_backoff_delay(earlier) <= spec_backoff_delay(later) <= MAX_BACKOFF_SECS,
{
    lemma_pow2_monotone((earlier - 1) as nat, (later - 1) as nat);
}

/// The pauses are 1, 2, 4, 8 and 16 seconds after the first five errors,
/// and 32 seconds after every later one.
pub proof fn lemma_backoff_values(attempts: nat)
    requires
        attempts >= 1,
    ensures
        attempts == 1 ==> spec_backoff_delay(attempts) == 1,
        attempts == 2 ==> spec_backoff_delay(attempts) == 2,
        attempts == 3 ==> spec_backoff_delay(attempts) == 4,
        attempts == 4 ==> spec_backoff_delay(attempts) == 8,
        attempts == 5 ==> spec_backoff_delay(attempts) == 16,
        attempts >= 6 ==> spec_backoff_delay(attempts) == 32,
{
    reveal_with_fuel(pow2, 7);
    if attempts >= 6 {
        lemma_pow2_monotone(5, (attempts - 1) as nat);
    }
}

/// Seconds to sleep after `attempts` consecutive connection errors.
pub fn backoff_delay_secs(attempts: u32) -> (delay: u64)
    requires
        attempts >= 1,
    ensures
        delay == spec_backoff_delay(attempts as nat),
        1 <= delay <= MAX_BACKOFF_SECS,
{
    let mut delay: u64 = 1;
    let mut step: u32 = 1;
    while step < attempts && delay < MAX_BACKOFF_SECS
        invariant
            1 <= step <= attempts,
            1 <= delay <= MAX_BACKOFF_SECS,
            delay == pow2((step - 1) as nat),
        decreases attempts - step,
    {
        proof {
            reveal_with_fuel(pow2, 6);
            if step >= 6 {
                lemma_pow2_monotone(5, (step - 1) as nat);
            }
            lemma_pow2_monotone((step - 1) as nat, 4);
        }
        delay = delay * 2;
        step = step + 1;
    }
    proof {
        if step < attempts {
            lemma_pow2_monotone((step - 1) as nat, (attempts - 1) as nat);
        }
    }
    delay
}

} // verus!
