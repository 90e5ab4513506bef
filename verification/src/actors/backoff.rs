//! The wait between two attempts to connect: it starts at one second and doubles up to
//! thirty.

use vstd::prelude::*;

verus! {

/// The first wait, in seconds.
pub const MIN_BACKOFF_SECS: u64 = 1;

/// The longest wait, in seconds.
pub const MAX_BACKOFF_SECS: u64 = 30;

/// The wait after a wait of `current` seconds: twice as long, but no longer than thirty
/// seconds.
pub open spec fn spec_next_backoff(current: u64) -> u64 {
    if 2 * current >= MAX_BACKOFF_SECS {
        MAX_BACKOFF_SECS
    } else {
        (2 * current) as u64
    }
}

/// The wait after the `n`-th failure in a row, counting from zero.
pub open spec fn backoff_after(n: nat) -> u64
    decreases n,
{
    if n == 0 {
        MIN_BACKOFF_SECS
    } else {
        spec_next_backoff(backoff_after((n - 1) as nat))
    }
}

/// Computes the wait that follows a wait of `current` seconds.
pub fn next_backoff(current: u64) -> (next: u64)
    ensures
        next == spec_next_backoff(current),
        next <= MAX_BACKOFF_SECS,
{
    if current >= MAX_BACKOFF_SECS / 2 {
        MAX_BACKOFF_SECS
    } else {
        current * 2
    }
}

/// The waits never shrink and never pass thirty seconds: 1, 2, 4, 8, 16, 30, 30, and so on.
pub proof fn lemma_backoff_schedule(n: nat)
    ensures
        MIN_BACKOFF_SECS <= backoff_after(n) <= MAX_BACKOFF_SECS,
        backoff_after(n) <= backoff_after(n + 1),
        n >= 5 ==> backoff_after(n) == MAX_BACKOFF_SECS,
        n < 5 ==> backoff_after(n + 1) == 2 * backoff_after(n) || backoff_after(n + 1)
            == MAX_BACKOFF_SECS,
    decreases n,
{
    reveal_with_fuel(backoff_after, 7);
    if n > 5 {
        lemma_backoff_schedule((n - 1) as nat);
    }
}

} // verus!
