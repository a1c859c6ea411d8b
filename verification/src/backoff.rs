//! How long to wait before the next attempt to connect.

use vstd::prelude::*;

verus! {

/// The longest wait, in milliseconds.
pub const MAX_BACKOFF_MS: u64 = 900_000;

/// The Fibonacci numbers, in thousands: 1000, 1000, 2000, 3000, 5000, ...
pub open spec fn fibonacci_ms(n: nat) -> nat
    decreases n,
{
    if n <= 1 {
        1000
    } else {
        fibonacci_ms((n - 1) as nat) + fibonacci_ms((n - 2) as nat)
    }
}

pub open spec fn capped(ms: nat) -> nat {
    if ms <= MAX_BACKOFF_MS {
        ms
    } else {
        MAX_BACKOFF_MS as nat
    }
}

/// The wait before jitter: a Fibonacci number of seconds, up to fifteen minutes.
pub open spec fn backoff_base(attempt: nat) -> nat {
    capped(fibonacci_ms(attempt))
}

/// The wait before jitter.
pub fn base_backoff_ms(attempt: u32) -> (r: u64)
    ensures
        r == backoff_base(attempt as nat),
        1000 <= r <= MAX_BACKOFF_MS,
{
    let mut a: u64 = 1000;
    let mut b: u64 = 1000;
    let mut i: u32 = 0;
    while i < attempt
        invariant
            i <= attempt,
            a == backoff_base(i as nat),
            b == backoff_base((i + 1) as nat),
            1000 <= a <= MAX_BACKOFF_MS,
            1000 <= b <= MAX_BACKOFF_MS,
        decreases attempt - i,
    {
        let sum: u64 = a + b;
        let next: u64 = if sum < MAX_BACKOFF_MS {
            sum
        } else {
            MAX_BACKOFF_MS
        };
        proof {
            let x = fibonacci_ms(i as nat);
            let y = fibonacci_ms((i + 1) as nat);
            assert(fibonacci_ms((i + 2) as nat) == y + x);
        }
        a = b;
        b = next;
        i += 1;
    }
    a
}

/// A tenth of the wait: how far jitter may move it either way.
pub open spec fn jitter_range(base: int) -> int {
    base / 10
}

/// The wait that a random number gives: the number is taken from zero up to twice the range of
/// the jitter.
pub fn with_jitter(base: u64, random: u64) -> (r: u64)
    requires
        base <= MAX_BACKOFF_MS,
        random <= 2 * jitter_range(base as int),
    ensures
        r == base - jitter_range(base as int) + random,
{
    base - base / 10 + random
}

/// Calls `RngExt::random_range` of `rand` on a generator seeded by the operating system. The
/// number is not below zero and not above `max`; which one it is, is left to chance.
#[verifier::external_body]
fn random_up_to(max: u64) -> (r: u64)
    ensures
        r <= max,
{
    rand::RngExt::random_range(&mut rand::make_rng::<rand::rngs::StdRng>(), 0..=max)
}

/// How long to wait before an attempt to connect, in milliseconds, given the number of failed
/// attempts before it: the Fibonacci numbers in seconds up to fifteen minutes, moved by chance
/// by up to a tenth either way.
pub fn fibonacci_backoff(attempt: u32) -> (r: u64)
    ensures
        backoff_base(attempt as nat) - jitter_range(backoff_base(attempt as nat) as int) <= r
            <= backoff_base(attempt as nat) + jitter_range(backoff_base(attempt as nat) as int),
{
    let base: u64 = base_backoff_ms(attempt);
    let random: u64 = random_up_to(base / 10 * 2);
    with_jitter(base, random)
}

/// The more attempts have failed, the longer the wait before jitter, and it never passes
/// fifteen minutes.
pub proof fn backoff_grows_to_cap(i: nat, j: nat)
    requires
        i <= j,
    ensures
        1000 <= backoff_base(i) <= backoff_base(j) <= MAX_BACKOFF_MS,
{
    fibonacci_grows(i, j);
}

proof fn fibonacci_grows(i: nat, j: nat)
    requires
        i <= j,
    ensures
        1000 <= fibonacci_ms(i) <= fibonacci_ms(j),
    decreases j,
{
    if i == j {
        if i > 1 {
            fibonacci_grows((i - 1) as nat, (i - 1) as nat);
        }
    } else if j >= 1 {
        fibonacci_grows(i, (j - 1) as nat);
        if j >= 2 {
            fibonacci_grows((j - 2) as nat, (j - 2) as nat);
        }
    }
}

/// Each wait before jitter is as long as the two before it together, until that passes fifteen
/// minutes; the first two are a second each. Jitter moves a wait by up to a tenth either way, and
/// each of these waits comes from one random number.
pub proof fn waits_add_up(attempt: nat)
    ensures
        backoff_base(0) == 1000,
        backoff_base(1) == 1000,
        backoff_base(attempt) + backoff_base(attempt + 1) <= 900_000 ==> backoff_base(attempt + 2)
            == backoff_base(attempt) + backoff_base(attempt + 1),
        backoff_base(attempt) + backoff_base(attempt + 1) >= 900_000 ==> backoff_base(attempt + 2)
            == 900_000,
        10 * jitter_range(backoff_base(attempt) as int) <= backoff_base(attempt) < 10 * (
        jitter_range(backoff_base(attempt) as int) + 1),
{
    assert(fibonacci_ms(attempt + 2) == fibonacci_ms(attempt + 1) + fibonacci_ms(attempt));
}

} // verus!
