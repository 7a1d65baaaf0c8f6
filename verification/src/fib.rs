//! The CPU-bound unit: a naive, deliberately unmemoized Fibonacci. Its only
//! purpose is to occupy whichever execution context invokes it for a time that
//! grows exponentially with the input, so it doubles as adjustable synthetic
//! load for the batch model in `crate::batch`.

use vstd::prelude::*;

verus! {

/// The n-th Fibonacci number under the recurrence
/// F(0) = 0, F(1) = 1, F(k) = F(k-1) + F(k-2).
pub open spec fn fib_spec(n: nat) -> nat
    decreases n,
{
    if n == 0 {
        0
    } else if n == 1 {
        1
    } else {
        fib_spec((n - 1) as nat) + fib_spec((n - 2) as nat)
    }
}

/// Fibonacci never decreases as its argument grows.
pub proof fn lemma_fib_monotonic(m: nat, n: nat)
    requires
        m <= n,
    ensures
        fib_spec(m) <= fib_spec(n),
    decreases n - m,
{
    if m < n {
        lemma_fib_monotonic(m, (n - 1) as nat);
    }
}

/// The CPU-bound unit. Recursion without memoization is intentional: the
/// exponential cost models unavoidable CPU-bound work, and the unit must be
/// placeable inline or on an isolated worker without changing this contract.
pub fn fib(n: u32) -> (r: u32)
    requires
        fib_spec(n as nat) <= u32::MAX,
    ensures
        r == fib_spec(n as nat),
    decreases n,
{
    match n {
        0 => 0,
        1 => 1,
        _ => fib(n - 1) + fib(n - 2),
    }
}

/// The CPU-bound unit with a run-time overflow guard in place of `fib`'s
/// precondition, for callers that cannot bound the input ahead of time.
/// Iterative only to detect overflow; the batch places the naive `fib`.
pub fn fib_checked(n: u32) -> (r: Option<u32>)
    ensures
        match r {
            Some(v) => v == fib_spec(n as nat),
            None => fib_spec(n as nat) > u32::MAX,
        },
{
    if n == 0 {
        return Some(0);
    }
    let mut prev: u32 = 0;
    let mut cur: u32 = 1;
    let mut i: u32 = 1;
    while i < n
        invariant
            1 <= i <= n,
            prev == fib_spec((i - 1) as nat),
            cur == fib_spec(i as nat),
        decreases n - i,
    {
        let next = match cur.checked_add(prev) {
            Some(s) => s,
            None => {
                proof {
                    lemma_fib_monotonic((i + 1) as nat, n as nat);
                }
                return None;
            },
        };
        prev = cur;
        cur = next;
        i = i + 1;
    }
    Some(cur)
}

} // verus!
