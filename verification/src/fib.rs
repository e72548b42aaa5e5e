//! The Fibonacci computation, with its exact wrapped 64-bit contract.

use vstd::prelude::*;
use vstd::arithmetic::div_mod::{lemma_add_mod_noop, lemma_mod_bound, lemma_mod_multiples_vanish,
    lemma_small_mod};

verus! {

/// The mathematical Fibonacci sequence.
pub open spec fn fib(n: nat) -> nat
    decreases n,
{
    if n == 0 {
        0
    } else if n == 1 {
        1
    } else {
        fib((n - 1) as nat) + fib((n - 2) as nat)
    }
}

/// `fib(n)` reduced modulo 2^64.
pub open spec fn fib_mod_u64(n: nat) -> nat {
    fib(n) % 0x1_0000_0000_0000_0000
}

/// The two's-complement 64-bit reading of `fib(n)`: the value an
/// unchecked signed 64-bit accumulation of the sequence produces.
/// Equal to `fib(n)` itself whenever that fits in an `i64`.
pub open spec fn fib_wrapped_i64(n: nat) -> int {
    if fib_mod_u64(n) > i64::MAX {
        fib_mod_u64(n) - 0x1_0000_0000_0000_0000
    } else {
        fib_mod_u64(n) as int
    }
}

/// For every `n` at least 2, the Fibonacci value is the sum of the two
/// before it.
pub proof fn lemma_fib_recurrence(n: nat)
    requires
        n >= 2,
    ensures
        fib(n) == fib((n - 1) as nat) + fib((n - 2) as nat),
{
}

/// One step of the modulo-2^64 recurrence: the reduced value at `k + 1`
/// is the sum of the reduced values at `k - 1` and `k`, folded back
/// into range once if it overflows.
proof fn lemma_fib_mod_step(k: nat)
    requires
        k >= 1,
    ensures
        fib_mod_u64((k + 1) as nat) as int == if fib_mod_u64((k - 1) as nat) + fib_mod_u64(k)
            < 0x1_0000_0000_0000_0000 {
            fib_mod_u64((k - 1) as nat) + fib_mod_u64(k) as int
        } else {
            fib_mod_u64((k - 1) as nat) + fib_mod_u64(k) - 0x1_0000_0000_0000_0000
        },
{
    let m: int = 0x1_0000_0000_0000_0000;
    let x = fib((k - 1) as nat) as int;
    let y = fib(k) as int;
    assert(fib((k + 1) as nat) == fib(k) + fib((k - 1) as nat));
    lemma_add_mod_noop(x, y, m);
    lemma_mod_bound(x, m);
    lemma_mod_bound(y, m);
    let s = x % m + y % m;
    if s < m {
        lemma_small_mod(s as nat, m as nat);
    } else {
        lemma_mod_multiples_vanish(1, s - m, m);
        lemma_small_mod((s - m) as nat, m as nat);
    }
}

/// The Fibonacci value of `n`, iteratively accumulated in 64 bits.
/// Negative inputs are rejected by the callers before this point.
/// There is no upper bound on `n`: past the 64-bit range the result
/// silently wraps, and the contract says exactly to what.
pub fn calculate_fibonacci(n: i32) -> (result: i64)
    requires
        n >= 0,
    ensures
        result == fib_wrapped_i64(n as nat),
        fib(n as nat) <= i64::MAX ==> result == fib(n as nat),
{
    proof {
        if fib(n as nat) <= i64::MAX {
            lemma_small_mod(fib(n as nat), 0x1_0000_0000_0000_0000);
        }
    }
    if n == 0 {
        proof {
            lemma_small_mod(0, 0x1_0000_0000_0000_0000);
        }
        return 0;
    }
    let mut a: u64 = 0;
    let mut b: u64 = 1;
    let mut i: i32 = 1;
    proof {
        lemma_small_mod(0, 0x1_0000_0000_0000_0000);
        lemma_small_mod(1, 0x1_0000_0000_0000_0000);
    }
    while i < n
        invariant
            1 <= i <= n,
            a == fib_mod_u64((i - 1) as nat),
            b == fib_mod_u64(i as nat),
        decreases n - i,
    {
        let t = a.wrapping_add(b);
        proof {
            lemma_fib_mod_step(i as nat);
        }
        a = b;
        b = t;
        i = i + 1;
    }
    if b <= i64::MAX as u64 {
        b as i64
    } else {
        let below_top = u64::MAX - b;
        -(below_top as i64) - 1
    }
}

} // verus!
