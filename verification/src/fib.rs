use vstd::prelude::*;

verus! {

/// The Fibonacci numbers: 0, 1, 1, 2, 3, 5, ...
pub open spec fn fib_spec(n: nat) -> nat
    decreases n,
{
    if n == 0 {
        0
    } else if n == 1 {
        1
    } else {
        fib_spec((n - 2) as nat) + fib_spec((n - 1) as nat)
    }
}

/// The Fibonacci sequence never shrinks as its index grows.
pub proof fn lemma_fib_monotone(i: nat, j: nat)
    requires
        i <= j,
    ensures
        fib_spec(i) <= fib_spec(j),
    decreases j - i,
{
    if i < j && j >= 2 {
        lemma_fib_monotone(i, (j - 1) as nat);
    }
}

/// The n-th Fibonacci number, computed iteratively. Total for every `n`
/// whose Fibonacci number still fits in a `u64`.
pub fn fib(n: u64) -> (r: u64)
    requires
        fib_spec(n as nat) <= u64::MAX,
    ensures
        r == fib_spec(n as nat),
{
    if n <= 1 {
        return n;
    }
    let mut last: u64 = 0;
    let mut current: u64 = 1;
    let mut i: u64 = 1;
    while i < n
        invariant
            1 <= i <= n,
            fib_spec(n as nat) <= u64::MAX,
            last == fib_spec((i - 1) as nat),
            current == fib_spec(i as nat),
        decreases n - i,
    {
        proof {
            lemma_fib_monotone((i + 1) as nat, n as nat);
        }
        let accumulator: u64 = last + current;
        last = current;
        current = accumulator;
        i = i + 1;
    }
    current
}

} // verus!
