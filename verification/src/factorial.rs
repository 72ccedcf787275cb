//! Factorials of machine integers, with the overflow boundary made explicit.

use vstd::prelude::*;

verus! {

/// `n!` as a natural number: the product `1 * 2 * ... * n`, with `0! == 1`.
pub open spec fn spec_factorial(n: nat) -> nat
    decreases n,
{
    if n == 0 {
        1
    } else {
        n * spec_factorial((n - 1) as nat)
    }
}

/// A factorial is never zero.
pub proof fn lemma_factorial_positive(n: nat)
    ensures
        spec_factorial(n) >= 1,
    decreases n,
{
    if n > 0 {
        lemma_factorial_positive((n - 1) as nat);
        assert(n * spec_factorial((n - 1) as nat) >= 1) by (nonlinear_arith)
            requires
                n >= 1,
                spec_factorial((n - 1) as nat) >= 1,
        ;
    }
}

/// Factorials grow with their argument: `m <= n` implies `m! <= n!`.
pub proof fn lemma_factorial_monotonic(m: nat, n: nat)
    requires
        m <= n,
    ensures
        spec_factorial(m) <= spec_factorial(n),
    decreases n,
{
    if m < n {
        lemma_factorial_monotonic(m, (n - 1) as nat);
        lemma_factorial_positive((n - 1) as nat);
        assert(n * spec_factorial((n - 1) as nat) >= spec_factorial((n - 1) as nat))
            by (nonlinear_arith)
            requires
                n >= 1,
        ;
    }
}

/// For `n >= 1`, `n!` is `(n - 1)!` times `n`.
pub proof fn lemma_factorial_unfold(n: nat)
    requires
        n >= 1,
    ensures
        spec_factorial(n) == spec_factorial((n - 1) as nat) * n,
{
    assert(n * spec_factorial((n - 1) as nat) == spec_factorial((n - 1) as nat) * n)
        by (nonlinear_arith);
}

/// Computes `num!`.
///
/// The caller must know that the product fits in a `usize`;
/// [`checked_factorial`] decides that at run time.
pub fn factorial(num: usize) -> (value: usize)
    requires
        spec_factorial(num as nat) <= usize::MAX,
    ensures
        value == spec_factorial(num as nat),
    decreases num,
{
    match num {
        0 => 1,
        1 => {
            assert(spec_factorial(1) == 1) by {
                reveal_with_fuel(spec_factorial, 2);
            }
            1
        },
        _ => {
            proof {
                lemma_factorial_monotonic((num - 1) as nat, num as nat);
                lemma_factorial_unfold(num as nat);
            }
            factorial(num - 1) * num
        },
    }
}

/// Computes `num!` when it fits in a `usize`, and reports `None` when it does not.
pub fn checked_factorial(num: usize) -> (value: Option<usize>)
    ensures
        match value {
            Some(v) => v == spec_factorial(num as nat),
            None => spec_factorial(num as nat) > usize::MAX,
        },
{
    let mut product: usize = 1;
    let mut done: usize = 0;
    while done < num
        invariant
            done <= num,
            product == spec_factorial(done as nat),
        decreases num - done,
    {
        done = done + 1;
        proof {
            lemma_factorial_unfold(done as nat);
        }
        match product.checked_mul(done) {
            Some(next) => {
                product = next;
            },
            None => {
                proof {
                    lemma_factorial_monotonic(done as nat, num as nat);
                }
                return None;
            },
        }
    }
    Some(product)
}

} // verus!
