//! How often a fitted polynomial can be differentiated before nothing is left.
//!
//! One differentiation turns the coefficients `c0, c1, c2, ...` (ascending
//! powers) into `c1, 2 c2, 3 c3, ...`: one coefficient fewer. A polynomial
//! without coefficients is the zero polynomial, and differentiating it changes
//! nothing.

use vstd::prelude::*;

verus! {

/// The number of coefficients left when a polynomial of `count` coefficients
/// is differentiated `times` times.
pub open spec fn spec_derived_len(count: nat, times: nat) -> nat {
    if times >= count {
        0
    } else {
        (count - times) as nat
    }
}

/// The number of differentiations to carry out on a polynomial of `count`
/// coefficients for its `deriv`-th derivative.
///
/// This is `deriv`, capped at `count`: each step carried out finds at least
/// one coefficient to remove, and the steps left out would act on the zero
/// polynomial.
pub fn derivative_steps(count: usize, deriv: usize) -> (steps: usize)
    ensures
        steps == if deriv <= count {
            deriv
        } else {
            count
        },
        spec_derived_len(count as nat, steps as nat) == spec_derived_len(
            count as nat,
            deriv as nat,
        ),
        forall|done: nat| done < steps ==> spec_derived_len(count as nat, done) >= 1,
{
    if deriv <= count {
        deriv
    } else {
        count
    }
}

} // verus!
