//! The linear system whose least-squares solution is the interior kernel.
//!
//! For a window of `w` samples, a polynomial of order `p` and the `d`-th
//! derivative, the kernel `c` (one coefficient per sample of the window) solves
//! `A c = y` in the least-squares sense, where `A` has `p + 1` rows and `w`
//! columns, `A[i][j]` is the `i`-th power of the `j`-th sample's distance from
//! the window's centre, and `y` is zero except for `d!` in row `d`.
//! This module decides whether there is a system to solve at all and, if so,
//! fixes every integer in it.

use vstd::prelude::*;
use crate::error::SavGolError;
use crate::factorial::spec_factorial;
use crate::factorial::checked_factorial;

verus! {

/// Half the window length, rounded down: the number of samples on either side
/// of the centre of an odd window, and the width of each edge of the signal.
pub open spec fn spec_halflen(window_length: nat) -> nat {
    window_length / 2
}

/// Twice the position of the window's centre, counted from its first sample.
///
/// An odd window is centred on sample `halflen`; an even one has no centre
/// sample and is centred half a step before sample `halflen`.
pub open spec fn spec_center_twice(window_length: nat) -> int {
    if window_length % 2 == 0 {
        2 * spec_halflen(window_length) - 1
    } else {
        (2 * spec_halflen(window_length)) as int
    }
}

/// Whatever the parity, the centre lies midway between the first and the last
/// sample of the window.
pub proof fn lemma_center_is_midpoint(window_length: nat)
    ensures
        spec_center_twice(window_length) == window_length - 1,
{
}

/// The integers of the least-squares problem for the interior kernel.
#[derive(Clone, Copy, Debug, PartialEq, Eq, Structural)]
pub struct KernelSystem {
    /// Columns of the design matrix, and length of the kernel.
    pub window_length: usize,
    /// Rows of the design matrix: one per power `0..=poly_order`.
    pub rows: usize,
    /// Twice the centre position; column `j` holds the powers of
    /// `(center_twice - 2 j) / 2`.
    pub center_twice: usize,
    /// The one row of the target vector that is not zero. It holds the
    /// factorial of its own index.
    pub target_row: usize,
}

impl KernelSystem {
    /// The system has at least one row and no more rows than columns, its
    /// target row is one of its rows, and its centre is the midpoint of the
    /// window.
    pub open spec fn wf(&self) -> bool {
        &&& 1 <= self.rows <= self.window_length
        &&& self.target_row < self.rows
        &&& self.center_twice == self.window_length - 1
    }

    /// This is the system for window length `w`, polynomial order `p` and
    /// derivative `d`.
    pub open spec fn describes(&self, w: nat, p: nat, d: nat) -> bool {
        &&& self.window_length == w
        &&& self.rows == p + 1
        &&& self.center_twice == spec_center_twice(w)
        &&& self.target_row == d
    }

    /// The power that each row of the design matrix holds: row `i` holds the
    /// `i`-th powers.
    pub open spec fn spec_exponents(&self) -> Seq<usize> {
        Seq::new(self.rows as nat, |i: int| i as usize)
    }

    /// The target vector: `rows` entries, all zero but the factorial of
    /// `target_row` at `target_row`.
    pub open spec fn spec_target(&self) -> Seq<nat> {
        Seq::new(
            self.rows as nat,
            |i: int|
                if i == self.target_row {
                    spec_factorial(self.target_row as nat)
                } else {
                    0nat
                },
        )
    }

    /// Lists the powers of the design matrix, row by row: `0, 1, 2, ...`.
    pub fn exponents(&self) -> (order: Vec<usize>)
        ensures
            order@ == self.spec_exponents(),
    {
        let mut order: Vec<usize> = Vec::new();
        let mut i: usize = 0;
        while i < self.rows
            invariant
                i <= self.rows,
                order@ == self.spec_exponents().subrange(0, i as int),
            decreases self.rows - i,
        {
            order.push(i);
            i = i + 1;
        }
        order
    }

    /// Builds the target vector of the system, or reports `None` when the
    /// factorial in it does not fit in a `usize`.
    pub fn target(&self) -> (y: Option<Vec<usize>>)
        ensures
            match y {
                Some(y) => {
                    &&& spec_factorial(self.target_row as nat) <= usize::MAX
                    &&& y@.len() == self.rows
                    &&& forall|i: int| 0 <= i < self.rows ==> y@[i] == self.spec_target()[i]
                },
                None => spec_factorial(self.target_row as nat) > usize::MAX,
            },
    {
        let value: usize = match checked_factorial(self.target_row) {
            Some(value) => value,
            None => {
                return None;
            },
        };
        let mut y: Vec<usize> = Vec::new();
        let mut i: usize = 0;
        while i < self.rows
            invariant
                i <= self.rows,
                value == spec_factorial(self.target_row as nat),
                y@.len() == i,
                forall|k: int| 0 <= k < i ==> y@[k] == self.spec_target()[k],
            decreases self.rows - i,
        {
            if i == self.target_row {
                y.push(value);
            } else {
                y.push(0);
            }
            i = i + 1;
        }
        Some(y)
    }
}

/// How the interior kernel is obtained.
#[derive(Clone, Copy, Debug, PartialEq, Eq, Structural)]
pub enum KernelPlan {
    /// The derivative is beyond the polynomial's order, which annihilates
    /// every polynomial of that order: the kernel is `len` zeros.
    Zero { len: usize },
    /// The kernel is the least-squares solution of `system`.
    Solve { system: KernelSystem },
}

impl KernelPlan {
    /// This is the plan for window length `w`, polynomial order `p` and
    /// derivative `d`: all zeros exactly when `d` exceeds `p`.
    pub open spec fn answers(&self, w: nat, p: nat, d: nat) -> bool {
        match self {
            KernelPlan::Zero { len } => d > p && *len == w,
            KernelPlan::Solve { system } => d <= p && system.describes(w, p, d),
        }
    }

    /// The number of coefficients of the kernel that the plan yields.
    pub open spec fn spec_kernel_len(&self) -> nat {
        match self {
            KernelPlan::Zero { len } => *len as nat,
            KernelPlan::Solve { system } => system.window_length as nat,
        }
    }
}

/// Decides how the kernel for the interior of the signal is obtained.
///
/// Fails exactly when the polynomial order is not below the window length.
/// Otherwise the kernel has `window_length` coefficients; it is all zero
/// exactly when `deriv` exceeds `poly_order`, and in every other case it is the
/// solution of the system returned.
pub fn kernel_plan(window_length: usize, poly_order: usize, deriv: usize) -> (plan: Result<
    KernelPlan,
    SavGolError,
>)
    ensures
        match plan {
            Err(e) => poly_order >= window_length && e == SavGolError::InvalidParameter,
            Ok(kernel) => {
                &&& poly_order < window_length
                &&& kernel.answers(window_length as nat, poly_order as nat, deriv as nat)
                &&& kernel.spec_kernel_len() == window_length
                &&& kernel matches KernelPlan::Solve { system } ==> system.wf()
            },
        },
        poly_order < window_length && deriv > poly_order ==> plan == Ok::<
            KernelPlan,
            SavGolError,
        >(KernelPlan::Zero { len: window_length }),
{
    if poly_order >= window_length {
        return Err(SavGolError::InvalidParameter);
    }
    if deriv > poly_order {
        return Ok(KernelPlan::Zero { len: window_length });
    }
    proof {
        lemma_center_is_midpoint(window_length as nat);
    }
    let system = KernelSystem {
        window_length,
        rows: poly_order + 1,
        center_twice: window_length - 1,
        target_row: deriv,
    };
    Ok(KernelPlan::Solve { system })
}

} // verus!
