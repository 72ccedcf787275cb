//! A filter request, and what has to be done to answer it.

use vstd::prelude::*;
use crate::edges::EdgeWindow;
use crate::error::SavGolError;
use crate::kernel::KernelPlan;
use crate::kernel::kernel_plan;

verus! {

/// A filter request as a mathematical value.
pub struct SavGolRequest<T> {
    /// The samples, in order.
    pub data: Seq<T>,
    /// The number of consecutive samples in each local fit.
    pub window_length: nat,
    /// The degree of the polynomial fitted.
    pub poly_order: nat,
    /// Which derivative of the fitted polynomial is returned.
    pub derivative: nat,
}

impl<T> SavGolRequest<T> {
    /// The reason the request is turned down, if it is. The conditions are
    /// tried in this order, and the first that fails decides.
    pub open spec fn rejection(&self) -> Option<SavGolError> {
        if self.window_length > self.data.len() {
            Some(SavGolError::WindowTooLarge)
        } else if self.window_length % 2 == 0 {
            Some(SavGolError::EvenWindowUnsupported)
        } else if self.poly_order >= self.window_length {
            Some(SavGolError::InvalidParameter)
        } else {
            None
        }
    }

    /// The request is admissible: an odd window no longer than the signal, and
    /// a polynomial order below the window length.
    pub open spec fn valid(&self) -> bool {
        &&& self.window_length <= self.data.len()
        &&& self.window_length % 2 == 1
        &&& self.poly_order < self.window_length
    }
}

/// A request is turned down exactly when it is not admissible.
pub proof fn lemma_rejection_iff_invalid<T>(request: SavGolRequest<T>)
    ensures
        request.rejection() is None <==> request.valid(),
{
}

/// A filter request: the signal and the three parameters of the filter.
#[derive(Clone, Debug)]
pub struct SavGolInput<'a, T> {
    /// The samples, uniformly spaced and in order.
    pub data: &'a [T],
    /// The number of consecutive samples in each local fit.
    pub window_length: usize,
    /// The degree of the polynomial fitted.
    pub poly_order: usize,
    /// Which derivative of the fitted polynomial is returned; `0` smooths.
    pub derivative: usize,
}

impl<'a, T> View for SavGolInput<'a, T> {
    type V = SavGolRequest<T>;

    open spec fn view(&self) -> SavGolRequest<T> {
        SavGolRequest {
            data: self.data@,
            window_length: self.window_length as nat,
            poly_order: self.poly_order as nat,
            derivative: self.derivative as nat,
        }
    }
}

/// Everything about answering a request that does not depend on the values
/// of the samples.
#[derive(Clone, Copy, Debug, PartialEq, Eq, Structural)]
pub struct FilterPlan {
    /// How to obtain the kernel for the interior.
    pub kernel: KernelPlan,
    /// The fit that fills the first positions of the output.
    pub leading: EdgeWindow,
    /// The fit that fills the last positions of the output.
    pub trailing: EdgeWindow,
}

impl FilterPlan {
    /// Both edge fits lie inside a signal of `data_len` samples, the leading
    /// one fills positions before the trailing one, and the kernel's system,
    /// if there is one, is well formed.
    pub open spec fn wf(&self, data_len: nat) -> bool {
        &&& self.leading.wf()
        &&& self.trailing.wf()
        &&& self.leading.window_stop <= data_len
        &&& self.trailing.window_stop <= data_len
        &&& self.leading.interp_stop <= self.trailing.interp_start
        &&& self.kernel matches KernelPlan::Solve { system } ==> system.wf()
    }

    /// This is the plan for `request`.
    pub open spec fn answers<T>(&self, request: SavGolRequest<T>) -> bool {
        &&& self.kernel.answers(request.window_length, request.poly_order, request.derivative)
        &&& self.leading.is_leading(request.window_length)
        &&& self.trailing.is_trailing(request.data.len(), request.window_length)
    }
}

/// A request has one plan: two plans that answer the same request are equal.
pub proof fn lemma_plan_unique<T>(request: SavGolRequest<T>, first: FilterPlan, second: FilterPlan)
    requires
        first.answers(request),
        second.answers(request),
    ensures
        first == second,
{
}

impl<'a, T> SavGolInput<'a, T> {
    /// Checks the request, trying the conditions in their fixed order: the
    /// window fits in the signal, the window is odd, the polynomial order is
    /// below the window length.
    ///
    /// A window longer than the signal is always turned down as too large,
    /// and an even window that fits is always turned down as even, whatever
    /// the other parameters.
    pub fn check(&self) -> (outcome: Result<(), SavGolError>)
        ensures
            match outcome {
                Ok(_) => self@.valid() && self@.rejection() is None,
                Err(e) => !self@.valid() && self@.rejection() == Some(e),
            },
            self.window_length > self.data@.len() ==> outcome == Err::<(), SavGolError>(
                SavGolError::WindowTooLarge,
            ),
            self.window_length <= self.data@.len() && self.window_length % 2 == 0 ==> outcome
                == Err::<(), SavGolError>(SavGolError::EvenWindowUnsupported),
    {
        if self.window_length > self.data.len() {
            return Err(SavGolError::WindowTooLarge);
        }
        if self.window_length % 2 == 0 {
            return Err(SavGolError::EvenWindowUnsupported);
        }
        if self.poly_order >= self.window_length {
            return Err(SavGolError::InvalidParameter);
        }
        proof {
            lemma_rejection_iff_invalid(self@);
        }
        Ok(())
    }

    /// Checks the request and lays out the work: the source of the interior
    /// kernel and the two edge fits.
    ///
    /// Fails exactly on the requests that [`SavGolInput::check`] turns down,
    /// with the same error: always on a window longer than the signal, and
    /// always on an even window. For an admissible request whose derivative
    /// exceeds the polynomial order, the kernel is `window_length` zeros.
    pub fn plan(&self) -> (plan: Result<FilterPlan, SavGolError>)
        ensures
            match plan {
                Ok(p) => {
                    &&& self@.valid()
                    &&& self@.rejection() is None
                    &&& p.answers(self@)
                    &&& p.wf(self.data@.len())
                },
                Err(e) => !self@.valid() && self@.rejection() == Some(e),
            },
            self.window_length > self.data@.len() ==> plan == Err::<FilterPlan, SavGolError>(
                SavGolError::WindowTooLarge,
            ),
            self.window_length <= self.data@.len() && self.window_length % 2 == 0 ==> plan
                == Err::<FilterPlan, SavGolError>(SavGolError::EvenWindowUnsupported),
            self@.valid() && self.derivative > self.poly_order ==> plan is Ok && plan->Ok_0.kernel
                == (KernelPlan::Zero { len: self.window_length }),
    {
        if self.window_length > self.data.len() {
            return Err(SavGolError::WindowTooLarge);
        }
        if self.window_length % 2 == 0 {
            return Err(SavGolError::EvenWindowUnsupported);
        }
        match kernel_plan(self.window_length, self.poly_order, self.derivative) {
            Err(e) => Err(e),
            Ok(kernel) => Ok(
                FilterPlan {
                    kernel,
                    leading: EdgeWindow::leading(self.window_length),
                    trailing: EdgeWindow::trailing(self.data.len(), self.window_length),
                },
            ),
        }
    }
}

} // verus!
