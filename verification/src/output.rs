//! What the finished output holds, position by position.
//!
//! Three things computed from the samples make up the output: the full
//! convolution of the signal with the interior kernel, and the values of the
//! two edge fits. The convolution is trimmed to the signal's length, then each
//! edge is written over its end of it.

use vstd::prelude::*;
use crate::convolution::lemma_trim_alignment;
use crate::convolution::spec_padding;
use crate::convolution::spec_trim;
use crate::convolution::trim_convolution;
use crate::edges::lemma_edges_partition;
use crate::edges::lemma_edges_written;
use crate::edges::in_interior;
use crate::edges::in_leading;
use crate::edges::in_trailing;
use crate::input::FilterPlan;
use crate::input::SavGolRequest;
use crate::kernel::spec_halflen;

verus! {

/// The output assembled under `plan` for a signal of `data_len` samples from
/// the full convolution `full` and the edge values `lead` and `trail`.
pub open spec fn spec_output<F>(
    plan: FilterPlan,
    data_len: nat,
    full: Seq<F>,
    lead: Seq<F>,
    trail: Seq<F>,
) -> Seq<F> {
    plan.trailing.spec_write(plan.leading.spec_write(spec_trim(full, data_len), lead), trail)
}

/// The three inputs of [`spec_output`] have the sizes that an admissible
/// request gives them: a full convolution of the signal with a kernel of
/// `window_length` coefficients, and one value per position of each edge.
pub open spec fn sized_for<T, F>(
    request: SavGolRequest<T>,
    full: Seq<F>,
    lead: Seq<F>,
    trail: Seq<F>,
) -> bool {
    &&& full.len() == request.data.len() + request.window_length - 1
    &&& lead.len() == spec_halflen(request.window_length)
    &&& trail.len() == spec_halflen(request.window_length)
}

impl FilterPlan {
    /// The plan and the three inputs of [`spec_output`] go together for a
    /// signal of `data_len` samples: the two edges follow one another inside
    /// the signal, trimming the full convolution leaves one value per sample,
    /// and each edge has one value per position that it fills.
    pub open spec fn takes(&self, data_len: nat, full_len: nat, lead_len: nat, trail_len: nat)
        -> bool {
        &&& self.leading.interp_start <= self.leading.interp_stop
        &&& self.leading.interp_stop <= self.trailing.interp_start
        &&& self.trailing.interp_start <= self.trailing.interp_stop
        &&& self.trailing.interp_stop <= data_len
        &&& data_len <= full_len
        &&& (full_len - data_len) % 2 == 0
        &&& lead_len == self.leading.interp_stop - self.leading.interp_start
        &&& trail_len == self.trailing.interp_stop - self.trailing.interp_start
    }

    /// Assembles the output: the full convolution trimmed to the signal's
    /// length, with the values of the two edge fits written over its ends.
    ///
    /// Succeeds exactly when the plan takes the inputs. The output then has
    /// one value per sample; each position filled by an edge holds that edge's
    /// value, and every other position holds the convolution's.
    pub fn assemble<F: Copy>(&self, data_len: usize, full: &[F], lead: &[F], trail: &[F]) -> (out:
        Option<Vec<F>>)
        ensures
            out is Some <==> self.takes(data_len as nat, full@.len(), lead@.len(), trail@.len()),
            out matches Some(y) ==> {
                &&& y@ == spec_output(*self, data_len as nat, full@, lead@, trail@)
                &&& y@.len() == data_len
                &&& forall|i: int|
                    self.leading.interp_start <= i < self.leading.interp_stop ==> y@[i] == lead@[i
                        - self.leading.interp_start]
                &&& forall|i: int|
                    self.trailing.interp_start <= i < self.trailing.interp_stop ==> y@[i]
                        == trail@[i - self.trailing.interp_start]
                &&& forall|i: int|
                    0 <= i < data_len && !(self.leading.interp_start <= i
                        < self.leading.interp_stop) && !(self.trailing.interp_start <= i
                        < self.trailing.interp_stop) ==> y@[i] == full@[i + spec_padding(
                        full@.len(),
                        data_len as nat,
                    )]
            },
    {
        let leading = self.leading;
        let trailing = self.trailing;
        if leading.interp_start > leading.interp_stop || leading.interp_stop
            > trailing.interp_start || trailing.interp_start > trailing.interp_stop
            || trailing.interp_stop > data_len {
            return None;
        }
        if data_len > full.len() || (full.len() - data_len) % 2 != 0 {
            return None;
        }
        if lead.len() != leading.interp_stop - leading.interp_start || trail.len()
            != trailing.interp_stop - trailing.interp_start {
            return None;
        }
        let mut y = trim_convolution(full, data_len);
        leading.write(&mut y, lead);
        trailing.write(&mut y, trail);
        Some(y)
    }
}

/// For an admissible request, the plan takes a full convolution with a kernel
/// of `window_length` coefficients and one value per edge position, so the
/// output can be assembled.
pub proof fn lemma_plan_takes<T, F>(
    request: SavGolRequest<T>,
    plan: FilterPlan,
    full: Seq<F>,
    lead: Seq<F>,
    trail: Seq<F>,
)
    requires
        request.valid(),
        plan.answers(request),
        sized_for(request, full, lead, trail),
    ensures
        plan.takes(request.data.len(), full.len(), lead.len(), trail.len()),
{
    lemma_edges_partition(request.data.len(), request.window_length);
}

/// The output of an admissible request has one value per sample.
pub proof fn lemma_output_length<T, F>(
    request: SavGolRequest<T>,
    plan: FilterPlan,
    full: Seq<F>,
    lead: Seq<F>,
    trail: Seq<F>,
)
    requires
        request.valid(),
        plan.answers(request),
        sized_for(request, full, lead, trail),
    ensures
        spec_output(plan, request.data.len(), full, lead, trail).len() == request.data.len(),
{
    lemma_trim_alignment(full, request.data.len(), request.window_length);
    lemma_edges_written(
        spec_trim(full, request.data.len()),
        request.window_length,
        plan.leading,
        lead,
        plan.trailing,
        trail,
    );
}

/// Every position of the output of an admissible request has exactly one
/// source. In the leading edge it is the leading fit, in the trailing edge the
/// trailing fit, and in the interior the convolution with the kernel centred
/// on that position.
pub proof fn lemma_output_sources<T, F>(
    request: SavGolRequest<T>,
    plan: FilterPlan,
    full: Seq<F>,
    lead: Seq<F>,
    trail: Seq<F>,
)
    requires
        request.valid(),
        plan.answers(request),
        sized_for(request, full, lead, trail),
    ensures
        ({
            let n: nat = request.data.len();
            let w: nat = request.window_length;
            let h: nat = spec_halflen(w);
            let out = spec_output(plan, n, full, lead, trail);
            &&& forall|i: int| in_leading(w, i) ==> out[i] == lead[i]
            &&& forall|i: int| in_interior(n, w, i) ==> out[i] == full[i + h]
            &&& forall|i: int| in_trailing(n, w, i) ==> out[i] == trail[i - (n - h)]
        }),
{
    lemma_trim_alignment(full, request.data.len(), request.window_length);
    lemma_edges_written(
        spec_trim(full, request.data.len()),
        request.window_length,
        plan.leading,
        lead,
        plan.trailing,
        trail,
    );
}

} // verus!
