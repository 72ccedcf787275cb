//! The two edges of the signal, where no centred window is available.
//!
//! A centred window of `w` samples needs `w / 2` samples on either side, so the
//! convolution is meaningful only at positions `w / 2 .. n - w / 2` of a signal
//! of `n` samples. Each of the two edges is filled from a polynomial fitted to
//! the `w` samples nearest to it; an [`EdgeWindow`] names those samples and the
//! output positions that the fit fills.

use vstd::prelude::*;
use vstd::slice::slice_to_vec;
use crate::kernel::spec_halflen;

verus! {

/// Position `i` belongs to the leading edge of the output.
pub open spec fn in_leading(window_length: nat, i: int) -> bool {
    0 <= i < spec_halflen(window_length)
}

/// Position `i` belongs to the interior of an output of `data_len` values:
/// the window centred on `i` lies inside the signal.
pub open spec fn in_interior(data_len: nat, window_length: nat, i: int) -> bool {
    0 <= i - spec_halflen(window_length) && i + spec_halflen(window_length) < data_len
}

/// Position `i` belongs to the trailing edge of an output of `data_len` values.
pub open spec fn in_trailing(data_len: nat, window_length: nat, i: int) -> bool {
    data_len - spec_halflen(window_length) <= i < data_len
}

/// A run of samples to fit, and the run of output positions that the fit fills.
/// Both are half-open ranges of positions in the signal.
#[derive(Clone, Copy, Debug, PartialEq, Eq, Structural)]
pub struct EdgeWindow {
    /// First sample of the fit.
    pub window_start: usize,
    /// One past the last sample of the fit.
    pub window_stop: usize,
    /// First output position filled.
    pub interp_start: usize,
    /// One past the last output position filled.
    pub interp_stop: usize,
}

impl EdgeWindow {
    /// Both ranges are in order, and the positions filled lie among the
    /// samples fitted.
    pub open spec fn wf(&self) -> bool {
        self.window_start <= self.interp_start <= self.interp_stop <= self.window_stop
    }

    /// This is the window at the start of a signal: the first `window_length`
    /// samples, filling the first `window_length / 2` positions.
    pub open spec fn is_leading(&self, window_length: nat) -> bool {
        &&& self.window_start == 0
        &&& self.window_stop == window_length
        &&& self.interp_start == 0
        &&& self.interp_stop == spec_halflen(window_length)
    }

    /// This is the window at the end of a signal of `data_len` samples: the
    /// last `window_length` samples, filling the last `window_length / 2`
    /// positions.
    pub open spec fn is_trailing(&self, data_len: nat, window_length: nat) -> bool {
        &&& self.window_start == data_len - window_length
        &&& self.window_stop == data_len
        &&& self.interp_start == data_len - spec_halflen(window_length)
        &&& self.interp_stop == data_len
    }

    /// The abscissae of the fit: the samples' positions counted from the
    /// window's start.
    pub open spec fn spec_abscissae(&self) -> Seq<usize> {
        Seq::new((self.window_stop - self.window_start) as nat, |i: int| i as usize)
    }

    /// The abscissae at which the fitted polynomial is evaluated: the filled
    /// positions, counted from the window's start.
    pub open spec fn spec_eval_points(&self) -> Seq<usize> {
        Seq::new(
            (self.interp_stop - self.interp_start) as nat,
            |i: int| (self.interp_start - self.window_start + i) as usize,
        )
    }

    /// `y` with the positions that this window fills replaced by `values`.
    pub open spec fn spec_write<T>(&self, y: Seq<T>, values: Seq<T>) -> Seq<T> {
        y.subrange(0, self.interp_start as int) + values + y.subrange(
            self.interp_stop as int,
            y.len() as int,
        )
    }

    /// The window at the start of a signal.
    pub fn leading(window_length: usize) -> (edge: EdgeWindow)
        ensures
            edge.is_leading(window_length as nat),
            edge.wf(),
    {
        EdgeWindow {
            window_start: 0,
            window_stop: window_length,
            interp_start: 0,
            interp_stop: window_length / 2,
        }
    }

    /// The window at the end of a signal of `data_len` samples, which holds at
    /// least one whole window.
    pub fn trailing(data_len: usize, window_length: usize) -> (edge: EdgeWindow)
        requires
            window_length <= data_len,
        ensures
            edge.is_trailing(data_len as nat, window_length as nat),
            edge.wf(),
    {
        EdgeWindow {
            window_start: data_len - window_length,
            window_stop: data_len,
            interp_start: data_len - window_length / 2,
            interp_stop: data_len,
        }
    }

    /// Copies the samples to fit out of the signal.
    pub fn samples<T: Copy>(&self, data: &[T]) -> (window: Vec<T>)
        requires
            self.window_start <= self.window_stop <= data.len(),
        ensures
            window@ == data@.subrange(self.window_start as int, self.window_stop as int),
    {
        slice_to_vec(&data[self.window_start..self.window_stop])
    }

    /// Lists the abscissae of the samples to fit: `0, 1, 2, ...`, one per
    /// sample.
    pub fn abscissae(&self) -> (points: Vec<usize>)
        requires
            self.window_start <= self.window_stop,
        ensures
            points@ == self.spec_abscissae(),
    {
        let count: usize = self.window_stop - self.window_start;
        let mut points: Vec<usize> = Vec::new();
        let mut i: usize = 0;
        while i < count
            invariant
                i <= count,
                count == self.window_stop - self.window_start,
                points@ == self.spec_abscissae().subrange(0, i as int),
            decreases count - i,
        {
            points.push(i);
            i = i + 1;
        }
        points
    }

    /// Lists the abscissae at which the fit is evaluated, one per position
    /// filled, in order.
    pub fn eval_points(&self) -> (points: Vec<usize>)
        requires
            self.wf(),
        ensures
            points@ == self.spec_eval_points(),
    {
        let count: usize = self.interp_stop - self.interp_start;
        let first: usize = self.interp_start - self.window_start;
        let mut points: Vec<usize> = Vec::new();
        let mut i: usize = 0;
        while i < count
            invariant
                i <= count,
                self.wf(),
                count == self.interp_stop - self.interp_start,
                first == self.interp_start - self.window_start,
                points@ == self.spec_eval_points().subrange(0, i as int),
            decreases count - i,
        {
            points.push(first + i);
            i = i + 1;
        }
        points
    }

    /// Replaces the positions that this window fills by `values`, keeping
    /// everything before and after them.
    pub fn write<T: Copy>(&self, y: &mut Vec<T>, values: &[T])
        requires
            self.interp_start <= self.interp_stop <= old(y).len(),
        ensures
            final(y)@ == self.spec_write(old(y)@, values@),
    {
        let mut out: Vec<T> = Vec::new();
        append_range(&mut out, y.as_slice(), 0, self.interp_start);
        append_range(&mut out, values, 0, values.len());
        append_range(&mut out, y.as_slice(), self.interp_stop, y.len());
        assert(values@.subrange(0, values@.len() as int) == values@);
        *y = out;
    }
}

/// Appends `source[from..to]` to `out`.
fn append_range<T: Copy>(out: &mut Vec<T>, source: &[T], from: usize, to: usize)
    requires
        from <= to <= source.len(),
    ensures
        final(out)@ == old(out)@ + source@.subrange(from as int, to as int),
{
    let mut i: usize = from;
    while i < to
        invariant
            from <= i <= to <= source.len(),
            out@ == old(out)@ + source@.subrange(from as int, i as int),
        decreases to - i,
    {
        out.push(source[i]);
        i = i + 1;
    }
}

/// The leading edge, the interior and the trailing edge split the positions
/// of the output among them: when the signal holds a whole window, the three
/// ranges follow one another without gap or overlap, so every position lies in
/// exactly one of them.
pub proof fn lemma_edges_partition(data_len: nat, window_length: nat)
    requires
        window_length <= data_len,
    ensures
        spec_halflen(window_length) <= data_len - spec_halflen(window_length),
        forall|i: int|
            in_interior(data_len, window_length, i) <==> spec_halflen(window_length) <= i
                < data_len - spec_halflen(window_length),
        forall|i: int|
            0 <= i < data_len ==> (in_leading(window_length, i) || in_interior(
                data_len,
                window_length,
                i,
            ) || in_trailing(data_len, window_length, i)),
        forall|i: int|
            !(in_leading(window_length, i) && in_interior(data_len, window_length, i)),
        forall|i: int|
            !(in_leading(window_length, i) && in_trailing(data_len, window_length, i)),
        forall|i: int|
            !(in_interior(data_len, window_length, i) && in_trailing(
                data_len,
                window_length,
                i,
            )),
{
}

/// After both edges of `y` are written, every position holds exactly one
/// thing: a leading value in the leading edge, a trailing value in the
/// trailing edge, and what `y` held before everywhere else.
pub proof fn lemma_edges_written<T>(
    y: Seq<T>,
    window_length: nat,
    leading: EdgeWindow,
    lead: Seq<T>,
    trailing: EdgeWindow,
    trail: Seq<T>,
)
    requires
        window_length <= y.len(),
        leading.is_leading(window_length),
        trailing.is_trailing(y.len(), window_length),
        lead.len() == spec_halflen(window_length),
        trail.len() == spec_halflen(window_length),
    ensures
        ({
            let out = trailing.spec_write(leading.spec_write(y, lead), trail);
            &&& out.len() == y.len()
            &&& forall|i: int| in_leading(window_length, i) ==> out[i] == lead[i]
            &&& forall|i: int| in_interior(y.len(), window_length, i) ==> out[i] == y[i]
            &&& forall|i: int|
                in_trailing(y.len(), window_length, i) ==> out[i] == trail[i - (y.len()
                    - spec_halflen(window_length))]
        }),
{
}

} // verus!
