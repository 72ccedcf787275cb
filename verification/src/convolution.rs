//! Cutting the full convolution back to the length of the signal.
//!
//! Convolving `n` samples with a kernel of `k` coefficients yields
//! `n + k - 1` values. The filter keeps the `n` in the middle: for an odd
//! kernel, value `i` of what is kept is value `i + k / 2` of the full
//! convolution, the one for which the kernel is centred on sample `i`.

use vstd::prelude::*;
use vstd::slice::slice_to_vec;

verus! {

/// The number of values dropped from each end of a full convolution of
/// `full_len` values for a signal of `data_len` samples.
pub open spec fn spec_padding(full_len: nat, data_len: nat) -> nat {
    ((full_len - data_len) / 2) as nat
}

/// The middle of `full`, with the padding for `data_len` samples dropped from
/// both ends.
pub open spec fn spec_trim<T>(full: Seq<T>, data_len: nat) -> Seq<T> {
    let padding: nat = spec_padding(full.len(), data_len);
    full.subrange(padding as int, full.len() - padding)
}

/// With an odd kernel the trimmed convolution has one value per sample, and
/// value `i` is the full convolution's value `i + kernel_len / 2`.
pub proof fn lemma_trim_alignment<T>(full: Seq<T>, data_len: nat, kernel_len: nat)
    requires
        kernel_len % 2 == 1,
        full.len() == data_len + kernel_len - 1,
    ensures
        spec_padding(full.len(), data_len) == kernel_len / 2,
        spec_trim(full, data_len).len() == data_len,
        forall|i: int|
            0 <= i < data_len ==> #[trigger] spec_trim(full, data_len)[i] == full[i + kernel_len
                / 2],
{
}

/// Drops the padding from both ends of a full convolution.
///
/// `full` holds the convolution of a signal of `data_len` samples with some
/// kernel, so it is at least as long as the signal.
pub fn trim_convolution<T: Copy>(full: &[T], data_len: usize) -> (trimmed: Vec<T>)
    requires
        data_len <= full.len(),
    ensures
        trimmed@ == spec_trim(full@, data_len as nat),
{
    let padding: usize = (full.len() - data_len) / 2;
    slice_to_vec(&full[padding..full.len() - padding])
}

} // verus!
