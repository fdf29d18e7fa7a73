//! The geometry of fast linear convolution: how long the transforms are, how
//! far the filter delays the signal, and how the raw product of the inverse
//! transform is aligned and normalised.
//!
//! The transforms themselves work on floating-point samples and are made by
//! the caller between the steps below.

use core::ops::Div;
use vstd::prelude::*;
use vstd::std_specs::ops::DivSpec;

verus! {

/// Why a convolution cannot be planned.
#[derive(Clone, Copy, Debug, PartialEq, Eq, Structural)]
pub enum ConvolveError {
    /// The signal has no samples.
    EmptySignal,
    /// The kernel has no taps.
    EmptyKernel,
    /// The padded length does not fit in `usize`.
    TooLong,
}

/// The lengths that one convolution of a signal with a kernel works with.
#[derive(Clone, Copy, Debug, PartialEq, Eq, Structural)]
pub struct ConvolutionPlan {
    /// Length of both zero-padded inputs and of the raw result.
    pub size: usize,
    /// Group delay of the kernel, in samples.
    pub shift: usize,
}

impl ConvolutionPlan {
    /// A plan is well formed when it is the plan of some non-empty signal and
    /// some non-empty kernel.
    pub open spec fn wf(self) -> bool {
        self.size >= 1 && 2 * self.shift <= self.size
    }

    /// The plan of a signal of `signal_len` samples and a kernel of
    /// `kernel_len` taps.
    pub open spec fn plans(self, signal_len: nat, kernel_len: nat) -> bool {
        &&& signal_len >= 1
        &&& kernel_len >= 1
        &&& self.size == signal_len + kernel_len - 1
        &&& self.shift == kernel_len / 2
    }

    /// Number of complex bins in the spectrum of a real signal of `size`
    /// samples.
    pub open spec fn spec_spectrum_len(self) -> nat {
        (self.size / 2 + 1) as nat
    }

    /// Number of samples of the corrected result that carry the convolution.
    pub open spec fn spec_valid_len(self) -> nat {
        (self.size - self.shift) as nat
    }

    /// Plans the convolution of `signal_len` samples with `kernel_len` taps.
    pub fn new(signal_len: usize, kernel_len: usize) -> (r: Result<ConvolutionPlan, ConvolveError>)
        ensures
            match r {
                Ok(plan) => plan.plans(signal_len as nat, kernel_len as nat) && plan.wf(),
                Err(ConvolveError::EmptySignal) => signal_len == 0,
                Err(ConvolveError::EmptyKernel) => signal_len > 0 && kernel_len == 0,
                Err(ConvolveError::TooLong) => signal_len > 0 && kernel_len > 0 && signal_len
                    + kernel_len - 1 > usize::MAX,
            },
    {
        if signal_len == 0 {
            return Err(ConvolveError::EmptySignal);
        }
        if kernel_len == 0 {
            return Err(ConvolveError::EmptyKernel);
        }
        if signal_len - 1 > usize::MAX - kernel_len {
            return Err(ConvolveError::TooLong);
        }
        Ok(ConvolutionPlan { size: signal_len - 1 + kernel_len, shift: kernel_len / 2 })
    }

    /// Number of complex bins that the forward transform of a padded input
    /// yields, and that the inverse transform takes.
    pub fn spectrum_len(&self) -> (n: usize)
        ensures
            n == self.spec_spectrum_len(),
            n >= 1,
    {
        self.size / 2 + 1
    }

    /// Number of leading samples of the corrected result that are meaningful;
    /// the `shift` samples behind them are stale.
    pub fn valid_len(&self) -> (n: usize)
        requires
            self.wf(),
        ensures
            n == self.spec_valid_len(),
            n >= 1,
            n + self.shift == self.size,
    {
        self.size - self.shift
    }
}

/// `v` followed by as many copies of `zero` as bring it to `size` elements;
/// `v` cut to `size` elements where it is longer.
pub open spec fn padded<T>(v: Seq<T>, size: nat, zero: T) -> Seq<T> {
    Seq::new(
        size,
        |i: int|
            if i < v.len() {
                v[i]
            } else {
                zero
            },
    )
}

/// Brings `v` to `size` elements: appends `zero` while it is shorter, drops
/// the tail where it is longer.
pub fn zero_pad<T: Copy>(v: &mut Vec<T>, size: usize, zero: T)
    ensures
        final(v)@ == padded(old(v)@, size as nat, zero),
{
    v.truncate(size);
    while v.len() < size
        invariant
            v@.len() <= size,
            old(v)@.len() <= v@.len() || v@.len() == size,
            forall|i: int| 0 <= i < v@.len() ==> v@[i] == padded(old(v)@, size as nat, zero)[i],
        decreases size - v@.len(),
    {
        v.push(zero);
    }
    assert(v@ =~= padded(old(v)@, size as nat, zero));
}

/// Aligns and normalises the raw result of the inverse transform, in place.
///
/// Sample `i` of the corrected result is raw sample `i + shift` divided by
/// `gain`, for every `i` below `raw.len() - shift`. The last `shift` samples
/// are left as they were: they are stale and the caller discards them.
pub fn correct_group_delay<T: Div<Output = T> + Copy>(raw: &mut [T], shift: usize, gain: T)
    requires
        shift <= old(raw)@.len(),
        forall|i: int| shift <= i < old(raw)@.len() ==> #[trigger] old(raw)@[i].div_req(gain),
    ensures
        final(raw)@.len() == old(raw)@.len(),
        T::obeys_div_spec() ==> forall|i: int|
            0 <= i < old(raw)@.len() - shift ==> #[trigger] final(raw)@[i] == old(raw)@[i
                + shift].div_spec(gain),
        forall|i: int|
            old(raw)@.len() - shift <= i < old(raw)@.len() ==> #[trigger] final(raw)@[i] == old(
                raw,
            )@[i],
{
    let n: usize = raw.len();
    let valid: usize = n - shift;
    let mut i: usize = 0;
    while i < valid
        invariant
            i <= valid,
            valid + shift == n,
            raw@.len() == n,
            old(raw)@.len() == n,
            forall|j: int| i <= j < n ==> raw@[j] == old(raw)@[j],
            forall|j: int| shift <= j < n ==> #[trigger] old(raw)@[j].div_req(gain),
            T::obeys_div_spec() ==> forall|j: int|
                0 <= j < i ==> #[trigger] raw@[j] == old(raw)@[j + shift].div_spec(gain),
        decreases valid - i,
    {
        raw[i] = raw[i + shift] / gain;
        i += 1;
    }
}

} // verus!
