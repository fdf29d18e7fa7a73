//! The exact part of one channel's modulator: framing the symbol stream,
//! mapping symbols to constellation phases, sizing the upsampled branches and
//! mixing the shaped branches onto the carrier.
//!
//! Angles are kept as counts of eighth turns; the caller takes their cosine
//! and sine, and evaluates the carrier.

use core::ops::{Add, Mul};
use vstd::prelude::*;
use vstd::std_specs::ops::{AddSpec, MulSpec};

verus! {

/// Number of zero symbols sent ahead of every stream.
pub const HEADER_LEN: usize = 8;

/// The stream as it is modulated: the all-zero header, then `symbols`.
pub open spec fn framed(symbols: Seq<u32>) -> Seq<u32> {
    Seq::new(HEADER_LEN as nat, |i: int| 0u32) + symbols
}

/// Puts the header in front of `symbols`.
pub fn with_header(symbols: &[u32]) -> (out: Vec<u32>)
    ensures
        out@ == framed(symbols@),
{
    let mut out: Vec<u32> = Vec::new();
    let mut i: usize = 0;
    while i < HEADER_LEN
        invariant
            i <= HEADER_LEN,
            out@.len() == i,
            forall|j: int| 0 <= j < i ==> out@[j] == 0,
        decreases HEADER_LEN - i,
    {
        out.push(0);
        i += 1;
    }
    let n: usize = symbols.len();
    let mut k: usize = 0;
    while k < n
        invariant
            k <= n,
            n == symbols@.len(),
            out@.len() == HEADER_LEN + k,
            forall|j: int| 0 <= j < HEADER_LEN ==> out@[j] == 0,
            forall|j: int| 0 <= j < k ==> out@[HEADER_LEN + j] == symbols@[j],
        decreases n - k,
    {
        out.push(symbols[k]);
        k += 1;
    }
    assert(out@ =~= framed(symbols@));
    out
}

/// A constellation point: the angle `quadrant` quarter turns, plus an eighth
/// turn where `rotated` is set.
#[derive(Clone, Copy, Debug, PartialEq, Eq, Structural)]
pub struct Phase {
    /// Quarter turns, below 4.
    pub quadrant: u8,
    /// Whether the point is turned by a further eighth turn.
    pub rotated: bool,
}

impl Phase {
    /// The angle in eighth turns, below 8.
    pub open spec fn eighths(self) -> nat {
        (2 * self.quadrant + if self.rotated {
            1nat
        } else {
            0nat
        }) as nat
    }
}

/// The phase of `symbol` at place `index` of the framed stream: the symbol
/// modulo 4 in quarter turns; in offset mode every even place is rotated.
pub open spec fn phase_of(symbol: u32, index: nat, offset: bool) -> Phase {
    Phase { quadrant: (symbol % 4) as u8, rotated: offset && index % 2 == 0 }
}

/// Maps one symbol to its constellation point.
pub fn symbol_phase(symbol: u32, index: usize, offset: bool) -> (p: Phase)
    ensures
        p == phase_of(symbol, index as nat, offset),
        p.quadrant < 4,
        p.eighths() < 8,
{
    Phase { quadrant: (symbol % 4) as u8, rotated: offset && index % 2 == 0 }
}

/// Maps every symbol of a stream to its constellation point.
pub fn constellation(symbols: &[u32], offset: bool) -> (out: Vec<Phase>)
    ensures
        out@.len() == symbols@.len(),
        forall|i: int|
            0 <= i < symbols@.len() ==> #[trigger] out@[i] == phase_of(
                symbols@[i],
                i as nat,
                offset,
            ),
        forall|i: int| 0 <= i < out@.len() ==> (#[trigger] out@[i]).quadrant < 4,
{
    let n: usize = symbols.len();
    let mut out: Vec<Phase> = Vec::with_capacity(n);
    let mut i: usize = 0;
    while i < n
        invariant
            i <= n,
            n == symbols@.len(),
            out@.len() == i,
            forall|j: int|
                0 <= j < i ==> #[trigger] out@[j] == phase_of(symbols@[j], j as nat, offset),
            forall|j: int| 0 <= j < i ==> (#[trigger] out@[j]).quadrant < 4,
        decreases n - i,
    {
        out.push(symbol_phase(symbols[i], i, offset));
        i += 1;
    }
    out
}

/// Number of samples that the header takes at `sample_rate` samples and
/// `baud_rate` symbols per second: `HEADER_LEN / baud_rate * sample_rate`,
/// rounded down. There is none where the baud rate is 0 or the count does
/// not fit in `usize`.
pub open spec fn header_samples(sample_rate: nat, baud_rate: nat) -> Option<usize> {
    if baud_rate > 0 && (HEADER_LEN * sample_rate) / (baud_rate as int) <= usize::MAX {
        Some(((HEADER_LEN * sample_rate) / (baud_rate as int)) as usize)
    } else {
        None
    }
}

/// Computes the number of samples that the header takes.
pub fn header_sample_count(sample_rate: usize, baud_rate: usize) -> (r: Option<usize>)
    ensures
        r == header_samples(sample_rate as nat, baud_rate as nat),
{
    if baud_rate == 0 {
        return None;
    }
    let total: u128 = HEADER_LEN as u128 * sample_rate as u128;
    let count: u128 = total / (baud_rate as u128);
    if count > usize::MAX as u128 {
        None
    } else {
        Some(count as usize)
    }
}

/// Sample `n` of the passband waveform: the in-phase branch on the carrier's
/// sine plus the quadrature branch on its cosine.
pub open spec fn mixed<T: Mul<Output = T> + Add<Output = T>>(
    i_sample: T,
    q_sample: T,
    sin: T,
    cos: T,
) -> T {
    sin.mul_spec(i_sample).add_spec(cos.mul_spec(q_sample))
}

/// Whether `mixed` may be computed on these four values without overflow.
pub open spec fn mixable<T: Mul<Output = T> + Add<Output = T>>(
    i_sample: T,
    q_sample: T,
    sin: T,
    cos: T,
) -> bool {
    &&& sin.mul_req(i_sample)
    &&& cos.mul_req(q_sample)
    &&& forall|a: T, b: T|
        (T::obeys_mul_spec() ==> a == sin.mul_spec(i_sample) && b == cos.mul_spec(q_sample))
            ==> #[trigger] a.add_req(b)
}

/// Mixes the shaped branches onto the carrier, in place of the in-phase
/// branch: `i_branch[n]` becomes
/// `carrier_sin[n] * i_branch[n] + carrier_cos[n] * q_branch[n]`.
pub fn quadrature_mix<T: Mul<Output = T> + Add<Output = T> + Copy>(
    i_branch: &mut [T],
    q_branch: &[T],
    carrier_sin: &[T],
    carrier_cos: &[T],
)
    requires
        q_branch@.len() == old(i_branch)@.len(),
        carrier_sin@.len() == old(i_branch)@.len(),
        carrier_cos@.len() == old(i_branch)@.len(),
        forall|n: int|
            0 <= n < q_branch@.len() ==> mixable(
                #[trigger] old(i_branch)@[n],
                q_branch@[n],
                carrier_sin@[n],
                carrier_cos@[n],
            ),
    ensures
        final(i_branch)@.len() == old(i_branch)@.len(),
        T::obeys_mul_spec() && T::obeys_add_spec() ==> forall|n: int|
            0 <= n < q_branch@.len() ==> #[trigger] final(i_branch)@[n] == mixed(
                old(i_branch)@[n],
                q_branch@[n],
                carrier_sin@[n],
                carrier_cos@[n],
            ),
{
    let len: usize = i_branch.len();
    let mut n: usize = 0;
    while n < len
        invariant
            n <= len,
            i_branch@.len() == len,
            old(i_branch)@.len() == len,
            q_branch@.len() == len,
            carrier_sin@.len() == len,
            carrier_cos@.len() == len,
            forall|j: int| n <= j < len ==> i_branch@[j] == old(i_branch)@[j],
            forall|j: int|
                0 <= j < len ==> mixable(
                    #[trigger] old(i_branch)@[j],
                    q_branch@[j],
                    carrier_sin@[j],
                    carrier_cos@[j],
                ),
            T::obeys_mul_spec() && T::obeys_add_spec() ==> forall|j: int|
                0 <= j < n ==> #[trigger] i_branch@[j] == mixed(
                    old(i_branch)@[j],
                    q_branch@[j],
                    carrier_sin@[j],
                    carrier_cos@[j],
                ),
        decreases len - n,
    {
        assert(mixable(old(i_branch)@[n as int], q_branch@[n as int], carrier_sin@[n as int], carrier_cos@[n as int]));
        let im: T = carrier_sin[n] * i_branch[n];
        let re: T = carrier_cos[n] * q_branch[n];
        i_branch[n] = im + re;
        n += 1;
    }
}

} // verus!
