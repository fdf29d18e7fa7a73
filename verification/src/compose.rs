//! The multi-channel composer: summing channel waveforms of one length and
//! wrapping scaled samples into signed 16-bit audio.

use core::ops::Add;
use vstd::prelude::*;
use vstd::std_specs::ops::AddSpec;

verus! {

/// `sample` wrapped into the signed 16-bit range: the one value of that range
/// that differs from `sample` by a multiple of 65536.
pub open spec fn wrapped16(sample: int) -> int {
    (sample + 32768) % 65536 - 32768
}

/// Wraps a scaled sample into signed 16-bit audio. Nothing saturates: a
/// sample outside the range comes back folded into it.
pub fn quantize(sample: i64) -> (q: i16)
    ensures
        q == wrapped16(sample as int),
        -32768 <= sample <= 32767 ==> q == sample,
{
    let low: i64 = sample & 0xffff;
    assert(low == (sample as int) % 65536 && 0 <= low < 65536) by (bit_vector)
        requires
            low == sample & 0xffff,
    ;
    if low >= 32768 {
        (low - 65536) as i16
    } else {
        low as i16
    }
}

/// Wraps every scaled sample into signed 16-bit audio, in order.
pub fn audio_buffer(scaled: &[i64]) -> (buf: Vec<i16>)
    ensures
        buf@.len() == scaled@.len(),
        forall|i: int| 0 <= i < scaled@.len() ==> #[trigger] buf@[i] == wrapped16(scaled@[i] as int),
{
    let n: usize = scaled.len();
    let mut buf: Vec<i16> = Vec::with_capacity(n);
    let mut i: usize = 0;
    while i < n
        invariant
            i <= n,
            n == scaled@.len(),
            buf@.len() == i,
            forall|j: int| 0 <= j < i ==> #[trigger] buf@[j] == wrapped16(scaled@[j] as int),
        decreases n - i,
    {
        buf.push(quantize(scaled[i]));
        i += 1;
    }
    buf
}

/// Wrapping commutes with addition: the wrapped sum of two samples is the
/// wrapped sum of their wrapped values.
pub proof fn lemma_wrapped_sum(a: int, b: int)
    ensures
        wrapped16(a + b) == wrapped16(wrapped16(a) + wrapped16(b)),
        -32768 <= wrapped16(a) <= 32767,
{
    vstd::arithmetic::div_mod::lemma_fundamental_div_mod(a + 32768, 65536);
    vstd::arithmetic::div_mod::lemma_fundamental_div_mod(b + 32768, 65536);
    let qa = (a + 32768) / 65536;
    let qb = (b + 32768) / 65536;
    let s = wrapped16(a) + wrapped16(b) + 32768;
    assert(a + b + 32768 == 65536 * (qa + qb) + s) by (nonlinear_arith)
        requires
            a + 32768 == 65536 * qa + (a + 32768) % 65536,
            b + 32768 == 65536 * qb + (b + 32768) % 65536,
            s == (a + 32768) % 65536 - 32768 + (b + 32768) % 65536 - 32768 + 32768,
    ;
    vstd::arithmetic::div_mod::lemma_mod_multiples_vanish(qa + qb, s, 65536);
}

/// Whether all channels have the length of the first. True of no channels.
pub open spec fn equal_lengths<T>(chunks: Seq<Vec<T>>) -> bool {
    forall|c: int| 0 <= c < chunks.len() ==> (#[trigger] chunks[c])@.len() == chunks[0]@.len()
}

/// Tests whether all channels have the length of the first.
pub fn same_length<T>(chunks: &[Vec<T>]) -> (b: bool)
    ensures
        b == equal_lengths(chunks@),
{
    let n: usize = chunks.len();
    let mut c: usize = 0;
    while c < n
        invariant
            c <= n,
            n == chunks@.len(),
            forall|j: int| 0 <= j < c ==> (#[trigger] chunks@[j])@.len() == chunks@[0]@.len(),
        decreases n - c,
    {
        if chunks[c].len() != chunks[0].len() {
            return false;
        }
        c += 1;
    }
    true
}

/// Sample `index` of the composite of the first `upto` channels: `zero`, to
/// which the channels' samples are added in order.
pub open spec fn channel_sum<T: Add<Output = T>>(
    chunks: Seq<Vec<T>>,
    zero: T,
    upto: nat,
    index: int,
) -> T
    decreases upto,
{
    if upto == 0 {
        zero
    } else {
        channel_sum(chunks, zero, (upto - 1) as nat, index).add_spec(chunks[upto - 1]@[index])
    }
}

/// Whether every addition that `channel_sum` makes may be computed without
/// overflow.
pub open spec fn summable<T: Add<Output = T>>(chunks: Seq<Vec<T>>, zero: T) -> bool {
    forall|c: int, index: int, acc: T|
        0 <= c < chunks.len() && 0 <= index < chunks[0]@.len() && (T::obeys_add_spec() ==> acc
            == channel_sum(chunks, zero, c as nat, index)) ==> #[trigger] acc.add_req(
            chunks[c]@[index],
        )
}

/// Sums the channels sample by sample, starting each sum from `zero`.
pub fn sum_channels<T: Add<Output = T> + Copy>(chunks: &[Vec<T>], zero: T) -> (out: Vec<T>)
    requires
        chunks@.len() > 0,
        equal_lengths(chunks@),
        summable(chunks@, zero),
    ensures
        out@.len() == chunks@[0]@.len(),
        T::obeys_add_spec() ==> forall|i: int|
            0 <= i < out@.len() ==> #[trigger] out@[i] == channel_sum(
                chunks@,
                zero,
                chunks@.len(),
                i,
            ),
{
    let len: usize = chunks[0].len();
    let count: usize = chunks.len();
    let mut out: Vec<T> = Vec::with_capacity(len);
    let mut ind: usize = 0;
    while ind < len
        invariant
            ind <= len,
            len == chunks@[0]@.len(),
            count == chunks@.len(),
            count > 0,
            equal_lengths(chunks@),
            summable(chunks@, zero),
            out@.len() == ind,
            T::obeys_add_spec() ==> forall|i: int|
                0 <= i < ind ==> #[trigger] out@[i] == channel_sum(chunks@, zero, count as nat, i),
        decreases len - ind,
    {
        let mut val: T = zero;
        let mut c: usize = 0;
        while c < count
            invariant
                c <= count,
                ind < len,
                len == chunks@[0]@.len(),
                count == chunks@.len(),
                equal_lengths(chunks@),
                summable(chunks@, zero),
                T::obeys_add_spec() ==> val == channel_sum(chunks@, zero, c as nat, ind as int),
            decreases count - c,
        {
            assert(chunks@[c as int]@.len() == len);
            val = val + chunks[c][ind];
            c += 1;
        }
        out.push(val);
        ind += 1;
    }
    out
}

} // verus!
