//! Operations on sample vectors.

use core::ops::{Div, Mul};
use vstd::prelude::*;
use vstd::std_specs::ops::{DivSpec, MulSpec};

verus! {

/// Multiplies `one` by `two`, element by element, in place.
pub fn multiply<T: Mul<Output = T> + Copy>(one: &mut [T], two: &[T])
    requires
        old(one)@.len() == two@.len(),
        forall|i: int| 0 <= i < two@.len() ==> #[trigger] old(one)@[i].mul_req(two@[i]),
    ensures
        final(one)@.len() == old(one)@.len(),
        T::obeys_mul_spec() ==> forall|i: int|
            0 <= i < two@.len() ==> #[trigger] final(one)@[i] == old(one)@[i].mul_spec(two@[i]),
{
    let n: usize = one.len();
    let mut i: usize = 0;
    while i < n
        invariant
            i <= n,
            n == two@.len(),
            one@.len() == n,
            forall|j: int| i <= j < n ==> one@[j] == old(one)@[j],
            forall|j: int| 0 <= j < n ==> #[trigger] old(one)@[j].mul_req(two@[j]),
            T::obeys_mul_spec() ==> forall|j: int|
                0 <= j < i ==> #[trigger] one@[j] == old(one)@[j].mul_spec(two@[j]),
        decreases n - i,
    {
        one[i] = one[i] * two[i];
        i += 1;
    }
}

/// What `repeat` makes of `v`: each element held for `desired_len / v.len()`
/// places, in order, and the last element held for whatever is left.
pub open spec fn stretched<T>(v: Seq<T>, desired_len: nat) -> Seq<T>
    recommends
        v.len() > 0,
{
    let per_elem = desired_len as int / v.len() as int;
    Seq::new(
        desired_len,
        |i: int|
            if i < per_elem * v.len() {
                v[i / per_elem]
            } else {
                v[v.len() - 1]
            },
    )
}

proof fn lemma_held_index(j: int, r: int, per_elem: int, len: int)
    requires
        0 <= j < len,
        0 <= r < per_elem,
    ensures
        (j * per_elem + r) / per_elem == j,
        j * per_elem + r < per_elem * len,
{
    vstd::arithmetic::div_mod::lemma_fundamental_div_mod_converse(j * per_elem + r, per_elem, j, r);
    assert((j + 1) * per_elem <= len * per_elem) by (nonlinear_arith)
        requires
            j + 1 <= len,
            per_elem > 0,
    ;
    assert((j + 1) * per_elem == j * per_elem + per_elem) by (nonlinear_arith);
    assert(len * per_elem == per_elem * len) by (nonlinear_arith);
}

/// Sample-and-hold upsampling of `v` to `desired_len` samples.
pub fn repeat<T: Copy>(v: &[T], desired_len: usize) -> (out: Vec<T>)
    requires
        v@.len() > 0,
    ensures
        out@ == stretched(v@, desired_len as nat),
{
    let len: usize = v.len();
    let per_elem: usize = desired_len / len;
    let remainder: usize = desired_len % len;
    let ghost want = stretched(v@, desired_len as nat);
    proof {
        vstd::arithmetic::div_mod::lemma_fundamental_div_mod(desired_len as int, len as int);
    }
    let mut out: Vec<T> = Vec::with_capacity(desired_len);
    let mut j: usize = 0;
    while j < len
        invariant
            j <= len,
            len == v@.len(),
            len > 0,
            per_elem == desired_len as int / len as int,
            desired_len == len * per_elem + remainder,
            want == stretched(v@, desired_len as nat),
            out@.len() == j * per_elem,
            forall|k: int| 0 <= k < out@.len() ==> out@[k] == want[k],
        decreases len - j,
    {
        let mut r: usize = 0;
        while r < per_elem
            invariant
                j < len,
                r <= per_elem,
                len == v@.len(),
                per_elem == desired_len as int / len as int,
                desired_len == len * per_elem + remainder,
                want == stretched(v@, desired_len as nat),
                out@.len() == j * per_elem + r,
                forall|k: int| 0 <= k < out@.len() ==> out@[k] == want[k],
            decreases per_elem - r,
        {
            proof {
                lemma_held_index(j as int, r as int, per_elem as int, len as int);
            }
            out.push(v[j]);
            r += 1;
        }
        proof {
            assert((j + 1) * per_elem == j * per_elem + per_elem) by (nonlinear_arith);
        }
        j += 1;
    }
    let mut r: usize = 0;
    while r < remainder
        invariant
            r <= remainder,
            len == v@.len(),
            len > 0,
            per_elem == desired_len as int / len as int,
            desired_len == len * per_elem + remainder,
            want == stretched(v@, desired_len as nat),
            out@.len() == len * per_elem + r,
            forall|k: int| 0 <= k < out@.len() ==> out@[k] == want[k],
        decreases remainder - r,
    {
        proof {
            assert(len * per_elem == per_elem * len) by (nonlinear_arith);
        }
        out.push(v[len - 1]);
        r += 1;
    }
    assert(out@ =~= want);
    out
}

/// Divides every element of `taps` by `total`, in place. With `total` the
/// sum of the taps, this scales a kernel to unit gain.
pub fn normalize<T: Div<Output = T> + Copy>(taps: &mut [T], total: T)
    requires
        forall|i: int| 0 <= i < old(taps)@.len() ==> #[trigger] old(taps)@[i].div_req(total),
    ensures
        final(taps)@.len() == old(taps)@.len(),
        T::obeys_div_spec() ==> forall|i: int|
            0 <= i < old(taps)@.len() ==> #[trigger] final(taps)@[i] == old(taps)@[i].div_spec(
                total,
            ),
{
    let n: usize = taps.len();
    let mut i: usize = 0;
    while i < n
        invariant
            i <= n,
            taps@.len() == n,
            old(taps)@.len() == n,
            forall|j: int| i <= j < n ==> taps@[j] == old(taps)@[j],
            forall|j: int| 0 <= j < n ==> #[trigger] old(taps)@[j].div_req(total),
            T::obeys_div_spec() ==> forall|j: int|
                0 <= j < i ==> #[trigger] taps@[j] == old(taps)@[j].div_spec(total),
        decreases n - i,
    {
        taps[i] = taps[i] / total;
        i += 1;
    }
}

/// Tabulates `func` at the grid places `0, 1, .., size - 1`, in order. The
/// caller's `func` turns a place into its grid point and evaluates there.
pub fn generate<T, F: Fn(usize) -> T>(func: F, size: usize) -> (buf: Vec<T>)
    requires
        forall|i: usize| i < size ==> func.requires((i,)),
    ensures
        buf@.len() == size,
        forall|i: usize| i < size ==> func.ensures((i,), #[trigger] buf@[i as int]),
{
    let mut buf: Vec<T> = Vec::with_capacity(size);
    let mut i: usize = 0;
    while i < size
        invariant
            i <= size,
            buf@.len() == i,
            forall|j: usize| j < size ==> func.requires((j,)),
            forall|j: usize| j < i ==> func.ensures((j,), #[trigger] buf@[j as int]),
        decreases size - i,
    {
        buf.push(func(i));
        i += 1;
    }
    buf
}

} // verus!
