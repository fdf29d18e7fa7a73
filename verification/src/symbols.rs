//! The symbol generator: a deterministic test-pattern source that squares its
//! state modulo a fixed constant. It is not a source of unpredictable numbers.

use vstd::prelude::*;
use vstd::string::*;

verus! {

/// The modulus of the generator's state.
pub const PQ: u64 = 1754338473;

/// State `i` of the generator started from `seed`: the seed squared modulo
/// `PQ`, then squared modulo `PQ` again `i` times.
pub open spec fn bbs_state(seed: nat, i: nat) -> nat
    decreases i,
{
    if i == 0 {
        (seed * seed) % (PQ as nat)
    } else {
        let prev = bbs_state(seed, (i - 1) as nat);
        (prev * prev) % (PQ as nat)
    }
}

/// The first `count` states of the generator started from `seed`, each
/// reduced modulo `max`.
pub open spec fn symbol_stream(count: nat, seed: nat, max: nat) -> Seq<u32> {
    Seq::new(count, |i: int| (bbs_state(seed, i as nat) % max) as u32)
}

/// Every state is below `PQ`.
pub proof fn lemma_state_bounded(seed: nat, i: nat)
    ensures
        bbs_state(seed, i) < PQ,
    decreases i,
{
    if i > 0 {
        lemma_state_bounded(seed, (i - 1) as nat);
    }
}

/// Seed 0 degenerates: every state, and so every symbol, is 0.
pub proof fn lemma_zero_seed(i: nat, max: nat)
    requires
        max > 0,
    ensures
        bbs_state(0, i) == 0,
        bbs_state(0, i) % max == 0,
    decreases i,
{
    if i > 0 {
        lemma_zero_seed((i - 1) as nat, max);
    }
}

proof fn lemma_square_fits(state: u64)
    requires
        state < PQ,
    ensures
        state * state <= u64::MAX,
{
    assert(state * state <= 1754338472 * 1754338472) by (nonlinear_arith)
        requires
            state <= 1754338472,
    ;
}

proof fn lemma_seed_square_fits(seed: u64)
    ensures
        seed * seed <= u128::MAX,
{
    assert(seed * seed <= 0xffff_ffff_ffff_ffff * 0xffff_ffff_ffff_ffff) by (nonlinear_arith)
        requires
            seed <= 0xffff_ffff_ffff_ffff,
    ;
}

/// Generates `count` symbols below `max` from `seed`.
///
/// The result depends on the three arguments alone, so equal arguments give
/// equal streams.
pub fn blumblumshub(count: u32, seed: u64, max: u32) -> (v: Vec<u32>)
    requires
        max > 0,
    ensures
        v@ == symbol_stream(count as nat, seed as nat, max as nat),
        v@.len() == count,
        forall|i: int| 0 <= i < v@.len() ==> v@[i] < max,
        seed == 0 ==> forall|i: int| 0 <= i < v@.len() ==> v@[i] == 0,
{
    let n: usize = count as usize;
    let mut v: Vec<u32> = Vec::with_capacity(n);
    proof {
        lemma_seed_square_fits(seed);
        lemma_state_bounded(seed as nat, 0);
    }
    let mut state: u64 = ((seed as u128 * seed as u128) % (PQ as u128)) as u64;
    let mut i: usize = 0;
    while i < n
        invariant
            i <= n,
            n == count,
            max > 0,
            v@.len() == i,
            state == bbs_state(seed as nat, i as nat),
            state < PQ,
            forall|j: int|
                0 <= j < i ==> v@[j] == (bbs_state(seed as nat, j as nat) % (max as nat)) as u32,
            forall|j: int| 0 <= j < i ==> v@[j] < max,
            seed == 0 ==> forall|j: int| 0 <= j < i ==> v@[j] == 0,
        decreases n - i,
    {
        proof {
            lemma_square_fits(state);
            lemma_state_bounded(seed as nat, (i + 1) as nat);
            if seed == 0 {
                lemma_zero_seed(i as nat, max as nat);
            }
        }
        v.push((state % (max as u64)) as u32);
        state = (state * state) % PQ;
        i += 1;
    }
    assert(v@ =~= symbol_stream(count as nat, seed as nat, max as nat));
    v
}

/// The character of one decimal digit.
pub open spec fn digit_char(d: nat) -> char
    recommends
        d < 10,
{
    if d == 0 {
        '0'
    } else if d == 1 {
        '1'
    } else if d == 2 {
        '2'
    } else if d == 3 {
        '3'
    } else if d == 4 {
        '4'
    } else if d == 5 {
        '5'
    } else if d == 6 {
        '6'
    } else if d == 7 {
        '7'
    } else if d == 8 {
        '8'
    } else {
        '9'
    }
}

/// `n` written in decimal, without leading zeros.
pub open spec fn decimal(n: nat) -> Seq<char>
    decreases n,
{
    if n < 10 {
        seq![digit_char(n)]
    } else {
        decimal(n / 10).push(digit_char(n % 10))
    }
}

/// The symbols written in decimal, each with a space in front of it.
pub open spec fn joined(t: Seq<u32>) -> Seq<char>
    decreases t.len(),
{
    if t.len() == 0 {
        Seq::empty()
    } else {
        joined(t.drop_last()) + seq![' '] + decimal(t.last() as nat)
    }
}

fn digit_str(d: u32) -> (s: &'static str)
    requires
        d < 10,
    ensures
        s@ == seq![digit_char(d as nat)],
{
    proof {
        reveal_strlit("0");
        reveal_strlit("1");
        reveal_strlit("2");
        reveal_strlit("3");
        reveal_strlit("4");
        reveal_strlit("5");
        reveal_strlit("6");
        reveal_strlit("7");
        reveal_strlit("8");
        reveal_strlit("9");
    }
    let s: &'static str = match d {
        0 => "0",
        1 => "1",
        2 => "2",
        3 => "3",
        4 => "4",
        5 => "5",
        6 => "6",
        7 => "7",
        8 => "8",
        _ => "9",
    };
    assert(s@ =~= seq![digit_char(d as nat)]);
    s
}

fn push_decimal(text: &mut String, n: u32)
    ensures
        final(text)@ == old(text)@ + decimal(n as nat),
    decreases n,
{
    if n >= 10 {
        push_decimal(text, n / 10);
    }
    text.append(digit_str(n % 10));
    assert(text@ =~= old(text)@ + decimal(n as nat));
}

/// Writes the symbols in decimal, each with a space in front of it.
pub fn join(t: &[u32]) -> (text: String)
    ensures
        text@ == joined(t@),
{
    let mut text = String::new();
    let n: usize = t.len();
    let mut i: usize = 0;
    while i < n
        invariant
            i <= n,
            n == t@.len(),
            text@ == joined(t@.take(i as int)),
        decreases n - i,
    {
        proof {
            reveal_strlit(" ");
            assert(t@.take(i + 1).drop_last() =~= t@.take(i as int));
        }
        text.append(" ");
        push_decimal(&mut text, t[i]);
        assert(text@ =~= joined(t@.take(i + 1)));
        i += 1;
    }
    assert(t@.take(n as int) =~= t@);
    text
}

} // verus!
