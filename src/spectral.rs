//! Length bookkeeping of transform-based linear convolution and correlation.
use vstd::prelude::*;

verus! {

/// `2` raised to the power `k`.
pub open spec fn pow2(k: nat) -> nat
    decreases k,
{
    if k == 0 {
        1
    } else {
        2 * pow2((k - 1) as nat)
    }
}

/// `n` is a power of two.
pub open spec fn is_power_of_two(n: int) -> bool {
    exists|k: nat| pow2(k) == n
}

/// `r` is the smallest power of two that is at least `n`.
pub open spec fn is_next_power_of_two(r: int, n: int) -> bool {
    &&& is_power_of_two(r)
    &&& r >= n
    &&& forall|k: nat| pow2(k) >= n ==> r <= pow2(k)
}

/// The length of the linear convolution of sequences of lengths `a` and `b`:
/// empty when either is empty, else `a + b - 1`.
pub open spec fn linear_len(a: nat, b: nat) -> nat {
    if a == 0 || b == 0 {
        0
    } else {
        (a + b - 1) as nat
    }
}

proof fn lemma_pow2_positive(k: nat)
    ensures
        pow2(k) >= 1,
    decreases k,
{
    if k > 0 {
        lemma_pow2_positive((k - 1) as nat);
    }
}

proof fn lemma_pow2_monotone(a: nat, b: nat)
    requires
        a <= b,
    ensures
        pow2(a) <= pow2(b),
    decreases b - a,
{
    if a < b {
        lemma_pow2_monotone(a, (b - 1) as nat);
        lemma_pow2_positive((b - 1) as nat);
    }
}

/// The smallest power of two that is at least `n`; `1` when `n <= 1`.
/// A power of two is its own result. `n` may be as large as the largest
/// power of two that a `usize` holds.
pub fn next_power_of_2(n: usize) -> (r: usize)
    requires
        n <= usize::MAX / 2 + 1,
    ensures
        is_next_power_of_two(r as int, n as int),
        n <= 1 ==> r == 1,
        is_power_of_two(n as int) ==> r == n,
{
    let mut power: usize = 1;
    let ghost mut k: nat = 0;
    while power < n
        invariant
            n <= usize::MAX / 2 + 1,
            power as int == pow2(k),
            power >= 1,
            k > 0 ==> pow2((k - 1) as nat) < n,
        decreases usize::MAX - power,
    {
        power = power * 2;
        proof {
            k = k + 1;
        }
    }
    proof {
        lemma_pow2_positive(k);
        assert forall|j: nat| pow2(j) >= n implies power <= pow2(j) by {
            if j < k {
                lemma_pow2_monotone(j, (k - 1) as nat);
            } else {
                lemma_pow2_monotone(k, j);
            }
        }
        if n <= 1 {
            if k > 0 {
                lemma_pow2_positive((k - 1) as nat);
            }
        }
        if is_power_of_two(n as int) {
            let j = choose|j: nat| pow2(j) == n;
            assert(power <= pow2(j));
        }
    }
    power
}

/// How two real sequences are laid out for a transform-based linear
/// convolution or correlation: the length of the result, and the padded
/// length of the transforms, which never leaks into the result.
#[derive(Clone, Copy, Debug, PartialEq, Eq, Structural)]
pub struct SpectralPlan {
    /// Number of samples in the linear result.
    pub output_len: usize,
    /// Length to which both inputs are zero-padded before transforming.
    pub transform_len: usize,
}

impl SpectralPlan {
    /// The plan for inputs of lengths `len_a` and `len_b`: `None` when either
    /// is empty (the result is then empty); otherwise the result has
    /// `len_a + len_b - 1` samples and the transforms the smallest power of
    /// two that holds them, so circular convolution at that length equals the
    /// linear one.
    pub fn for_lengths(len_a: usize, len_b: usize) -> (r: Option<SpectralPlan>)
        requires
            len_a + len_b <= usize::MAX / 2 + 1,
        ensures
            r is None <==> (len_a == 0 || len_b == 0),
            r matches Some(p) ==> {
                &&& p.output_len == len_a + len_b - 1
                &&& is_next_power_of_two(p.transform_len as int, p.output_len as int)
            },
            linear_len(len_a as nat, len_b as nat) == match r {
                Some(p) => p.output_len as nat,
                None => 0,
            },
    {
        if len_a == 0 || len_b == 0 {
            return None;
        }
        let output_len = len_a + len_b - 1;
        let transform_len = next_power_of_2(output_len);
        Some(SpectralPlan { output_len, transform_len })
    }
}

/// Convolution, and correlation, of sequences of lengths `a` and `b` has the
/// same length as that of `b` and `a`, and is empty exactly when one of them is.
pub proof fn linear_len_symmetric(a: nat, b: nat)
    ensures
        linear_len(a, b) == linear_len(b, a),
        linear_len(a, b) == 0 <==> (a == 0 || b == 0),
        a > 0 && b > 0 ==> linear_len(a, b) >= a && linear_len(a, b) >= b,
{
}

} // verus!
