//! Powers of two.
use vstd::arithmetic::logarithm::*;
use vstd::arithmetic::power2::*;
use vstd::prelude::*;

verus! {

/// The product of two powers of two is a power of two.
pub proof fn lemma_pow2_product(a: int, b: int)
    requires
        is_pow2(a),
        is_pow2(b),
    ensures
        is_pow2(a * b),
    decreases a,
{
    reveal(is_pow2);
    if a != 1 {
        lemma_pow2_product(a / 2, b);
        assert(a * b == 2 * ((a / 2) * b)) by (nonlinear_arith)
            requires
                a % 2 == 0,
        ;
    }
}

/// A power of two is two raised to its binary logarithm.
pub proof fn lemma_pow2_of_log2(n: int)
    requires
        is_pow2(n),
    ensures
        log(2, n) >= 0,
        pow2(log(2, n) as nat) == n,
    decreases n,
{
    reveal(is_pow2);
    if n == 1 {
        lemma_log0(2, 1);
        lemma2_to64();
    } else {
        lemma_pow2_of_log2(n / 2);
        lemma_log_s(2, n);
        lemma_pow2_unfold(log(2, n) as nat);
    }
}

/// Tells whether `n` is a power of two.
pub fn is_power_of_two(n: usize) -> (b: bool)
    ensures
        b == is_pow2(n as int),
{
    if n == 0 {
        proof {
            reveal(is_pow2);
        }
        return false;
    }
    let mut m: usize = n;
    while m % 2 == 0
        invariant
            m >= 1,
            is_pow2(m as int) == is_pow2(n as int),
        decreases m,
    {
        proof {
            reveal(is_pow2);
        }
        m = m / 2;
    }
    proof {
        reveal(is_pow2);
    }
    m == 1
}

} // verus!
