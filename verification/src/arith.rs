use vstd::prelude::*;

verus! {

/// `n / d` rounded to the nearest integer, halves rounded up (as `f64::round` does for
/// non-negative values).
pub open spec fn round_half_up(n: int, d: int) -> int {
    (2 * n + d) / (2 * d)
}

proof fn lemma_round_half_up_parts(n: int, d: int, q: int, r: int)
    requires
        d > 0,
        n == q * d + r,
        0 <= r < d,
    ensures
        round_half_up(n, d) == if 2 * r >= d { q + 1 } else { q },
{
    let k: int = if 2 * r >= d { q + 1 } else { q };
    assert(2 * n + d == (2 * d) * k + (2 * r + d - (2 * d) * (k - q))) by (nonlinear_arith)
        requires
            n == q * d + r,
    ;
    assert(0 <= 2 * r + d - (2 * d) * (k - q) < 2 * d) by (nonlinear_arith)
        requires
            k == (if 2 * r >= d { q + 1 } else { q }),
            0 <= r < d,
    ;
    vstd::arithmetic::div_mod::lemma_fundamental_div_mod_converse(
        2 * n + d,
        2 * d,
        k,
        2 * r + d - (2 * d) * (k - q),
    );
}

/// Divides `n` by `d`, rounding to the nearest integer with halves rounded up.
pub fn round_div(n: u128, d: u128) -> (r: u128)
    requires
        d > 0,
    ensures
        r == round_half_up(n as int, d as int),
        r <= n / d + 1,
{
    let q: u128 = n / d;
    let rem: u128 = n % d;
    proof {
        vstd::arithmetic::div_mod::lemma_fundamental_div_mod(n as int, d as int);
        lemma_round_half_up_parts(n as int, d as int, q as int, rem as int);
    }
    if rem >= d - rem {
        proof {
            assert(q * d <= n);
            assert(d >= 2);
            assert(q < u128::MAX) by (nonlinear_arith)
                requires
                    q * d <= n,
                    d >= 2,
                    n <= u128::MAX,
            ;
        }
        q + 1
    } else {
        q
    }
}


/// Rounding to the nearest lands within half a step of the exact quotient:
/// `r - 1/2 <= n / d < r + 1/2` for `r = round_half_up(n, d)`.
pub proof fn law_round_half_up_is_nearest(n: int, d: int)
    requires
        d > 0,
    ensures
        (2 * round_half_up(n, d) - 1) * d <= 2 * n,
        2 * n < (2 * round_half_up(n, d) + 1) * d,
{
    let q = round_half_up(n, d);
    vstd::arithmetic::div_mod::lemma_fundamental_div_mod(2 * n + d, 2 * d);
    let m = (2 * n + d) % (2 * d);
    assert(2 * n + d == (2 * d) * q + m);
    assert(0 <= m < 2 * d);
    assert((2 * q - 1) * d <= 2 * n < (2 * q + 1) * d) by (nonlinear_arith)
        requires
            2 * n + d == (2 * d) * q + m,
            0 <= m < 2 * d,
    ;
}

} // verus!
