//! Widened multiply-then-divide on 64-bit amounts.

use vstd::prelude::*;

verus! {

/// `floor(a * b / divisor)` when the divisor is non-zero and the quotient
/// fits in 64 bits.
pub open spec fn mul_div(a: nat, b: nat, divisor: nat) -> nat {
    a * b / divisor
}

/// Computes `a * b / divisor` with a 128-bit intermediate product.
///
/// Returns `None` when the divisor is zero or the quotient does not fit in
/// a `u64`; otherwise the exact floored quotient.
pub fn mul_div_u64(a: u64, b: u64, divisor: u64) -> (res: Option<u64>)
    ensures
        res == (if divisor != 0 && mul_div(a as nat, b as nat, divisor as nat) <= u64::MAX {
            Some(mul_div(a as nat, b as nat, divisor as nat) as u64)
        } else {
            None
        }),
{
    if divisor == 0 {
        return None;
    }
    assert(a * b <= u64::MAX * u64::MAX) by (nonlinear_arith)
        requires
            a <= u64::MAX,
            b <= u64::MAX,
    ;
    let product: u128 = (a as u128) * (b as u128);
    let quotient: u128 = product / (divisor as u128);
    if quotient > u64::MAX as u128 {
        None
    } else {
        Some(quotient as u64)
    }
}

/// Division by a positive divisor keeps order.
pub proof fn lemma_div_le(a: nat, b: nat, d: nat)
    requires
        a <= b,
        d > 0,
    ensures
        a / d <= b / d,
{
    vstd::arithmetic::div_mod::lemma_div_is_ordered(a as int, b as int, d as int);
}

/// A quotient is at least `q` exactly when the dividend reaches `q * d`.
pub proof fn lemma_div_ge_iff(a: nat, d: nat, q: nat)
    requires
        d > 0,
    ensures
        a / d >= q <==> a >= q * d,
{
    vstd::arithmetic::div_mod::lemma_fundamental_div_mod(a as int, d as int);
    vstd::arithmetic::div_mod::lemma_mod_bound(a as int, d as int);
    let k = a / d;
    assert(a == d * k + a % d);
    if k >= q {
        assert(q * d <= k * d) by (nonlinear_arith)
            requires
                q <= k,
                d > 0,
        ;
        assert(d * k == k * d) by (nonlinear_arith);
    } else {
        assert((k + 1) * d <= q * d) by (nonlinear_arith)
            requires
                k + 1 <= q,
                d > 0,
        ;
        assert((k + 1) * d == d * k + d) by (nonlinear_arith);
    }
}

/// Scaling by a fraction of at most one does not enlarge.
pub proof fn lemma_fraction_le(x: nat, n: nat, d: nat)
    requires
        n <= d,
        d > 0,
    ensures
        x * n / d <= x,
{
    assert(x * n <= x * d) by (nonlinear_arith)
        requires
            n <= d,
    ;
    lemma_div_le(x * n, x * d, d);
    vstd::arithmetic::div_mod::lemma_div_multiples_vanish(x as int, d as int);
    assert(x * d == d * x) by (nonlinear_arith);
}

} // verus!
