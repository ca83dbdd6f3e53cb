//! Small facts about truncated integer division that the blending proofs
//! lean on: division by a fixed scale commutes with addition up to one unit,
//! and the two scales 255 and 256 agree up to one unit on the range a
//! premultiplied channel can reach.

use vstd::prelude::*;

use vstd::arithmetic::div_mod::lemma_div_is_ordered;
use vstd::arithmetic::div_mod::lemma_div_multiples_vanish;
use vstd::arithmetic::div_mod::lemma_div_multiples_vanish_fancy;
use vstd::arithmetic::div_mod::lemma_fundamental_div_mod;
use vstd::arithmetic::div_mod::lemma_remainder_lower;
use vstd::arithmetic::div_mod::lemma_remainder_upper;
use vstd::arithmetic::mul::lemma_mul_inequality;
use vstd::arithmetic::mul::lemma_mul_is_commutative;
use vstd::arithmetic::mul::lemma_mul_nonnegative;

verus! {

/// Scaling by a factor of at most `k` and dividing by `k` cannot grow a
/// nonnegative value: `c * a / k <= a`, and symmetrically in the factors.
pub proof fn lemma_scale_div_le(c: int, a: int, k: int)
    requires
        0 < k,
        0 <= c <= k,
        0 <= a,
    ensures
        0 <= c * a / k <= a,
        0 <= a * c / k <= a,
{
    lemma_mul_nonnegative(c, a);
    lemma_mul_inequality(c, k, a);
    lemma_div_is_ordered(c * a, k * a, k);
    lemma_div_multiples_vanish(a, k);
    assert(c * a / k >= 0) by {
        lemma_fundamental_div_mod(c * a, k);
        lemma_remainder_upper(c * a, k);
    }
    lemma_mul_is_commutative(a, c);
}

/// Truncated division by `k` distributes over a sum of nonnegative terms up
/// to one lost unit: `x/k + y/k <= (x + y)/k <= x/k + y/k + 1`.
pub proof fn lemma_sum_div(x: int, y: int, k: int)
    requires
        0 < k,
        0 <= x,
        0 <= y,
    ensures
        x / k + y / k <= (x + y) / k <= x / k + y / k + 1,
{
    let q1 = x / k;
    let r1 = x % k;
    let q2 = y / k;
    let r2 = y % k;
    lemma_fundamental_div_mod(x, k);
    lemma_fundamental_div_mod(y, k);
    lemma_remainder_lower(x, k);
    lemma_remainder_upper(x, k);
    lemma_remainder_lower(y, k);
    lemma_remainder_upper(y, k);
    assert(x + y == k * (q1 + q2) + (r1 + r2)) by {
        assert(k * (q1 + q2) == k * q1 + k * q2) by (nonlinear_arith);
    }
    if r1 + r2 < k {
        lemma_div_multiples_vanish_fancy(q1 + q2, r1 + r2, k);
    } else {
        assert(x + y == k * (q1 + q2 + 1) + (r1 + r2 - k)) by {
            assert(k * (q1 + q2 + 1) == k * (q1 + q2) + k) by (nonlinear_arith);
        }
        lemma_div_multiples_vanish_fancy(q1 + q2 + 1, (r1 + r2 - k), k);
    }
}

/// On the range a premultiplied sum can reach, dividing by 256 in place of
/// 255 costs at most one unit: `x/256 <= x/255 <= x/256 + 1`.
pub proof fn lemma_div255_div256(x: int)
    requires
        0 <= x <= 65025,
    ensures
        x / 256 <= x / 255 <= x / 256 + 1,
{
    let q = x / 256;
    let r = x % 256;
    lemma_fundamental_div_mod(x, 256);
    lemma_remainder_lower(x, 256);
    lemma_remainder_upper(x, 256);
    assert(q <= 254) by {
        if q >= 255 {
            assert(256 * q >= 256 * 255) by (nonlinear_arith)
                requires
                    q >= 255,
            ;
        }
    }
    assert(x == 255 * q + (q + r));
    if q + r < 255 {
        lemma_div_multiples_vanish_fancy(q, q + r, 255);
    } else {
        assert(x == 255 * (q + 1) + (q + r - 255));
        lemma_div_multiples_vanish_fancy(q + 1, (q + r - 255), 255);
    }
}

/// A quotient of nonnegative values with a positive divisor is nonnegative
/// and bounded by any `c` with `x <= k * c`.
pub proof fn lemma_div_nonneg_bound(x: int, k: int, c: int)
    requires
        0 <= x,
        0 < k,
        x <= k * c,
    ensures
        0 <= x / k <= c,
{
    lemma_fundamental_div_mod(x, k);
    lemma_remainder_upper(x, k);
    lemma_div_is_ordered(x, k * c, k);
    lemma_div_multiples_vanish(c, k);
}

} // verus!
