//! Bone weights as fixed-point fractions.
//!
//! A weight is a count of millionths: `WEIGHT_ONE` stands for 1.0. The four
//! weights of a vertex are stored as they are when they already sum to one
//! within `WEIGHT_TOLERANCE`, and rescaled otherwise.

use vstd::prelude::*;

verus! {

/// The weight 1.0.
pub const WEIGHT_ONE: u32 = 1_000_000;

/// How far the sum of a vertex's weights may be from `WEIGHT_ONE`: 1e-4.
pub const WEIGHT_TOLERANCE: u32 = 100;

/// The sum of the four weights of a vertex.
pub open spec fn weight_sum(w: [u32; 4]) -> int {
    w[0] + w[1] + w[2] + w[3]
}

/// Whether a sum of weights is 1.0 within the tolerance.
pub open spec fn near_one(sum: int) -> bool {
    WEIGHT_ONE - WEIGHT_TOLERANCE <= sum <= WEIGHT_ONE + WEIGHT_TOLERANCE
}

/// The share `w / sum` of a weight in a sum, rounded down to a millionth.
pub open spec fn rescaled(w: u32, sum: int) -> int {
    (w * WEIGHT_ONE) / sum
}

/// The weights that are stored for a vertex whose influences weigh `w`.
///
/// Weights that sum to one within the tolerance are stored as they are.
/// Others are divided by their sum. Weights that are all zero cannot be
/// divided: the first influence then gets the whole weight.
pub open spec fn normalized(w: [u32; 4]) -> [u32; 4] {
    let sum = weight_sum(w);
    if near_one(sum) {
        w
    } else if sum == 0 {
        [WEIGHT_ONE, 0u32, 0u32, 0u32]
    } else {
        [
            rescaled(w[0], sum) as u32,
            rescaled(w[1], sum) as u32,
            rescaled(w[2], sum) as u32,
            rescaled(w[3], sum) as u32,
        ]
    }
}

/// A share of a sum is at most one, and the four shares of a sum add up to
/// one but for what rounding down took: less than one millionth each.
pub proof fn lemma_rescaled_sum(w0: u32, w1: u32, w2: u32, w3: u32)
    requires
        w0 + w1 + w2 + w3 > 0,
    ensures
        ({
            let sum = w0 + w1 + w2 + w3;
            &&& 0 <= rescaled(w0, sum) <= WEIGHT_ONE
            &&& 0 <= rescaled(w1, sum) <= WEIGHT_ONE
            &&& 0 <= rescaled(w2, sum) <= WEIGHT_ONE
            &&& 0 <= rescaled(w3, sum) <= WEIGHT_ONE
            &&& WEIGHT_ONE - 3 <= rescaled(w0, sum) + rescaled(w1, sum) + rescaled(w2, sum)
                + rescaled(w3, sum) <= WEIGHT_ONE
        }),
{
    let sum: int = w0 + w1 + w2 + w3;
    let one: int = WEIGHT_ONE as int;
    let q0 = (w0 * one) / sum;
    let q1 = (w1 * one) / sum;
    let q2 = (w2 * one) / sum;
    let q3 = (w3 * one) / sum;
    let r0 = (w0 * one) % sum;
    let r1 = (w1 * one) % sum;
    let r2 = (w2 * one) % sum;
    let r3 = (w3 * one) % sum;
    vstd::arithmetic::div_mod::lemma_fundamental_div_mod(w0 * one, sum);
    vstd::arithmetic::div_mod::lemma_fundamental_div_mod(w1 * one, sum);
    vstd::arithmetic::div_mod::lemma_fundamental_div_mod(w2 * one, sum);
    vstd::arithmetic::div_mod::lemma_fundamental_div_mod(w3 * one, sum);
    vstd::arithmetic::div_mod::lemma_mod_bound(w0 * one, sum);
    vstd::arithmetic::div_mod::lemma_mod_bound(w1 * one, sum);
    vstd::arithmetic::div_mod::lemma_mod_bound(w2 * one, sum);
    vstd::arithmetic::div_mod::lemma_mod_bound(w3 * one, sum);
    assert(sum * (q0 + q1 + q2 + q3) + (r0 + r1 + r2 + r3) == sum * one) by (nonlinear_arith)
        requires
            w0 * one == sum * q0 + r0,
            w1 * one == sum * q1 + r1,
            w2 * one == sum * q2 + r2,
            w3 * one == sum * q3 + r3,
            sum == w0 + w1 + w2 + w3,
    ;
    assert(one - 3 <= q0 + q1 + q2 + q3 <= one) by (nonlinear_arith)
        requires
            sum * (q0 + q1 + q2 + q3) + (r0 + r1 + r2 + r3) == sum * one,
            0 <= r0 + r1 + r2 + r3 < 4 * sum,
            sum > 0,
    ;
    assert(q0 >= 0 && q1 >= 0 && q2 >= 0 && q3 >= 0) by (nonlinear_arith)
        requires
            sum * q0 + r0 >= 0,
            sum * q1 + r1 >= 0,
            sum * q2 + r2 >= 0,
            sum * q3 + r3 >= 0,
            r0 < sum,
            r1 < sum,
            r2 < sum,
            r3 < sum,
            sum > 0,
    ;
}

/// Stored weights always sum to one within the tolerance.
pub proof fn lemma_normalized_near_one(w: [u32; 4])
    ensures
        near_one(weight_sum(normalized(w))),
{
    let sum = weight_sum(w);
    if !near_one(sum) && sum != 0 {
        lemma_rescaled_sum(w[0], w[1], w[2], w[3]);
    }
}

/// Brings the weights of one vertex to a sum of one.
pub fn normalize(w: [u32; 4]) -> (r: [u32; 4])
    ensures
        r == normalized(w),
        near_one(weight_sum(r)),
{
    let sum: u64 = w[0] as u64 + w[1] as u64 + w[2] as u64 + w[3] as u64;
    proof {
        lemma_normalized_near_one(w);
    }
    if (WEIGHT_ONE - WEIGHT_TOLERANCE) as u64 <= sum && sum <= (WEIGHT_ONE + WEIGHT_TOLERANCE) as u64 {
        w
    } else if sum == 0 {
        [WEIGHT_ONE, 0, 0, 0]
    } else {
        proof {
            lemma_rescaled_sum(w[0], w[1], w[2], w[3]);
        }
        let one: u64 = WEIGHT_ONE as u64;
        assert(w[0] * one <= 0xffff_ffff * 1_000_000);
        assert(w[1] * one <= 0xffff_ffff * 1_000_000);
        assert(w[2] * one <= 0xffff_ffff * 1_000_000);
        assert(w[3] * one <= 0xffff_ffff * 1_000_000);
        let r0: u32 = ((w[0] as u64 * one) / sum) as u32;
        let r1: u32 = ((w[1] as u64 * one) / sum) as u32;
        let r2: u32 = ((w[2] as u64 * one) / sum) as u32;
        let r3: u32 = ((w[3] as u64 * one) / sum) as u32;
        [r0, r1, r2, r3]
    }
}

} // verus!
