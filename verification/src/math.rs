//! Integer arithmetic underlying the pool: protocol-fee extraction and the
//! constant-product pricing formula, with the bounds every caller relies on.

use vstd::prelude::*;
use vstd::arithmetic::div_mod::{
    lemma_fundamental_div_mod, lemma_div_is_ordered, lemma_div_multiples_vanish,
    lemma_div_pos_is_pos, lemma_remainder_upper,
};
use vstd::arithmetic::mul::{lemma_mul_inequality, lemma_mul_is_commutative};

verus! {

/// Fees are expressed in basis points: parts per `FEE_DENOM`.
pub const FEE_DENOM: u128 = 10000;

/// Protocol fee retained from a swap input, rounded down.
pub open spec fn spec_fee(amount: int, fee_bps: int) -> int {
    amount * fee_bps / (FEE_DENOM as int)
}

/// Constant-product pricing: the amount of the opposing reserve bought by
/// `net_input` against reserves `reserve_in` / `reserve_out`, rounded down.
pub open spec fn spec_cp_output(net_input: int, reserve_in: int, reserve_out: int) -> int {
    net_input * reserve_out / (reserve_in + net_input)
}

/// The smaller of two values.
pub open spec fn spec_min(a: int, b: int) -> int {
    if a <= b {
        a
    } else {
        b
    }
}

/// The fee never exceeds the amount it is charged on.
pub proof fn lemma_fee_bounds(amount: int, fee_bps: int)
    requires
        0 <= amount,
        0 <= fee_bps <= FEE_DENOM,
    ensures
        0 <= spec_fee(amount, fee_bps) <= amount,
{
    lemma_mul_inequality(fee_bps, FEE_DENOM as int, amount);
    lemma_mul_is_commutative(amount, fee_bps);
    lemma_mul_is_commutative(amount, FEE_DENOM as int);
    lemma_div_is_ordered(amount * fee_bps, amount * (FEE_DENOM as int), FEE_DENOM as int);
    lemma_div_multiples_vanish(amount, FEE_DENOM as int);
    if amount * fee_bps > 0 {
        lemma_div_pos_is_pos(amount * fee_bps, FEE_DENOM as int);
    } else {
        vstd::arithmetic::mul::lemma_mul_nonnegative(amount, fee_bps);
        assert(amount * fee_bps == 0);
    }
}

/// The constant-product bound: the quoted output times the grown input-side
/// reserve never exceeds the input's claim on the output-side reserve, and
/// the output never exceeds the output-side reserve itself.  With both
/// reserves funded, the output is strictly below the output-side reserve.
pub proof fn lemma_cp_output_bounds(net_input: int, reserve_in: int, reserve_out: int)
    requires
        0 <= net_input,
        0 <= reserve_in,
        0 <= reserve_out,
        reserve_in + net_input > 0,
    ensures
        0 <= spec_cp_output(net_input, reserve_in, reserve_out),
        spec_cp_output(net_input, reserve_in, reserve_out) * (reserve_in + net_input) <= net_input
            * reserve_out,
        spec_cp_output(net_input, reserve_in, reserve_out) <= reserve_out,
        reserve_in > 0 && reserve_out > 0 ==> spec_cp_output(net_input, reserve_in, reserve_out)
            < reserve_out,
{
    let d = reserve_in + net_input;
    let x = net_input * reserve_out;
    let q = x / d;
    vstd::arithmetic::mul::lemma_mul_nonnegative(net_input, reserve_out);
    if x > 0 {
        lemma_div_pos_is_pos(x, d);
    } else {
        assert(q == 0) by {
            lemma_fundamental_div_mod(0int, d);
            lemma_div_is_ordered(0int, x, d);
            lemma_div_is_ordered(x, 0int, d);
        }
    }
    assert(q * d <= x) by {
        lemma_fundamental_div_mod(x, d);
        lemma_remainder_upper(x, d);
        lemma_mul_is_commutative(d, q);
    }
    assert(q <= reserve_out) by {
        lemma_mul_inequality(net_input, d, reserve_out);
        lemma_div_is_ordered(x, d * reserve_out, d);
        lemma_mul_is_commutative(d, reserve_out);
        lemma_div_multiples_vanish(reserve_out, d);
    }
    if reserve_in > 0 && reserve_out > 0 {
        assert(x < d * reserve_out) by {
            vstd::arithmetic::mul::lemma_mul_strict_inequality(net_input, d, reserve_out);
        }
        assert(q < reserve_out) by {
            if q >= reserve_out {
                lemma_mul_inequality(reserve_out, q, d);
                lemma_mul_is_commutative(reserve_out, d);
                lemma_mul_is_commutative(q, d);
            }
        }
    }
}

/// A floor-divided quotient times its divisor stays below the dividend.
pub proof fn lemma_div_mul_le(x: int, d: int)
    requires
        0 <= x,
        0 < d,
    ensures
        (x / d) * d <= x,
        0 <= x / d,
{
    lemma_fundamental_div_mod(x, d);
    lemma_remainder_upper(x, d);
    lemma_mul_is_commutative(d, x / d);
    if x > 0 {
        lemma_div_pos_is_pos(x, d);
    } else {
        lemma_fundamental_div_mod(0int, d);
        lemma_div_is_ordered(0int, x, d);
        lemma_div_is_ordered(x, 0int, d);
    }
}

} // verus!
