//! The liquidity engine: proportional deposit of both reserves against
//! minted shares, and the inverse withdrawal triggered by the share ledger.

use vstd::prelude::*;
use vstd::arithmetic::div_mod::{
    lemma_div_is_ordered, lemma_div_multiples_vanish, lemma_fundamental_div_mod_converse,
    lemma_multiply_divide_lt,
};
use vstd::arithmetic::mul::{
    lemma_mul_inequality, lemma_mul_is_commutative, lemma_mul_nonnegative,
    lemma_mul_strict_inequality, lemma_mul_is_distributive_add,
};
use crate::math::{spec_min, lemma_div_mul_le};
use crate::state::State;
use crate::msg::{PoolError, Instruction};

verus! {

/// A deposit's excess over the consumed amounts is refunded only when it
/// exceeds this dust threshold (a configurable policy constant).
pub const DUST_REFUND_THRESHOLD: u128 = 2;

/// Shares the base-asset deposit alone would justify.
pub open spec fn spec_share_erth(st: State, amount_erth: int) -> int {
    amount_erth * st.total_shares / st.token_erth_reserve as int
}

/// Shares the quote-asset deposit alone would justify.
pub open spec fn spec_share_b(st: State, amount_b: int) -> int {
    amount_b * st.total_shares / st.token_b_reserve as int
}

/// Shares minted for a deposit: the sum of both amounts on an empty pool
/// (the bootstrap convention), otherwise the smaller of the two
/// proportional claims — never over-credited.
pub open spec fn spec_minted_shares(st: State, amount_erth: int, amount_b: int) -> int {
    if st.total_shares == 0 {
        amount_erth + amount_b
    } else {
        spec_min(spec_share_erth(st, amount_erth), spec_share_b(st, amount_b))
    }
}

/// Base-asset amount actually consumed, recomputed from the minted shares.
pub open spec fn spec_adjusted_erth(st: State, amount_erth: int, amount_b: int) -> int {
    if st.total_shares == 0 {
        amount_erth
    } else {
        spec_minted_shares(st, amount_erth, amount_b) * st.token_erth_reserve
            / st.total_shares as int
    }
}

/// Quote-asset amount actually consumed, recomputed from the minted shares.
pub open spec fn spec_adjusted_b(st: State, amount_erth: int, amount_b: int) -> int {
    if st.total_shares == 0 {
        amount_b
    } else {
        spec_minted_shares(st, amount_erth, amount_b) * st.token_b_reserve
            / st.total_shares as int
    }
}

/// The excess is taken on the base asset exactly when the base deposit
/// overshoots its consumed amount.
pub open spec fn spec_excess_is_erth(st: State, amount_erth: int, amount_b: int) -> bool {
    amount_erth > spec_adjusted_erth(st, amount_erth, amount_b)
}

/// The amount refunded to the depositor (before the dust threshold).
pub open spec fn spec_excess_amount(st: State, amount_erth: int, amount_b: int) -> int {
    if spec_excess_is_erth(st, amount_erth, amount_b) {
        amount_erth - spec_adjusted_erth(st, amount_erth, amount_b)
    } else {
        amount_b - spec_adjusted_b(st, amount_erth, amount_b)
    }
}

/// Token the excess is refunded on.
pub open spec fn spec_excess_token(st: State, amount_erth: int, amount_b: int) -> String {
    if spec_excess_is_erth(st, amount_erth, amount_b) {
        st.token_erth_contract
    } else {
        st.token_b_contract
    }
}

/// Hash used for the refund, chosen by comparing the refund token against
/// the base-asset contract.
pub open spec fn spec_excess_hash(st: State, amount_erth: int, amount_b: int) -> String {
    if spec_excess_token(st, amount_erth, amount_b)@ == st.token_erth_contract@ {
        st.token_erth_hash
    } else {
        st.token_b_hash
    }
}

/// Consumed amounts never exceed the deposit, and the share arithmetic
/// stays within the deposit's claim.
pub proof fn lemma_add_liquidity_bounds(st: State, amount_erth: int, amount_b: int)
    requires
        st.wf(),
        0 <= amount_erth,
        0 <= amount_b,
        st.total_shares > 0,
        st.token_erth_reserve > 0,
        st.token_b_reserve > 0,
    ensures
        0 <= spec_minted_shares(st, amount_erth, amount_b),
        spec_minted_shares(st, amount_erth, amount_b) * st.token_erth_reserve <= amount_erth
            * st.total_shares,
        spec_minted_shares(st, amount_erth, amount_b) * st.token_b_reserve <= amount_b
            * st.total_shares,
        0 <= spec_adjusted_erth(st, amount_erth, amount_b) <= amount_erth,
        0 <= spec_adjusted_b(st, amount_erth, amount_b) <= amount_b,
{
    let t = st.total_shares as int;
    let e = st.token_erth_reserve as int;
    let b = st.token_b_reserve as int;
    let share_e = spec_share_erth(st, amount_erth);
    let share_b = spec_share_b(st, amount_b);
    let s = spec_minted_shares(st, amount_erth, amount_b);
    lemma_mul_nonnegative(amount_erth, t);
    lemma_mul_nonnegative(amount_b, t);
    lemma_div_mul_le(amount_erth * t, e);
    lemma_div_mul_le(amount_b * t, b);
    lemma_mul_inequality(s, share_e, e);
    lemma_mul_inequality(s, share_b, b);
    assert(s * e <= amount_erth * t);
    assert(s * b <= amount_b * t);
    lemma_mul_nonnegative(s, e);
    lemma_mul_nonnegative(s, b);
    lemma_div_is_ordered(s * e, amount_erth * t, t);
    lemma_div_is_ordered(s * b, amount_b * t, t);
    lemma_div_multiples_vanish(amount_erth, t);
    lemma_div_multiples_vanish(amount_b, t);
    lemma_mul_is_commutative(amount_erth, t);
    lemma_mul_is_commutative(amount_b, t);
    lemma_div_mul_le(s * e, t);
    lemma_div_mul_le(s * b, t);
}

/// Initial liquidity: on an empty pool a deposit of `(A, B)` mints exactly
/// `A + B` shares and sets the reserves to `A` and `B`.
pub proof fn lemma_initial_liquidity(st: State, amount_erth: int, amount_b: int)
    requires
        st.wf(),
        st.total_shares == 0,
    ensures
        spec_minted_shares(st, amount_erth, amount_b) == amount_erth + amount_b,
        st.token_erth_reserve + spec_adjusted_erth(st, amount_erth, amount_b) == amount_erth,
        st.token_b_reserve + spec_adjusted_b(st, amount_erth, amount_b) == amount_b,
{
}

/// Machine bounds under which [`execute_add_liquidity`] runs without
/// overflow.
pub open spec fn spec_add_liquidity_fits(st: State, amount_erth: int, amount_b: int) -> bool {
    st.spec_is_ready() ==> {
        if st.total_shares == 0 {
            amount_erth + amount_b <= u128::MAX
        } else if st.token_erth_reserve != 0 && st.token_b_reserve != 0 {
            &&& amount_erth * st.total_shares <= u128::MAX
            &&& amount_b * st.total_shares <= u128::MAX
            &&& st.token_erth_reserve + spec_adjusted_erth(st, amount_erth, amount_b)
                <= u128::MAX
            &&& st.token_b_reserve + spec_adjusted_b(st, amount_erth, amount_b) <= u128::MAX
            &&& st.total_shares + spec_minted_shares(st, amount_erth, amount_b) <= u128::MAX
        } else {
            true
        }
    }
}

/// Everything [`execute_add_liquidity`] promises: both assets are pulled in
/// their consumed amounts, an excess beyond the dust threshold is refunded,
/// the reserves and share total grow by exactly the consumed amounts and
/// minted shares, and the share ledger is told to mint to the depositor.
pub open spec fn add_liquidity_post(
    pre: State,
    post: State,
    sender: String,
    own_address: String,
    amount_erth: int,
    amount_b: int,
    r: Result<Vec<Instruction>, PoolError>,
) -> bool {
    if !pre.spec_is_ready() {
        &&& r == Err::<Vec<Instruction>, PoolError>(PoolError::NotBootstrapped)
        &&& post == pre
    } else if pre.total_shares != 0 && (pre.token_erth_reserve == 0 || pre.token_b_reserve
        == 0) {
        &&& r == Err::<Vec<Instruction>, PoolError>(PoolError::InsufficientLiquidity)
        &&& post == pre
    } else {
        let s = spec_minted_shares(pre, amount_erth, amount_b);
        let adj_e = spec_adjusted_erth(pre, amount_erth, amount_b);
        let adj_b = spec_adjusted_b(pre, amount_erth, amount_b);
        let excess = spec_excess_amount(pre, amount_erth, amount_b);
        let has_refund = excess > DUST_REFUND_THRESHOLD;
        &&& post == State {
            token_erth_reserve: (pre.token_erth_reserve + adj_e) as u128,
            token_b_reserve: (pre.token_b_reserve + adj_b) as u128,
            total_shares: (pre.total_shares + s) as u128,
            ..pre
        }
        &&& r matches Ok(v) && {
            &&& v@.len() == if has_refund {
                4int
            } else {
                3int
            }
            &&& v@[0] == Instruction::TransferFrom {
                token: pre.token_erth_contract,
                token_hash: pre.token_erth_hash,
                owner: sender,
                recipient: own_address,
                amount: adj_e as u128,
            }
            &&& v@[1] == Instruction::TransferFrom {
                token: pre.token_b_contract,
                token_hash: pre.token_b_hash,
                owner: sender,
                recipient: own_address,
                amount: adj_b as u128,
            }
            &&& (has_refund ==> v@[2] == Instruction::Transfer {
                token: spec_excess_token(pre, amount_erth, amount_b),
                token_hash: spec_excess_hash(pre, amount_erth, amount_b),
                recipient: sender,
                amount: excess as u128,
            })
            &&& v@[v@.len() - 1] == Instruction::Mint {
                token: pre.lp_token_contract,
                token_hash: pre.lp_token_hash,
                recipient: sender,
                amount: s as u128,
            }
        }
    }
}

/// Deposit both assets (pulled via allowance) against newly minted shares.
/// On an empty pool the deposit is consumed in full and mints the sum of
/// both amounts; otherwise the limiting asset fixes the mint and the other
/// asset's consumed amount is recomputed, with any excess above the dust
/// threshold refunded.
pub fn execute_add_liquidity(
    state: &mut State,
    sender: String,
    own_address: String,
    amount_erth: u128,
    amount_b: u128,
) -> (r: Result<Vec<Instruction>, PoolError>)
    requires
        old(state).wf(),
        spec_add_liquidity_fits(*old(state), amount_erth as int, amount_b as int),
    ensures
        final(state).wf(),
        add_liquidity_post(
            *old(state),
            *final(state),
            sender,
            own_address,
            amount_erth as int,
            amount_b as int,
            r,
        ),
{
    if !state.is_ready() {
        return Err(PoolError::NotBootstrapped);
    }
    let (shares, adjusted_amount_erth, adjusted_amount_b) = if state.total_shares == 0 {
        (amount_erth + amount_b, amount_erth, amount_b)
    } else {
        if state.token_erth_reserve == 0 || state.token_b_reserve == 0 {
            return Err(PoolError::InsufficientLiquidity);
        }
        proof {
            lemma_add_liquidity_bounds(*old(state), amount_erth as int, amount_b as int);
        }
        let share_erth = amount_erth * state.total_shares / state.token_erth_reserve;
        let share_b = amount_b * state.total_shares / state.token_b_reserve;
        let shares = if share_erth <= share_b {
            share_erth
        } else {
            share_b
        };
        let adjusted_amount_erth = shares * state.token_erth_reserve / state.total_shares;
        let adjusted_amount_b = shares * state.token_b_reserve / state.total_shares;
        (shares, adjusted_amount_erth, adjusted_amount_b)
    };

    let (excess_token, excess_amount) = if amount_erth > adjusted_amount_erth {
        (state.token_erth_contract.clone(), amount_erth - adjusted_amount_erth)
    } else {
        (state.token_b_contract.clone(), amount_b - adjusted_amount_b)
    };

    let mut messages: Vec<Instruction> = Vec::new();
    messages.push(
        Instruction::TransferFrom {
            token: state.token_erth_contract.clone(),
            token_hash: state.token_erth_hash.clone(),
            owner: sender.clone(),
            recipient: own_address.clone(),
            amount: adjusted_amount_erth,
        },
    );
    messages.push(
        Instruction::TransferFrom {
            token: state.token_b_contract.clone(),
            token_hash: state.token_b_hash.clone(),
            owner: sender.clone(),
            recipient: own_address,
            amount: adjusted_amount_b,
        },
    );
    if excess_amount > DUST_REFUND_THRESHOLD {
        let excess_hash = if excess_token == state.token_erth_contract {
            state.token_erth_hash.clone()
        } else {
            state.token_b_hash.clone()
        };
        messages.push(
            Instruction::Transfer {
                token: excess_token,
                token_hash: excess_hash,
                recipient: sender.clone(),
                amount: excess_amount,
            },
        );
    }
    state.token_erth_reserve = state.token_erth_reserve + adjusted_amount_erth;
    state.token_b_reserve = state.token_b_reserve + adjusted_amount_b;
    state.total_shares = state.total_shares + shares;
    messages.push(
        Instruction::Mint {
            token: state.lp_token_contract.clone(),
            token_hash: state.lp_token_hash.clone(),
            recipient: sender,
            amount: shares,
        },
    );
    Ok(messages)
}

/// Base-asset amount a withdrawal of `lp_amount` shares pays out.
pub open spec fn spec_unbond_erth(st: State, lp_amount: int) -> int {
    lp_amount * st.token_erth_reserve / st.total_shares as int
}

/// Quote-asset amount a withdrawal of `lp_amount` shares pays out.
pub open spec fn spec_unbond_b(st: State, lp_amount: int) -> int {
    lp_amount * st.token_b_reserve / st.total_shares as int
}

/// Withdrawal amounts never exceed the reserves; withdrawing every share
/// drains both reserves exactly, a partial withdrawal keeps the funded
/// reserve positive.
pub proof fn lemma_unbond_bounds(st: State, lp_amount: int)
    requires
        st.wf(),
        0 <= lp_amount <= st.total_shares,
        st.total_shares > 0,
    ensures
        0 <= spec_unbond_erth(st, lp_amount) <= st.token_erth_reserve,
        0 <= spec_unbond_b(st, lp_amount) <= st.token_b_reserve,
        lp_amount == st.total_shares ==> spec_unbond_erth(st, lp_amount)
            == st.token_erth_reserve && spec_unbond_b(st, lp_amount) == st.token_b_reserve,
        lp_amount < st.total_shares && st.token_erth_reserve > 0 ==> spec_unbond_erth(
            st,
            lp_amount,
        ) < st.token_erth_reserve,
        lp_amount < st.total_shares && st.token_b_reserve > 0 ==> spec_unbond_b(st, lp_amount)
            < st.token_b_reserve,
{
    let t = st.total_shares as int;
    let e = st.token_erth_reserve as int;
    let b = st.token_b_reserve as int;
    lemma_mul_nonnegative(lp_amount, e);
    lemma_mul_nonnegative(lp_amount, b);
    lemma_mul_inequality(lp_amount, t, e);
    lemma_mul_inequality(lp_amount, t, b);
    lemma_div_is_ordered(lp_amount * e, t * e, t);
    lemma_div_is_ordered(lp_amount * b, t * b, t);
    lemma_mul_is_commutative(t, e);
    lemma_mul_is_commutative(t, b);
    lemma_div_multiples_vanish(e, t);
    lemma_div_multiples_vanish(b, t);
    lemma_div_mul_le(lp_amount * e, t);
    lemma_div_mul_le(lp_amount * b, t);
    if lp_amount == t {
        assert(lp_amount * e == e * t) by {
            lemma_mul_is_commutative(lp_amount, e);
        }
        lemma_div_multiples_vanish(e, t);
        assert(spec_unbond_erth(st, lp_amount) == e);
        assert(lp_amount * b == b * t) by {
            lemma_mul_is_commutative(lp_amount, b);
        }
        assert(spec_unbond_b(st, lp_amount) == b);
    }
    if lp_amount < t && e > 0 {
        lemma_mul_strict_inequality(lp_amount, t, e);
        lemma_mul_is_commutative(t, e);
        lemma_multiply_divide_lt(lp_amount * e, t, e);
    }
    if lp_amount < t && b > 0 {
        lemma_mul_strict_inequality(lp_amount, t, b);
        lemma_mul_is_commutative(t, b);
        lemma_multiply_divide_lt(lp_amount * b, t, b);
    }
}

/// Machine bounds under which [`recieve_unbond_liquidity`] runs without
/// overflow; a burn of more shares than exist is out of range.
pub open spec fn spec_unbond_fits(st: State, sender: String, lp_amount: int) -> bool {
    st.spec_is_ready() && sender@ == st.lp_token_contract@ && st.total_shares != 0 ==> {
        &&& lp_amount <= st.total_shares
        &&& lp_amount * st.token_erth_reserve <= u128::MAX
        &&& lp_amount * st.token_b_reserve <= u128::MAX
    }
}

/// Everything [`recieve_unbond_liquidity`] promises: only the share ledger
/// may trigger it, the payouts are the burned shares' proportional claim on
/// each reserve (rounded down), and the ledger shrinks by exactly the
/// payouts and burned shares.
pub open spec fn unbond_post(
    pre: State,
    post: State,
    sender: String,
    from: String,
    lp_amount: int,
    r: Result<Vec<Instruction>, PoolError>,
) -> bool {
    if !pre.spec_is_ready() {
        &&& r == Err::<Vec<Instruction>, PoolError>(PoolError::NotBootstrapped)
        &&& post == pre
    } else if sender@ != pre.lp_token_contract@ {
        &&& r == Err::<Vec<Instruction>, PoolError>(PoolError::Unauthorized)
        &&& post == pre
    } else if pre.total_shares == 0 {
        &&& r == Err::<Vec<Instruction>, PoolError>(PoolError::InsufficientLiquidity)
        &&& post == pre
    } else {
        let out_e = spec_unbond_erth(pre, lp_amount);
        let out_b = spec_unbond_b(pre, lp_amount);
        &&& post == State {
            token_erth_reserve: (pre.token_erth_reserve - out_e) as u128,
            token_b_reserve: (pre.token_b_reserve - out_b) as u128,
            total_shares: (pre.total_shares - lp_amount) as u128,
            ..pre
        }
        &&& r matches Ok(v) && {
            &&& v@.len() == 3
            &&& v@[0] == Instruction::Burn {
                token: pre.lp_token_contract,
                token_hash: pre.lp_token_hash,
                amount: lp_amount as u128,
            }
            &&& v@[1] == Instruction::Transfer {
                token: pre.token_erth_contract,
                token_hash: pre.token_erth_hash,
                recipient: from,
                amount: out_e as u128,
            }
            &&& v@[2] == Instruction::Transfer {
                token: pre.token_b_contract,
                token_hash: pre.token_b_hash,
                recipient: from,
                amount: out_b as u128,
            }
        }
    }
}

/// Withdrawal, triggered by the share ledger forwarding a burn-intent
/// transfer of `lp_token_amount` shares: pays out both proportional
/// amounts to the original holder and burns the shares.
pub fn recieve_unbond_liquidity(
    state: &mut State,
    sender: String,
    from: String,
    lp_token_amount: u128,
) -> (r: Result<Vec<Instruction>, PoolError>)
    requires
        old(state).wf(),
        spec_unbond_fits(*old(state), sender, lp_token_amount as int),
    ensures
        final(state).wf(),
        unbond_post(*old(state), *final(state), sender, from, lp_token_amount as int, r),
{
    if !state.is_ready() {
        return Err(PoolError::NotBootstrapped);
    }
    if !(sender == state.lp_token_contract) {
        return Err(PoolError::Unauthorized);
    }
    if state.total_shares == 0 {
        return Err(PoolError::InsufficientLiquidity);
    }
    proof {
        lemma_unbond_bounds(*old(state), lp_token_amount as int);
    }
    let amount_erth = lp_token_amount * state.token_erth_reserve / state.total_shares;
    let amount_b = lp_token_amount * state.token_b_reserve / state.total_shares;

    state.token_erth_reserve = state.token_erth_reserve - amount_erth;
    state.token_b_reserve = state.token_b_reserve - amount_b;
    state.total_shares = state.total_shares - lp_token_amount;

    let mut messages: Vec<Instruction> = Vec::new();
    messages.push(
        Instruction::Burn {
            token: state.lp_token_contract.clone(),
            token_hash: state.lp_token_hash.clone(),
            amount: lp_token_amount,
        },
    );
    messages.push(
        Instruction::Transfer {
            token: state.token_erth_contract.clone(),
            token_hash: state.token_erth_hash.clone(),
            recipient: from.clone(),
            amount: amount_erth,
        },
    );
    messages.push(
        Instruction::Transfer {
            token: state.token_b_contract.clone(),
            token_hash: state.token_b_hash.clone(),
            recipient: from,
            amount: amount_b,
        },
    );
    Ok(messages)
}

/// Runtime check of [`spec_add_liquidity_fits`], for hosts that must test
/// the machine bounds before calling [`execute_add_liquidity`].
pub fn add_liquidity_fits_check(state: &State, amount_erth: u128, amount_b: u128) -> (r: bool)
    requires
        state.wf(),
    ensures
        r == spec_add_liquidity_fits(*state, amount_erth as int, amount_b as int),
{
    if !state.is_ready() {
        return true;
    }
    if state.total_shares == 0 {
        return amount_erth.checked_add(amount_b).is_some();
    }
    if state.token_erth_reserve == 0 || state.token_b_reserve == 0 {
        return true;
    }
    if amount_erth.checked_mul(state.total_shares).is_none() {
        return false;
    }
    if amount_b.checked_mul(state.total_shares).is_none() {
        return false;
    }
    proof {
        lemma_add_liquidity_bounds(*state, amount_erth as int, amount_b as int);
    }
    let share_erth = amount_erth * state.total_shares / state.token_erth_reserve;
    let share_b = amount_b * state.total_shares / state.token_b_reserve;
    let shares = if share_erth <= share_b {
        share_erth
    } else {
        share_b
    };
    let adjusted_erth = shares * state.token_erth_reserve / state.total_shares;
    let adjusted_b = shares * state.token_b_reserve / state.total_shares;
    if state.token_erth_reserve.checked_add(adjusted_erth).is_none() {
        return false;
    }
    if state.token_b_reserve.checked_add(adjusted_b).is_none() {
        return false;
    }
    state.total_shares.checked_add(shares).is_some()
}

/// Runtime check of [`spec_unbond_fits`], for hosts that must test the
/// machine bounds before calling [`recieve_unbond_liquidity`].
pub fn unbond_fits_check(state: &State, sender: &String, lp_token_amount: u128) -> (r: bool)
    ensures
        r == spec_unbond_fits(*state, *sender, lp_token_amount as int),
{
    if !state.is_ready() {
        return true;
    }
    if !(*sender == state.lp_token_contract) {
        return true;
    }
    if state.total_shares == 0 {
        return true;
    }
    if lp_token_amount > state.total_shares {
        return false;
    }
    if lp_token_amount.checked_mul(state.token_erth_reserve).is_none() {
        return false;
    }
    lp_token_amount.checked_mul(state.token_b_reserve).is_some()
}

/// The liquidity round trip.  A deposit never consumes more than was
/// supplied, and withdrawing exactly the minted shares immediately
/// afterwards pays back exactly the consumed amounts: the only loss of a
/// round trip is the integer-division adjustment of the deposit itself,
/// which is refunded above the dust threshold.
pub proof fn lemma_liquidity_round_trip(st: State, amount_erth: int, amount_b: int)
    requires
        st.wf(),
        0 <= amount_erth,
        0 <= amount_b,
        st.total_shares > 0 ==> st.token_erth_reserve > 0 && st.token_b_reserve > 0,
    ensures
        spec_adjusted_erth(st, amount_erth, amount_b) <= amount_erth,
        spec_adjusted_b(st, amount_erth, amount_b) <= amount_b,
        ({
            let s = spec_minted_shares(st, amount_erth, amount_b);
            let adj_e = spec_adjusted_erth(st, amount_erth, amount_b);
            let adj_b = spec_adjusted_b(st, amount_erth, amount_b);
            let grown = State {
                token_erth_reserve: (st.token_erth_reserve + adj_e) as u128,
                token_b_reserve: (st.token_b_reserve + adj_b) as u128,
                total_shares: (st.total_shares + s) as u128,
                ..st
            };
            st.total_shares + s <= u128::MAX && st.token_erth_reserve + adj_e <= u128::MAX
                && st.token_b_reserve + adj_b <= u128::MAX && st.total_shares + s > 0 ==> {
                &&& spec_unbond_erth(grown, s) == adj_e
                &&& spec_unbond_b(grown, s) == adj_b
            }
        }),
{
    let t = st.total_shares as int;
    let e = st.token_erth_reserve as int;
    let b = st.token_b_reserve as int;
    let s = spec_minted_shares(st, amount_erth, amount_b);
    let adj_e = spec_adjusted_erth(st, amount_erth, amount_b);
    let adj_b = spec_adjusted_b(st, amount_erth, amount_b);
    if t == 0 {
        if s > 0 {
            lemma_div_multiples_vanish(adj_e, s);
            lemma_mul_is_commutative(s, adj_e);
            lemma_div_multiples_vanish(adj_b, s);
            lemma_mul_is_commutative(s, adj_b);
        }
    } else {
        lemma_add_liquidity_bounds(st, amount_erth, amount_b);
        lemma_round_trip_side(s, t, e, adj_e);
        lemma_round_trip_side(s, t, b, adj_b);
    }
}

/// One asset of the round trip: if `adj == (s * reserve) / t` then
/// withdrawing `s` of `t + s` shares from the grown reserve pays exactly
/// `adj` back.
proof fn lemma_round_trip_side(s: int, t: int, reserve: int, adj: int)
    requires
        t > 0,
        s >= 0,
        reserve >= 0,
        adj == s * reserve / t,
    ensures
        s * (reserve + adj) / (t + s) == adj,
{
    lemma_mul_nonnegative(s, reserve);
    vstd::arithmetic::div_mod::lemma_fundamental_div_mod(s * reserve, t);
    vstd::arithmetic::div_mod::lemma_mod_division_less_than_divisor(s * reserve, t);
    let rem = (s * reserve) % t;
    assert(s * reserve == t * adj + rem);
    // expand both sides of the withdrawal quotient
    assert(s * (reserve + adj) == s * reserve + s * adj) by {
        lemma_mul_is_distributive_add(s, reserve, adj);
    }
    assert(adj * (t + s) == adj * t + adj * s) by {
        lemma_mul_is_distributive_add(adj, t, s);
    }
    assert(s * adj == adj * s) by {
        lemma_mul_is_commutative(s, adj);
    }
    assert(adj * t == t * adj) by {
        lemma_mul_is_commutative(adj, t);
    }
    let x = s * (reserve + adj);
    let d = t + s;
    assert(x == adj * d + rem);
    lemma_fundamental_div_mod_converse(x, d, adj, rem);
}

} // verus!
