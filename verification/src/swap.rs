//! The swap engine: constant-product exchange with protocol-fee extraction,
//! conversion of the fee into base-asset terms, hop routing and the two
//! privileged feeless buyback channels.

use vstd::prelude::*;
use vstd::arithmetic::mul::{lemma_mul_inequality, lemma_mul_upper_bound};
use crate::math::{
    spec_fee, spec_cp_output, lemma_fee_bounds, lemma_cp_output_bounds, FEE_DENOM,
};
use crate::state::State;
use crate::msg::{PoolError, Instruction, SendMessage, HopDetails, QuerySwapResponse};

verus! {

/// The input that remains once the protocol fee is retained.
pub open spec fn spec_net_input(st: State, amount: int) -> int {
    amount - spec_fee(amount, st.protocol_fee as int)
}

/// The input token is the base asset.  The base asset is matched first, as
/// the swap path does.
pub open spec fn swap_matches_erth(st: State, token: String) -> bool {
    token@ == st.token_erth_contract@
}

/// The input token is the quote asset (and not the base asset).
pub open spec fn swap_matches_b(st: State, token: String) -> bool {
    !swap_matches_erth(st, token) && token@ == st.token_b_contract@
}

/// The feeless path matches the quote asset first.
pub open spec fn feeless_matches_b(st: State, token: String) -> bool {
    token@ == st.token_b_contract@
}

/// The feeless path falls back to the base asset.
pub open spec fn feeless_matches_erth(st: State, token: String) -> bool {
    !feeless_matches_b(st, token) && token@ == st.token_erth_contract@
}

/// Input-side reserve of a feeless conversion.
pub open spec fn spec_feeless_in_reserve(st: State, token: String) -> int {
    if feeless_matches_b(st, token) {
        st.token_b_reserve as int
    } else {
        st.token_erth_reserve as int
    }
}

/// Output-side reserve of a feeless conversion.
pub open spec fn spec_feeless_out_reserve(st: State, token: String) -> int {
    if feeless_matches_b(st, token) {
        st.token_erth_reserve as int
    } else {
        st.token_b_reserve as int
    }
}

/// Output of a feeless constant-product conversion; reserves are not
/// touched, callers apply deltas explicitly.
pub open spec fn spec_feeless_output(st: State, amount: int, token: String) -> int {
    spec_cp_output(amount, spec_feeless_in_reserve(st, token), spec_feeless_out_reserve(st, token))
}

/// Machine bounds under which a feeless conversion runs without overflow.
pub open spec fn spec_feeless_fits(st: State, amount: int, token: String) -> bool {
    feeless_matches_b(st, token) || feeless_matches_erth(st, token) ==> {
        &&& amount * spec_feeless_out_reserve(st, token) <= u128::MAX
        &&& spec_feeless_in_reserve(st, token) + amount <= u128::MAX
    }
}

/// Everything [`calculate_feeless_swap`] promises: an exact quote when the
/// asset matches a reserve and the pool can price it, a fail-fast error
/// otherwise.
pub open spec fn feeless_post(st: State, amount: int, token: String, r: Result<
    u128,
    PoolError,
>) -> bool {
    if !feeless_matches_b(st, token) && !feeless_matches_erth(st, token) {
        r == Err::<u128, PoolError>(PoolError::InvalidToken)
    } else if spec_feeless_in_reserve(st, token) + amount == 0 {
        r == Err::<u128, PoolError>(PoolError::InsufficientLiquidity)
    } else {
        &&& r == Ok::<u128, PoolError>(spec_feeless_output(st, amount, token) as u128)
        &&& spec_feeless_output(st, amount, token) <= spec_feeless_out_reserve(st, token)
    }
}

/// Side-effect-free constant-product quote at zero fee, used both for the
/// internal fee conversion of a quote-input swap and for the buyback
/// channels.
pub fn calculate_feeless_swap(state: &State, input_amount: u128, input_token: &String) -> (r:
    Result<u128, PoolError>)
    requires
        spec_feeless_fits(*state, input_amount as int, *input_token),
    ensures
        feeless_post(*state, input_amount as int, *input_token, r),
{
    let (input_reserve, output_reserve) = if *input_token == state.token_b_contract {
        (state.token_b_reserve, state.token_erth_reserve)
    } else if *input_token == state.token_erth_contract {
        (state.token_erth_reserve, state.token_b_reserve)
    } else {
        return Err(PoolError::InvalidToken);
    };
    if input_reserve == 0 && input_amount == 0 {
        return Err(PoolError::InsufficientLiquidity);
    }
    let output_amount = input_amount * output_reserve / (input_reserve + input_amount);
    proof {
        lemma_cp_output_bounds(input_amount as int, input_reserve as int, output_reserve as int);
    }
    if output_amount > output_reserve {
        // cannot happen: the constant-product output is bounded by the
        // output-side reserve (lemma above); kept as the defensive guard of
        // the pricing rule
        return Err(PoolError::InsufficientLiquidity);
    }
    Ok(output_amount)
}

/// First failure a swap runs into, if any: unknown asset, an empty pool, or
/// an input-side reserve the formula cannot price against.
pub open spec fn spec_swap_guard(st: State, amount: int, token: String) -> Option<PoolError> {
    if !swap_matches_erth(st, token) && !swap_matches_b(st, token) {
        Some(PoolError::InvalidToken)
    } else if st.total_shares == 0 {
        Some(PoolError::InsufficientLiquidity)
    } else if swap_matches_erth(st, token) && st.token_erth_reserve + spec_net_input(st, amount)
        == 0 {
        Some(PoolError::InsufficientLiquidity)
    } else if swap_matches_b(st, token) && st.token_b_reserve == 0 {
        Some(PoolError::InsufficientLiquidity)
    } else {
        None
    }
}

/// Input-side reserve of a swap.
pub open spec fn spec_swap_in_reserve(st: State, token: String) -> int {
    if swap_matches_erth(st, token) {
        st.token_erth_reserve as int
    } else {
        st.token_b_reserve as int
    }
}

/// Output-side reserve of a swap.
pub open spec fn spec_swap_out_reserve(st: State, token: String) -> int {
    if swap_matches_erth(st, token) {
        st.token_b_reserve as int
    } else {
        st.token_erth_reserve as int
    }
}

/// Contract the swap output is paid out on.
pub open spec fn spec_out_contract(st: State, token: String) -> String {
    if swap_matches_erth(st, token) {
        st.token_b_contract
    } else {
        st.token_erth_contract
    }
}

/// Authentication hash of the output contract.
pub open spec fn spec_out_hash(st: State, token: String) -> String {
    if swap_matches_erth(st, token) {
        st.token_b_hash
    } else {
        st.token_erth_hash
    }
}

/// Constant-product output of the fee-net input.
pub open spec fn spec_swap_output(st: State, amount: int, token: String) -> int {
    spec_cp_output(
        spec_net_input(st, amount),
        spec_swap_in_reserve(st, token),
        spec_swap_out_reserve(st, token),
    )
}

/// Trade volume in base-asset terms: the input itself for a base input, the
/// reserve-ratio estimate (against the pre-swap reserves) for a quote input.
pub open spec fn spec_swap_volume(st: State, amount: int, token: String) -> int {
    if swap_matches_erth(st, token) {
        amount
    } else {
        amount * st.token_erth_reserve / st.token_b_reserve as int
    }
}

/// Fee ultimately forwarded, always in base-asset terms: the retained fee
/// itself for a base input; for a quote input, its feeless conversion
/// against the reserves as already updated by the main exchange.
pub open spec fn spec_swap_fee_erth(st: State, amount: int, token: String) -> int {
    if swap_matches_erth(st, token) {
        spec_fee(amount, st.protocol_fee as int)
    } else {
        spec_cp_output(
            spec_fee(amount, st.protocol_fee as int),
            st.token_b_reserve + spec_net_input(st, amount),
            st.token_erth_reserve - spec_swap_output(st, amount, token),
        )
    }
}

/// Base-asset reserve after the swap, fee conversion included.
pub open spec fn spec_swap_new_erth(st: State, amount: int, token: String) -> int {
    if swap_matches_erth(st, token) {
        st.token_erth_reserve + spec_net_input(st, amount)
    } else {
        st.token_erth_reserve - spec_swap_output(st, amount, token) - spec_swap_fee_erth(
            st,
            amount,
            token,
        )
    }
}

/// Quote-asset reserve after the swap, fee conversion included.
pub open spec fn spec_swap_new_b(st: State, amount: int, token: String) -> int {
    if swap_matches_erth(st, token) {
        st.token_b_reserve - spec_swap_output(st, amount, token)
    } else {
        st.token_b_reserve + spec_net_input(st, amount) + spec_fee(amount, st.protocol_fee as int)
    }
}

/// The ledger after a successful swap: only the two reserves move.
pub open spec fn spec_swapped_state(st: State, amount: int, token: String) -> State {
    State {
        token_erth_reserve: spec_swap_new_erth(st, amount, token) as u128,
        token_b_reserve: spec_swap_new_b(st, amount, token) as u128,
        ..st
    }
}

/// Machine bounds under which a swap runs without overflow.
pub open spec fn spec_swap_fits(st: State, amount: int, token: String) -> bool {
    &&& amount * (st.protocol_fee as int) <= u128::MAX
    &&& (swap_matches_erth(st, token) && spec_swap_guard(st, amount, token) is None ==> {
        &&& spec_net_input(st, amount) * st.token_b_reserve <= u128::MAX
        &&& st.token_erth_reserve + spec_net_input(st, amount) <= u128::MAX
    })
    &&& (swap_matches_b(st, token) && spec_swap_guard(st, amount, token) is None ==> {
        &&& amount * st.token_erth_reserve <= u128::MAX
        &&& st.token_b_reserve + amount <= u128::MAX
    })
}

/// Everything [`calculate_swap`] promises: either the first applicable
/// guard error with the ledger untouched, or the exact fee, output,
/// output-token identity and volume, with both reserves moved exactly as
/// the pricing rule dictates.
pub open spec fn swap_post(pre: State, post: State, amount: int, token: String, r: Result<
    (u128, u128, String, String, u128),
    PoolError,
>) -> bool {
    match spec_swap_guard(pre, amount, token) {
        Some(e) => r == Err::<(u128, u128, String, String, u128), PoolError>(e) && post == pre,
        None => {
            &&& post == spec_swapped_state(pre, amount, token)
            &&& r matches Ok(t) && {
                &&& t.0 == spec_swap_fee_erth(pre, amount, token) as u128
                &&& t.1 == spec_swap_output(pre, amount, token) as u128
                &&& t.2 == spec_out_contract(pre, token)
                &&& t.3 == spec_out_hash(pre, token)
                &&& t.4 == spec_swap_volume(pre, amount, token) as u128
            }
        },
    }
}

/// Core of the swap engine: extracts the protocol fee, prices the fee-net
/// input by the constant-product formula, updates both reserves in place,
/// and converts a quote-denominated fee into base terms against the updated
/// reserves.  Returns the fee (in base terms), the output amount, the
/// output token identity and the trade volume in base terms.
pub fn calculate_swap(state: &mut State, input_amount: u128, input_token: &String) -> (r: Result<
    (u128, u128, String, String, u128),
    PoolError,
>)
    requires
        old(state).wf(),
        spec_swap_fits(*old(state), input_amount as int, *input_token),
    ensures
        final(state).wf(),
        swap_post(*old(state), *final(state), input_amount as int, *input_token, r),
{
    proof {
        lemma_fee_bounds(input_amount as int, state.protocol_fee as int);
    }
    let protocol_fee_amount = input_amount * state.protocol_fee / FEE_DENOM;
    let amount_after_protocol_fee = input_amount - protocol_fee_amount;

    if *input_token == state.token_erth_contract {
        let input_reserve = state.token_erth_reserve;
        let output_reserve = state.token_b_reserve;
        if state.total_shares == 0 {
            return Err(PoolError::InsufficientLiquidity);
        }
        if input_reserve == 0 && amount_after_protocol_fee == 0 {
            return Err(PoolError::InsufficientLiquidity);
        }
        let denom = input_reserve + amount_after_protocol_fee;
        let output_amount = amount_after_protocol_fee * output_reserve / denom;
        proof {
            lemma_cp_output_bounds(
                amount_after_protocol_fee as int,
                input_reserve as int,
                output_reserve as int,
            );
        }
        if output_amount > output_reserve {
            // cannot happen by the constant-product bound; the defensive
            // guard of the pricing rule
            return Err(PoolError::InsufficientLiquidity);
        }
        let output_addr = state.token_b_contract.clone();
        let output_hash = state.token_b_hash.clone();
        state.token_erth_reserve = denom;
        state.token_b_reserve = output_reserve - output_amount;
        Ok((protocol_fee_amount, output_amount, output_addr, output_hash, input_amount))
    } else if *input_token == state.token_b_contract {
        if state.total_shares == 0 {
            return Err(PoolError::InsufficientLiquidity);
        }
        if state.token_b_reserve == 0 {
            return Err(PoolError::InsufficientLiquidity);
        }
        let input_reserve = state.token_b_reserve;
        let output_reserve = state.token_erth_reserve;
        let output_addr = state.token_erth_contract.clone();
        let output_hash = state.token_erth_hash.clone();
        // volume estimated against the pre-swap reserves
        let trade_volume = input_amount * state.token_erth_reserve / state.token_b_reserve;
        proof {
            lemma_mul_inequality(
                amount_after_protocol_fee as int,
                input_amount as int,
                output_reserve as int,
            );
        }
        let denom = input_reserve + amount_after_protocol_fee;
        let output_amount = amount_after_protocol_fee * output_reserve / denom;
        proof {
            lemma_cp_output_bounds(
                amount_after_protocol_fee as int,
                input_reserve as int,
                output_reserve as int,
            );
        }
        if output_amount > output_reserve {
            // cannot happen by the constant-product bound; the defensive
            // guard of the pricing rule
            return Err(PoolError::InsufficientLiquidity);
        }
        state.token_b_reserve = denom;
        state.token_erth_reserve = output_reserve - output_amount;

        // convert the retained fee into base terms against the updated
        // reserves; its own deltas are applied on top
        let quote_token = state.token_b_contract.clone();
        proof {
            lemma_mul_upper_bound(
                protocol_fee_amount as int,
                input_amount as int,
                state.token_erth_reserve as int,
                output_reserve as int,
            );
        }
        let protocol_fee_in_erth = match calculate_feeless_swap(
            state,
            protocol_fee_amount,
            &quote_token,
        ) {
            Ok(v) => v,
            Err(e) => {
                return Err(e);
            },
        };
        state.token_b_reserve = state.token_b_reserve + protocol_fee_amount;
        state.token_erth_reserve = state.token_erth_reserve - protocol_fee_in_erth;
        Ok((protocol_fee_in_erth, output_amount, output_addr, output_hash, trade_volume))
    } else {
        Err(PoolError::InvalidToken)
    }
}

/// Every quantity a successful swap produces stays within its reserve
/// bounds: the fee within the input, the output within the output-side
/// reserve, and both updated reserves non-negative.
pub proof fn lemma_swap_outcome_bounds(st: State, amount: int, token: String)
    requires
        st.wf(),
        0 <= amount,
        spec_swap_guard(st, amount, token) is None,
    ensures
        0 <= spec_fee(amount, st.protocol_fee as int) <= amount,
        0 <= spec_net_input(st, amount) <= amount,
        0 <= spec_swap_output(st, amount, token) <= spec_swap_out_reserve(st, token),
        0 <= spec_swap_fee_erth(st, amount, token),
        swap_matches_b(st, token) ==> spec_swap_fee_erth(st, amount, token)
            <= st.token_erth_reserve - spec_swap_output(st, amount, token),
        0 <= spec_swap_new_erth(st, amount, token),
        swap_matches_b(st, token) ==> spec_swap_new_erth(st, amount, token)
            <= st.token_erth_reserve,
        0 <= spec_swap_new_b(st, amount, token),
        0 <= spec_swap_volume(st, amount, token),
{
    let fee = spec_fee(amount, st.protocol_fee as int);
    let net = spec_net_input(st, amount);
    lemma_fee_bounds(amount, st.protocol_fee as int);
    lemma_cp_output_bounds(
        net,
        spec_swap_in_reserve(st, token),
        spec_swap_out_reserve(st, token),
    );
    if swap_matches_b(st, token) {
        let out = spec_swap_output(st, amount, token);
        lemma_cp_output_bounds(
            fee,
            st.token_b_reserve + net,
            st.token_erth_reserve - out,
        );
        vstd::arithmetic::mul::lemma_mul_nonnegative(amount, st.token_erth_reserve as int);
        crate::math::lemma_div_mul_le(
            amount * st.token_erth_reserve,
            st.token_b_reserve as int,
        );
    }
}

/// The constant-product bound of a valid swap: the output times the grown
/// input-side reserve never exceeds the fee-net input's claim on the
/// output-side reserve, and the output never exceeds that reserve; with
/// both sides funded it stays strictly below it.
pub proof fn lemma_swap_constant_product(st: State, amount: int, token: String)
    requires
        st.wf(),
        0 <= amount,
        spec_swap_guard(st, amount, token) is None,
    ensures
        spec_swap_output(st, amount, token) * (spec_swap_in_reserve(st, token) + spec_net_input(
            st,
            amount,
        )) <= spec_net_input(st, amount) * spec_swap_out_reserve(st, token),
        spec_swap_output(st, amount, token) <= spec_swap_out_reserve(st, token),
        spec_swap_in_reserve(st, token) > 0 && spec_swap_out_reserve(st, token) > 0
            ==> spec_swap_output(st, amount, token) < spec_swap_out_reserve(st, token),
{
    lemma_fee_bounds(amount, st.protocol_fee as int);
    lemma_cp_output_bounds(
        spec_net_input(st, amount),
        spec_swap_in_reserve(st, token),
        spec_swap_out_reserve(st, token),
    );
}

/// Fee conservation.  For a base-asset input the reserve gains exactly the
/// fee-net input and the retained fee is forwarded as is, so input = reserve
/// delta + forwarded fee.  For a quote-asset input the quote reserve gains
/// the full input (net in the exchange step, fee in the conversion step),
/// and the base reserve's total decrease is exactly the delivered output
/// plus the fee forwarded in base terms.
pub proof fn lemma_swap_fee_conservation(st: State, amount: int, token: String)
    requires
        st.wf(),
        0 <= amount,
        spec_swap_guard(st, amount, token) is None,
    ensures
        swap_matches_erth(st, token) ==> {
            &&& spec_swap_new_erth(st, amount, token) == st.token_erth_reserve + spec_net_input(
                st,
                amount,
            )
            &&& spec_net_input(st, amount) + spec_swap_fee_erth(st, amount, token) == amount
            &&& spec_swap_new_b(st, amount, token) == st.token_b_reserve - spec_swap_output(
                st,
                amount,
                token,
            )
        },
        swap_matches_b(st, token) ==> {
            &&& spec_swap_new_b(st, amount, token) == st.token_b_reserve + amount
            &&& st.token_erth_reserve == spec_swap_new_erth(st, amount, token) + spec_swap_output(
                st,
                amount,
                token,
            ) + spec_swap_fee_erth(st, amount, token)
        },
{
}

/// Machine bounds under which [`receive_swap`] runs without overflow.
pub open spec fn spec_receive_swap_fits(st: State, amount: int, token: String) -> bool {
    st.spec_is_ready() ==> {
        &&& spec_swap_fits(st, amount, token)
        &&& (spec_swap_guard(st, amount, token) is None ==> 2 * spec_swap_new_erth(
            st,
            amount,
            token,
        ) <= u128::MAX)
    }
}

/// The fee-forwarding instruction of a swap: the fee in base terms is sent
/// to the staking collaborator for burning, with the trade volume, a
/// liquidity proxy of twice the post-swap base reserve, and the share total.
pub open spec fn spec_fee_forward_msg(pre: State, amount: int, token: String) -> Instruction {
    Instruction::Send {
        token: pre.token_erth_contract,
        token_hash: pre.token_erth_hash,
        recipient: pre.lp_staking_contract,
        recipient_hash: Some(pre.lp_staking_hash),
        amount: spec_swap_fee_erth(pre, amount, token) as u128,
        msg: SendMessage::BurnErth {
            trade_volume: spec_swap_volume(pre, amount, token) as u128,
            pool_liquidity: (2 * spec_swap_new_erth(pre, amount, token)) as u128,
            total_shares: pre.total_shares,
        },
    }
}

/// The hop leg: the whole output forwarded as the downstream pool's input,
/// carrying the original minimum and beneficiary; no slippage check here.
pub open spec fn spec_hop_forward_msg(
    pre: State,
    amount: int,
    token: String,
    hop: HopDetails,
    min_received: Option<u128>,
    from: String,
) -> Instruction {
    Instruction::Send {
        token: spec_out_contract(pre, token),
        token_hash: spec_out_hash(pre, token),
        recipient: hop.contract,
        recipient_hash: Some(hop.hash),
        amount: spec_swap_output(pre, amount, token) as u128,
        msg: SendMessage::Swap { min_received, user: from },
    }
}

/// Direct delivery of the output to its beneficiary.
pub open spec fn spec_direct_transfer_msg(
    pre: State,
    amount: int,
    token: String,
    recipient: String,
) -> Instruction {
    Instruction::Transfer {
        token: spec_out_contract(pre, token),
        token_hash: spec_out_hash(pre, token),
        recipient,
        amount: spec_swap_output(pre, amount, token) as u128,
    }
}

/// Everything [`receive_swap`] promises.  The slippage minimum is enforced
/// only on a direct delivery, never on a hop leg; every failure leaves the
/// ledger untouched.
pub open spec fn receive_swap_post(
    pre: State,
    post: State,
    token: String,
    from: String,
    amount: int,
    min_received: Option<u128>,
    hop: Option<HopDetails>,
    user: Option<String>,
    r: Result<Vec<Instruction>, PoolError>,
) -> bool {
    if !pre.spec_is_ready() {
        &&& r == Err::<Vec<Instruction>, PoolError>(PoolError::NotBootstrapped)
        &&& post == pre
    } else {
        match spec_swap_guard(pre, amount, token) {
            Some(e) => r == Err::<Vec<Instruction>, PoolError>(e) && post == pre,
            None => {
                if hop is None && (min_received matches Some(m) && spec_swap_output(
                    pre,
                    amount,
                    token,
                ) < m) {
                    &&& r == Err::<Vec<Instruction>, PoolError>(PoolError::SlippageExceeded)
                    &&& post == pre
                } else {
                    &&& post == spec_swapped_state(pre, amount, token)
                    &&& r matches Ok(v) && {
                        &&& v@.len() == 2
                        &&& v@[0] == spec_fee_forward_msg(pre, amount, token)
                        &&& v@[1] == match hop {
                            Some(h) => spec_hop_forward_msg(pre, amount, token, h, min_received, from),
                            None => spec_direct_transfer_msg(
                                pre,
                                amount,
                                token,
                                match user { Some(u) => u, None => from },
                            ),
                        }
                    }
                }
            },
        }
    }
}

/// A swap triggered by an inbound transfer of `amount` of `input_token`.
/// Prices the exchange, forwards the fee in base terms to the staking
/// collaborator, and delivers the output directly, to an overriding
/// beneficiary, or onward to a downstream pool as a hop.  The ledger is
/// updated exactly once, only on success.
pub fn receive_swap(
    state: &mut State,
    input_token: String,
    from: String,
    amount: u128,
    min_received: Option<u128>,
    hop: Option<HopDetails>,
    user: Option<String>,
) -> (r: Result<Vec<Instruction>, PoolError>)
    requires
        old(state).wf(),
        spec_receive_swap_fits(*old(state), amount as int, input_token),
    ensures
        final(state).wf(),
        receive_swap_post(
            *old(state),
            *final(state),
            input_token,
            from,
            amount as int,
            min_received,
            hop,
            user,
            r,
        ),
{
    if !state.is_ready() {
        return Err(PoolError::NotBootstrapped);
    }
    let mut st = state.clone();
    let swap_result = calculate_swap(&mut st, amount, &input_token);
    let (protocol_fee_amount, output_amount, output_addr, output_hash, trade_volume) =
        match swap_result {
        Ok(t) => t,
        Err(e) => {
            return Err(e);
        },
    };
    proof {
        lemma_swap_outcome_bounds(*old(state), amount as int, input_token);
    }
    let mut messages: Vec<Instruction> = Vec::new();
    let pool_liquidity = st.token_erth_reserve * 2;
    messages.push(
        Instruction::Send {
            token: st.token_erth_contract.clone(),
            token_hash: st.token_erth_hash.clone(),
            recipient: st.lp_staking_contract.clone(),
            recipient_hash: Some(st.lp_staking_hash.clone()),
            amount: protocol_fee_amount,
            msg: SendMessage::BurnErth {
                trade_volume,
                pool_liquidity,
                total_shares: st.total_shares,
            },
        },
    );
    match hop {
        Some(hop_details) => {
            messages.push(
                Instruction::Send {
                    token: output_addr,
                    token_hash: output_hash,
                    recipient: hop_details.contract,
                    recipient_hash: Some(hop_details.hash),
                    amount: output_amount,
                    msg: SendMessage::Swap { min_received, user: from },
                },
            );
        },
        None => {
            if let Some(min) = min_received {
                if output_amount < min {
                    return Err(PoolError::SlippageExceeded);
                }
            }
            let recipient = match user {
                Some(user_addr) => user_addr,
                None => from,
            };
            messages.push(
                Instruction::Transfer {
                    token: output_addr,
                    token_hash: output_hash,
                    recipient,
                    amount: output_amount,
                },
            );
        },
    }
    *state = st;
    Ok(messages)
}

/// Machine bounds under which [`receive_erth_buyback_swap`] runs without
/// overflow.
pub open spec fn spec_erth_buyback_fits(st: State, from: String, token: String, amount: int) -> bool {
    st.spec_is_ready() && from@ == st.lp_staking_contract@ && token@ == st.token_b_contract@
        && st.total_shares != 0 ==> {
        &&& spec_feeless_fits(st, amount, token)
        &&& (spec_feeless_in_reserve(st, token) + amount != 0 ==> 2 * (st.token_erth_reserve
            - spec_feeless_output(st, amount, token)) <= u128::MAX)
    }
}

/// Everything [`receive_erth_buyback_swap`] promises: the caller must be
/// the staking collaborator sending the quote asset; the conversion is
/// feeless, the reserves move by exactly the input and output, and the base
/// output is forwarded to the staking collaborator for burning.
pub open spec fn erth_buyback_post(
    pre: State,
    post: State,
    from: String,
    token: String,
    amount: int,
    r: Result<Vec<Instruction>, PoolError>,
) -> bool {
    if !pre.spec_is_ready() {
        &&& r == Err::<Vec<Instruction>, PoolError>(PoolError::NotBootstrapped)
        &&& post == pre
    } else if from@ != pre.lp_staking_contract@ || token@ != pre.token_b_contract@ {
        &&& r == Err::<Vec<Instruction>, PoolError>(PoolError::Unauthorized)
        &&& post == pre
    } else if pre.total_shares == 0 {
        &&& r == Err::<Vec<Instruction>, PoolError>(PoolError::InsufficientLiquidity)
        &&& post == pre
    } else if spec_feeless_in_reserve(pre, token) + amount == 0 {
        &&& r == Err::<Vec<Instruction>, PoolError>(PoolError::InsufficientLiquidity)
        &&& post == pre
    } else {
        let out = spec_feeless_output(pre, amount, token);
        &&& post == State {
            token_b_reserve: (pre.token_b_reserve + amount) as u128,
            token_erth_reserve: (pre.token_erth_reserve - out) as u128,
            ..pre
        }
        &&& r matches Ok(v) && {
            &&& v@.len() == 1
            &&& v@[0] == Instruction::Send {
                token: pre.token_erth_contract,
                token_hash: pre.token_erth_hash,
                recipient: pre.lp_staking_contract,
                recipient_hash: Some(pre.lp_staking_hash),
                amount: out as u128,
                msg: SendMessage::BurnErth {
                    trade_volume: out as u128,
                    pool_liquidity: (2 * (pre.token_erth_reserve - out)) as u128,
                    total_shares: pre.total_shares,
                },
            }
        }
    }
}

/// Privileged base-asset buyback: the staking collaborator sends the quote
/// asset, which is converted to the base asset at zero fee and forwarded
/// back to it with a burn instruction.
pub fn receive_erth_buyback_swap(
    state: &mut State,
    from: String,
    input_token: String,
    amount: u128,
) -> (r: Result<Vec<Instruction>, PoolError>)
    requires
        old(state).wf(),
        spec_erth_buyback_fits(*old(state), from, input_token, amount as int),
    ensures
        final(state).wf(),
        erth_buyback_post(*old(state), *final(state), from, input_token, amount as int, r),
{
    if !state.is_ready() {
        return Err(PoolError::NotBootstrapped);
    }
    if !(from == state.lp_staking_contract) || !(input_token == state.token_b_contract) {
        return Err(PoolError::Unauthorized);
    }
    if state.total_shares == 0 {
        return Err(PoolError::InsufficientLiquidity);
    }
    let output_amount = match calculate_feeless_swap(state, amount, &input_token) {
        Ok(v) => v,
        Err(e) => {
            return Err(e);
        },
    };
    state.token_b_reserve = state.token_b_reserve + amount;
    state.token_erth_reserve = state.token_erth_reserve - output_amount;
    let pool_liquidity = state.token_erth_reserve * 2;
    let mut messages: Vec<Instruction> = Vec::new();
    messages.push(
        Instruction::Send {
            token: state.token_erth_contract.clone(),
            token_hash: state.token_erth_hash.clone(),
            recipient: state.lp_staking_contract.clone(),
            recipient_hash: Some(state.lp_staking_hash.clone()),
            amount: output_amount,
            msg: SendMessage::BurnErth {
                trade_volume: output_amount,
                pool_liquidity,
                total_shares: state.total_shares,
            },
        },
    );
    Ok(messages)
}

/// Machine bounds under which [`receive_anml_buyback_swap`] runs without
/// overflow.  When the two token contracts share an address the feeless
/// path prices against the quote reserve; the quote reserve must then cover
/// the output it pays out.
pub open spec fn spec_anml_buyback_fits(st: State, from: String, token: String, amount: int) -> bool {
    st.spec_is_ready() && from@ == st.registration_contract@ && token@
        == st.token_erth_contract@ && st.total_shares != 0 ==> {
        &&& spec_feeless_fits(st, amount, token)
        &&& st.token_erth_reserve + amount <= u128::MAX
        &&& (spec_feeless_in_reserve(st, token) + amount != 0 ==> {
            &&& 2 * (st.token_erth_reserve + amount) <= u128::MAX
            &&& spec_feeless_output(st, amount, token) <= st.token_b_reserve
        })
    }
}

/// Everything [`receive_anml_buyback_swap`] promises: the caller must be
/// the registration collaborator sending the base asset; the conversion is
/// feeless, and the quote output goes to the staking collaborator with the
/// alternate burn instruction.
pub open spec fn anml_buyback_post(
    pre: State,
    post: State,
    from: String,
    token: String,
    amount: int,
    r: Result<Vec<Instruction>, PoolError>,
) -> bool {
    if !pre.spec_is_ready() {
        &&& r == Err::<Vec<Instruction>, PoolError>(PoolError::NotBootstrapped)
        &&& post == pre
    } else if from@ != pre.registration_contract@ || token@ != pre.token_erth_contract@ {
        &&& r == Err::<Vec<Instruction>, PoolError>(PoolError::Unauthorized)
        &&& post == pre
    } else if pre.total_shares == 0 {
        &&& r == Err::<Vec<Instruction>, PoolError>(PoolError::InsufficientLiquidity)
        &&& post == pre
    } else if spec_feeless_in_reserve(pre, token) + amount == 0 {
        &&& r == Err::<Vec<Instruction>, PoolError>(PoolError::InsufficientLiquidity)
        &&& post == pre
    } else {
        let out = spec_feeless_output(pre, amount, token);
        &&& post == State {
            token_erth_reserve: (pre.token_erth_reserve + amount) as u128,
            token_b_reserve: (pre.token_b_reserve - out) as u128,
            ..pre
        }
        &&& r matches Ok(v) && {
            &&& v@.len() == 1
            &&& v@[0] == Instruction::Send {
                token: pre.token_b_contract,
                token_hash: pre.token_b_hash,
                recipient: pre.lp_staking_contract,
                recipient_hash: Some(pre.lp_staking_hash),
                amount: out as u128,
                msg: SendMessage::BurnAnml {
                    trade_volume: amount as u128,
                    pool_liquidity: (2 * (pre.token_erth_reserve + amount)) as u128,
                    total_shares: pre.total_shares,
                },
            }
        }
    }
}

/// Privileged quote-asset buyback: the registration collaborator sends the
/// base asset, which is converted to the quote asset at zero fee and
/// forwarded to the staking collaborator with the alternate burn
/// instruction.
pub fn receive_anml_buyback_swap(
    state: &mut State,
    from: String,
    input_token: String,
    amount: u128,
) -> (r: Result<Vec<Instruction>, PoolError>)
    requires
        old(state).wf(),
        spec_anml_buyback_fits(*old(state), from, input_token, amount as int),
    ensures
        final(state).wf(),
        anml_buyback_post(*old(state), *final(state), from, input_token, amount as int, r),
{
    if !state.is_ready() {
        return Err(PoolError::NotBootstrapped);
    }
    if !(from == state.registration_contract) || !(input_token == state.token_erth_contract) {
        return Err(PoolError::Unauthorized);
    }
    if state.total_shares == 0 {
        return Err(PoolError::InsufficientLiquidity);
    }
    let output_amount = match calculate_feeless_swap(state, amount, &input_token) {
        Ok(v) => v,
        Err(e) => {
            return Err(e);
        },
    };
    state.token_erth_reserve = state.token_erth_reserve + amount;
    state.token_b_reserve = state.token_b_reserve - output_amount;
    let pool_liquidity = state.token_erth_reserve * 2;
    let mut messages: Vec<Instruction> = Vec::new();
    messages.push(
        Instruction::Send {
            token: state.token_b_contract.clone(),
            token_hash: state.token_b_hash.clone(),
            recipient: state.lp_staking_contract.clone(),
            recipient_hash: Some(state.lp_staking_hash.clone()),
            amount: output_amount,
            msg: SendMessage::BurnAnml {
                trade_volume: amount,
                pool_liquidity,
                total_shares: state.total_shares,
            },
        },
    );
    Ok(messages)
}

/// Runtime check of [`spec_swap_fits`], for hosts that must test the
/// machine bounds before calling [`calculate_swap`] or [`query_swap`].
pub fn swap_fits_check(state: &State, amount: u128, input_token: &String) -> (r: bool)
    requires
        state.wf(),
    ensures
        r == spec_swap_fits(*state, amount as int, *input_token),
{
    if amount.checked_mul(state.protocol_fee).is_none() {
        return false;
    }
    proof {
        lemma_fee_bounds(amount as int, state.protocol_fee as int);
    }
    let fee = amount * state.protocol_fee / FEE_DENOM;
    let net = amount - fee;
    if *input_token == state.token_erth_contract {
        if state.total_shares == 0 {
            return true;
        }
        if state.token_erth_reserve == 0 && net == 0 {
            return true;
        }
        if net.checked_mul(state.token_b_reserve).is_none() {
            return false;
        }
        state.token_erth_reserve.checked_add(net).is_some()
    } else if *input_token == state.token_b_contract {
        if state.total_shares == 0 {
            return true;
        }
        if state.token_b_reserve == 0 {
            return true;
        }
        if amount.checked_mul(state.token_erth_reserve).is_none() {
            return false;
        }
        state.token_b_reserve.checked_add(amount).is_some()
    } else {
        true
    }
}

/// Runtime check of [`spec_receive_swap_fits`], for hosts that must test
/// the machine bounds before calling [`receive_swap`].
pub fn receive_swap_fits_check(state: &State, amount: u128, input_token: &String) -> (r: bool)
    requires
        state.wf(),
    ensures
        r == spec_receive_swap_fits(*state, amount as int, *input_token),
{
    if !state.is_ready() {
        return true;
    }
    if amount.checked_mul(state.protocol_fee).is_none() {
        return false;
    }
    proof {
        lemma_fee_bounds(amount as int, state.protocol_fee as int);
    }
    let fee = amount * state.protocol_fee / FEE_DENOM;
    let net = amount - fee;
    if *input_token == state.token_erth_contract {
        if state.total_shares == 0 {
            return true;
        }
        if state.token_erth_reserve == 0 && net == 0 {
            return true;
        }
        if net.checked_mul(state.token_b_reserve).is_none() {
            return false;
        }
        if state.token_erth_reserve.checked_add(net).is_none() {
            return false;
        }
        let new_erth = state.token_erth_reserve + net;
        new_erth.checked_mul(2).is_some()
    } else if *input_token == state.token_b_contract {
        if state.total_shares == 0 {
            return true;
        }
        if state.token_b_reserve == 0 {
            return true;
        }
        if amount.checked_mul(state.token_erth_reserve).is_none() {
            return false;
        }
        if state.token_b_reserve.checked_add(amount).is_none() {
            return false;
        }
        // dry-run the exchange and fee conversion to bound the liquidity
        // proxy of the fee-forward payload
        proof {
            lemma_mul_inequality(net as int, amount as int, state.token_erth_reserve as int);
            lemma_cp_output_bounds(
                net as int,
                state.token_b_reserve as int,
                state.token_erth_reserve as int,
            );
        }
        let out = net * state.token_erth_reserve / (state.token_b_reserve + net);
        let e_mid = state.token_erth_reserve - out;
        let b_mid = state.token_b_reserve + net;
        proof {
            lemma_mul_upper_bound(
                fee as int,
                amount as int,
                e_mid as int,
                state.token_erth_reserve as int,
            );
            lemma_cp_output_bounds(fee as int, b_mid as int, e_mid as int);
        }
        let fee_in_erth = fee * e_mid / (b_mid + fee);
        let new_erth = e_mid - fee_in_erth;
        new_erth.checked_mul(2).is_some()
    } else {
        true
    }
}

/// Runtime check of [`spec_erth_buyback_fits`].
pub fn erth_buyback_fits_check(state: &State, from: &String, input_token: &String, amount: u128) -> (r: bool)
    requires
        state.wf(),
    ensures
        r == spec_erth_buyback_fits(*state, *from, *input_token, amount as int),
{
    if !state.is_ready() {
        return true;
    }
    if !(*from == state.lp_staking_contract) || !(*input_token == state.token_b_contract) {
        return true;
    }
    if state.total_shares == 0 {
        return true;
    }
    if amount.checked_mul(state.token_erth_reserve).is_none() {
        return false;
    }
    if state.token_b_reserve.checked_add(amount).is_none() {
        return false;
    }
    if state.token_b_reserve == 0 && amount == 0 {
        return true;
    }
    proof {
        lemma_cp_output_bounds(
            amount as int,
            state.token_b_reserve as int,
            state.token_erth_reserve as int,
        );
    }
    let out = amount * state.token_erth_reserve / (state.token_b_reserve + amount);
    (state.token_erth_reserve - out).checked_mul(2).is_some()
}

/// Runtime check of [`spec_anml_buyback_fits`].
pub fn anml_buyback_fits_check(state: &State, from: &String, input_token: &String, amount: u128) -> (r: bool)
    requires
        state.wf(),
    ensures
        r == spec_anml_buyback_fits(*state, *from, *input_token, amount as int),
{
    if !state.is_ready() {
        return true;
    }
    if !(*from == state.registration_contract) || !(*input_token == state.token_erth_contract) {
        return true;
    }
    if state.total_shares == 0 {
        return true;
    }
    let (in_reserve, out_reserve) = if *input_token == state.token_b_contract {
        (state.token_b_reserve, state.token_erth_reserve)
    } else {
        (state.token_erth_reserve, state.token_b_reserve)
    };
    if amount.checked_mul(out_reserve).is_none() {
        return false;
    }
    if in_reserve.checked_add(amount).is_none() {
        return false;
    }
    if state.token_erth_reserve.checked_add(amount).is_none() {
        return false;
    }
    if in_reserve == 0 && amount == 0 {
        return true;
    }
    proof {
        lemma_cp_output_bounds(amount as int, in_reserve as int, out_reserve as int);
    }
    let out = amount * out_reserve / (in_reserve + amount);
    if (state.token_erth_reserve + amount).checked_mul(2).is_none() {
        return false;
    }
    out <= state.token_b_reserve
}

/// Read-only swap quotation: the fee (in base terms) and output a swap of
/// `input_amount` would produce right now, leaving the ledger untouched.
pub fn query_swap(state: &State, input_amount: u128, input_token: String) -> (r: Result<
    QuerySwapResponse,
    PoolError,
>)
    requires
        state.wf(),
        spec_swap_fits(*state, input_amount as int, input_token),
    ensures
        match spec_swap_guard(*state, input_amount as int, input_token) {
            Some(e) => r == Err::<QuerySwapResponse, PoolError>(e),
            None => r matches Ok(q) && {
                &&& q.protocol_fee_amount == spec_swap_fee_erth(
                    *state,
                    input_amount as int,
                    input_token,
                ) as u128
                &&& q.output_amount == spec_swap_output(
                    *state,
                    input_amount as int,
                    input_token,
                ) as u128
            },
        },
{
    let mut st = state.clone();
    match calculate_swap(&mut st, input_amount, &input_token) {
        Ok(t) => Ok(QuerySwapResponse { protocol_fee_amount: t.0, output_amount: t.1 }),
        Err(e) => Err(e),
    }
}

} // verus!
