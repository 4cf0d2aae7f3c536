//! Request routing: every inbound request is dispatched to the liquidity
//! engine, the swap engine or a buyback channel, with the routed contract
//! equal to the routed-to operation's own.

use vstd::prelude::*;
use crate::state::State;
use crate::msg::{
    PoolError, Instruction, ExecuteMsg, ReceiveMsg, QueryMsg, QueryAnswer, QueryStateResponse,
    UnclaimedDepositResponse,
};
use crate::liquidity::{execute_add_liquidity, recieve_unbond_liquidity, add_liquidity_post,
    add_liquidity_fits_check, spec_add_liquidity_fits, spec_unbond_fits, unbond_fits_check,
    unbond_post};
use crate::admin::{execute_update_state, update_state_post};
use crate::swap::{
    receive_swap, receive_erth_buyback_swap, receive_anml_buyback_swap, receive_swap_post,
    erth_buyback_post, anml_buyback_post, spec_receive_swap_fits, spec_erth_buyback_fits,
    spec_anml_buyback_fits, receive_swap_fits_check, erth_buyback_fits_check,
    anml_buyback_fits_check,
};

verus! {

/// Machine bounds under which a routed inbound transfer runs without
/// overflow, by payload kind.
pub open spec fn spec_receive_fits(
    st: State,
    token: String,
    from: String,
    amount: int,
    rmsg: ReceiveMsg,
) -> bool {
    match rmsg {
        ReceiveMsg::Swap { min_received, hop, user } => spec_receive_swap_fits(st, amount, token),
        ReceiveMsg::UnbondLiquidity {} => spec_unbond_fits(st, token, amount),
        ReceiveMsg::ErthBuybackSwap {} => spec_erth_buyback_fits(st, from, token, amount),
        ReceiveMsg::AnmlBuybackSwap {} => spec_anml_buyback_fits(st, from, token, amount),
    }
}

/// A routed inbound transfer behaves exactly as the operation its payload
/// names.
pub open spec fn receive_post(
    pre: State,
    post: State,
    token: String,
    from: String,
    amount: int,
    rmsg: ReceiveMsg,
    r: Result<Vec<Instruction>, PoolError>,
) -> bool {
    match rmsg {
        ReceiveMsg::Swap { min_received, hop, user } => receive_swap_post(
            pre,
            post,
            token,
            from,
            amount,
            min_received,
            hop,
            user,
            r,
        ),
        ReceiveMsg::UnbondLiquidity {} => unbond_post(pre, post, token, from, amount, r),
        ReceiveMsg::ErthBuybackSwap {} => erth_buyback_post(pre, post, from, token, amount, r),
        ReceiveMsg::AnmlBuybackSwap {} => anml_buyback_post(pre, post, from, token, amount, r),
    }
}

/// Entry point for inbound token transfers carrying a payload.  The
/// sending token contract is the authenticated caller; `from` is the
/// account whose tokens arrived.
pub fn execute_receive(
    state: &mut State,
    info_sender: String,
    from: String,
    amount: u128,
    msg: ReceiveMsg,
) -> (r: Result<Vec<Instruction>, PoolError>)
    requires
        old(state).wf(),
        spec_receive_fits(*old(state), info_sender, from, amount as int, msg),
    ensures
        final(state).wf(),
        receive_post(*old(state), *final(state), info_sender, from, amount as int, msg, r),
{
    match msg {
        ReceiveMsg::Swap { min_received, hop, user } => receive_swap(
            state,
            info_sender,
            from,
            amount,
            min_received,
            hop,
            user,
        ),
        ReceiveMsg::UnbondLiquidity {} => recieve_unbond_liquidity(
            state,
            info_sender,
            from,
            amount,
        ),
        ReceiveMsg::ErthBuybackSwap {} => receive_erth_buyback_swap(
            state,
            from,
            info_sender,
            amount,
        ),
        ReceiveMsg::AnmlBuybackSwap {} => receive_anml_buyback_swap(
            state,
            from,
            info_sender,
            amount,
        ),
    }
}

/// Runtime check of [`spec_receive_fits`], for hosts that must test the
/// machine bounds before calling [`execute_receive`].
pub fn receive_fits_check(
    state: &State,
    token: &String,
    from: &String,
    amount: u128,
    rmsg: &ReceiveMsg,
) -> (r: bool)
    requires
        state.wf(),
    ensures
        r == spec_receive_fits(*state, *token, *from, amount as int, *rmsg),
{
    match rmsg {
        ReceiveMsg::Swap { .. } => receive_swap_fits_check(state, amount, token),
        ReceiveMsg::UnbondLiquidity {} => unbond_fits_check(state, token, amount),
        ReceiveMsg::ErthBuybackSwap {} => erth_buyback_fits_check(state, from, token, amount),
        ReceiveMsg::AnmlBuybackSwap {} => anml_buyback_fits_check(state, from, token, amount),
    }
}

/// Machine bounds under which a top-level request runs without overflow.
pub open spec fn spec_execute_fits(st: State, sender: String, msg: ExecuteMsg) -> bool {
    match msg {
        ExecuteMsg::AddLiquidity { amount_erth, amount_b } => spec_add_liquidity_fits(
            st,
            amount_erth as int,
            amount_b as int,
        ),
        ExecuteMsg::UpdateState { key, value } => true,
        ExecuteMsg::Receive { sender: tx_sender, from, amount, msg: rmsg, memo } =>
            spec_receive_fits(st, sender, from, amount as int, rmsg),
    }
}

/// Runtime check of [`spec_execute_fits`], for hosts that must test the
/// machine bounds before calling [`execute`].
pub fn execute_fits_check(state: &State, sender: &String, msg: &ExecuteMsg) -> (r: bool)
    requires
        state.wf(),
    ensures
        r == spec_execute_fits(*state, *sender, *msg),
{
    match msg {
        ExecuteMsg::AddLiquidity { amount_erth, amount_b } => add_liquidity_fits_check(
            state,
            *amount_erth,
            *amount_b,
        ),
        ExecuteMsg::UpdateState { .. } => true,
        ExecuteMsg::Receive { sender: _, from, amount, msg: rmsg, memo: _ } => receive_fits_check(
            state,
            sender,
            from,
            *amount,
            rmsg,
        ),
    }
}

/// A top-level request behaves exactly as the operation it names; a
/// configuration update returns no instructions.
pub open spec fn execute_post(
    pre: State,
    post: State,
    sender: String,
    own_address: String,
    msg: ExecuteMsg,
    r: Result<Vec<Instruction>, PoolError>,
) -> bool {
    match msg {
        ExecuteMsg::AddLiquidity { amount_erth, amount_b } => add_liquidity_post(
            pre,
            post,
            sender,
            own_address,
            amount_erth as int,
            amount_b as int,
            r,
        ),
        ExecuteMsg::UpdateState { key, value } => match r {
            Ok(v) => v@.len() == 0 && update_state_post(
                pre,
                post,
                sender,
                key,
                value,
                Ok::<(), PoolError>(()),
            ),
            Err(e) => update_state_post(pre, post, sender, key, value, Err::<(), PoolError>(e)),
        },
        ExecuteMsg::Receive { sender: tx_sender, from, amount, msg: rmsg, memo } => receive_post(
            pre,
            post,
            sender,
            from,
            amount as int,
            rmsg,
            r,
        ),
    }
}

/// Top-level request router.  `sender` is the authenticated caller of the
/// invocation; `own_address` this pool's own address.
pub fn execute(state: &mut State, sender: String, own_address: String, msg: ExecuteMsg) -> (r:
    Result<Vec<Instruction>, PoolError>)
    requires
        old(state).wf(),
        spec_execute_fits(*old(state), sender, msg),
    ensures
        final(state).wf(),
        execute_post(*old(state), *final(state), sender, own_address, msg, r),
{
    match msg {
        ExecuteMsg::AddLiquidity { amount_erth, amount_b } => execute_add_liquidity(
            state,
            sender,
            own_address,
            amount_erth,
            amount_b,
        ),
        ExecuteMsg::UpdateState { key, value } => match execute_update_state(
            state,
            sender,
            key,
            value,
        ) {
            Ok(()) => Ok(Vec::new()),
            Err(e) => Err(e),
        },
        ExecuteMsg::Receive { sender: _, from, amount, msg: rmsg, memo: _ } => execute_receive(
            state,
            sender,
            from,
            amount,
            rmsg,
        ),
    }
}

/// Snapshot of the ledger.
pub fn query_state(state: &State) -> (r: QueryStateResponse)
    ensures
        r.state == *state,
{
    QueryStateResponse { state: state.clone() }
}

/// Unclaimed deposit owed to an address: the stored entry, or zero when
/// none exists.
pub fn query_deposit(unclaimed: Option<u128>) -> (r: UnclaimedDepositResponse)
    ensures
        r.unclaimed_deposit == (match unclaimed {
            Some(v) => v,
            None => 0u128,
        }),
{
    UnclaimedDepositResponse {
        unclaimed_deposit: match unclaimed {
            Some(v) => v,
            None => 0,
        },
    }
}

/// Read-only query router.  The host looks the queried address up in its
/// deposit map and hands the entry in as `unclaimed_deposit`.
pub fn query(state: &State, msg: QueryMsg, unclaimed_deposit: Option<u128>) -> (r: QueryAnswer)
    ensures
        match msg {
            QueryMsg::QueryState {} => r matches QueryAnswer::State(s) && s.state == *state,
            QueryMsg::QueryDeposit { address } => r matches QueryAnswer::Deposit(d)
                && d.unclaimed_deposit == (match unclaimed_deposit {
                Some(v) => v,
                None => 0u128,
            }),
        },
{
    match msg {
        QueryMsg::QueryState {} => QueryAnswer::State(query_state(state)),
        QueryMsg::QueryDeposit { address: _ } => QueryAnswer::Deposit(
            query_deposit(unclaimed_deposit),
        ),
    }
}

} // verus!
