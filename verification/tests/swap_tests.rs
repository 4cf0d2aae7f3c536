use erth_pool::msg::{HopDetails, Instruction, PoolError, SendMessage};
use erth_pool::state::State;
use erth_pool::swap::{
    calculate_feeless_swap, calculate_swap, query_swap, receive_anml_buyback_swap,
    receive_erth_buyback_swap, receive_swap,
};

fn s(x: &str) -> String {
    x.to_string()
}

fn ready_state() -> State {
    State {
        contract_manager: s("manager"),
        token_erth_contract: s("erth_token"),
        token_erth_hash: s("erth_hash"),
        token_b_contract: s("b_token"),
        token_b_hash: s("b_hash"),
        token_b_symbol: s("ANML"),
        registration_contract: s("registration"),
        registration_hash: s("registration_hash"),
        lp_token_contract: s("lp_token"),
        lp_token_hash: s("lp_hash"),
        lp_token_code_id: 42,
        lp_staking_contract: s("staking"),
        lp_staking_hash: s("staking_hash"),
        token_erth_reserve: 1_000_000,
        token_b_reserve: 1_000_000,
        total_shares: 1_000_000,
        protocol_fee: 30,
    }
}

#[test]
fn swap_concrete_scenario_base_in() {
    // base_reserve = quote_reserve = total_shares = 1,000,000, fee 30 bps;
    // 10,000 base in: fee 30, net 9,970, output 9,970 * 1,000,000 / 1,009,970 = 9,871
    let mut st = ready_state();
    let (fee, output, out_addr, out_hash, volume) =
        calculate_swap(&mut st, 10_000, &s("erth_token")).unwrap();
    assert_eq!(fee, 30);
    assert_eq!(output, 9_871);
    assert_eq!(out_addr, s("b_token"));
    assert_eq!(out_hash, s("b_hash"));
    assert_eq!(volume, 10_000);
    assert_eq!(st.token_erth_reserve, 1_009_970);
    assert_eq!(st.token_b_reserve, 990_129);
    assert_eq!(st.total_shares, 1_000_000);
}

#[test]
fn swap_constant_product_bound_holds() {
    // output * (reserve_in + net) <= net * reserve_out, and output < reserve_out
    let mut st = ready_state();
    let (_, output, _, _, _) = calculate_swap(&mut st, 10_000, &s("erth_token")).unwrap();
    let net: u128 = 9_970;
    assert!(output * (1_000_000 + net) <= net * 1_000_000);
    assert!(output < 1_000_000);
}

#[test]
fn swap_quote_in_converts_fee_to_base() {
    let mut st = ready_state();
    let (fee, output, out_addr, out_hash, volume) =
        calculate_swap(&mut st, 10_000, &s("b_token")).unwrap();
    // main leg mirrors the base-in numbers
    assert_eq!(output, 9_871);
    assert_eq!(out_addr, s("erth_token"));
    assert_eq!(out_hash, s("erth_hash"));
    // volume estimated by the pre-swap reserve ratio
    assert_eq!(volume, 10_000);
    // the 30-unit fee converts against the updated reserves:
    // 30 * 990,129 / (1,009,970 + 30) = 29
    assert_eq!(fee, 29);
    assert_eq!(st.token_b_reserve, 1_010_000);
    assert_eq!(st.token_erth_reserve, 990_100);
}

#[test]
fn swap_quote_in_reserve_deltas_reconcile() {
    // fee conservation: quote reserve gains the whole input; the base
    // reserve's decrease is the delivered output plus the forwarded fee
    let mut st = ready_state();
    let (fee, output, _, _, _) = calculate_swap(&mut st, 10_000, &s("b_token")).unwrap();
    assert_eq!(st.token_b_reserve, 1_000_000 + 10_000);
    assert_eq!(1_000_000, st.token_erth_reserve + output + fee);
}

#[test]
fn swap_base_in_input_splits_into_reserve_and_fee() {
    let mut st = ready_state();
    let (fee, _, _, _, _) = calculate_swap(&mut st, 10_000, &s("erth_token")).unwrap();
    // the reserve gains the net input; the fee is forwarded, not retained
    assert_eq!(st.token_erth_reserve - 1_000_000 + fee, 10_000);
}

#[test]
fn swap_unknown_token_is_refused() {
    let mut st = ready_state();
    let r = calculate_swap(&mut st, 10_000, &s("other_token"));
    assert_eq!(r, Err(PoolError::InvalidToken));
    assert_eq!(st, ready_state());
}

#[test]
fn swap_on_empty_pool_is_refused() {
    let mut st = ready_state();
    st.token_erth_reserve = 0;
    st.token_b_reserve = 0;
    st.total_shares = 0;
    let r = calculate_swap(&mut st, 10_000, &s("erth_token"));
    assert_eq!(r, Err(PoolError::InsufficientLiquidity));
}

#[test]
fn receive_swap_direct_delivery() {
    let mut st = ready_state();
    let msgs = receive_swap(&mut st, s("erth_token"), s("alice"), 10_000, None, None, None)
        .unwrap();
    assert_eq!(msgs.len(), 2);
    assert_eq!(
        msgs[0],
        Instruction::Send {
            token: s("erth_token"),
            token_hash: s("erth_hash"),
            recipient: s("staking"),
            recipient_hash: Some(s("staking_hash")),
            amount: 30,
            msg: SendMessage::BurnErth {
                trade_volume: 10_000,
                pool_liquidity: 2 * 1_009_970,
                total_shares: 1_000_000,
            },
        }
    );
    assert_eq!(
        msgs[1],
        Instruction::Transfer {
            token: s("b_token"),
            token_hash: s("b_hash"),
            recipient: s("alice"),
            amount: 9_871,
        }
    );
    assert_eq!(st.token_erth_reserve, 1_009_970);
    assert_eq!(st.token_b_reserve, 990_129);
}

#[test]
fn receive_swap_slippage_exceeded() {
    // a minimum above the true constant-product output fails, pool untouched
    let mut st = ready_state();
    let r = receive_swap(&mut st, s("erth_token"), s("alice"), 10_000, Some(9_872), None, None);
    assert_eq!(r, Err(PoolError::SlippageExceeded));
    assert_eq!(st, ready_state());
}

#[test]
fn receive_swap_minimum_met() {
    let mut st = ready_state();
    let r = receive_swap(&mut st, s("erth_token"), s("alice"), 10_000, Some(9_871), None, None);
    assert!(r.is_ok());
    assert_eq!(st.token_b_reserve, 990_129);
}

#[test]
fn receive_swap_hop_skips_slippage_check() {
    // the first leg of a hop never enforces min_received; it is forwarded
    let mut st = ready_state();
    let hop = HopDetails { contract: s("pool2"), hash: s("pool2_hash") };
    let msgs = receive_swap(
        &mut st,
        s("erth_token"),
        s("alice"),
        10_000,
        Some(999_999_999),
        Some(hop),
        None,
    )
    .unwrap();
    assert_eq!(msgs.len(), 2);
    assert_eq!(
        msgs[1],
        Instruction::Send {
            token: s("b_token"),
            token_hash: s("b_hash"),
            recipient: s("pool2"),
            recipient_hash: Some(s("pool2_hash")),
            amount: 9_871,
            msg: SendMessage::Swap { min_received: Some(999_999_999), user: s("alice") },
        }
    );
}

#[test]
fn receive_swap_beneficiary_override() {
    // the second leg of a hop delivers to the original beneficiary
    let mut st = ready_state();
    let msgs = receive_swap(
        &mut st,
        s("erth_token"),
        s("pool1"),
        10_000,
        None,
        None,
        Some(s("alice")),
    )
    .unwrap();
    assert_eq!(
        msgs[1],
        Instruction::Transfer {
            token: s("b_token"),
            token_hash: s("b_hash"),
            recipient: s("alice"),
            amount: 9_871,
        }
    );
}

#[test]
fn receive_swap_requires_bootstrap() {
    let mut st = ready_state();
    st.lp_token_contract = s("");
    let r = receive_swap(&mut st, s("erth_token"), s("alice"), 10_000, None, None, None);
    assert_eq!(r, Err(PoolError::NotBootstrapped));
}

#[test]
fn feeless_swap_quotes_without_mutation() {
    let st = ready_state();
    let out = calculate_feeless_swap(&st, 10_000, &s("b_token")).unwrap();
    assert_eq!(out, 10_000 * 1_000_000 / 1_010_000);
    assert_eq!(st, ready_state());
}

#[test]
fn feeless_swap_unknown_token_is_refused() {
    let st = ready_state();
    assert_eq!(
        calculate_feeless_swap(&st, 10_000, &s("nope")),
        Err(PoolError::InvalidToken)
    );
}

#[test]
fn erth_buyback_converts_and_burns() {
    let mut st = ready_state();
    let msgs = receive_erth_buyback_swap(&mut st, s("staking"), s("b_token"), 10_000).unwrap();
    // 10,000 * 1,000,000 / 1,010,000 = 9,900 base out
    assert_eq!(st.token_b_reserve, 1_010_000);
    assert_eq!(st.token_erth_reserve, 990_100);
    assert_eq!(msgs.len(), 1);
    assert_eq!(
        msgs[0],
        Instruction::Send {
            token: s("erth_token"),
            token_hash: s("erth_hash"),
            recipient: s("staking"),
            recipient_hash: Some(s("staking_hash")),
            amount: 9_900,
            msg: SendMessage::BurnErth {
                trade_volume: 9_900,
                pool_liquidity: 2 * 990_100,
                total_shares: 1_000_000,
            },
        }
    );
}

#[test]
fn erth_buyback_requires_staking_caller() {
    let mut st = ready_state();
    let r = receive_erth_buyback_swap(&mut st, s("intruder"), s("b_token"), 10_000);
    assert_eq!(r, Err(PoolError::Unauthorized));
    assert_eq!(st, ready_state());
}

#[test]
fn erth_buyback_requires_quote_asset() {
    let mut st = ready_state();
    let r = receive_erth_buyback_swap(&mut st, s("staking"), s("erth_token"), 10_000);
    assert_eq!(r, Err(PoolError::Unauthorized));
}

#[test]
fn anml_buyback_converts_and_burns() {
    let mut st = ready_state();
    let msgs = receive_anml_buyback_swap(&mut st, s("registration"), s("erth_token"), 10_000)
        .unwrap();
    assert_eq!(st.token_erth_reserve, 1_010_000);
    assert_eq!(st.token_b_reserve, 990_100);
    assert_eq!(msgs.len(), 1);
    assert_eq!(
        msgs[0],
        Instruction::Send {
            token: s("b_token"),
            token_hash: s("b_hash"),
            recipient: s("staking"),
            recipient_hash: Some(s("staking_hash")),
            amount: 9_900,
            msg: SendMessage::BurnAnml {
                trade_volume: 10_000,
                pool_liquidity: 2 * 1_010_000,
                total_shares: 1_000_000,
            },
        }
    );
}

#[test]
fn anml_buyback_requires_registration_caller() {
    let mut st = ready_state();
    let r = receive_anml_buyback_swap(&mut st, s("staking"), s("erth_token"), 10_000);
    assert_eq!(r, Err(PoolError::Unauthorized));
}

#[test]
fn anml_buyback_requires_base_asset() {
    let mut st = ready_state();
    let r = receive_anml_buyback_swap(&mut st, s("registration"), s("b_token"), 10_000);
    assert_eq!(r, Err(PoolError::Unauthorized));
}

#[test]
fn buybacks_require_bootstrap() {
    let mut st = ready_state();
    st.lp_token_contract = s("");
    assert_eq!(
        receive_erth_buyback_swap(&mut st, s("staking"), s("b_token"), 10_000),
        Err(PoolError::NotBootstrapped)
    );
    assert_eq!(
        receive_anml_buyback_swap(&mut st, s("registration"), s("erth_token"), 10_000),
        Err(PoolError::NotBootstrapped)
    );
}

#[test]
fn query_swap_reports_without_mutation() {
    let st = ready_state();
    let q = query_swap(&st, 10_000, s("erth_token")).unwrap();
    assert_eq!(q.protocol_fee_amount, 30);
    assert_eq!(q.output_amount, 9_871);
    assert_eq!(st, ready_state());
}

#[test]
fn query_swap_zero_fee_pool() {
    let mut st = ready_state();
    st.protocol_fee = 0;
    let q = query_swap(&st, 10_000, s("erth_token")).unwrap();
    assert_eq!(q.protocol_fee_amount, 0);
    assert_eq!(q.output_amount, 10_000 * 1_000_000 / 1_010_000);
}
