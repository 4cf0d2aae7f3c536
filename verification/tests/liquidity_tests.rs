use erth_pool::liquidity::{execute_add_liquidity, recieve_unbond_liquidity};
use erth_pool::msg::{Instruction, PoolError};
use erth_pool::state::State;

fn s(x: &str) -> String {
    x.to_string()
}

fn ready_state() -> State {
    State {
        contract_manager: s("manager"),
        token_erth_contract: s("erth_token"),
        token_erth_hash: s("erth_hash"),
        token_b_contract: s("b_token"),
        token_b_hash: s("b_hash"),
        token_b_symbol: s("ANML"),
        registration_contract: s("registration"),
        registration_hash: s("registration_hash"),
        lp_token_contract: s("lp_token"),
        lp_token_hash: s("lp_hash"),
        lp_token_code_id: 42,
        lp_staking_contract: s("staking"),
        lp_staking_hash: s("staking_hash"),
        token_erth_reserve: 1_000_000,
        token_b_reserve: 1_000_000,
        total_shares: 1_000_000,
        protocol_fee: 30,
    }
}

fn empty_ready_state() -> State {
    let mut st = ready_state();
    st.token_erth_reserve = 0;
    st.token_b_reserve = 0;
    st.total_shares = 0;
    st
}

#[test]
fn initial_liquidity_mints_sum_of_amounts() {
    // on an empty pool, add_liquidity(A, B) yields shares == A + B and
    // reserves A and B, consumed in full
    let mut st = empty_ready_state();
    let msgs = execute_add_liquidity(&mut st, s("alice"), s("pool"), 500, 700).unwrap();
    assert_eq!(st.total_shares, 1_200);
    assert_eq!(st.token_erth_reserve, 500);
    assert_eq!(st.token_b_reserve, 700);
    assert_eq!(msgs.len(), 3);
    assert_eq!(
        msgs[0],
        Instruction::TransferFrom {
            token: s("erth_token"),
            token_hash: s("erth_hash"),
            owner: s("alice"),
            recipient: s("pool"),
            amount: 500,
        }
    );
    assert_eq!(
        msgs[1],
        Instruction::TransferFrom {
            token: s("b_token"),
            token_hash: s("b_hash"),
            owner: s("alice"),
            recipient: s("pool"),
            amount: 700,
        }
    );
    assert_eq!(
        msgs[2],
        Instruction::Mint {
            token: s("lp_token"),
            token_hash: s("lp_hash"),
            recipient: s("alice"),
            amount: 1_200,
        }
    );
}

#[test]
fn proportional_liquidity_refunds_excess() {
    // the quote side limits the mint; the surplus base deposit above the
    // dust threshold is refunded
    let mut st = ready_state();
    let msgs = execute_add_liquidity(&mut st, s("alice"), s("pool"), 10_000, 9_000).unwrap();
    assert_eq!(st.total_shares, 1_009_000);
    assert_eq!(st.token_erth_reserve, 1_009_000);
    assert_eq!(st.token_b_reserve, 1_009_000);
    assert_eq!(msgs.len(), 4);
    assert_eq!(
        msgs[2],
        Instruction::Transfer {
            token: s("erth_token"),
            token_hash: s("erth_hash"),
            recipient: s("alice"),
            amount: 1_000,
        }
    );
    assert_eq!(
        msgs[3],
        Instruction::Mint {
            token: s("lp_token"),
            token_hash: s("lp_hash"),
            recipient: s("alice"),
            amount: 9_000,
        }
    );
}

#[test]
fn small_excess_is_kept_as_dust() {
    // an excess of one unit stays below the refund threshold
    let mut st = ready_state();
    let msgs = execute_add_liquidity(&mut st, s("alice"), s("pool"), 10_001, 10_000).unwrap();
    assert_eq!(msgs.len(), 3);
    assert_eq!(st.total_shares, 1_010_000);
    assert_eq!(st.token_erth_reserve, 1_010_000);
    assert_eq!(st.token_b_reserve, 1_010_000);
}

#[test]
fn add_liquidity_requires_bootstrap() {
    let mut st = empty_ready_state();
    st.lp_token_contract = s("");
    let r = execute_add_liquidity(&mut st, s("alice"), s("pool"), 500, 700);
    assert_eq!(r, Err(PoolError::NotBootstrapped));
}

#[test]
fn add_liquidity_refuses_drained_reserve() {
    let mut st = ready_state();
    st.token_b_reserve = 0;
    let r = execute_add_liquidity(&mut st, s("alice"), s("pool"), 500, 700);
    assert_eq!(r, Err(PoolError::InsufficientLiquidity));
}

#[test]
fn unbond_pays_proportional_amounts() {
    let mut st = ready_state();
    let msgs = recieve_unbond_liquidity(&mut st, s("lp_token"), s("alice"), 100_000).unwrap();
    assert_eq!(st.total_shares, 900_000);
    assert_eq!(st.token_erth_reserve, 900_000);
    assert_eq!(st.token_b_reserve, 900_000);
    assert_eq!(msgs.len(), 3);
    assert_eq!(
        msgs[0],
        Instruction::Burn {
            token: s("lp_token"),
            token_hash: s("lp_hash"),
            amount: 100_000,
        }
    );
    assert_eq!(
        msgs[1],
        Instruction::Transfer {
            token: s("erth_token"),
            token_hash: s("erth_hash"),
            recipient: s("alice"),
            amount: 100_000,
        }
    );
    assert_eq!(
        msgs[2],
        Instruction::Transfer {
            token: s("b_token"),
            token_hash: s("b_hash"),
            recipient: s("alice"),
            amount: 100_000,
        }
    );
}

#[test]
fn unbond_requires_share_ledger_caller() {
    let mut st = ready_state();
    let r = recieve_unbond_liquidity(&mut st, s("intruder"), s("alice"), 100_000);
    assert_eq!(r, Err(PoolError::Unauthorized));
    assert_eq!(st, ready_state());
}

#[test]
fn unbond_requires_bootstrap() {
    let mut st = ready_state();
    st.lp_token_contract = s("");
    let r = recieve_unbond_liquidity(&mut st, s("lp_token"), s("alice"), 100_000);
    assert_eq!(r, Err(PoolError::NotBootstrapped));
}

#[test]
fn liquidity_round_trip_returns_consumed_amounts() {
    // deposit, then immediately withdraw the minted shares: exactly the
    // consumed amounts come back, never more than was supplied
    let mut st = ready_state();
    let supplied_erth: u128 = 10_000;
    let supplied_b: u128 = 9_000;
    execute_add_liquidity(&mut st, s("alice"), s("pool"), supplied_erth, supplied_b).unwrap();
    let minted = st.total_shares - 1_000_000;
    let erth_before = st.token_erth_reserve;
    let b_before = st.token_b_reserve;
    let msgs = recieve_unbond_liquidity(&mut st, s("lp_token"), s("alice"), minted).unwrap();
    let returned_erth = erth_before - st.token_erth_reserve;
    let returned_b = b_before - st.token_b_reserve;
    // consumed amounts were 9,000 of each; both come back exactly
    assert_eq!(returned_erth, 9_000);
    assert_eq!(returned_b, 9_000);
    assert!(returned_erth <= supplied_erth);
    assert!(returned_b <= supplied_b);
    assert_eq!(st.total_shares, 1_000_000);
    assert!(matches!(&msgs[1], Instruction::Transfer { amount: 9_000, .. }));
}

#[test]
fn round_trip_on_fresh_pool_is_exact() {
    let mut st = empty_ready_state();
    execute_add_liquidity(&mut st, s("alice"), s("pool"), 12_345, 67_890).unwrap();
    let minted = st.total_shares;
    recieve_unbond_liquidity(&mut st, s("lp_token"), s("alice"), minted).unwrap();
    assert_eq!(st.total_shares, 0);
    assert_eq!(st.token_erth_reserve, 0);
    assert_eq!(st.token_b_reserve, 0);
}

#[test]
fn share_mint_is_limited_by_smaller_claim() {
    // an unbalanced pool: 2,000,000 base / 500,000 quote, 1,000,000 shares
    let mut st = ready_state();
    st.token_erth_reserve = 2_000_000;
    st.token_b_reserve = 500_000;
    let msgs = execute_add_liquidity(&mut st, s("alice"), s("pool"), 20_000, 20_000).unwrap();
    // base claim: 20,000 * 1,000,000 / 2,000,000 = 10,000
    // quote claim: 20,000 * 1,000,000 / 500,000 = 40,000; base limits
    assert_eq!(st.total_shares, 1_010_000);
    // consumed: 10,000 * 2,000,000 / 1,000,000 = 20,000 base,
    //           10,000 * 500,000 / 1,000,000 = 5,000 quote
    assert_eq!(st.token_erth_reserve, 2_020_000);
    assert_eq!(st.token_b_reserve, 505_000);
    // the 15,000 quote surplus is refunded
    assert_eq!(
        msgs[2],
        Instruction::Transfer {
            token: s("b_token"),
            token_hash: s("b_hash"),
            recipient: s("alice"),
            amount: 15_000,
        }
    );
}
