use erth_pool::admin::{execute_update_state, parse_u128};
use erth_pool::msg::PoolError;
use erth_pool::state::State;

fn s(x: &str) -> String {
    x.to_string()
}

fn ready_state() -> State {
    State {
        contract_manager: s("manager"),
        token_erth_contract: s("erth_token"),
        token_erth_hash: s("erth_hash"),
        token_b_contract: s("b_token"),
        token_b_hash: s("b_hash"),
        token_b_symbol: s("ANML"),
        registration_contract: s("registration"),
        registration_hash: s("registration_hash"),
        lp_token_contract: s("lp_token"),
        lp_token_hash: s("lp_hash"),
        lp_token_code_id: 42,
        lp_staking_contract: s("staking"),
        lp_staking_hash: s("staking_hash"),
        token_erth_reserve: 1_000_000,
        token_b_reserve: 1_000_000,
        total_shares: 1_000_000,
        protocol_fee: 30,
    }
}

#[test]
fn update_requires_manager() {
    let mut st = ready_state();
    let r = execute_update_state(&mut st, s("intruder"), s("protocol_fee"), s("100"));
    assert_eq!(r, Err(PoolError::Unauthorized));
    assert_eq!(st, ready_state());
}

#[test]
fn update_protocol_fee() {
    let mut st = ready_state();
    execute_update_state(&mut st, s("manager"), s("protocol_fee"), s("250")).unwrap();
    assert_eq!(st.protocol_fee, 250);
}

#[test]
fn update_protocol_fee_accepts_full_range_bound() {
    let mut st = ready_state();
    execute_update_state(&mut st, s("manager"), s("protocol_fee"), s("10000")).unwrap();
    assert_eq!(st.protocol_fee, 10_000);
}

#[test]
fn update_protocol_fee_rejects_out_of_range() {
    let mut st = ready_state();
    let r = execute_update_state(&mut st, s("manager"), s("protocol_fee"), s("10001"));
    assert_eq!(r, Err(PoolError::InvalidConfigValue));
    assert_eq!(st.protocol_fee, 30);
}

#[test]
fn update_protocol_fee_rejects_garbage() {
    let mut st = ready_state();
    let r = execute_update_state(&mut st, s("manager"), s("protocol_fee"), s("2.5"));
    assert_eq!(r, Err(PoolError::InvalidConfigValue));
}

#[test]
fn update_unknown_key_fails_closed() {
    let mut st = ready_state();
    let r = execute_update_state(&mut st, s("manager"), s("token_erth_contract"), s("evil"));
    assert_eq!(r, Err(PoolError::InvalidConfigKey));
    assert_eq!(st, ready_state());
}

#[test]
fn update_contract_manager() {
    let mut st = ready_state();
    execute_update_state(&mut st, s("manager"), s("contract_manager"), s("manager2")).unwrap();
    assert_eq!(st.contract_manager, s("manager2"));
    // the old manager is no longer authorised
    let r = execute_update_state(&mut st, s("manager"), s("protocol_fee"), s("10"));
    assert_eq!(r, Err(PoolError::Unauthorized));
}

#[test]
fn update_hashes_and_collaborators() {
    let mut st = ready_state();
    execute_update_state(&mut st, s("manager"), s("token_erth_hash"), s("h1")).unwrap();
    execute_update_state(&mut st, s("manager"), s("token_b_hash"), s("h2")).unwrap();
    execute_update_state(&mut st, s("manager"), s("lp_token_hash"), s("h3")).unwrap();
    execute_update_state(&mut st, s("manager"), s("lp_staking_hash"), s("h4")).unwrap();
    execute_update_state(&mut st, s("manager"), s("lp_staking_contract"), s("staking2")).unwrap();
    execute_update_state(&mut st, s("manager"), s("registration_contract"), s("reg2")).unwrap();
    execute_update_state(&mut st, s("manager"), s("registration_hash"), s("h5")).unwrap();
    assert_eq!(st.token_erth_hash, s("h1"));
    assert_eq!(st.token_b_hash, s("h2"));
    assert_eq!(st.lp_token_hash, s("h3"));
    assert_eq!(st.lp_staking_hash, s("h4"));
    assert_eq!(st.lp_staking_contract, s("staking2"));
    assert_eq!(st.registration_contract, s("reg2"));
    assert_eq!(st.registration_hash, s("h5"));
    // numeric fields untouched
    assert_eq!(st.token_erth_reserve, 1_000_000);
    assert_eq!(st.total_shares, 1_000_000);
}

#[test]
fn parse_accepts_plain_numerals() {
    assert_eq!(parse_u128("0"), Some(0));
    assert_eq!(parse_u128("123"), Some(123));
    assert_eq!(parse_u128("0042"), Some(42));
    assert_eq!(parse_u128("10000"), Some(10_000));
}

#[test]
fn parse_accepts_the_largest_value() {
    assert_eq!(
        parse_u128("340282366920938463463374607431768211455"),
        Some(u128::MAX)
    );
}

#[test]
fn parse_rejects_overflow() {
    assert_eq!(parse_u128("340282366920938463463374607431768211456"), None);
    assert_eq!(parse_u128("999999999999999999999999999999999999999"), None);
}

#[test]
fn parse_rejects_non_numerals() {
    assert_eq!(parse_u128(""), None);
    assert_eq!(parse_u128("12a"), None);
    assert_eq!(parse_u128("-5"), None);
    assert_eq!(parse_u128(" 5"), None);
}
