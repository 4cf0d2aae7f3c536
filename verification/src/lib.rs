//! Transactional core of a two-asset constant-product liquidity pool.
//!
//! The pool tracks paired reserves of a base asset (ERTH) and a quote asset
//! (token B), mints and burns proportional liquidity shares, executes
//! constant-product swaps with protocol-fee extraction, routes multi-pool
//! "hop" swaps, and bootstraps its dependent liquidity-share ledger through
//! a two-phase creation protocol.  All state transitions are expressed over
//! a plain-value [`state::State`] record; the surrounding host runtime is
//! expected to load the record, call exactly one operation, persist the
//! result, and dispatch the returned instructions to collaborator contracts.

pub mod admin;
pub mod bootstrap;
pub mod contract;
pub mod liquidity;
pub mod math;
pub mod msg;
pub mod state;
pub mod swap;

pub use admin::{execute_update_state, parse_u128};
pub use bootstrap::{
    handle_instantiate_lp_token_reply, instantiate, migrate, reply, CONTRACT_VERSION, ERTH_DAO,
    INSTANTIATE_LP_TOKEN_REPLY_ID,
};
pub use contract::{
    execute, execute_fits_check, execute_receive, query, query_deposit, query_state,
    receive_fits_check,
};
pub use liquidity::{
    add_liquidity_fits_check, execute_add_liquidity, recieve_unbond_liquidity, unbond_fits_check,
    DUST_REFUND_THRESHOLD,
};
pub use msg::{
    Attribute, Event, ExecuteMsg, HopDetails, InitConfig, InitialBalance, InstantiateMsg,
    Instruction, MigrateMsg, PoolError, QueryAnswer, QueryMsg, QueryStateResponse,
    QuerySwapResponse, ReceiveMsg, SendMessage, Snip20InstantiateMsg, UnclaimedDepositResponse,
};
pub use state::{LegacyState, State};
pub use swap::{
    anml_buyback_fits_check, calculate_feeless_swap, calculate_swap, erth_buyback_fits_check,
    query_swap, receive_anml_buyback_swap, receive_erth_buyback_swap, receive_swap,
    receive_swap_fits_check, swap_fits_check,
};
