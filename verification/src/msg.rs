//! Inbound requests, outbound instructions and query responses, all carried
//! as plain values.  The host shell parses wire payloads into these types
//! and serialises the returned instructions for the collaborator contracts.

use vstd::prelude::*;
use crate::state::State;

verus! {

/// Everything that can go wrong inside the pool core.  Every failure aborts
/// the invocation; the host rolls back any state change of the same call.
#[derive(Clone, Copy, Debug, PartialEq, Eq)]
pub enum PoolError {
    /// Wrong caller for a privileged or ledger-owner-only operation.
    Unauthorized,
    /// The input asset matches neither reserve.
    InvalidToken,
    /// The pool cannot price the request against its reserves.
    InsufficientLiquidity,
    /// Final-leg output below the caller-specified minimum.
    SlippageExceeded,
    /// Unrecognised configuration key.
    InvalidConfigKey,
    /// A configuration value that does not parse or is out of range.
    InvalidConfigValue,
    /// The creation reply lacks the expected event or attribute.
    MalformedReply,
    /// A reply with an unknown correlation identifier.
    UnknownReply,
    /// The ledger record is absent or unreadable.
    StorageCorrupt,
    /// The share ledger has not been created yet; the pool refuses to
    /// operate until bootstrap completes.
    NotBootstrapped,
}

/// Identity of a downstream pool for the second leg of a hop swap.
#[derive(Debug, Clone, PartialEq, Eq)]
pub struct HopDetails {
    pub contract: String,
    pub hash: String,
}

/// Payload attached to an inbound token transfer.
#[derive(Debug, Clone, PartialEq, Eq)]
pub enum ReceiveMsg {
    UnbondLiquidity {},
    Swap { min_received: Option<u128>, hop: Option<HopDetails>, user: Option<String> },
    ErthBuybackSwap {},
    AnmlBuybackSwap {},
}

/// Payload the pool attaches to outbound `Send` instructions.
#[derive(Debug, Clone, PartialEq, Eq)]
pub enum SendMessage {
    /// Forwarded hop input for the downstream pool.
    Swap { min_received: Option<u128>, user: String },
    /// Fee forwarded in base-asset terms for burning, with accounting data.
    BurnErth { trade_volume: u128, pool_liquidity: u128, total_shares: u128 },
    /// Quote-asset buyback output forwarded for the alternate burn.
    BurnAnml { trade_volume: u128, pool_liquidity: u128, total_shares: u128 },
}

/// Top-level requests.
#[derive(Debug, Clone, PartialEq, Eq)]
pub enum ExecuteMsg {
    AddLiquidity { amount_erth: u128, amount_b: u128 },
    UpdateState { key: String, value: String },
    Receive { sender: String, from: String, amount: u128, msg: ReceiveMsg, memo: Option<String> },
}

/// One-shot schema migration request.
#[derive(Debug, Clone, PartialEq, Eq)]
pub enum MigrateMsg {
    Migrate {},
}

/// Read-only queries.
#[derive(Debug, Clone, PartialEq, Eq)]
pub enum QueryMsg {
    QueryState {},
    QueryDeposit { address: String },
}

/// Creation request: collaborator identities and the fee rate.
#[derive(Debug, Clone, PartialEq, Eq)]
pub struct InstantiateMsg {
    pub contract_manager: String,
    pub token_erth_contract: String,
    pub token_erth_hash: String,
    pub token_b_contract: String,
    pub token_b_hash: String,
    pub registration_contract: String,
    pub registration_hash: String,
    pub token_b_symbol: String,
    pub lp_token_decimals: u8,
    pub lp_token_hash: String,
    pub lp_token_code_id: u64,
    pub lp_staking_contract: String,
    pub lp_staking_hash: String,
    pub protocol_fee: u128,
}

/// Configuration of the share-ledger token created at bootstrap.
#[derive(Debug, Clone, PartialEq, Eq)]
pub struct InitConfig {
    pub public_total_supply: Option<bool>,
    pub enable_deposit: Option<bool>,
    pub enable_redeem: Option<bool>,
    pub enable_mint: Option<bool>,
    pub enable_burn: Option<bool>,
    pub can_modify_denoms: Option<bool>,
}

/// An initial balance entry of the share-ledger token.
#[derive(Debug, Clone, PartialEq, Eq)]
pub struct InitialBalance {
    pub address: String,
    pub amount: u128,
}

/// Creation message for the share-ledger token contract.
#[derive(Debug, Clone, PartialEq, Eq)]
pub struct Snip20InstantiateMsg {
    pub name: String,
    pub admin: Option<String>,
    pub symbol: String,
    pub decimals: u8,
    pub initial_balances: Option<Vec<InitialBalance>>,
    pub prng_seed: Vec<u8>,
    pub config: Option<InitConfig>,
    pub supported_denoms: Option<Vec<String>>,
}

/// An outbound instruction to a collaborator contract.  `token` and
/// `token_hash` name the contract the instruction is executed on.
#[derive(Debug, Clone, PartialEq, Eq)]
pub enum Instruction {
    TransferFrom {
        token: String,
        token_hash: String,
        owner: String,
        recipient: String,
        amount: u128,
    },
    Transfer { token: String, token_hash: String, recipient: String, amount: u128 },
    Mint { token: String, token_hash: String, recipient: String, amount: u128 },
    Burn { token: String, token_hash: String, amount: u128 },
    Send {
        token: String,
        token_hash: String,
        recipient: String,
        recipient_hash: Option<String>,
        amount: u128,
        msg: SendMessage,
    },
    RegisterReceive { token: String, token_hash: String, code_hash: String },
    InstantiateShareLedger {
        code_id: u64,
        code_hash: String,
        label: String,
        admin: String,
        reply_id: u64,
        init_msg: Snip20InstantiateMsg,
    },
}

/// An attribute of a host event.
#[derive(Debug, Clone, PartialEq, Eq)]
pub struct Attribute {
    pub key: String,
    pub value: String,
}

/// An event reported by the host alongside a creation reply.
#[derive(Debug, Clone, PartialEq, Eq)]
pub struct Event {
    pub ty: String,
    pub attributes: Vec<Attribute>,
}

/// Snapshot answer of the ledger query.
#[derive(Debug, Clone, PartialEq, Eq)]
pub struct QueryStateResponse {
    pub state: State,
}

/// Answer of the swap quotation query.
#[derive(Debug, Clone, PartialEq, Eq)]
pub struct QuerySwapResponse {
    pub protocol_fee_amount: u128,
    pub output_amount: u128,
}

/// Answer of the unclaimed-deposit query.
#[derive(Debug, Clone, PartialEq, Eq)]
pub struct UnclaimedDepositResponse {
    pub unclaimed_deposit: u128,
}

/// The answer of a routed query.
#[derive(Debug, Clone, PartialEq, Eq)]
pub enum QueryAnswer {
    State(QueryStateResponse),
    Deposit(UnclaimedDepositResponse),
}

} // verus!
