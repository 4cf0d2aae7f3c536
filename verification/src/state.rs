//! The pool ledger: a singleton record of collaborator identities, reserves,
//! outstanding shares and the protocol fee, together with its invariant.

use vstd::prelude::*;
use crate::math::FEE_DENOM;

verus! {

/// Durable record of the pool.  The host runtime loads it, hands it to one
/// operation, and persists the result atomically with that invocation.
#[derive(Debug, PartialEq, Eq)]
pub struct State {
    pub contract_manager: String,
    pub token_erth_contract: String,
    pub token_erth_hash: String,
    pub token_b_contract: String,
    pub token_b_hash: String,
    pub token_b_symbol: String,
    pub registration_contract: String,
    pub registration_hash: String,
    pub lp_token_contract: String,
    pub lp_token_hash: String,
    pub lp_token_code_id: u64,
    pub lp_staking_contract: String,
    pub lp_staking_hash: String,
    pub token_erth_reserve: u128,
    pub token_b_reserve: u128,
    pub total_shares: u128,
    pub protocol_fee: u128,
}

/// Prior ledger schema: the staking collaborator was kept under the
/// `burn_*` field names.  Migration remaps it into [`State`].
#[derive(Debug, Clone, PartialEq, Eq)]
pub struct LegacyState {
    pub contract_manager: String,
    pub token_erth_contract: String,
    pub token_erth_hash: String,
    pub token_b_contract: String,
    pub token_b_hash: String,
    pub token_b_symbol: String,
    pub burn_contract: String,
    pub burn_hash: String,
    pub registration_contract: String,
    pub registration_hash: String,
    pub lp_token_contract: String,
    pub lp_token_hash: String,
    pub lp_token_code_id: u64,
    pub lp_staking_code_id: u64,
    pub token_erth_reserve: u128,
    pub token_b_reserve: u128,
    pub total_shares: u128,
    pub protocol_fee: u128,
}

impl State {
    /// The ledger invariant: the fee is a basis-point fraction, and the pool
    /// is either fully empty (no shares, no reserves) or funded.
    pub open spec fn wf(self) -> bool {
        &&& self.protocol_fee <= FEE_DENOM
        &&& (self.total_shares == 0 <==> (self.token_erth_reserve == 0 && self.token_b_reserve
            == 0))
    }

    /// Bootstrap has completed once the share-ledger contract address has
    /// been filled in by the creation reply; until then it is the empty
    /// sentinel and the pool must refuse to operate.
    pub open spec fn spec_is_ready(self) -> bool {
        self.lp_token_contract@.len() != 0
    }

    /// Runtime check for [`Self::spec_is_ready`].
    pub fn is_ready(&self) -> (r: bool)
        ensures
            r == self.spec_is_ready(),
    {
        !self.lp_token_contract.as_str().is_empty()
    }

    /// Runtime check for [`Self::wf`], for hosts that must validate a
    /// loaded record before operating on it.
    pub fn wf_check(&self) -> (r: bool)
        ensures
            r == self.wf(),
    {
        self.protocol_fee <= FEE_DENOM && ((self.total_shares == 0) == (self.token_erth_reserve
            == 0 && self.token_b_reserve == 0))
    }
}

impl Clone for State {
    /// An exact copy: every ledger field is preserved.
    fn clone(&self) -> (r: Self)
        ensures
            r == *self,
    {
        State {
            contract_manager: self.contract_manager.clone(),
            token_erth_contract: self.token_erth_contract.clone(),
            token_erth_hash: self.token_erth_hash.clone(),
            token_b_contract: self.token_b_contract.clone(),
            token_b_hash: self.token_b_hash.clone(),
            token_b_symbol: self.token_b_symbol.clone(),
            registration_contract: self.registration_contract.clone(),
            registration_hash: self.registration_hash.clone(),
            lp_token_contract: self.lp_token_contract.clone(),
            lp_token_hash: self.lp_token_hash.clone(),
            lp_token_code_id: self.lp_token_code_id,
            lp_staking_contract: self.lp_staking_contract.clone(),
            lp_staking_hash: self.lp_staking_hash.clone(),
            token_erth_reserve: self.token_erth_reserve,
            token_b_reserve: self.token_b_reserve,
            total_shares: self.total_shares,
            protocol_fee: self.protocol_fee,
        }
    }
}

impl LegacyState {
    /// The numeric invariant of the prior schema, identical to the one kept
    /// by [`State::wf`].
    pub open spec fn wf(self) -> bool {
        &&& self.protocol_fee <= FEE_DENOM
        &&& (self.total_shares == 0 <==> (self.token_erth_reserve == 0 && self.token_b_reserve
            == 0))
    }

    /// Runtime check for [`Self::wf`].
    pub fn wf_check(&self) -> (r: bool)
        ensures
            r == self.wf(),
    {
        self.protocol_fee <= FEE_DENOM && ((self.total_shares == 0) == (self.token_erth_reserve
            == 0 && self.token_b_reserve == 0))
    }
}

} // verus!
