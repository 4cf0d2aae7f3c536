//! The bootstrap coordinator and migration handler: two-phase creation of
//! the dependent share-ledger contract, the reply that completes it, and
//! the one-shot schema transform.

use vstd::prelude::*;
use vstd::string::StringExecFns;
use crate::math::FEE_DENOM;
use crate::state::{State, LegacyState};
use crate::msg::{
    PoolError, Instruction, InstantiateMsg, InitConfig, Snip20InstantiateMsg, MigrateMsg,
    Event, Attribute,
};

verus! {

/// Correlation identifier of the share-ledger creation reply, consumed
/// exactly once.
pub const INSTANTIATE_LP_TOKEN_REPLY_ID: u64 = 0;

/// Version tag carried in the share-ledger label.
pub const CONTRACT_VERSION: &'static str = "v0.0.22";

/// Administrator handed to the created share-ledger contract.
pub const ERTH_DAO: &'static str = "secret1hxrvx0v0zvqgmpuzspdg5j8rrxpjgyjql3w9gh";

/// Everything [`instantiate`] promises: a fee within the basis-point range
/// is required; the ledger starts empty, in the pending bootstrap state,
/// with every collaborator identity taken from the request; and the single
/// instruction creates the share ledger under a name and symbol derived
/// from the pair, correlated with the fixed reply identifier.
pub open spec fn instantiate_post(
    msg: InstantiateMsg,
    own_address: String,
    prng_seed: Seq<u8>,
    r: Result<(State, Instruction), PoolError>,
) -> bool {
    if msg.protocol_fee > FEE_DENOM {
        r == Err::<(State, Instruction), PoolError>(PoolError::InvalidConfigValue)
    } else {
        r matches Ok(p) && {
            let st = p.0;
            &&& st.contract_manager == msg.contract_manager
            &&& st.token_erth_contract == msg.token_erth_contract
            &&& st.token_erth_hash == msg.token_erth_hash
            &&& st.token_b_contract == msg.token_b_contract
            &&& st.token_b_hash == msg.token_b_hash
            &&& st.token_b_symbol == msg.token_b_symbol
            &&& st.registration_contract == msg.registration_contract
            &&& st.registration_hash == msg.registration_hash
            &&& st.lp_token_contract@ == Seq::<char>::empty()
            &&& st.lp_token_hash == msg.lp_token_hash
            &&& st.lp_token_code_id == msg.lp_token_code_id
            &&& st.lp_staking_contract == msg.lp_staking_contract
            &&& st.lp_staking_hash == msg.lp_staking_hash
            &&& st.token_erth_reserve == 0
            &&& st.token_b_reserve == 0
            &&& st.total_shares == 0
            &&& st.protocol_fee == msg.protocol_fee
            &&& st.wf()
            &&& !st.spec_is_ready()
            &&& p.1 matches Instruction::InstantiateShareLedger {
                code_id,
                code_hash,
                label,
                admin,
                reply_id,
                init_msg,
            } && {
                &&& code_id == msg.lp_token_code_id
                &&& code_hash == msg.lp_token_hash
                &&& admin@ == ERTH_DAO@
                &&& reply_id == INSTANTIATE_LP_TOKEN_REPLY_ID
                &&& init_msg.name@ == "ERTH-"@ + msg.token_b_symbol@
                    + " Animal Swap LP Token"@
                &&& init_msg.symbol@ == msg.token_b_symbol@ + "LP"@
                &&& label@ == init_msg.name@ + " "@ + CONTRACT_VERSION@
                &&& init_msg.admin == Some(own_address)
                &&& init_msg.decimals == 6
                &&& init_msg.initial_balances is None
                &&& init_msg.prng_seed@ == prng_seed
                &&& init_msg.config matches Some(c) && c == (InitConfig {
                    public_total_supply: Some(true),
                    enable_deposit: Some(false),
                    enable_redeem: Some(false),
                    enable_mint: Some(true),
                    enable_burn: Some(true),
                    can_modify_denoms: Some(false),
                })
                &&& init_msg.supported_denoms is None
            }
        }
    }
}

/// Creation: persist the ledger with the share-ledger address left as the
/// empty sentinel, and issue the create-child-contract instruction with
/// success-only reply correlation.  Addresses are validated by the host
/// before they reach this call.
pub fn instantiate(msg: InstantiateMsg, own_address: String, prng_seed: Vec<u8>) -> (r: Result<
    (State, Instruction),
    PoolError,
>)
    ensures
        instantiate_post(msg, own_address, prng_seed@, r),
{
    if msg.protocol_fee > FEE_DENOM {
        return Err(PoolError::InvalidConfigValue);
    }
    let lp_token_name = "ERTH-".to_owned().concat(msg.token_b_symbol.as_str()).concat(
        " Animal Swap LP Token",
    );
    let lp_token_symbol = msg.token_b_symbol.clone().concat("LP");
    let label = lp_token_name.clone().concat(" ").concat(CONTRACT_VERSION);

    let init_config = InitConfig {
        public_total_supply: Some(true),
        enable_deposit: Some(false),
        enable_redeem: Some(false),
        enable_mint: Some(true),
        enable_burn: Some(true),
        can_modify_denoms: Some(false),
    };
    let lp_token_instantiate_msg = Snip20InstantiateMsg {
        name: lp_token_name,
        admin: Some(own_address),
        symbol: lp_token_symbol,
        decimals: 6,
        initial_balances: None,
        prng_seed,
        config: Some(init_config),
        supported_denoms: None,
    };
    let instruction = Instruction::InstantiateShareLedger {
        code_id: msg.lp_token_code_id,
        code_hash: msg.lp_token_hash.clone(),
        label,
        admin: ERTH_DAO.to_owned(),
        reply_id: INSTANTIATE_LP_TOKEN_REPLY_ID,
        init_msg: lp_token_instantiate_msg,
    };
    let state = State {
        contract_manager: msg.contract_manager,
        token_erth_contract: msg.token_erth_contract,
        token_erth_hash: msg.token_erth_hash,
        token_b_contract: msg.token_b_contract,
        token_b_hash: msg.token_b_hash,
        token_b_symbol: msg.token_b_symbol,
        registration_contract: msg.registration_contract,
        registration_hash: msg.registration_hash,
        lp_token_contract: String::new(),
        lp_token_hash: msg.lp_token_hash,
        lp_token_code_id: msg.lp_token_code_id,
        lp_staking_contract: msg.lp_staking_contract,
        lp_staking_hash: msg.lp_staking_hash,
        token_erth_reserve: 0,
        token_b_reserve: 0,
        total_shares: 0,
        protocol_fee: msg.protocol_fee,
    };
    Ok((state, instruction))
}

/// First event whose type is `instantiate`, if any.
pub open spec fn spec_find_instantiate_event(events: Seq<Event>) -> Option<Event>
    decreases events.len(),
{
    if events.len() == 0 {
        None
    } else if events.first().ty@ == "instantiate"@ {
        Some(events.first())
    } else {
        spec_find_instantiate_event(events.drop_first())
    }
}

/// Value of the first attribute whose key is `contract_address`, if any.
pub open spec fn spec_find_contract_address(attrs: Seq<Attribute>) -> Option<String>
    decreases attrs.len(),
{
    if attrs.len() == 0 {
        None
    } else if attrs.first().key@ == "contract_address"@ {
        Some(attrs.first().value)
    } else {
        spec_find_contract_address(attrs.drop_first())
    }
}

/// A scan that saw no match up to `i` agrees with the recursive search.
proof fn lemma_find_event_at(events: Seq<Event>, i: int)
    requires
        0 <= i <= events.len(),
        forall|j: int| 0 <= j < i ==> #[trigger] events[j].ty@ != "instantiate"@,
    ensures
        i < events.len() && events[i].ty@ == "instantiate"@ ==> spec_find_instantiate_event(
            events,
        ) == Some(events[i]),
        i == events.len() ==> spec_find_instantiate_event(events) is None,
    decreases i,
{
    if i > 0 {
        let rest = events.drop_first();
        assert(forall|j: int| 0 <= j < i - 1 ==> #[trigger] rest[j].ty@ != "instantiate"@);
        lemma_find_event_at(rest, i - 1);
        assert(i < events.len() ==> rest[i - 1] == events[i]);
    }
}

/// A scan that saw no match up to `i` agrees with the recursive search.
proof fn lemma_find_attr_at(attrs: Seq<Attribute>, i: int)
    requires
        0 <= i <= attrs.len(),
        forall|j: int| 0 <= j < i ==> #[trigger] attrs[j].key@ != "contract_address"@,
    ensures
        i < attrs.len() && attrs[i].key@ == "contract_address"@ ==> spec_find_contract_address(
            attrs,
        ) == Some(attrs[i].value),
        i == attrs.len() ==> spec_find_contract_address(attrs) is None,
    decreases i,
{
    if i > 0 {
        let rest = attrs.drop_first();
        assert(forall|j: int| 0 <= j < i - 1 ==> #[trigger] rest[j].key@ != "contract_address"@);
        lemma_find_attr_at(rest, i - 1);
        assert(i < attrs.len() ==> rest[i - 1] == attrs[i]);
    }
}

/// Scan the reply events for the first `instantiate` event.
fn find_instantiate_event_index(events: &Vec<Event>) -> (r: Option<usize>)
    ensures
        match r {
            Some(i) => i < events@.len() && spec_find_instantiate_event(events@) == Some(
                events@[i as int],
            ),
            None => spec_find_instantiate_event(events@) is None,
        },
{
    let needle = "instantiate".to_owned();
    let n = events.len();
    let mut i: usize = 0;
    while i < n
        invariant
            i <= n,
            n == events@.len(),
            needle@ == "instantiate"@,
            forall|j: int| 0 <= j < i ==> #[trigger] events@[j].ty@ != "instantiate"@,
        decreases n - i,
    {
        if events[i].ty == needle {
            proof {
                lemma_find_event_at(events@, i as int);
            }
            return Some(i);
        }
        i = i + 1;
    }
    proof {
        lemma_find_event_at(events@, n as int);
    }
    None
}

/// Scan an event's attributes for the first `contract_address` entry.
fn find_contract_address_index(attrs: &Vec<Attribute>) -> (r: Option<usize>)
    ensures
        match r {
            Some(i) => i < attrs@.len() && spec_find_contract_address(attrs@) == Some(
                attrs@[i as int].value,
            ),
            None => spec_find_contract_address(attrs@) is None,
        },
{
    let needle = "contract_address".to_owned();
    let n = attrs.len();
    let mut i: usize = 0;
    while i < n
        invariant
            i <= n,
            n == attrs@.len(),
            needle@ == "contract_address"@,
            forall|j: int| 0 <= j < i ==> #[trigger] attrs@[j].key@ != "contract_address"@,
        decreases n - i,
    {
        if attrs[i].key == needle {
            proof {
                lemma_find_attr_at(attrs@, i as int);
            }
            return Some(i);
        }
        i = i + 1;
    }
    proof {
        lemma_find_attr_at(attrs@, n as int);
    }
    None
}

/// Everything [`handle_instantiate_lp_token_reply`] promises: the child's
/// address is read from the first `instantiate` event's `contract_address`
/// attribute; a missing event, missing attribute or empty address is a
/// malformed reply and leaves the ledger untouched; otherwise the address
/// is persisted (the pool becomes ready) and the three register-as-receiver
/// instructions go out.
pub open spec fn handle_reply_post(
    pre: State,
    post: State,
    own_code_hash: String,
    events: Seq<Event>,
    r: Result<Vec<Instruction>, PoolError>,
) -> bool {
    match spec_find_instantiate_event(events) {
        None => r == Err::<Vec<Instruction>, PoolError>(PoolError::MalformedReply) && post
            == pre,
        Some(ev) => match spec_find_contract_address(ev.attributes@) {
            None => r == Err::<Vec<Instruction>, PoolError>(PoolError::MalformedReply) && post
                == pre,
            Some(addr) => {
                if addr@.len() == 0 {
                    r == Err::<Vec<Instruction>, PoolError>(PoolError::MalformedReply) && post
                        == pre
                } else {
                    &&& post == State { lp_token_contract: addr, ..pre }
                    &&& post.spec_is_ready()
                    &&& r matches Ok(v) && {
                        &&& v@.len() == 3
                        &&& v@[0] == Instruction::RegisterReceive {
                            token: addr,
                            token_hash: pre.lp_token_hash,
                            code_hash: own_code_hash,
                        }
                        &&& v@[1] == Instruction::RegisterReceive {
                            token: pre.token_erth_contract,
                            token_hash: pre.token_erth_hash,
                            code_hash: own_code_hash,
                        }
                        &&& v@[2] == Instruction::RegisterReceive {
                            token: pre.token_b_contract,
                            token_hash: pre.token_b_hash,
                            code_hash: own_code_hash,
                        }
                    }
                }
            },
        },
    }
}

/// Completion of bootstrap: parse the created share ledger's address out of
/// the host-provided events, persist it, and register this pool as a
/// receiver with the share ledger and both asset collaborators.  An empty
/// address would fail the host's validation and is rejected as malformed.
pub fn handle_instantiate_lp_token_reply(
    state: &mut State,
    own_code_hash: String,
    events: &Vec<Event>,
) -> (r: Result<Vec<Instruction>, PoolError>)
    requires
        old(state).wf(),
    ensures
        final(state).wf(),
        handle_reply_post(*old(state), *final(state), own_code_hash, events@, r),
{
    let event_index = match find_instantiate_event_index(events) {
        Some(i) => i,
        None => {
            return Err(PoolError::MalformedReply);
        },
    };
    let attr_index = match find_contract_address_index(&events[event_index].attributes) {
        Some(i) => i,
        None => {
            return Err(PoolError::MalformedReply);
        },
    };
    let contract_address = events[event_index].attributes[attr_index].value.clone();
    if contract_address.as_str().is_empty() {
        return Err(PoolError::MalformedReply);
    }
    state.lp_token_contract = contract_address.clone();
    let mut messages: Vec<Instruction> = Vec::new();
    messages.push(
        Instruction::RegisterReceive {
            token: contract_address,
            token_hash: state.lp_token_hash.clone(),
            code_hash: own_code_hash.clone(),
        },
    );
    messages.push(
        Instruction::RegisterReceive {
            token: state.token_erth_contract.clone(),
            token_hash: state.token_erth_hash.clone(),
            code_hash: own_code_hash.clone(),
        },
    );
    messages.push(
        Instruction::RegisterReceive {
            token: state.token_b_contract.clone(),
            token_hash: state.token_b_hash.clone(),
            code_hash: own_code_hash,
        },
    );
    Ok(messages)
}

/// Everything [`reply`] promises: only the share-ledger creation
/// identifier is recognised; anything else is an unknown reply.
pub open spec fn reply_post(
    pre: State,
    post: State,
    own_code_hash: String,
    reply_id: u64,
    events: Seq<Event>,
    r: Result<Vec<Instruction>, PoolError>,
) -> bool {
    if reply_id == INSTANTIATE_LP_TOKEN_REPLY_ID {
        handle_reply_post(pre, post, own_code_hash, events, r)
    } else {
        r == Err::<Vec<Instruction>, PoolError>(PoolError::UnknownReply) && post == pre
    }
}

/// Reply dispatcher of the bootstrap protocol.
pub fn reply(state: &mut State, own_code_hash: String, reply_id: u64, events: &Vec<Event>) -> (r:
    Result<Vec<Instruction>, PoolError>)
    requires
        old(state).wf(),
    ensures
        final(state).wf(),
        reply_post(*old(state), *final(state), own_code_hash, reply_id, events@, r),
{
    if reply_id == INSTANTIATE_LP_TOKEN_REPLY_ID {
        handle_instantiate_lp_token_reply(state, own_code_hash, events)
    } else {
        Err(PoolError::UnknownReply)
    }
}

/// Everything [`migrate`] promises: every field of the prior schema is
/// carried over unchanged, the staking collaborator moves from the
/// `burn_*` fields to its current names, and the three register-as-receiver
/// instructions are re-issued.
pub open spec fn migrate_post(legacy: LegacyState, own_code_hash: String, r: (
    State,
    Vec<Instruction>,
)) -> bool {
    let st = r.0;
    &&& st.contract_manager == legacy.contract_manager
    &&& st.token_erth_contract == legacy.token_erth_contract
    &&& st.token_erth_hash == legacy.token_erth_hash
    &&& st.token_b_contract == legacy.token_b_contract
    &&& st.token_b_hash == legacy.token_b_hash
    &&& st.token_b_symbol == legacy.token_b_symbol
    &&& st.registration_contract == legacy.registration_contract
    &&& st.registration_hash == legacy.registration_hash
    &&& st.lp_token_contract == legacy.lp_token_contract
    &&& st.lp_token_hash == legacy.lp_token_hash
    &&& st.lp_token_code_id == legacy.lp_token_code_id
    &&& st.lp_staking_contract == legacy.burn_contract
    &&& st.lp_staking_hash == legacy.burn_hash
    &&& st.token_erth_reserve == legacy.token_erth_reserve
    &&& st.token_b_reserve == legacy.token_b_reserve
    &&& st.total_shares == legacy.total_shares
    &&& st.protocol_fee == legacy.protocol_fee
    &&& r.1@.len() == 3
    &&& r.1@[0] == Instruction::RegisterReceive {
        token: legacy.token_erth_contract,
        token_hash: legacy.token_erth_hash,
        code_hash: own_code_hash,
    }
    &&& r.1@[1] == Instruction::RegisterReceive {
        token: legacy.token_b_contract,
        token_hash: legacy.token_b_hash,
        code_hash: own_code_hash,
    }
    &&& r.1@[2] == Instruction::RegisterReceive {
        token: legacy.lp_token_contract,
        token_hash: legacy.lp_token_hash,
        code_hash: own_code_hash,
    }
}

/// One-shot schema transform: remap the prior ledger layout into the
/// current one, numeric fields untouched, and re-issue the three
/// register-as-receiver instructions.
pub fn migrate(legacy: LegacyState, own_code_hash: String, msg: MigrateMsg) -> (r: (
    State,
    Vec<Instruction>,
))
    requires
        legacy.wf(),
    ensures
        r.0.wf(),
        migrate_post(legacy, own_code_hash, r),
{
    match msg {
        MigrateMsg::Migrate {} => {},
    }
    let mut messages: Vec<Instruction> = Vec::new();
    messages.push(
        Instruction::RegisterReceive {
            token: legacy.token_erth_contract.clone(),
            token_hash: legacy.token_erth_hash.clone(),
            code_hash: own_code_hash.clone(),
        },
    );
    messages.push(
        Instruction::RegisterReceive {
            token: legacy.token_b_contract.clone(),
            token_hash: legacy.token_b_hash.clone(),
            code_hash: own_code_hash.clone(),
        },
    );
    messages.push(
        Instruction::RegisterReceive {
            token: legacy.lp_token_contract.clone(),
            token_hash: legacy.lp_token_hash.clone(),
            code_hash: own_code_hash,
        },
    );
    let state = State {
        contract_manager: legacy.contract_manager,
        token_erth_contract: legacy.token_erth_contract,
        token_erth_hash: legacy.token_erth_hash,
        token_b_contract: legacy.token_b_contract,
        token_b_hash: legacy.token_b_hash,
        token_b_symbol: legacy.token_b_symbol,
        registration_contract: legacy.registration_contract,
        registration_hash: legacy.registration_hash,
        lp_token_contract: legacy.lp_token_contract,
        lp_token_hash: legacy.lp_token_hash,
        lp_token_code_id: legacy.lp_token_code_id,
        lp_staking_contract: legacy.burn_contract,
        lp_staking_hash: legacy.burn_hash,
        token_erth_reserve: legacy.token_erth_reserve,
        token_b_reserve: legacy.token_b_reserve,
        total_shares: legacy.total_shares,
        protocol_fee: legacy.protocol_fee,
    };
    (state, messages)
}

} // verus!
