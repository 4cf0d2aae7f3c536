//! Manager-gated configuration updates: a key/value pair against a closed
//! set of recognised keys, with a verified decimal parser for the fee.

use vstd::prelude::*;
use vstd::string::StringSliceAdditionalSpecFns;
use vstd::arithmetic::div_mod::{
    lemma_fundamental_div_mod, lemma_mod_division_less_than_divisor,
};
use crate::math::{FEE_DENOM, lemma_div_mul_le};
use crate::state::State;
use crate::msg::PoolError;

verus! {

/// Whether a byte is an ASCII decimal digit.
pub open spec fn is_dec_digit(b: u8) -> bool {
    48 <= b <= 57
}

/// All bytes of the string are ASCII decimal digits.
pub open spec fn all_dec_digits(s: Seq<u8>) -> bool {
    forall|i: int| 0 <= i < s.len() ==> is_dec_digit(#[trigger] s[i])
}

/// Numeric value of a digit string, most significant digit first.
pub open spec fn dec_value(s: Seq<u8>) -> int
    decreases s.len(),
{
    if s.len() == 0 {
        0
    } else {
        dec_value(s.drop_last()) * 10 + (s.last() - 48)
    }
}

/// Whether a byte string is a well-formed decimal numeral that fits `u128`.
pub open spec fn spec_parses_u128(s: Seq<u8>) -> bool {
    s.len() > 0 && all_dec_digits(s) && dec_value(s) <= u128::MAX
}

/// The UTF-8 bytes of a string value.
pub open spec fn spec_str_bytes(s: String) -> Seq<u8> {
    vstd::utf8::encode_utf8(s@)
}

/// A digit string's value is never negative.
proof fn lemma_dec_value_nonneg(s: Seq<u8>)
    requires
        all_dec_digits(s),
    ensures
        dec_value(s) >= 0,
    decreases s.len(),
{
    if s.len() > 0 {
        assert(all_dec_digits(s.drop_last()));
        lemma_dec_value_nonneg(s.drop_last());
    }
}

/// Extending a digit string never shrinks its value.
proof fn lemma_dec_prefix_le(s: Seq<u8>, i: int)
    requires
        all_dec_digits(s),
        0 <= i <= s.len(),
    ensures
        dec_value(s.take(i)) <= dec_value(s),
    decreases s.len() - i,
{
    if i < s.len() {
        assert(all_dec_digits(s.take(i)));
        lemma_dec_value_nonneg(s.take(i));
        assert(s.take(i + 1).drop_last() =~= s.take(i));
        assert(s.take(i + 1).last() == s[i]);
        lemma_dec_prefix_le(s, i + 1);
    } else {
        assert(s.take(i) =~= s);
    }
}

/// Parse a decimal numeral into a `u128`: `Some` exactly when the string
/// is non-empty, all digits, and its value fits.
pub fn parse_u128(s: &str) -> (r: Option<u128>)
    ensures
        match r {
            Some(v) => spec_parses_u128(s.spec_bytes()) && v as int == dec_value(s.spec_bytes()),
            None => !spec_parses_u128(s.spec_bytes()),
        },
{
    let bytes = s.as_bytes();
    let n = bytes.len();
    if n == 0 {
        return None;
    }
    let mut acc: u128 = 0;
    let mut i: usize = 0;
    while i < n
        invariant
            0 <= i <= n,
            n == bytes@.len(),
            bytes@ == s.spec_bytes(),
            all_dec_digits(bytes@.take(i as int)),
            acc as int == dec_value(bytes@.take(i as int)),
        decreases n - i,
    {
        let b = bytes[i];
        if b < 48 || b > 57 {
            return None;
        }
        let d = (b - 48) as u128;
        let headroom = (u128::MAX - d) / 10;
        if acc > headroom {
            proof {
                let m = (u128::MAX - d) as int;
                lemma_fundamental_div_mod(m, 10);
                lemma_mod_division_less_than_divisor(m, 10);
                assert(acc * 10 + d > u128::MAX);
                if all_dec_digits(bytes@) {
                    assert(bytes@.take(i as int + 1).drop_last() =~= bytes@.take(i as int));
                    assert(bytes@.take(i as int + 1).last() == bytes@[i as int]);
                    lemma_dec_prefix_le(bytes@, i as int + 1);
                }
            }
            return None;
        }
        proof {
            lemma_div_mul_le((u128::MAX - d) as int, 10);
            assert(bytes@.take(i as int + 1).drop_last() =~= bytes@.take(i as int));
            assert(bytes@.take(i as int + 1).last() == bytes@[i as int]);
        }
        acc = acc * 10 + d;
        i = i + 1;
    }
    proof {
        assert(bytes@.take(n as int) =~= bytes@);
    }
    Some(acc)
}

/// Everything [`execute_update_state`] promises: only the manager may
/// update, each recognised key replaces exactly its field, the fee must be
/// a decimal numeral within the basis-point range, and an unrecognised key
/// fails closed.
pub open spec fn update_state_post(
    pre: State,
    post: State,
    sender: String,
    key: String,
    value: String,
    r: Result<(), PoolError>,
) -> bool {
    if sender@ != pre.contract_manager@ {
        r == Err::<(), PoolError>(PoolError::Unauthorized) && post == pre
    } else if key@ == "contract_manager"@ {
        r == Ok::<(), PoolError>(()) && post == State { contract_manager: value, ..pre }
    } else if key@ == "protocol_fee"@ {
        if spec_parses_u128(spec_str_bytes(value)) && dec_value(spec_str_bytes(value))
            <= FEE_DENOM {
            &&& r == Ok::<(), PoolError>(())
            &&& post == State { protocol_fee: dec_value(spec_str_bytes(value)) as u128, ..pre }
        } else {
            &&& r == Err::<(), PoolError>(PoolError::InvalidConfigValue)
            &&& post == pre
        }
    } else if key@ == "token_erth_hash"@ {
        r == Ok::<(), PoolError>(()) && post == State { token_erth_hash: value, ..pre }
    } else if key@ == "token_b_hash"@ {
        r == Ok::<(), PoolError>(()) && post == State { token_b_hash: value, ..pre }
    } else if key@ == "lp_token_hash"@ {
        r == Ok::<(), PoolError>(()) && post == State { lp_token_hash: value, ..pre }
    } else if key@ == "lp_staking_hash"@ {
        r == Ok::<(), PoolError>(()) && post == State { lp_staking_hash: value, ..pre }
    } else if key@ == "lp_staking_contract"@ {
        r == Ok::<(), PoolError>(()) && post == State { lp_staking_contract: value, ..pre }
    } else if key@ == "registration_contract"@ {
        r == Ok::<(), PoolError>(()) && post == State { registration_contract: value, ..pre }
    } else if key@ == "registration_hash"@ {
        r == Ok::<(), PoolError>(()) && post == State { registration_hash: value, ..pre }
    } else {
        r == Err::<(), PoolError>(PoolError::InvalidConfigKey) && post == pre
    }
}

/// Manager-only update of one configuration field, selected by key.
/// Unrecognised keys are refused; the fee value must be a decimal numeral
/// within the basis-point range, so the ledger invariant is preserved.
pub fn execute_update_state(state: &mut State, sender: String, key: String, value: String) -> (r:
    Result<(), PoolError>)
    requires
        old(state).wf(),
    ensures
        final(state).wf(),
        update_state_post(*old(state), *final(state), sender, key, value, r),
{
    if !(sender == state.contract_manager) {
        return Err(PoolError::Unauthorized);
    }
    if key == "contract_manager".to_owned() {
        state.contract_manager = value;
    } else if key == "protocol_fee".to_owned() {
        match parse_u128(value.as_str()) {
            Some(v) => {
                if v > FEE_DENOM {
                    return Err(PoolError::InvalidConfigValue);
                }
                state.protocol_fee = v;
            },
            None => {
                return Err(PoolError::InvalidConfigValue);
            },
        }
    } else if key == "token_erth_hash".to_owned() {
        state.token_erth_hash = value;
    } else if key == "token_b_hash".to_owned() {
        state.token_b_hash = value;
    } else if key == "lp_token_hash".to_owned() {
        state.lp_token_hash = value;
    } else if key == "lp_staking_hash".to_owned() {
        state.lp_staking_hash = value;
    } else if key == "lp_staking_contract".to_owned() {
        state.lp_staking_contract = value;
    } else if key == "registration_contract".to_owned() {
        state.registration_contract = value;
    } else if key == "registration_hash".to_owned() {
        state.registration_hash = value;
    } else {
        return Err(PoolError::InvalidConfigKey);
    }
    Ok(())
}

} // verus!
