use vstd::prelude::*;

use cosmrs::Denom;

use crate::coin::Coin;
use crate::NEUTRON_MIN_GAS_PRICE;

verus! {

/// A character that a denomination may hold: an ASCII letter or digit, or
/// one of `/ : . _ -`.
pub open spec fn is_denom_char(c: char) -> bool {
    ||| 'A' <= c <= 'Z'
    ||| 'a' <= c <= 'z'
    ||| '0' <= c <= '9'
    ||| c == '/'
    ||| c == ':'
    ||| c == '.'
    ||| c == '_'
    ||| c == '-'
}

/// A denomination that the SDK accepts: 3 to 128 characters, each of them a
/// denomination character.
pub open spec fn is_valid_denom(s: Seq<char>) -> bool {
    &&& 3 <= s.len() <= 128
    &&& forall|i: int| 0 <= i < s.len() ==> is_denom_char(#[trigger] s[i])
}

/// `<cosmrs::Denom as FromStr>::from_str`, told apart by success. Its source
/// accepts a text whose byte length lies between 3 and 128 and whose
/// characters are all denomination characters; those are ASCII, so the byte
/// length is the character count wherever the characters pass.
#[verifier::external_body]
fn denom_parses(s: &str) -> (ok: bool)
    ensures
        ok == is_valid_denom(s@),
{
    s.parse::<Denom>().is_ok()
}

/// Whether the chain's SDK accepts `s` as a denomination.
pub fn is_valid_denom_str(s: &str) -> (ok: bool)
    ensures
        ok == is_valid_denom(s@),
{
    denom_parses(s)
}

/// The fee that a transaction pays: one amount of one denomination, and a
/// gas limit.
#[derive(Debug)]
pub struct FeePlan {
    pub denom: String,
    pub amount: u128,
    pub gas_limit: u64,
}

/// A fee of `amount` units of `denom` with the given gas limit.
pub fn fee_plan(denom: &str, amount: u128, gas_limit: u64) -> (fee: FeePlan)
    requires
        is_valid_denom(denom@),
    ensures
        fee.denom@ == denom@,
        fee.amount == amount,
        fee.gas_limit == gas_limit,
{
    FeePlan { denom: denom.to_owned(), amount, gas_limit }
}

/// The fee under which a transaction is simulated: the minimum gas price in
/// the fee denomination, with no gas limit.
pub fn simulation_fee(fee_denom: &str) -> (fee: FeePlan)
    requires
        is_valid_denom(fee_denom@),
    ensures
        fee.denom@ == fee_denom@,
        fee.amount == NEUTRON_MIN_GAS_PRICE,
        fee.gas_limit == 0,
{
    fee_plan(fee_denom, NEUTRON_MIN_GAS_PRICE, 0)
}

/// The fee of a signer that sets its own: exactly the coin and gas limit it
/// names.
pub fn custom_fee(amount: &Coin, gas_limit: u64) -> (fee: FeePlan)
    requires
        is_valid_denom(amount.denom@),
    ensures
        fee.denom@ == amount.denom@,
        fee.amount == amount.amount,
        fee.gas_limit == gas_limit,
{
    fee_plan(amount.denom.as_str(), amount.amount, gas_limit)
}

} // verus!
