use vstd::prelude::*;
use vstd::utf8::{decode_utf8, valid_utf8};

use crate::codec::{
    base64_decode, base64_encode, base64_standard_decoding, base64_standard_encoding,
    coins_json, coins_to_json, is_secp256k1_secret_key, utf8_str,
};
use crate::coin::{sort_by_denom, sort_coins_by_denom, Coin};
use crate::error::{DecodeError, EncodeError};
use crate::signing::AccountKey;

verus! {

/// Nanoseconds in one second.
pub const NANOS_PER_SECOND: i64 = 1_000_000_000;

/// `a / b` rounded toward zero, as Rust's integer division rounds.
pub open spec fn div_toward_zero(a: int, b: int) -> int
    recommends
        b > 0,
{
    if a >= 0 {
        a / b
    } else {
        -((-a) / b)
    }
}

/// The block time in whole seconds, given the block time in nanoseconds
/// (rounded toward zero).
pub fn block_time_seconds(nanos: i64) -> (seconds: i64)
    ensures
        seconds == div_toward_zero(nanos as int, NANOS_PER_SECOND as int),
{
    nanos / NANOS_PER_SECOND
}

/// Moving a block time at or after the epoch forward by whole seconds moves
/// the block time in seconds forward by as many.
pub proof fn lemma_block_seconds_advance(nanos: int, seconds: int)
    requires
        nanos >= 0,
        seconds >= 0,
    ensures
        div_toward_zero(nanos + seconds * NANOS_PER_SECOND, NANOS_PER_SECOND as int)
            == div_toward_zero(nanos, NANOS_PER_SECOND as int) + seconds,
{
    assert((nanos + seconds * 1_000_000_000) / 1_000_000_000 == nanos / 1_000_000_000 + seconds)
        by (nonlinear_arith)
        requires
            nanos >= 0,
            seconds >= 0,
    ;
}

/// The block time in nanoseconds as the unsigned count that a timestamp holds.
pub fn block_timestamp_nanos(nanos: i64) -> (unsigned: u64)
    requires
        nanos >= 0,
    ensures
        unsigned == nanos,
{
    nanos as u64
}

/// The number of seconds, as the chain's signed count, by which to move the
/// block time forward.
pub fn increase_time_seconds(seconds: u64) -> (signed: i64)
    requires
        seconds <= i64::MAX,
    ensures
        signed == seconds,
{
    seconds as i64
}

/// The text that carries `bytes` to the chain: standard base64.
pub fn base64_payload(bytes: &[u8]) -> (payload: String)
    requires
        bytes.len() <= usize::MAX / 2,
    ensures
        payload@ == base64_standard_encoding(bytes@),
{
    base64_encode(bytes)
}

/// The coins that a new account starts with, as the JSON list that the chain
/// reads: sorted by denomination first, since the chain refuses unsorted
/// coins.
pub fn init_account_coins_json(coins: &[Coin]) -> (json: Result<String, EncodeError>)
    ensures
        json matches Ok(s) ==> s@ == coins_json(
            sort_by_denom(coins@).map_values(|c: Coin| (c.denom@, c.amount)),
        ),
        json is Ok,
{
    let sorted = sort_coins_by_denom(coins);
    match coins_to_json(&sorted) {
        Ok(s) => Ok(s),
        Err(e) => Err(EncodeError::JsonEncodeError(e)),
    }
}

/// The text of a C string that the chain returned, given its bytes without
/// the terminating NUL.
pub fn c_str_to_string(bytes: &[u8]) -> (text: Result<String, DecodeError>)
    ensures
        text is Ok <==> valid_utf8(bytes@),
        text matches Ok(s) ==> s@ == decode_utf8(bytes@),
        text matches Err(e) ==> e is Utf8Error,
{
    match utf8_str(bytes) {
        Ok(s) => Ok(s.to_owned()),
        Err(e) => Err(DecodeError::Utf8Error(e)),
    }
}

/// `encoded` is the base64 of a raw secp256k1 secret key.
pub open spec fn base64_holds_secret_key(encoded: Seq<u8>) -> bool {
    match base64_standard_decoding(encoded) {
        Some(raw) => is_secp256k1_secret_key(raw),
        None => false,
    }
}

/// The signing key that the chain returned for a new or genesis account: a C
/// string (given by its bytes without the NUL) holding the base64 of the raw
/// secp256k1 secret key. The key is made from exactly the decoded bytes.
pub fn signing_key_from_base64_c_str(bytes: &[u8]) -> (key: Result<AccountKey, DecodeError>)
    ensures
        key is Ok <==> valid_utf8(bytes@) && base64_holds_secret_key(bytes@),
        key matches Ok(k) ==> base64_standard_decoding(bytes@) == Some(k.secret()),
        !valid_utf8(bytes@) ==> (key matches Err(e) && e is Utf8Error),
        valid_utf8(bytes@) && base64_standard_decoding(bytes@) is None ==> (key matches Err(e)
            && e is Base64DecodeError),
        valid_utf8(bytes@) && base64_standard_decoding(bytes@) is Some && !base64_holds_secret_key(
            bytes@,
        ) ==> (key matches Err(e) && e is SigningKeyDecodeError),
{
    if let Err(e) = utf8_str(bytes) {
        return Err(DecodeError::Utf8Error(e));
    }
    let raw = match base64_decode(bytes) {
        Ok(raw) => raw,
        Err(e) => {
            return Err(DecodeError::Base64DecodeError(e));
        },
    };
    match AccountKey::from_secret(raw.as_slice()) {
        Ok(k) => Ok(k),
        Err(msg) => Err(DecodeError::SigningKeyDecodeError { msg }),
    }
}

/// Which of the transaction results of a finalized block answers the
/// transaction that was sent: the only one if there is one, else the second
/// (the first being the block's own). `None` if there is none.
pub fn finalize_block_tx_index(n_results: usize) -> (index: Option<usize>)
    ensures
        n_results == 0 ==> index is None,
        n_results == 1 ==> index == Some(0usize),
        n_results >= 2 ==> index == Some(1usize),
{
    if n_results < 2 {
        if n_results == 0 {
            None
        } else {
            Some(0)
        }
    } else {
        Some(1)
    }
}

} // verus!
