use vstd::prelude::*;

use cosmrs::crypto::secp256k1::SigningKey;
use cosmrs::tx::{Body, Fee, SignDoc, SignerInfo};
use cosmrs::ErrorReport;

use crate::codec::is_secp256k1_secret_key;
use crate::error::RunnerError;
use crate::fee::{is_valid_denom, FeePlan};
use crate::message::AnyMsg;

verus! {

#[verifier::external_type_specification]
#[verifier::external_body]
pub struct ExErrorReport(ErrorReport);

/// A secp256k1 signing key together with the raw secret it was made from.
/// The fields are private, and the one place that builds a value is
/// `account_key_from_slice`, which stores the key that
/// `SigningKey::from_slice` made of the very secret it stores; the secret is
/// the key's model.
pub struct AccountKey {
    secret: Vec<u8>,
    key: SigningKey,
}

/// `cosmrs::crypto::secp256k1::SigningKey::from_slice`, which hands the bytes
/// to `k256`: it accepts 24 to 32 bytes (shorter ones are left-padded with
/// zeros) whose big-endian value is a non-zero scalar below the group order.
/// The key it makes is stored with a copy of the bytes it was made from. On
/// failure the error's message is returned; its text is left unsaid.
#[verifier::external_body]
fn account_key_from_slice(secret: &[u8]) -> (key: Result<AccountKey, String>)
    ensures
        key is Ok <==> is_secp256k1_secret_key(secret@),
        key matches Ok(k) ==> k@ == secret@,
{
    SigningKey::from_slice(secret)
        .map(|key| AccountKey { secret: secret.to_vec(), key })
        .map_err(|e| e.to_string())
}

impl AccountKey {
    /// The secret is a valid secp256k1 secret key.
    #[verifier::type_invariant]
    spec fn secret_is_valid(&self) -> bool {
        is_secp256k1_secret_key(self.secret@)
    }

    /// The raw secret (big-endian scalar) of the key.
    pub closed spec fn secret(&self) -> Seq<u8> {
        self.secret@
    }

    /// The signing key that the value holds.
    pub closed spec fn stored_key(&self) -> SigningKey {
        self.key
    }

    /// The key made from a raw secret; the error's message where the secret
    /// is no secp256k1 secret key.
    pub fn from_secret(secret: &[u8]) -> (key: Result<AccountKey, String>)
        ensures
            key is Ok <==> is_secp256k1_secret_key(secret@),
            key matches Ok(k) ==> k.secret() == secret@,
    {
        account_key_from_slice(secret)
    }

    /// The signing key itself: the one made from `secret()`.
    pub fn signing_key(&self) -> (key: &SigningKey)
        ensures
            *key == self.stored_key(),
    {
        &self.key
    }
}

impl View for AccountKey {
    type V = Seq<u8>;

    /// A key is known by its secret.
    closed spec fn view(&self) -> Seq<u8> {
        self.secret@
    }
}

/// A character that a chain identifier may hold: an ASCII letter or digit, or
/// one of `- _ .`.
pub open spec fn is_chain_id_char(c: char) -> bool {
    ||| 'A' <= c <= 'Z'
    ||| 'a' <= c <= 'z'
    ||| '0' <= c <= '9'
    ||| c == '-'
    ||| c == '_'
    ||| c == '.'
}

/// A chain identifier that Tendermint accepts: 1 to 50 chain identifier
/// characters.
pub open spec fn is_valid_chain_id(s: Seq<char>) -> bool {
    &&& 1 <= s.len() <= 50
    &&& forall|i: int| 0 <= i < s.len() ==> is_chain_id_char(#[trigger] s[i])
}

/// A packed message by its type URL and bytes.
pub open spec fn any_msg_view(m: AnyMsg) -> (Seq<char>, Seq<u8>) {
    (m.type_url@, m.value@)
}

/// What `cosmrs` writes for a transaction body (`Body::new`, then
/// `into_bytes`) holding the messages, the memo and the timeout height.
pub uninterp spec fn tx_body_bytes(
    msgs: Seq<(Seq<char>, Seq<u8>)>,
    memo: Seq<char>,
    timeout_height: u32,
) -> Seq<u8>;

/// What `cosmrs` writes for the auth info (`SignerInfo::single_direct` for the
/// public key of the key made from `secret` at `sequence`, then `auth_info`
/// with the fee, then `into_bytes`).
pub uninterp spec fn auth_info_bytes(
    secret: Seq<u8>,
    sequence: u64,
    fee_denom: Seq<char>,
    fee_amount: u128,
    gas_limit: u64,
) -> Seq<u8>;

/// What `cosmrs` gives for signing, with the key made from `secret`, the sign
/// document of these body and auth info bytes, chain and account number, as
/// the raw transaction's bytes; `None` where `k256` refuses to sign.
pub uninterp spec fn signed_tx_raw(
    body: Seq<u8>,
    auth_info: Seq<u8>,
    chain_id: Seq<char>,
    account_number: u64,
    secret: Seq<u8>,
) -> Option<Seq<u8>>;

/// The signed transaction for the messages, with no memo and no timeout
/// height, from the account whose key is made from `secret` at `sequence`,
/// paying the fee; `None` where signing fails.
pub open spec fn signed_tx_bytes(
    msgs: Seq<(Seq<char>, Seq<u8>)>,
    secret: Seq<u8>,
    fee_denom: Seq<char>,
    fee_amount: u128,
    gas_limit: u64,
    chain_id: Seq<char>,
    sequence: u64,
    account_number: u64,
) -> Option<Seq<u8>> {
    signed_tx_raw(
        tx_body_bytes(msgs, Seq::empty(), 0),
        auth_info_bytes(secret, sequence, fee_denom, fee_amount, gas_limit),
        chain_id,
        account_number,
        secret,
    )
}

/// A signed transaction carries exactly what it was asked to: its body
/// holds the messages with no memo and no timeout height, its auth info is
/// the one written for the key's secret at the given sequence with the given
/// fee, and it is signed for the given chain and account number with that
/// secret's key.
pub proof fn lemma_signed_tx_carries_its_inputs(
    msgs: Seq<(Seq<char>, Seq<u8>)>,
    secret: Seq<u8>,
    fee_denom: Seq<char>,
    fee_amount: u128,
    gas_limit: u64,
    chain_id: Seq<char>,
    sequence: u64,
    account_number: u64,
)
    ensures
        signed_tx_bytes(
            msgs,
            secret,
            fee_denom,
            fee_amount,
            gas_limit,
            chain_id,
            sequence,
            account_number,
        ) == signed_tx_raw(
            tx_body_bytes(msgs, Seq::empty(), 0),
            auth_info_bytes(secret, sequence, fee_denom, fee_amount, gas_limit),
            chain_id,
            account_number,
            secret,
        ),
{
}

/// `cosmrs::tx::Body::new` and `into_bytes`. Encoding into a growing vector
/// does not run out of room, so the call succeeds; the bytes are named by
/// `tx_body_bytes`.
#[verifier::external_body]
fn encode_tx_body(msgs: &[AnyMsg], memo: &str, timeout_height: u32) -> (body: Result<
    Vec<u8>,
    ErrorReport,
>)
    ensures
        body is Ok,
        body matches Ok(b) ==> b@ == tx_body_bytes(
            msgs@.map_values(|m: AnyMsg| any_msg_view(m)),
            memo@,
            timeout_height,
        ),
{
    let anys = msgs.iter().map(|m| cosmrs::Any { type_url: m.type_url.clone(), value: m.value.clone() });
    Body::new(anys, memo, timeout_height).into_bytes()
}

/// `cosmrs::tx::SignerInfo::single_direct` with the key's public key,
/// `auth_info` with the fee and `into_bytes`. Encoding into a growing vector
/// does not run out of room, so the call succeeds; the bytes are named by
/// `auth_info_bytes`. The fee denomination must parse, as `Denom` requires.
#[verifier::external_body]
fn encode_auth_info(key: &AccountKey, sequence: u64, fee: &FeePlan) -> (auth_info: Result<
    Vec<u8>,
    ErrorReport,
>)
    requires
        is_valid_denom(fee.denom@),
    ensures
        auth_info is Ok,
        auth_info matches Ok(b) ==> b@ == auth_info_bytes(
            key@,
            sequence,
            fee.denom@,
            fee.amount,
            fee.gas_limit,
        ),
{
    let amount = cosmrs::Coin { denom: fee.denom.parse().unwrap(), amount: fee.amount };
    let signer = SignerInfo::single_direct(Some(key.key.public_key()), sequence);
    signer.auth_info(Fee::from_amount_and_gas(amount, fee.gas_limit)).into_bytes()
}

/// `cosmrs::tx::SignDoc::sign` on the sign document of these parts, then
/// `Raw::to_bytes`. The signature is RFC 6979 deterministic, so the outcome
/// is named by `signed_tx_raw`; it fails only where `k256` refuses to sign,
/// since the encodings write into growing vectors. Which error comes back is
/// left unsaid.
#[verifier::external_body]
fn sign_tx(
    body: Vec<u8>,
    auth_info: Vec<u8>,
    chain_id: &str,
    account_number: u64,
    key: &AccountKey,
) -> (tx: Result<Vec<u8>, ErrorReport>)
    ensures
        tx is Ok <==> signed_tx_raw(body@, auth_info@, chain_id@, account_number, key@) is Some,
        tx matches Ok(b) ==> signed_tx_raw(body@, auth_info@, chain_id@, account_number, key@)
            == Some(b@),
{
    let chain_id = chain_id.to_owned();
    let doc = SignDoc { body_bytes: body, auth_info_bytes: auth_info, chain_id, account_number };
    doc.sign(&key.key)?.to_bytes()
}

/// The text of a report, as its `Display` writes it.
#[verifier::external_body]
fn report_text(report: &ErrorReport) -> (text: String) {
    format!("{}", report)
}

/// The signed transaction, as protobuf bytes, that carries `msgs` (with no
/// memo and no timeout height) from the account of `key` at `sequence` with
/// the given fee to the chain `chain_id`. It succeeds exactly where signing
/// does; where `k256` refuses to sign, the error is a generic one with the
/// signer's message.
pub fn create_signed_tx(
    msgs: &[AnyMsg],
    key: &AccountKey,
    fee: &FeePlan,
    chain_id: &str,
    sequence: u64,
    account_number: u64,
) -> (tx: Result<Vec<u8>, RunnerError>)
    requires
        is_valid_denom(fee.denom@),
        is_valid_chain_id(chain_id@),
    ensures
        tx is Ok <==> signed_tx_bytes(
            msgs@.map_values(|m: AnyMsg| any_msg_view(m)),
            key@,
            fee.denom@,
            fee.amount,
            fee.gas_limit,
            chain_id@,
            sequence,
            account_number,
        ) is Some,
        tx matches Ok(b) ==> signed_tx_bytes(
            msgs@.map_values(|m: AnyMsg| any_msg_view(m)),
            key@,
            fee.denom@,
            fee.amount,
            fee.gas_limit,
            chain_id@,
            sequence,
            account_number,
        ) == Some(b@),
        tx matches Ok(b) ==> signed_tx_raw(
            tx_body_bytes(msgs@.map_values(|m: AnyMsg| any_msg_view(m)), Seq::empty(), 0),
            auth_info_bytes(key@, sequence, fee.denom@, fee.amount, fee.gas_limit),
            chain_id@,
            account_number,
            key@,
        ) == Some(b@),
        tx matches Err(e) ==> e is GenericError,
{
    let memo = "";
    proof {
        reveal_strlit("");
    }
    assert(memo@ =~= Seq::<char>::empty());
    let body = match encode_tx_body(msgs, memo, 0) {
        Ok(b) => b,
        Err(report) => {
            return Err(RunnerError::GenericError(report_text(&report)));
        },
    };
    let auth_info = match encode_auth_info(key, sequence, fee) {
        Ok(b) => b,
        Err(report) => {
            return Err(RunnerError::GenericError(report_text(&report)));
        },
    };
    match sign_tx(body, auth_info, chain_id, account_number, key) {
        Ok(bytes) => Ok(bytes),
        Err(report) => Err(RunnerError::GenericError(report_text(&report))),
    }
}

} // verus!
