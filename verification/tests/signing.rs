use base64::Engine;
use cosmrs::crypto::secp256k1::SigningKey;
use cosmrs::tx::{Body, Fee, SignDoc, SignerInfo, Tx};
use neutron_test_tube::error::RunnerError;
use neutron_test_tube::fee::fee_plan;
use neutron_test_tube::message::AnyMsg;
use neutron_test_tube::runner::signing_key_from_base64_c_str;
use neutron_test_tube::signing::{create_signed_tx, AccountKey};

fn secret() -> Vec<u8> {
    let mut raw = vec![0u8; 32];
    raw[31] = 42;
    raw[0] = 3;
    raw
}

fn msgs() -> Vec<AnyMsg> {
    vec![
        AnyMsg { type_url: "/cosmos.bank.v1beta1.MsgSend".to_string(), value: vec![1, 2, 3] },
        AnyMsg { type_url: "/cosmwasm.wasm.v1.MsgExecuteContract".to_string(), value: vec![] },
    ]
}

#[test]
fn account_key_is_the_key_of_its_secret() {
    let key = AccountKey::from_secret(&secret()).unwrap();
    let direct = SigningKey::from_slice(&secret()).unwrap();
    assert_eq!(key.signing_key().public_key(), direct.public_key());
    assert!(AccountKey::from_secret(&[0u8; 32]).is_err());
    assert!(AccountKey::from_secret(&[1u8; 20]).is_err());
}

#[test]
fn key_read_from_base64_is_the_key_of_the_decoded_bytes() {
    let text = base64::engine::general_purpose::STANDARD.encode(secret());
    let key = signing_key_from_base64_c_str(text.as_bytes()).unwrap();
    let direct = SigningKey::from_slice(&secret()).unwrap();
    assert_eq!(key.signing_key().public_key(), direct.public_key());
    let other = SigningKey::from_slice(&[9u8; 32]).unwrap();
    assert_ne!(key.signing_key().public_key(), other.public_key());
}

#[test]
fn signed_tx_is_what_cosmrs_signs() {
    let key = AccountKey::from_secret(&secret()).unwrap();
    let fee = fee_plan("untrn", 2500, 200_000);
    let bytes = create_signed_tx(&msgs(), &key, &fee, "neutron-666", 7, 11).unwrap();

    let direct = SigningKey::from_slice(&secret()).unwrap();
    let anys: Vec<cosmrs::Any> = msgs()
        .into_iter()
        .map(|m| cosmrs::Any { type_url: m.type_url, value: m.value })
        .collect();
    let amount = cosmrs::Coin { denom: "untrn".parse().unwrap(), amount: 2500 };
    let auth_info = SignerInfo::single_direct(Some(direct.public_key()), 7)
        .auth_info(Fee::from_amount_and_gas(amount, 200_000u64));
    let body = Body::new(anys, "", 0u32);
    let expected = SignDoc::new(&body, &auth_info, &"neutron-666".parse().unwrap(), 11)
        .unwrap()
        .sign(&direct)
        .unwrap()
        .to_bytes()
        .unwrap();
    assert_eq!(bytes, expected);
}

#[test]
fn signed_tx_carries_messages_fee_and_sequence() {
    let key = AccountKey::from_secret(&secret()).unwrap();
    let fee = fee_plan("untrn", 2500, 200_000);
    let bytes = create_signed_tx(&msgs(), &key, &fee, "neutron-666", 7, 11).unwrap();
    let tx = Tx::from_bytes(&bytes).unwrap();
    assert_eq!(tx.body.messages.len(), 2);
    assert_eq!(tx.body.messages[0].type_url, "/cosmos.bank.v1beta1.MsgSend");
    assert_eq!(tx.body.messages[0].value, vec![1, 2, 3]);
    assert_eq!(tx.body.messages[1].type_url, "/cosmwasm.wasm.v1.MsgExecuteContract");
    assert_eq!(tx.body.memo, "");
    assert_eq!(tx.auth_info.fee.gas_limit, 200_000);
    assert_eq!(tx.auth_info.fee.amount[0].amount, 2500);
    assert_eq!(tx.auth_info.fee.amount[0].denom.as_ref(), "untrn");
    assert_eq!(tx.auth_info.signer_infos.len(), 1);
    assert_eq!(tx.auth_info.signer_infos[0].sequence, 7);
    assert_eq!(tx.signatures.len(), 1);
}

#[test]
fn signing_is_deterministic_and_depends_on_its_inputs() {
    let key = AccountKey::from_secret(&secret()).unwrap();
    let fee = fee_plan("untrn", 2500, 200_000);
    let a = create_signed_tx(&msgs(), &key, &fee, "neutron-666", 7, 11).unwrap();
    let b = create_signed_tx(&msgs(), &key, &fee, "neutron-666", 7, 11).unwrap();
    assert_eq!(a, b);
    let c = create_signed_tx(&msgs(), &key, &fee, "neutron-666", 8, 11).unwrap();
    assert_ne!(a, c);
    let d = create_signed_tx(&msgs(), &key, &fee, "neutron-1", 7, 11).unwrap();
    assert_ne!(a, d);
    let other = AccountKey::from_secret(&[9u8; 32]).unwrap();
    let e = create_signed_tx(&msgs(), &other, &fee, "neutron-666", 7, 11).unwrap();
    assert_ne!(a, e);
    let empty: Vec<AnyMsg> = vec![];
    match create_signed_tx(&empty, &key, &fee, "neutron-666", 7, 11) {
        Ok(bytes) => assert!(!bytes.is_empty()),
        Err(RunnerError::GenericError(_)) => {}
        Err(other) => panic!("unexpected {:?}", other),
    }
}
