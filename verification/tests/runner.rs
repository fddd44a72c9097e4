use base64::Engine;
use neutron_test_tube::error::DecodeError;
use neutron_test_tube::fee::{custom_fee, fee_plan, is_valid_denom_str, simulation_fee};
use neutron_test_tube::coin::Coin;
use neutron_test_tube::runner::{
    base64_payload, block_time_seconds, block_timestamp_nanos, c_str_to_string,
    finalize_block_tx_index, increase_time_seconds, signing_key_from_base64_c_str,
};
use neutron_test_tube::NEUTRON_MIN_GAS_PRICE;

#[test]
fn block_time_in_seconds_rounds_toward_zero() {
    assert_eq!(block_time_seconds(0), 0);
    assert_eq!(block_time_seconds(999_999_999), 0);
    assert_eq!(block_time_seconds(1_000_000_000), 1);
    assert_eq!(block_time_seconds(1_700_000_000_123_456_789), 1_700_000_000);
    assert_eq!(block_time_seconds(-1), 0);
    assert_eq!(block_time_seconds(-1_500_000_000), -1);
}

#[test]
fn ten_more_seconds_of_block_time() {
    let nanos: i64 = 1_700_000_000_123_456_789;
    let seconds = block_time_seconds(nanos);
    assert_eq!(block_time_seconds(nanos + 10_000_000_000), seconds + 10);
}

#[test]
fn timestamp_and_time_increase_conversions() {
    assert_eq!(block_timestamp_nanos(123), 123u64);
    assert_eq!(increase_time_seconds(10), 10i64);
    assert_eq!(increase_time_seconds(i64::MAX as u64), i64::MAX);
}

#[test]
fn payload_is_standard_base64() {
    assert_eq!(base64_payload(&[]), "");
    assert_eq!(base64_payload(&[0u8, 0]), "AAA=");
    assert_eq!(base64_payload(b"foobar"), "Zm9vYmFy");
    assert_eq!(base64_payload(b"fo"), "Zm8=");
    assert_eq!(base64_payload(&[0xfb, 0xff]), "+/8=");
}

#[test]
fn c_strings_are_read_as_utf8() {
    assert_eq!(c_str_to_string(b"neutron1abc").unwrap(), "neutron1abc");
    match c_str_to_string(&[0xff, 0xfe]) {
        Err(DecodeError::Utf8Error(_)) => {}
        other => panic!("unexpected {:?}", other),
    }
}

fn key_text(raw: &[u8]) -> String {
    base64::engine::general_purpose::STANDARD.encode(raw)
}

#[test]
fn signing_key_is_read_from_base64() {
    let mut raw = [0u8; 32];
    raw[31] = 1;
    assert!(signing_key_from_base64_c_str(key_text(&raw).as_bytes()).is_ok());
}

#[test]
fn short_signing_key_is_padded() {
    let raw = [7u8; 24];
    assert!(signing_key_from_base64_c_str(key_text(&raw).as_bytes()).is_ok());
}

#[test]
fn zero_signing_key_is_refused() {
    let raw = [0u8; 32];
    match signing_key_from_base64_c_str(key_text(&raw).as_bytes()) {
        Err(DecodeError::SigningKeyDecodeError { .. }) => {}
        other => panic!("unexpected {:?}", other.is_ok()),
    }
}

#[test]
fn signing_key_beyond_the_group_order_is_refused() {
    let raw = [0xffu8; 32];
    match signing_key_from_base64_c_str(key_text(&raw).as_bytes()) {
        Err(DecodeError::SigningKeyDecodeError { .. }) => {}
        other => panic!("unexpected {:?}", other.is_ok()),
    }
}

#[test]
fn signing_key_of_wrong_length_is_refused() {
    for len in [23usize, 33] {
        let raw = vec![1u8; len];
        match signing_key_from_base64_c_str(key_text(&raw).as_bytes()) {
            Err(DecodeError::SigningKeyDecodeError { .. }) => {}
            other => panic!("unexpected {:?}", other.is_ok()),
        }
    }
}

#[test]
fn signing_key_text_that_is_not_base64_is_refused() {
    match signing_key_from_base64_c_str(b"not base64!") {
        Err(DecodeError::Base64DecodeError(_)) => {}
        other => panic!("unexpected {:?}", other.is_ok()),
    }
}

#[test]
fn signing_key_text_that_is_not_utf8_is_refused() {
    match signing_key_from_base64_c_str(&[0xff, 0x41]) {
        Err(DecodeError::Utf8Error(_)) => {}
        other => panic!("unexpected {:?}", other.is_ok()),
    }
}

#[test]
fn denominations_are_checked_as_the_sdk_does() {
    assert!(is_valid_denom_str("untrn"));
    assert!(is_valid_denom_str("ibc/9F53D255F5320A4BE124FF20C29D46406E126CE8A09B00CA8D3CFF7905119728"));
    assert!(is_valid_denom_str("factory/neutron1abc/test"));
    assert!(!is_valid_denom_str("ab"));
    assert!(!is_valid_denom_str("un trn"));
    assert!(!is_valid_denom_str(&"a".repeat(129)));
    assert!(is_valid_denom_str(&"a".repeat(128)));
    assert!(!is_valid_denom_str("ünt"));
}

#[test]
fn fees_carry_what_they_are_given() {
    let sim = simulation_fee("untrn");
    assert_eq!(sim.denom, "untrn");
    assert_eq!(sim.amount, NEUTRON_MIN_GAS_PRICE);
    assert_eq!(sim.gas_limit, 0);

    let custom = custom_fee(&Coin::new(5000, "uatom".to_string()), 200_000);
    assert_eq!(custom.denom, "uatom");
    assert_eq!(custom.amount, 5000);
    assert_eq!(custom.gas_limit, 200_000);

    let plan = fee_plan("untrn", 12, 34);
    assert_eq!((plan.denom.as_str(), plan.amount, plan.gas_limit), ("untrn", 12, 34));
}

#[test]
fn finalize_block_answer_is_the_last_of_at_most_two() {
    assert_eq!(finalize_block_tx_index(0), None);
    assert_eq!(finalize_block_tx_index(1), Some(0));
    assert_eq!(finalize_block_tx_index(2), Some(1));
    assert_eq!(finalize_block_tx_index(5), Some(1));
}
