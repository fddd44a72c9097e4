use base64::Engine;
use neutron_test_tube::error::RunnerError;
use neutron_test_tube::raw_result::RawResult;

fn encode(bytes: &[u8]) -> String {
    base64::engine::general_purpose::STANDARD.encode(bytes)
}

#[test]
fn test_raw_result_ptr_with_0_bytes_in_content_should_not_error() {
    let base64_string =
        base64::engine::general_purpose::STANDARD.encode([vec![0u8], vec![0u8]].concat());
    let res = RawResult::from_base64_reply(base64_string.as_bytes())
        .unwrap()
        .into_result()
        .unwrap();

    assert_eq!(res, vec![0u8]);
}

#[test]
fn ok_reply_gives_its_content() {
    let reply = encode(&[0u8, 1, 2, 3]);
    let res = RawResult::from_base64_reply(reply.as_bytes()).unwrap().into_result().unwrap();
    assert_eq!(res, vec![1u8, 2, 3]);
}

#[test]
fn empty_ok_reply_gives_no_bytes() {
    let reply = encode(&[0u8]);
    let res = RawResult::from_base64_reply(reply.as_bytes()).unwrap().into_result().unwrap();
    assert_eq!(res, Vec::<u8>::new());
}

#[test]
fn query_error_reply_carries_its_message() {
    let mut bytes = vec![1u8];
    bytes.extend_from_slice(b"No route found");
    let reply = encode(&bytes);
    let res = RawResult::from_base64_reply(reply.as_bytes()).unwrap().into_result();
    match res {
        Err(RunnerError::QueryError { msg }) => assert_eq!(msg, "No route found"),
        other => panic!("unexpected {:?}", other),
    }
}

#[test]
fn execute_error_reply_carries_its_message() {
    let mut bytes = vec![2u8];
    bytes.extend_from_slice(b"out of gas");
    let reply = encode(&bytes);
    let res = RawResult::from_base64_reply(reply.as_bytes()).unwrap().into_result();
    match res {
        Err(RunnerError::ExecuteError { msg }) => assert_eq!(msg, "out of gas"),
        other => panic!("unexpected {:?}", other),
    }
}

#[test]
fn error_message_with_invalid_utf8_is_replaced() {
    let reply = encode(&[1u8, b'a', 0xff, b'b']);
    let res = RawResult::from_base64_reply(reply.as_bytes()).unwrap().into_result();
    match res {
        Err(RunnerError::QueryError { msg }) => assert_eq!(msg, "a\u{FFFD}b"),
        other => panic!("unexpected {:?}", other),
    }
}

#[test]
fn undefined_tag_is_refused() {
    let reply = encode(&[3u8, 1]);
    assert!(RawResult::from_base64_reply(reply.as_bytes()).is_none());
}

#[test]
fn empty_reply_is_refused() {
    let reply = encode(&[]);
    assert!(RawResult::from_base64_reply(reply.as_bytes()).is_none());
}

#[test]
fn error_message_with_nul_is_refused() {
    let reply = encode(&[2u8, b'x', 0, b'y']);
    assert!(RawResult::from_base64_reply(reply.as_bytes()).is_none());
}

#[test]
fn non_base64_reply_is_refused() {
    assert!(RawResult::from_base64_reply(b"not base64!").is_none());
}

#[test]
fn reply_bytes_are_read_directly() {
    let res = RawResult::from_reply_bytes(&[0u8, 9, 8]).into_result().unwrap();
    assert_eq!(res, vec![9u8, 8]);
}
