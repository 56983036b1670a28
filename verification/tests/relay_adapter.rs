use oz_relayer::errors::OzRelayerMiddlewareError;
use oz_relayer::relay::{build_body, OutboundTransaction, OzRelayerMiddleware};
use oz_relayer::txid::transform_transaction_id;

fn deposit_address() -> Vec<u8> {
    vec![
        0x00, 0x00, 0x00, 0x00, 0x21, 0x9a, 0xb5, 0x40, 0x35, 0x6c, 0xbb, 0x83, 0x9c, 0xbe, 0x05,
        0x30, 0x3d, 0x77, 0x05, 0xfa,
    ]
}

fn middleware() -> OzRelayerMiddleware<u32> {
    OzRelayerMiddleware::new(7u32, String::from("key-a"), String::from("secret-a")).unwrap()
}

#[test]
fn body_with_only_to_holds_solely_the_to_member() {
    let tx = OutboundTransaction {
        to: Some(deposit_address()),
        value: None,
        gas_limit: None,
        data: None,
    };
    let body = build_body(&tx);
    assert_eq!(
        body,
        "{\"to\":\"0x00000000219ab540356cbb839cbe05303d7705fa\"}"
    );
    // Cross-checked with a JSON parser: the unset members are absent, not null.
    let value: serde_json::Value = serde_json::from_str(&body).unwrap();
    assert!(value.get("to").is_some());
    assert!(value.get("value").is_none());
    assert!(value.get("gasLimit").is_none());
    assert!(value.get("data").is_none());
}

#[test]
fn body_with_all_fields() {
    let tx = OutboundTransaction {
        to: Some(deposit_address()),
        value: Some(1),
        gas_limit: Some(100_000),
        data: Some(vec![0xde, 0xad, 0xbe, 0xef]),
    };
    assert_eq!(
        build_body(&tx),
        "{\"to\":\"0x00000000219ab540356cbb839cbe05303d7705fa\",\"value\":\"0x1\",\"gasLimit\":\"0x186a0\",\"data\":\"0xdeadbeef\"}"
    );
}

#[test]
fn body_with_no_fields_is_empty_document() {
    let tx = OutboundTransaction { to: None, value: None, gas_limit: None, data: None };
    assert_eq!(build_body(&tx), "{}");
}

#[test]
fn body_renders_amounts_in_shortest_hexadecimal() {
    let tx = OutboundTransaction { to: None, value: Some(0), gas_limit: Some(255), data: None };
    assert_eq!(build_body(&tx), "{\"value\":\"0x0\",\"gasLimit\":\"0xff\"}");
    let big = OutboundTransaction {
        to: None,
        value: Some(u128::MAX),
        gas_limit: None,
        data: Some(Vec::new()),
    };
    assert_eq!(
        build_body(&big),
        "{\"value\":\"0xffffffffffffffffffffffffffffffff\",\"data\":\"0x\"}"
    );
}

#[test]
fn uuid_identifier_transforms_to_padded_hash() {
    let id: Vec<u8> = b"123e4567-e89b-12d3-a456-426614174000".to_vec();
    let hash = transform_transaction_id(&id).unwrap();
    let text = String::from_utf8(hash).unwrap();
    let expected = format!("{}{}", "0".repeat(32), "123e4567e89b12d3a456426614174000");
    assert_eq!(text.len(), 64);
    assert_eq!(text, expected);
    assert!(text.ends_with("123e4567e89b12d3a456426614174000"));
}

#[test]
fn oversized_or_malformed_identifiers_transform_to_nothing() {
    let too_long: Vec<u8> = vec![b'a'; 65];
    assert!(transform_transaction_id(&too_long).is_none());
    let not_hex: Vec<u8> = b"zz-zz".to_vec();
    assert!(transform_transaction_id(&not_hex).is_none());
    // Exactly 64 digits need no padding at all.
    let full: Vec<u8> = vec![b'7'; 64];
    let hash = transform_transaction_id(&full).unwrap();
    assert_eq!(hash, vec![b'7'; 64]);
}

#[test]
fn transform_keeps_digit_case_unchanged() {
    let id: Vec<u8> = b"123E4567-E89B-12d3-a456-426614174000".to_vec();
    let hash = transform_transaction_id(&id).unwrap();
    let text = String::from_utf8(hash).unwrap();
    let expected = format!("{}{}", "0".repeat(32), "123E4567E89B12d3a456426614174000");
    assert_eq!(text, expected);
}

#[test]
fn non_200_status_yields_authentication_failure() {
    let mw = middleware();
    let body = String::from("{\"transactionId\":\"123e4567-e89b-12d3-a456-426614174000\"}");
    for status in [201u16, 302, 400, 401, 403, 500] {
        let r: Result<_, OzRelayerMiddlewareError<String>> = mw.interpret_response(status, &body);
        assert!(matches!(
            r,
            Err(OzRelayerMiddlewareError::AuthenticationError())
        ));
    }
}

#[test]
fn missing_or_non_string_identifier_yields_unknown_response() {
    let mw = middleware();
    let cases = [
        String::from("{}"),
        String::from("{\"somethingElse\":\"abc\"}"),
        String::from("{\"transactionId\":5}"),
        String::from("{\"transactionId\":null}"),
        String::from("not json at all"),
    ];
    for body in cases {
        let r: Result<_, OzRelayerMiddlewareError<String>> = mw.interpret_response(200, &body);
        assert!(matches!(r, Err(OzRelayerMiddlewareError::UnknownResponse())));
    }
}

#[test]
fn identifier_that_is_not_hash_shaped_yields_unknown_response() {
    let mw = middleware();
    let oversized = format!("{{\"transactionId\":\"{}\"}}", "a".repeat(65));
    let r: Result<_, OzRelayerMiddlewareError<String>> = mw.interpret_response(200, &oversized);
    assert!(matches!(r, Err(OzRelayerMiddlewareError::UnknownResponse())));
}

#[test]
fn accepted_submission_yields_pending_handle() {
    let mw = middleware();
    let body = String::from("{\"transactionId\":\"123e4567-e89b-12d3-a456-426614174000\"}");
    let r: Result<_, OzRelayerMiddlewareError<String>> = mw.interpret_response(200, &body);
    let handle = r.unwrap();
    let text = String::from_utf8(handle.tx_hash.clone()).unwrap();
    let expected = format!("{}{}", "0".repeat(32), "123e4567e89b12d3a456426614174000");
    assert_eq!(text, expected);
    assert_eq!(*handle.provider, 7u32);
}

#[test]
fn new_wraps_the_inner_transport() {
    let mw = middleware();
    assert_eq!(*mw.inner(), 7u32);
    assert_eq!(mw.config.api_key, "key-a");
    assert_eq!(mw.config.api_secret, "secret-a");
}

#[test]
fn handshake_request_carries_constants_and_credential() {
    let mw = middleware();
    let input = mw.handshake_request();
    assert_eq!(input.client_id, "1bpd19lcr33qvg5cr3oi79rdap");
    assert_eq!(input.pool_id, "us-west-2_iLmIggsiy");
    assert_eq!(input.username, "key-a");
    assert_eq!(input.password, "secret-a");
}

#[test]
fn prepared_request_carries_headers_and_body() {
    let mw = middleware();
    let tx = OutboundTransaction { to: None, value: Some(1), gas_limit: None, data: None };
    let request = mw.prepare_request(&tx, &String::from("tok-123"));
    assert_eq!(request.url, "https://api.defender.openzeppelin.com/txs");
    assert_eq!(request.api_key, "key-a");
    assert_eq!(request.authorization, "Bearer tok-123");
    assert_eq!(request.body, "{\"value\":\"0x1\"}");
}

#[test]
fn inner_transport_errors_are_passed_through_tagged() {
    let e: OzRelayerMiddlewareError<String> =
        OzRelayerMiddlewareError::from(String::from("node down"));
    assert!(matches!(
        e,
        OzRelayerMiddlewareError::MiddlewareError(ref s) if s.as_str() == "node down"
    ));
}
