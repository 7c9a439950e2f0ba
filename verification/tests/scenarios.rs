//! End-to-end request scenarios through the pipeline.

use ed25519_dalek::{Signer, SigningKey};
use interactions::endpoint::{check_auth, AuthError};
use interactions::endpoint::handle_request;
use interactions::registry::default_registry;

fn signing_key() -> SigningKey {
    SigningKey::from_bytes(&[7u8; 32])
}

fn public_key_hex(sk: &SigningKey) -> String {
    hex::encode(sk.verifying_key().to_bytes())
}

fn sign_hex(sk: &SigningKey, timestamp: &str, body: &str) -> String {
    let message = format!("{timestamp}{body}");
    hex::encode(sk.sign(message.as_bytes()).to_bytes())
}

#[test]
fn scenario_ping_probe() {
    let sk = signing_key();
    let pk = public_key_hex(&sk);
    let body = r#"{"type":1}"#;
    let ts = "1700000000";
    let sig = sign_hex(&sk, ts, body);
    let reg = default_registry();
    let reply = handle_request("POST", &pk, Some(&sig), Some(ts), body, &reg);
    assert_eq!(reply.status, 200);
    assert_eq!(reply.body, r#"{"type":1}"#);
}

const COMMAND_BODY: &str = r#"{"type":2,"id":"1","token":"t","application_id":"a","data":{"id":"2","name":"ping","type":1}}"#;

#[test]
fn scenario_known_command() {
    let sk = signing_key();
    let pk = public_key_hex(&sk);
    let ts = "1700000000";
    let sig = sign_hex(&sk, ts, COMMAND_BODY);
    let reg = default_registry();
    let reply = handle_request("POST", &pk, Some(&sig), Some(ts), COMMAND_BODY, &reg);
    assert_eq!(reply.status, 200);
    assert_eq!(reply.body, r#"{"type":4,"data":{"content":"Pong!"}}"#);
}

#[test]
fn scenario_invalid_signature() {
    let sk = signing_key();
    let pk = public_key_hex(&sk);
    let ts = "1700000000";
    let mut sig_bytes = sk
        .sign(format!("{ts}{COMMAND_BODY}").as_bytes())
        .to_bytes()
        .to_vec();
    sig_bytes[0] ^= 0x01;
    let sig = hex::encode(sig_bytes);
    let reg = default_registry();
    let reply = handle_request("POST", &pk, Some(&sig), Some(ts), COMMAND_BODY, &reg);
    assert_eq!(reply.status, 401);
    assert_eq!(reply.body, "");
}

#[test]
fn scenario_unknown_command() {
    let sk = signing_key();
    let pk = public_key_hex(&sk);
    let body = r#"{"type":2,"id":"1","token":"t","application_id":"a","data":{"id":"2","name":"unknown","type":1}}"#;
    let ts = "1700000000";
    let sig = sign_hex(&sk, ts, body);
    let reg = default_registry();
    let reply = handle_request("POST", &pk, Some(&sig), Some(ts), body, &reg);
    assert_eq!(reply.status, 400);
    assert_eq!(reply.body, "Unknown command");
}

#[test]
fn scenario_option_type_mismatch() {
    let sk = signing_key();
    let pk = public_key_hex(&sk);
    let body = r#"{"type":2,"id":"1","token":"t","application_id":"a","data":{"id":"2","name":"ping","type":1,"options":[{"name":"n","type":4,"value":"not-an-int"}]}}"#;
    let ts = "1700000000";
    let sig = sign_hex(&sk, ts, body);
    let reg = default_registry();
    let reply = handle_request("POST", &pk, Some(&sig), Some(ts), body, &reg);
    assert_eq!(reply.status, 400);
    assert_eq!(reply.body, "Bad request");
}

#[test]
fn scenario_wrong_method() {
    let reg = default_registry();
    let reply = handle_request("GET", "", None, None, "", &reg);
    assert_eq!(reply.status, 405);
    assert_eq!(reply.body, "Method not allowed");
}

#[test]
fn missing_headers_reject() {
    let sk = signing_key();
    let pk = public_key_hex(&sk);
    let body = r#"{"type":1}"#;
    let ts = "1700000000";
    let sig = sign_hex(&sk, ts, body);
    let reg = default_registry();
    let no_sig = handle_request("POST", &pk, None, Some(ts), body, &reg);
    assert_eq!(no_sig.status, 401);
    let no_ts = handle_request("POST", &pk, Some(&sig), None, body, &reg);
    assert_eq!(no_ts.status, 401);
    let bad_key = handle_request("POST", "zz", Some(&sig), Some(ts), body, &reg);
    assert_eq!(bad_key.status, 401);
}

#[test]
fn malformed_json_rejected_after_auth() {
    let sk = signing_key();
    let pk = public_key_hex(&sk);
    let body = "{not json";
    let ts = "1700000000";
    let sig = sign_hex(&sk, ts, body);
    let reg = default_registry();
    let reply = handle_request("POST", &pk, Some(&sig), Some(ts), body, &reg);
    assert_eq!(reply.status, 400);
    assert_eq!(reply.body, "Bad request");
}

#[test]
fn auth_sub_causes_are_distinguished() {
    let sk = signing_key();
    let pk = public_key_hex(&sk);
    let body = r#"{"type":1}"#;
    let ts = "1700000000";
    let good_sig = sign_hex(&sk, ts, body);
    assert_eq!(check_auth(&pk, Some(&good_sig), Some(ts), body), Ok(()));
    assert_eq!(
        check_auth("zz", Some(&good_sig), Some(ts), body),
        Err(AuthError::MalformedKey)
    );
    assert_eq!(
        check_auth("aabb", Some(&good_sig), Some(ts), body),
        Err(AuthError::WrongKeyLength)
    );
    assert_eq!(
        check_auth(&pk, None, Some(ts), body),
        Err(AuthError::MissingSignatureHeader)
    );
    assert_eq!(
        check_auth(&pk, Some("not hex"), Some(ts), body),
        Err(AuthError::MalformedSignature)
    );
    assert_eq!(
        check_auth(&pk, Some("aabb"), Some(ts), body),
        Err(AuthError::WrongSignatureLength)
    );
    assert_eq!(
        check_auth(&pk, Some(&good_sig), None, body),
        Err(AuthError::MissingTimestampHeader)
    );
    let wrong_sig = sign_hex(&sk, "1700000001", body);
    assert_eq!(
        check_auth(&pk, Some(&wrong_sig), Some(ts), body),
        Err(AuthError::VerificationFailed)
    );
}
