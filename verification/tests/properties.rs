//! The library's stated behaviours, exercised on concrete values.

use ed25519_dalek::{Signer, SigningKey};
use interactions::decode::DecodeError;
use interactions::discord::{
    ApplicationCommandOptionType, ChannelMessageWithSourceData, Embed, Interaction,
    InteractionResponse, MessageFlags, FLAG_EPHEMERAL, FLAG_SUPPRESS_EMBEDS,
};
use interactions::endpoint::handle_request;
use interactions::hexstr::hex_decode;
use interactions::registry::{commands, default_registry, run};

fn signing_key() -> SigningKey {
    SigningKey::from_bytes(&[42u8; 32])
}

fn reply_for(sk: &SigningKey, sig_bytes: &[u8], ts: &str, body: &str) -> u16 {
    let pk = hex::encode(sk.verifying_key().to_bytes());
    let sig = hex::encode(sig_bytes);
    let reg = default_registry();
    handle_request("POST", &pk, Some(&sig), Some(ts), body, &reg).status
}

// Signing then verifying succeeds; flipping any single bit of the
// signature causes verification to fail.
#[test]
fn sign_verify_roundtrip_and_signature_bitflips() {
    let sk = signing_key();
    let ts = "1700000000";
    let body = r#"{"type":1}"#;
    let sig = sk.sign(format!("{ts}{body}").as_bytes()).to_bytes();
    assert_eq!(reply_for(&sk, &sig, ts, body), 200);
    for byte in 0..sig.len() {
        for bit in 0..8 {
            let mut flipped = sig;
            flipped[byte] ^= 1 << bit;
            assert_eq!(reply_for(&sk, &flipped, ts, body), 401);
        }
    }
}

// Flipping any single bit of the body or the timestamp (that still leaves
// valid text) causes verification to fail.
#[test]
fn sign_verify_body_and_timestamp_bitflips() {
    let sk = signing_key();
    let ts = "1700000000";
    let body = r#"{"type":1}"#;
    let sig = sk.sign(format!("{ts}{body}").as_bytes()).to_bytes();
    for byte in 0..body.len() {
        for bit in 0..8 {
            let mut changed = body.as_bytes().to_vec();
            changed[byte] ^= 1 << bit;
            if let Ok(changed_body) = String::from_utf8(changed) {
                assert_eq!(reply_for(&sk, &sig, ts, &changed_body), 401);
            }
        }
    }
    for byte in 0..ts.len() {
        for bit in 0..8 {
            let mut changed = ts.as_bytes().to_vec();
            changed[byte] ^= 1 << bit;
            if let Ok(changed_ts) = String::from_utf8(changed) {
                assert_eq!(reply_for(&sk, &sig, &changed_ts, body), 401);
            }
        }
    }
}

// Every top-level `type` other than 1 and 2 is a decode failure, never a
// default variant.
#[test]
fn unknown_discriminants_fail() {
    for t in [0u64, 3, 4, 5, 10, 11, 12, 99, 255, 1000] {
        let body = format!("{{\"type\":{t}}}");
        let r = Interaction::decode(&body);
        assert_eq!(r.unwrap_err(), DecodeError::UnknownDiscriminant);
    }
    assert_eq!(
        Interaction::decode(r#"{"type":"1"}"#).unwrap_err(),
        DecodeError::TypeMismatch
    );
    assert_eq!(
        Interaction::decode(r#"{"type":-1}"#).unwrap_err(),
        DecodeError::TypeMismatch
    );
    assert_eq!(
        Interaction::decode(r#"{}"#).unwrap_err(),
        DecodeError::MissingField
    );
    assert_eq!(
        Interaction::decode("no json at all").unwrap_err(),
        DecodeError::InvalidJson
    );
}

// Round trip: encoding a message with only `content` set and reading the
// result back shows exactly one field in `data`, with no null entries.
#[test]
fn content_only_round_trip() {
    let response = InteractionResponse::ChannelMessageWithSource(
        ChannelMessageWithSourceData::content("Hello there"),
    );
    let text = response.encode();
    let v: serde_json::Value = serde_json::from_str(&text).unwrap();
    assert_eq!(v.get("type").and_then(serde_json::Value::as_u64), Some(4));
    let data = v.get("data").unwrap().as_object().unwrap();
    assert_eq!(data.len(), 1);
    assert_eq!(
        data.get("content").and_then(serde_json::Value::as_str),
        Some("Hello there")
    );
}

// Escaping in encoded content agrees with the JSON grammar: reading the
// text back yields the original string.
#[test]
fn content_escaping_round_trip() {
    let tricky = "a \"quoted\" \\ backslash\nnewline\ttab\rret \u{1} ctrl";
    let response = InteractionResponse::ChannelMessageWithSource(
        ChannelMessageWithSourceData::content(tricky),
    );
    let text = response.encode();
    let v: serde_json::Value = serde_json::from_str(&text).unwrap();
    assert_eq!(
        v.get("data")
            .unwrap()
            .get("content")
            .and_then(serde_json::Value::as_str),
        Some(tricky)
    );
}

// Dispatch is exact-match: no case folding, no trimming.
#[test]
fn dispatch_exact_match() {
    assert!(run("ping").is_ok());
    assert!(run("Ping").is_err());
    assert!(run("ping ").is_err());
    assert!(run(" ping").is_err());
    assert!(run("PING").is_err());
    assert!(run("").is_err());
}

#[test]
fn commands_lists_registered_names() {
    let cmds = commands();
    assert_eq!(cmds.len(), 1);
    assert_eq!(cmds[0].0, "ping");
    assert_eq!(cmds[0].1, "Simple ping");
}

#[test]
fn hex_decoding() {
    assert_eq!(
        hex_decode("deadBEEF"),
        Some(vec![0xde, 0xad, 0xbe, 0xef])
    );
    assert_eq!(hex_decode(""), Some(vec![]));
    assert_eq!(hex_decode("abc"), None);
    assert_eq!(hex_decode("zz"), None);
    let reference = hex::decode("00ff7f80").unwrap();
    assert_eq!(hex_decode("00ff7f80"), Some(reference));
}

#[test]
fn option_payloads_follow_their_discriminants() {
    let body = r#"{"type":2,"id":"1","token":"t","application_id":"a","data":{"id":"2","name":"x","type":1,"options":[
        {"name":"s","type":3,"value":"words"},
        {"name":"i","type":4,"value":-12},
        {"name":"b","type":5,"value":true},
        {"name":"f","type":10,"value":1.5},
        {"name":"u","type":6}
    ]}}"#;
    let decoded = Interaction::decode(body).unwrap();
    let data = match decoded {
        Interaction::ApplicationCommand { data, .. } => data,
        Interaction::Ping => panic!("expected a command"),
    };
    let options = data.options.unwrap();
    assert_eq!(options.len(), 5);
    assert_eq!(options[0].name, "s");
    match &options[0].value {
        ApplicationCommandOptionType::STRING(s) => assert_eq!(s, "words"),
        _ => panic!("expected STRING"),
    }
    match &options[1].value {
        ApplicationCommandOptionType::INTEGER(i) => assert_eq!(*i, -12),
        _ => panic!("expected INTEGER"),
    }
    match &options[2].value {
        ApplicationCommandOptionType::BOOLEAN(b) => assert!(*b),
        _ => panic!("expected BOOLEAN"),
    }
    match &options[3].value {
        ApplicationCommandOptionType::NUMBER(s) => assert_eq!(s, "1.5"),
        _ => panic!("expected NUMBER"),
    }
    match &options[4].value {
        ApplicationCommandOptionType::USER => {}
        _ => panic!("expected USER"),
    }
}

#[test]
fn option_unknown_discriminant_fails() {
    let body = r#"{"type":2,"id":"1","token":"t","application_id":"a","data":{"id":"2","name":"x","type":1,"options":[{"name":"n","type":12,"value":1}]}}"#;
    assert_eq!(
        Interaction::decode(body).unwrap_err(),
        DecodeError::UnknownDiscriminant
    );
}

#[test]
fn missing_data_for_command_fails() {
    let body = r#"{"type":2,"id":"1","token":"t","application_id":"a"}"#;
    assert_eq!(
        Interaction::decode(body).unwrap_err(),
        DecodeError::MissingField
    );
}

#[test]
fn full_message_encoding_is_exact() {
    let response = InteractionResponse::ChannelMessageWithSource(ChannelMessageWithSourceData {
        tts: Some(true),
        content: Some(String::from("hi")),
        embeds: Some(vec![Embed {}, Embed {}]),
        allowed_mentions: Some(()),
        flags: Some(123456789),
        components: Some(()),
        attachments: Some(()),
    });
    assert_eq!(
        response.encode(),
        "{\"type\":4,\"data\":{\"tts\":true,\"content\":\"hi\",\"embeds\":[{},{}],\"allowed_mentions\":null,\"flags\":123456789,\"components\":null,\"attachments\":null}}"
    );
}

#[test]
fn pong_encoding_is_exact() {
    assert_eq!(InteractionResponse::Pong.encode(), "{\"type\":1}");
}

#[test]
fn message_flags_combine() {
    let a = MessageFlags::from_bits(FLAG_EPHEMERAL);
    let b = MessageFlags::from_bits(FLAG_SUPPRESS_EMBEDS);
    let both = a.union(&b);
    assert_eq!(both.bits(), 68);
    assert!(both.contains(&a));
    assert!(both.contains(&b));
    assert!(!a.contains(&b));
    assert_eq!(both.intersect(&a).bits(), FLAG_EPHEMERAL);
    assert_eq!(MessageFlags::empty().bits(), 0);
}
