//! Decoding and encoding of the wire envelopes.

use interactions::discord::{
    ChannelMessageWithSourceData, Interaction, InteractionResponse,
};

#[test]
fn deserializes() {
    let data = r#"
        {
            "type": 2,
            "token": "A_UNIQUE_TOKEN",
            "member": {
                "user": {
                    "id": "53908232506183680",
                    "username": "Mason",
                    "avatar": "a_d5efa99b3eeaa7dd43acca82f5692432",
                    "discriminator": "1337",
                    "public_flags": 131141
                },
                "roles": ["539082325061836999"],
                "premium_since": null,
                "permissions": "2147483647",
                "pending": false,
                "nick": null,
                "mute": false,
                "joined_at": "2017-03-13T19:19:14.040000+00:00",
                "is_pending": false,
                "deaf": false
            },
            "id": "786008729715212338",
            "guild_id": "290926798626357999",
            "app_permissions": "442368",
            "application_id": "",
            "guild_locale": "en-US",
            "locale": "en-US",
            "data": {
                "options": [{
                    "type": 3,
                    "name": "cardname",
                    "value": "The Gitrog Monster"
                }],
                "type": 1,
                "name": "cardsearch",
                "id": "771825006014889984"
            },
            "channel_id": "645027906669510667"
        }
        "#;

    let _msg: Interaction = Interaction::decode(data).unwrap();

    assert!(true);
}

#[test]
fn deserializes_ping() {
    let req = r#"
        {
            "type": 1
        }
        "#;

    let _msg: Interaction = Interaction::decode(req).unwrap();

    assert!(true);
}

#[test]
fn serializes() {
    let response = InteractionResponse::ChannelMessageWithSource(ChannelMessageWithSourceData {
        tts: None,
        content: Some(String::from("Test")),
        embeds: None,
        allowed_mentions: None,
        flags: None,
        components: None,
        attachments: None,
    });

    let resp = response.encode();

    println!("{resp}");

    assert!(true);
}

#[test]
fn serializes_ping() {
    let response = InteractionResponse::Pong;

    let resp = response.encode();

    println!("{resp}");

    assert!(true);
}

#[test]
pub fn test() {
    let input = "ping";
    let _ = interactions::registry::run(input);
    let _ = interactions::registry::commands();
}
