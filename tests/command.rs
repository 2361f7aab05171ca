use presence_bridge::command::{activity_command, handshake_payload, int_numeral, nonce_text};
use presence_bridge::engine::{PresenceButton, PresenceState};

fn presence() -> PresenceState {
    PresenceState {
        activity_type: 2,
        name: "Listening".to_string(),
        details: "Artist — Title".to_string(),
        state: "on Album".to_string(),
        start_timestamp: Some(80),
        is_playing: true,
        large_image: Some("app_icon".to_string()),
        large_text: None,
        small_image: Some("play".to_string()),
        small_text: Some("Playing".to_string()),
        buttons: vec![
            PresenceButton {
                label: "Search Spotify".to_string(),
                url: "https://example.com/s".to_string(),
            },
            PresenceButton {
                label: "Other".to_string(),
                url: "https://example.com/o".to_string(),
            },
        ],
    }
}

#[test]
fn handshake_body_is_exact() {
    assert_eq!(handshake_payload("123"), r#"{"client_id":"123","v":1}"#);
    assert_eq!(handshake_payload("a\"b"), r#"{"client_id":"a\"b","v":1}"#);
}

#[test]
fn clear_command_is_exact() {
    assert_eq!(
        activity_command(&None, 42, "ff"),
        r#"{"args":{"activity":null,"pid":42},"cmd":"SET_ACTIVITY","nonce":"ff"}"#
    );
}

#[test]
fn set_command_is_exact() {
    let text = activity_command(&Some(presence()), 7, "1a2b");
    assert_eq!(
        text,
        [
            r#"{"args":{"activity":{"assets":{"large_image":"app_icon","small_image":"play","small_text":"Playing"},"#,
            r#""buttons":[{"label":"Search Spotify","url":"https://example.com/s"},{"label":"Other","url":"https://example.com/o"}],"#,
            r#""details":"Artist — Title","name":"Listening","state":"on Album","timestamps":{"start":80},"type":2},"#,
            r#""pid":7},"cmd":"SET_ACTIVITY","nonce":"1a2b"}"#,
        ]
        .concat()
    );
}

#[test]
fn set_command_is_json() {
    let mut p = presence();
    p.start_timestamp = None;
    p.large_image = None;
    p.small_image = None;
    p.small_text = None;
    p.buttons.clear();
    p.details = "quote \" and \\ slash".to_string();
    let text = activity_command(&Some(p), 1, "0");
    let value: serde_json::Value = serde_json::from_str(&text).expect("valid JSON");
    let activity = &value["args"]["activity"];
    assert_eq!(activity["details"], "quote \" and \\ slash");
    assert!(activity.get("assets").is_none());
    assert_eq!(activity["timestamps"], serde_json::Value::Object(serde_json::Map::new()));
    assert_eq!(activity["buttons"], serde_json::Value::Array(Vec::new()));
    assert_eq!(activity["type"].as_i64(), Some(2));
    assert_eq!(value["cmd"], "SET_ACTIVITY");
    assert_eq!(value["args"]["pid"].as_u64(), Some(1));
}

#[test]
fn numerals() {
    assert_eq!(int_numeral(0), "0");
    assert_eq!(int_numeral(-80), "-80");
    assert_eq!(int_numeral(i64::MIN), "-9223372036854775808");
    assert_eq!(int_numeral(i64::MAX), "9223372036854775807");
    assert_eq!(nonce_text(0), "0");
    assert_eq!(nonce_text(255), "ff");
    assert_eq!(nonce_text(0x1a2b3c), "1a2b3c");
}
