use vanilla_chat_server::hub::{channel_removable, HUB_CHANNEL_CAPACITY};
use vanilla_chat_server::json::{object_text, value_text_or_null};
use vanilla_chat_server::listener::{display_message, eventsub_url, subscription_body};
use vanilla_chat_server::redis_keys::{
    control_channel, is_stop_payload, lock_acquired, lock_key, lock_request, stop_message,
    LISTENER_LOCK_TTL_SECS,
};

#[test]
fn lock_key_names_the_user() {
    assert_eq!(lock_key("42"), "twitch_listener:42");
    assert_eq!(lock_key(""), "twitch_listener:");
}

#[test]
fn lock_keys_of_different_ids_differ() {
    assert_ne!(lock_key("a"), lock_key("b"));
    assert_ne!(lock_key("user"), control_channel("user"));
}

#[test]
fn control_channel_names_the_user() {
    assert_eq!(control_channel("42"), "twitch:control:42");
}

#[test]
fn stop_message_goes_to_the_control_channel() {
    let msg = stop_message("42");
    assert_eq!(msg.channel, "twitch:control:42");
    assert_eq!(msg.payload, "stop");
    assert!(is_stop_payload(&msg.payload));
    assert!(!is_stop_payload(&"STOP".to_string()));
    assert!(!is_stop_payload(&"stop ".to_string()));
}

#[test]
fn lock_request_sets_the_key_for_a_minute() {
    let req = lock_request("42", LISTENER_LOCK_TTL_SECS);
    assert_eq!(req.key, "twitch_listener:42");
    assert_eq!(req.value, "locked");
    assert_eq!(req.ttl_secs, 60);
}

#[test]
fn lock_reply_with_a_value_means_acquired() {
    assert!(lock_acquired(&Some("OK".to_string())));
    assert!(!lock_acquired(&None));
}

#[test]
fn hub_channel_removed_only_without_receivers() {
    assert!(channel_removable(true, 0));
    assert!(!channel_removable(true, 1));
    assert!(!channel_removable(false, 0));
    assert_eq!(HUB_CHANNEL_CAPACITY, 32);
}

#[test]
fn eventsub_url_defaults_to_twitch() {
    assert_eq!(eventsub_url(None), "wss://eventsub.wss.twitch.tv/ws");
    assert_eq!(eventsub_url(Some("ws://localhost:8080/ws".to_string())), "ws://localhost:8080/ws");
}

#[test]
fn object_text_quotes_keys() {
    let members = vec![
        ("a\"".to_string(), "\"x\"".to_string()),
        ("b".to_string(), "1".to_string()),
    ];
    assert_eq!(object_text(&members), "{\"a\\\"\":\"x\",\"b\":1}");
    assert_eq!(object_text(&Vec::new()), "{}");
}

#[test]
fn value_text_reads_through_serde_json() {
    let doc = r#"{"payload":{"event":{"n": 5, "s": "hi", "o": {"k": [1, 2]}}}}"#;
    assert_eq!(value_text_or_null(doc, "/payload/event/n"), "5");
    assert_eq!(value_text_or_null(doc, "/payload/event/s"), "\"hi\"");
    assert_eq!(value_text_or_null(doc, "/payload/event/o"), "{\"k\":[1,2]}");
    assert_eq!(value_text_or_null(doc, "/payload/event/missing"), "null");
    assert_eq!(value_text_or_null("not json", "/payload"), "null");
}

#[test]
fn subscription_body_is_the_chat_subscription() {
    assert_eq!(
        subscription_body("123", "sess-1"),
        "{\"condition\":{\"broadcaster_user_id\":\"123\",\"user_id\":\"123\"},\
         \"transport\":{\"method\":\"websocket\",\"session_id\":\"sess-1\"},\
         \"type\":\"channel.chat.message\",\"version\":\"1\"}"
    );
}

#[test]
fn subscription_body_escapes_ids() {
    let body = subscription_body("a\"b", "s\n\u{1}");
    assert!(body.contains("\"broadcaster_user_id\":\"a\\\"b\""));
    assert!(body.contains("\"session_id\":\"s\\n\\u0001\""));
    let parsed: serde_json::Value = serde_json::from_str(&body).unwrap();
    assert_eq!(parsed["transport"]["session_id"], "s\n\u{1}");
}

#[test]
fn display_message_copies_the_chat_fields() {
    let frame = r##"{"metadata":{"message_type":"notification"},"payload":{"event":{
        "message_id":"m1","chatter_user_name":"alice","message":{"text":"hello"},
        "color":"#FF0000","badges":[{"id":"1","set_id":"vip"}]}}}"##;
    assert_eq!(
        display_message(frame),
        "{\"data\":{\"badges\":[{\"id\":\"1\",\"set_id\":\"vip\"}],\"color\":\"#FF0000\",\
         \"message_id\":\"m1\",\"text\":\"hello\",\"user\":\"alice\"},\
         \"label\":\"display_chat_message\"}"
    );
}

#[test]
fn display_message_writes_null_for_missing_fields() {
    let frame = r#"{"payload":{"event":{"message_id":"m2"}}}"#;
    assert_eq!(
        display_message(frame),
        "{\"data\":{\"badges\":null,\"color\":null,\"message_id\":\"m2\",\"text\":null,\"user\":null},\
         \"label\":\"display_chat_message\"}"
    );
}
