use vanilla_chat_server::dto::{StartTwitchRequest, StopTwitchRequest, WsQuery};
use vanilla_chat_server::listener::{
    lock_released_after,
    Listener, ListenerAction, ListenerEnd, ListenerError, ListenerEvent, ListenerPhase, WsFrame,
};
use vanilla_chat_server::start::{decide_start, AccountLookup, LockOutcome, StartReply};
use vanilla_chat_server::twitch_account::TwitchAccount;

fn account(account_id: Option<&str>) -> TwitchAccount {
    TwitchAccount {
        id: "user-1".to_string(),
        username: "alice".to_string(),
        access_token: Some("tok".to_string()),
        refresh_token: None,
        access_token_expires_at: None,
        account_id: account_id.map(|s| s.to_string()),
    }
}

fn text(t: &str) -> ListenerEvent {
    ListenerEvent::Frame(WsFrame::Text(t.to_string()))
}

const WELCOME: &str = r#"{"metadata":{"message_type":"session_welcome"},"payload":{"session":{"id":"S1","status":"connected"}}}"#;

fn finished_with(action: ListenerAction) -> Option<ListenerEnd> {
    match action {
        ListenerAction::Finish(end) => Some(end),
        _ => None,
    }
}

fn listening() -> Listener {
    let mut l = Listener::new(&account(Some("123")), "client", "user-1");
    l.step(text(WELCOME));
    match l.step(ListenerEvent::SubscriptionAnswered(true)) {
        ListenerAction::ListenControl(channel) => assert_eq!(channel, "twitch:control:123"),
        _ => panic!("expected the control channel"),
    }
    assert_eq!(l.phase(), ListenerPhase::Listening);
    l
}

#[test]
fn new_listener_waits_for_the_welcome() {
    let l = Listener::new(&account(None), "client", "user-1");
    assert_eq!(l.phase(), ListenerPhase::Handshake);
    assert_eq!(l.account_id(), "");
}

#[test]
fn welcome_starts_the_subscription() {
    let mut l = Listener::new(&account(Some("123")), "client", "user-1");
    match l.step(text(WELCOME)) {
        ListenerAction::Subscribe(req) => {
            assert_eq!(req.url, "https://api.twitch.tv/helix/eventsub/subscriptions");
            assert_eq!(req.authorization, "Bearer tok");
            assert_eq!(req.client_id, "client");
            assert!(req.body.contains("\"session_id\":\"S1\""));
            assert!(req.body.contains("\"broadcaster_user_id\":\"123\""));
        }
        _ => panic!("expected a subscription"),
    }
    assert_eq!(l.phase(), ListenerPhase::Subscribing);
}

#[test]
fn handshake_skips_texts_without_a_session() {
    let mut l = Listener::new(&account(Some("123")), "client", "user-1");
    assert!(matches!(l.step(text(r#"{"payload":{"session":{"id":7}}}"#)), ListenerAction::Wait));
    assert!(matches!(l.step(ListenerEvent::Frame(WsFrame::Pong)), ListenerAction::Wait));
    assert!(matches!(l.step(ListenerEvent::Frame(WsFrame::Binary)), ListenerAction::Wait));
    assert_eq!(l.phase(), ListenerPhase::Handshake);
}

#[test]
fn handshake_failures() {
    let cases = vec![
        (text("{not json"), ListenerError::InvalidJson),
        (ListenerEvent::Frame(WsFrame::Close), ListenerError::ConnectionClosed),
        (ListenerEvent::StreamEnded, ListenerError::NoMessage),
        (ListenerEvent::ReadError, ListenerError::ReadFailed),
        (ListenerEvent::TransportFailed, ListenerError::Transport),
    ];
    for (event, err) in cases {
        let mut l = Listener::new(&account(Some("1")), "c", "user-1");
        assert_eq!(finished_with(l.step(event)), Some(ListenerEnd::Failed(err)));
        assert_eq!(l.phase(), ListenerPhase::Finished);
    }
}

#[test]
fn ping_is_answered_with_the_same_data() {
    let mut l = Listener::new(&account(Some("1")), "c", "user-1");
    match l.step(ListenerEvent::Frame(WsFrame::Ping(vec![1, 2, 3]))) {
        ListenerAction::SendPong(p) => assert_eq!(p, vec![1, 2, 3]),
        _ => panic!("expected a pong"),
    }
    let mut l = listening();
    match l.step(ListenerEvent::Frame(WsFrame::Ping(vec![9]))) {
        ListenerAction::SendPong(p) => assert_eq!(p, vec![9]),
        _ => panic!("expected a pong"),
    }
}

#[test]
fn rejected_subscription_fails_and_releases_the_lock() {
    let mut l = Listener::new(&account(Some("1")), "c", "user-1");
    l.step(text(WELCOME));
    let end = finished_with(l.step(ListenerEvent::SubscriptionAnswered(false))).unwrap();
    assert_eq!(end, ListenerEnd::Failed(ListenerError::SubscriptionRejected));
    assert!(end.releases_lock_before_returning());
    assert!(!ListenerEnd::Failed(ListenerError::Transport).releases_lock_before_returning());
    assert!(ListenerEnd::Stopped.releases_lock_before_returning());
}

#[test]
fn notification_is_relayed_to_hub_and_kafka() {
    let mut l = listening();
    let frame = r#"{"metadata":{"message_type":"notification"},"payload":{"event":{"message_id":"m1","chatter_user_name":"bob","message":{"text":"hi"}}}}"#;
    match l.step(text(frame)) {
        ListenerAction::Publish(p) => {
            assert_eq!(p.hub_key, "123");
            assert_eq!(p.key, "123");
            assert_eq!(p.topic, "twitch.raw.chat");
            assert_eq!(
                p.payload,
                "{\"chatter_user_name\":\"bob\",\"message\":{\"text\":\"hi\"},\"message_id\":\"m1\"}"
            );
            assert_eq!(
                p.hub_message,
                "{\"data\":{\"badges\":null,\"color\":null,\"message_id\":\"m1\",\"text\":\"hi\",\"user\":\"bob\"},\"label\":\"display_chat_message\"}"
            );
        }
        _ => panic!("expected a publication"),
    }
    assert_eq!(l.phase(), ListenerPhase::Listening);
}

#[test]
fn keepalive_and_unknown_messages_are_skipped() {
    let mut l = listening();
    assert!(matches!(l.step(text(r#"{"metadata":{"message_type":"session_keepalive"}}"#)), ListenerAction::Wait));
    assert!(matches!(l.step(text(r#"{"metadata":{"message_type":"other"}}"#)), ListenerAction::Wait));
    assert!(matches!(l.step(text(r#"{"metadata":{}}"#)), ListenerAction::Wait));
    assert!(matches!(l.step(ListenerEvent::Control("refresh".to_string())), ListenerAction::Wait));
    assert_eq!(l.phase(), ListenerPhase::Listening);
}

#[test]
fn listening_ends_normally() {
    let events = vec![
        text(r#"{"metadata":{"message_type":"session_reconnect"}}"#),
        text(r#"{"metadata":{"message_type":"revocation"}}"#),
        ListenerEvent::Frame(WsFrame::Close),
        ListenerEvent::ReadError,
        ListenerEvent::StreamEnded,
        ListenerEvent::Control("stop".to_string()),
        ListenerEvent::ControlEnded,
    ];
    for event in events {
        let mut l = listening();
        assert_eq!(finished_with(l.step(event)), Some(ListenerEnd::Stopped));
        assert_eq!(l.phase(), ListenerPhase::Finished);
    }
}

#[test]
fn invalid_json_while_listening_fails() {
    let mut l = listening();
    assert_eq!(
        finished_with(l.step(text("]"))),
        Some(ListenerEnd::Failed(ListenerError::InvalidJson))
    );
}

#[test]
fn finished_listener_ignores_everything() {
    let mut l = listening();
    l.step(ListenerEvent::Control("stop".to_string()));
    assert!(matches!(l.step(text(WELCOME)), ListenerAction::Wait));
    assert!(matches!(l.step(ListenerEvent::Frame(WsFrame::Ping(vec![1]))), ListenerAction::Wait));
    assert!(matches!(l.step(ListenerEvent::StreamEnded), ListenerAction::Wait));
    assert_eq!(l.phase(), ListenerPhase::Finished);
}

#[test]
fn start_with_lock_and_account_starts_a_listener() {
    let d = decide_start("user-1", LockOutcome::Acquired, AccountLookup::Found(account(Some("123"))));
    assert_eq!(d.reply.status_code(), 200);
    assert_eq!(d.reply.body(), "{\"broadcaster_id\":\"123\",\"status\":\"started\"}");
    let start = d.listener.unwrap();
    assert_eq!(start.account.account_id, Some("123".to_string()));
    assert_eq!(start.lock_owner, "user-1");
}

#[test]
fn start_without_account_id_reports_empty_broadcaster() {
    let d = decide_start("user-1", LockOutcome::Acquired, AccountLookup::Found(account(None)));
    assert_eq!(d.reply.body(), "{\"broadcaster_id\":\"\",\"status\":\"started\"}");
    assert!(d.listener.is_some());
}

#[test]
fn start_with_lock_but_no_account_is_not_found() {
    for lookup in vec![AccountLookup::NotFound, AccountLookup::Failed] {
        let d = decide_start("user-1", LockOutcome::Acquired, lookup);
        assert_eq!(d.reply.status_code(), 404);
        assert_eq!(d.reply.body(), "{\"message\":\"account not found\"}");
        assert!(d.listener.is_none());
    }
}

#[test]
fn start_when_already_listening() {
    let d = decide_start("user-1", LockOutcome::AlreadyHeld, AccountLookup::Found(account(Some("9"))));
    assert_eq!(d.reply.status_code(), 200);
    assert_eq!(d.reply.body(), "{\"broadcaster_id\":\"9\",\"status\":\"already_listening\"}");
    assert!(d.listener.is_none());
    let d = decide_start("user-1", LockOutcome::AlreadyHeld, AccountLookup::Found(account(None)));
    assert_eq!(d.reply.body(), "{\"broadcaster_id\":null,\"status\":\"already_listening\"}");
    let d = decide_start("user-1", LockOutcome::AlreadyHeld, AccountLookup::NotFound);
    assert_eq!(d.reply.status_code(), 404);
    assert_eq!(
        d.reply.body(),
        "{\"message\":\"Twitch account not found\",\"status\":\"already_listening\"}"
    );
    assert!(matches!(d.reply, StartReply::AlreadyListeningWithoutAccount));
}

#[test]
fn start_with_redis_failure() {
    let d = decide_start("user-1", LockOutcome::Failed, AccountLookup::Found(account(Some("1"))));
    assert_eq!(d.reply.status_code(), 500);
    assert_eq!(
        d.reply.body(),
        "{\"message\":\"redis error while acquiring lock\",\"status\":\"error\"}"
    );
    assert!(d.listener.is_none());
}

#[test]
fn requests_hold_their_ids() {
    let s = StartTwitchRequest { user_id: "u".to_string() };
    let t = StopTwitchRequest { user_id: "u".to_string() };
    let q = WsQuery { broadcaster_id: "b".to_string() };
    assert_eq!(s.user_id, t.user_id);
    assert_eq!(q.broadcaster_id, "b");
}

#[test]
fn listener_runs_under_the_requested_users_lock() {
    let d = decide_start("user-7", LockOutcome::Acquired, AccountLookup::Found(account(Some("123"))));
    let start = d.listener.unwrap();
    let l = Listener::new(&start.account, "c", &start.lock_owner);
    assert_eq!(l.lock_owner(), "user-7");
    assert_eq!(l.account_id(), "123");
}

#[test]
fn every_end_releases_the_users_lock() {
    let l = Listener::new(&account(Some("123")), "c", "user-7");
    assert_eq!(l.lock_released_on(ListenerEnd::Stopped), Some("user-7".to_string()));
    assert_eq!(lock_released_after("user-7", ListenerEnd::Stopped), None);
    let rejected = ListenerEnd::Failed(ListenerError::SubscriptionRejected);
    assert_eq!(l.lock_released_on(rejected), Some("user-7".to_string()));
    assert_eq!(lock_released_after("user-7", rejected), Some("user-7".to_string()));
    let transport = ListenerEnd::Failed(ListenerError::Transport);
    assert_eq!(l.lock_released_on(transport), None);
    assert_eq!(lock_released_after("user-7", transport), Some("user-7".to_string()));
}
