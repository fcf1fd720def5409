//! The EventSub chat listener of one Twitch account, as a state machine: the
//! caller reads the Twitch WebSocket, the Helix API and the Redis control
//! channel, hands each event to `Listener::step`, and performs the action it
//! gets back.
//!
//! A listener first waits for the session welcome, then asks Helix for a
//! `channel.chat.message` subscription on that session, then relays each chat
//! notification to the local hub and to Kafka until Twitch, Redis or a `stop`
//! control message ends it.

use vstd::prelude::*;
use crate::json::{
    opt_string_view,
    json_document_parses, json_object_text, json_quoted, json_string_at, json_value_text_at,
    has_member, keys_ascending, lemma_text_less_at, members_view, object_text, parses_as_json, quote, string_at, text_or_null, value_text_or_null,
};
use crate::redis_keys::{control_channel, control_channel_spec, is_stop_payload, stop_payload_spec};
use crate::twitch_account::{account_id_or_empty, TwitchAccount};

verus! {

/// Where a listener stands.
#[derive(Clone, Copy, Debug, PartialEq, Eq, Structural)]
pub enum ListenerPhase {
    /// Connected to EventSub, waiting for the welcome that names the session.
    Handshake,
    /// The subscription request was handed out; waiting for Helix's answer.
    Subscribing,
    /// Subscribed: relaying chat messages and taking control messages.
    Listening,
    /// Ended; every later event is ignored.
    Finished,
}

/// Why a listener failed.
#[derive(Clone, Copy, Debug, PartialEq, Eq, Structural)]
pub enum ListenerError {
    /// The WebSocket ended before the session welcome came.
    NoMessage,
    /// Reading the WebSocket failed before the session welcome came.
    ReadFailed,
    /// A text frame was not JSON.
    InvalidJson,
    /// EventSub closed the connection during the handshake.
    ConnectionClosed,
    /// Helix answered the subscription request with a failure status.
    SubscriptionRejected,
    /// Talking to Twitch, Helix or Redis failed.
    Transport,
}

/// How a listener ended.
#[derive(Clone, Copy, Debug, PartialEq, Eq, Structural)]
pub enum ListenerEnd {
    /// It was asked to stop, or its stream ended: the lock is released and the
    /// listener returns normally.
    Stopped,
    /// It failed: the listener returns the error, and whoever started it
    /// releases the lock.
    Failed(ListenerError),
}

/// Whether the listener itself releases its lock before it returns: it does
/// when it stops and when Helix rejects the subscription.
pub open spec fn releases_lock_before_returning(end: ListenerEnd) -> bool {
    end == ListenerEnd::Stopped || end == ListenerEnd::Failed(ListenerError::SubscriptionRejected)
}

impl ListenerEnd {
    /// Whether the listener itself releases its lock before it returns.
    pub fn releases_lock_before_returning(&self) -> (res: bool)
        ensures
            res == releases_lock_before_returning(*self),
    {
        match self {
            ListenerEnd::Stopped => true,
            ListenerEnd::Failed(ListenerError::SubscriptionRejected) => true,
            ListenerEnd::Failed(_) => false,
        }
    }
}

/// A frame read from the EventSub WebSocket.
pub enum WsFrame {
    Text(String),
    Binary,
    Ping(Vec<u8>),
    Pong,
    Close,
    Frame,
}

/// What the listener learns from outside.
pub enum ListenerEvent {
    /// A frame came from EventSub.
    Frame(WsFrame),
    /// Reading from EventSub failed.
    ReadError,
    /// The EventSub stream ended.
    StreamEnded,
    /// Helix answered the subscription request; `true` for a success status.
    SubscriptionAnswered(bool),
    /// A control message came on the Redis channel.
    Control(String),
    /// The Redis control stream ended.
    ControlEnded,
    /// An operation on Twitch, Helix or Redis failed.
    TransportFailed,
}

pub enum FrameView {
    Text(Seq<char>),
    Binary,
    Ping(Seq<u8>),
    Pong,
    Close,
    Frame,
}

pub enum EventView {
    Frame(FrameView),
    ReadError,
    StreamEnded,
    SubscriptionAnswered(bool),
    Control(Seq<char>),
    ControlEnded,
    TransportFailed,
}

impl View for WsFrame {
    type V = FrameView;

    open spec fn view(&self) -> FrameView {
        match self {
            WsFrame::Text(t) => FrameView::Text(t@),
            WsFrame::Binary => FrameView::Binary,
            WsFrame::Ping(p) => FrameView::Ping(p@),
            WsFrame::Pong => FrameView::Pong,
            WsFrame::Close => FrameView::Close,
            WsFrame::Frame => FrameView::Frame,
        }
    }
}

impl View for ListenerEvent {
    type V = EventView;

    open spec fn view(&self) -> EventView {
        match self {
            ListenerEvent::Frame(f) => EventView::Frame(f@),
            ListenerEvent::ReadError => EventView::ReadError,
            ListenerEvent::StreamEnded => EventView::StreamEnded,
            ListenerEvent::SubscriptionAnswered(ok) => EventView::SubscriptionAnswered(*ok),
            ListenerEvent::Control(p) => EventView::Control(p@),
            ListenerEvent::ControlEnded => EventView::ControlEnded,
            ListenerEvent::TransportFailed => EventView::TransportFailed,
        }
    }
}

/// The Helix request that subscribes to the chat of the session: a POST of
/// `body` (JSON) to `url` with the `Authorization` and `Client-Id` headers.
pub struct SubscriptionRequest {
    pub url: String,
    pub authorization: String,
    pub client_id: String,
    pub body: String,
}

/// A chat message to relay: `hub_message` goes to the hub sender registered
/// under `hub_key`, if any, and `payload` goes to Kafka topic `topic` under
/// `key`.
pub struct ChatPublication {
    pub hub_key: String,
    pub hub_message: String,
    pub topic: String,
    pub key: String,
    pub payload: String,
}

/// What the caller does next.
pub enum ListenerAction {
    /// Nothing: wait for the next event.
    Wait,
    /// Answer a ping with a pong that carries the same data.
    SendPong(Vec<u8>),
    /// Send the subscription request and report its answer.
    Subscribe(SubscriptionRequest),
    /// Subscribe to the Redis control channel, then read both streams.
    ListenControl(String),
    /// Relay a chat message.
    Publish(ChatPublication),
    /// End the listener.
    Finish(ListenerEnd),
}

pub struct SubscriptionView {
    pub url: Seq<char>,
    pub authorization: Seq<char>,
    pub client_id: Seq<char>,
    pub body: Seq<char>,
}

pub struct PublicationView {
    pub hub_key: Seq<char>,
    pub hub_message: Seq<char>,
    pub topic: Seq<char>,
    pub key: Seq<char>,
    pub payload: Seq<char>,
}

pub enum ActionView {
    Wait,
    SendPong(Seq<u8>),
    Subscribe(SubscriptionView),
    ListenControl(Seq<char>),
    Publish(PublicationView),
    Finish(ListenerEnd),
}

impl View for SubscriptionRequest {
    type V = SubscriptionView;

    open spec fn view(&self) -> SubscriptionView {
        SubscriptionView {
            url: self.url@,
            authorization: self.authorization@,
            client_id: self.client_id@,
            body: self.body@,
        }
    }
}

impl View for ChatPublication {
    type V = PublicationView;

    open spec fn view(&self) -> PublicationView {
        PublicationView {
            hub_key: self.hub_key@,
            hub_message: self.hub_message@,
            topic: self.topic@,
            key: self.key@,
            payload: self.payload@,
        }
    }
}

impl View for ListenerAction {
    type V = ActionView;

    open spec fn view(&self) -> ActionView {
        match self {
            ListenerAction::Wait => ActionView::Wait,
            ListenerAction::SendPong(p) => ActionView::SendPong(p@),
            ListenerAction::Subscribe(r) => ActionView::Subscribe(r@),
            ListenerAction::ListenControl(c) => ActionView::ListenControl(c@),
            ListenerAction::Publish(p) => ActionView::Publish(p@),
            ListenerAction::Finish(e) => ActionView::Finish(*e),
        }
    }
}

/// The listener of one account.
pub struct Listener {
    phase: ListenerPhase,
    account_id: String,
    access_token: String,
    client_id: String,
    lock_owner: String,
}

pub struct ListenerView {
    pub phase: ListenerPhase,
    pub account_id: Seq<char>,
    pub access_token: Seq<char>,
    pub client_id: Seq<char>,
    /// The id whose listener lock the start request took.
    pub lock_owner: Seq<char>,
}

impl View for Listener {
    type V = ListenerView;

    closed spec fn view(&self) -> ListenerView {
        ListenerView {
            phase: self.phase,
            account_id: self.account_id@,
            access_token: self.access_token@,
            client_id: self.client_id@,
            lock_owner: self.lock_owner@,
        }
    }
}

/// The EventSub WebSocket used where none is configured.
pub open spec fn default_eventsub_url() -> Seq<char> {
    "wss://eventsub.wss.twitch.tv/ws"@
}

/// The Helix endpoint that creates EventSub subscriptions.
pub open spec fn subscriptions_url() -> Seq<char> {
    "https://api.twitch.tv/helix/eventsub/subscriptions"@
}

/// The Kafka topic that receives raw chat events.
pub open spec fn raw_chat_topic() -> Seq<char> {
    "twitch.raw.chat"@
}

/// The body of the subscription request: a `channel.chat.message`
/// subscription, version 1, on the account's own channel, delivered over the
/// WebSocket session.
pub open spec fn subscription_body_spec(account_id: Seq<char>, session_id: Seq<char>) -> Seq<char> {
    json_object_text(
        seq![
            ("condition"@, json_object_text(
                seq![
                    ("broadcaster_user_id"@, json_quoted(account_id)),
                    ("user_id"@, json_quoted(account_id)),
                ],
            )),
            ("transport"@, json_object_text(
                seq![
                    ("method"@, json_quoted("websocket"@)),
                    ("session_id"@, json_quoted(session_id)),
                ],
            )),
            ("type"@, json_quoted("channel.chat.message"@)),
            ("version"@, json_quoted("1"@)),
        ],
    )
}

/// The JSON text at `pointer` in the frame `t`, `null` where nothing is there.
pub open spec fn field_text(t: Seq<char>, pointer: Seq<char>) -> Seq<char> {
    text_or_null(json_value_text_at(t, pointer))
}

/// The message the hub receives for the chat notification `t`: the event's
/// message id, chatter name, text, color and badges under `data`, labelled
/// `display_chat_message`.
pub open spec fn display_message_spec(t: Seq<char>) -> Seq<char> {
    json_object_text(
        seq![
            ("data"@, json_object_text(
                seq![
                    ("badges"@, field_text(t, "/payload/event/badges"@)),
                    ("color"@, field_text(t, "/payload/event/color"@)),
                    ("message_id"@, field_text(t, "/payload/event/message_id"@)),
                    ("text"@, field_text(t, "/payload/event/message/text"@)),
                    ("user"@, field_text(t, "/payload/event/chatter_user_name"@)),
                ],
            )),
            ("label"@, json_quoted("display_chat_message"@)),
        ],
    )
}

/// The relay of the chat notification `t` received by the listener `s`.
pub open spec fn publication_spec(s: ListenerView, t: Seq<char>) -> PublicationView {
    PublicationView {
        hub_key: s.account_id,
        hub_message: display_message_spec(t),
        topic: raw_chat_topic(),
        key: s.account_id,
        payload: field_text(t, "/payload/event"@),
    }
}

/// The subscription request of the listener `s` for the session `session_id`.
pub open spec fn subscription_spec(s: ListenerView, session_id: Seq<char>) -> SubscriptionView {
    SubscriptionView {
        url: subscriptions_url(),
        authorization: "Bearer "@ + s.access_token,
        client_id: s.client_id,
        body: subscription_body_spec(s.account_id, session_id),
    }
}

pub open spec fn failure(err: ListenerError) -> (ListenerPhase, ActionView) {
    (ListenerPhase::Finished, ActionView::Finish(ListenerEnd::Failed(err)))
}

pub open spec fn stopping() -> (ListenerPhase, ActionView) {
    (ListenerPhase::Finished, ActionView::Finish(ListenerEnd::Stopped))
}

/// A text frame during the handshake: not JSON fails the listener; the
/// welcome, which holds `payload.session.id`, starts the subscription; any
/// other text is skipped.
pub open spec fn handshake_text(s: ListenerView, t: Seq<char>) -> (ListenerPhase, ActionView) {
    if !json_document_parses(t) {
        failure(ListenerError::InvalidJson)
    } else {
        match json_string_at(t, "/payload/session/id"@) {
            Some(session_id) => (
                ListenerPhase::Subscribing,
                ActionView::Subscribe(subscription_spec(s, session_id)),
            ),
            None => (ListenerPhase::Handshake, ActionView::Wait),
        }
    }
}

/// A text frame while listening, by its `metadata.message_type`: a
/// notification is relayed, a reconnect request or a revocation stops the
/// listener, anything else is skipped; not JSON fails the listener.
pub open spec fn listening_text(s: ListenerView, t: Seq<char>) -> (ListenerPhase, ActionView) {
    if !json_document_parses(t) {
        failure(ListenerError::InvalidJson)
    } else {
        let kind = json_string_at(t, "/metadata/message_type"@);
        if kind == Some("notification"@) {
            (ListenerPhase::Listening, ActionView::Publish(publication_spec(s, t)))
        } else if kind == Some("session_reconnect"@) || kind == Some("revocation"@) {
            stopping()
        } else {
            (ListenerPhase::Listening, ActionView::Wait)
        }
    }
}

pub open spec fn handshake_step(s: ListenerView, e: EventView) -> (ListenerPhase, ActionView) {
    match e {
        EventView::Frame(FrameView::Text(t)) => handshake_text(s, t),
        EventView::Frame(FrameView::Ping(p)) => (ListenerPhase::Handshake, ActionView::SendPong(p)),
        EventView::Frame(FrameView::Close) => failure(ListenerError::ConnectionClosed),
        EventView::Frame(_) => (ListenerPhase::Handshake, ActionView::Wait),
        EventView::ReadError => failure(ListenerError::ReadFailed),
        EventView::StreamEnded => failure(ListenerError::NoMessage),
        EventView::TransportFailed => failure(ListenerError::Transport),
        _ => (ListenerPhase::Handshake, ActionView::Wait),
    }
}

pub open spec fn subscribing_step(s: ListenerView, e: EventView) -> (ListenerPhase, ActionView) {
    match e {
        EventView::SubscriptionAnswered(success) => if success {
            (ListenerPhase::Listening, ActionView::ListenControl(control_channel_spec(s.account_id)))
        } else {
            failure(ListenerError::SubscriptionRejected)
        },
        EventView::TransportFailed => failure(ListenerError::Transport),
        _ => (ListenerPhase::Subscribing, ActionView::Wait),
    }
}

pub open spec fn listening_step(s: ListenerView, e: EventView) -> (ListenerPhase, ActionView) {
    match e {
        EventView::Frame(FrameView::Text(t)) => listening_text(s, t),
        EventView::Frame(FrameView::Ping(p)) => (ListenerPhase::Listening, ActionView::SendPong(p)),
        EventView::Frame(FrameView::Close) => stopping(),
        EventView::Frame(_) => (ListenerPhase::Listening, ActionView::Wait),
        EventView::ReadError => stopping(),
        EventView::StreamEnded => stopping(),
        EventView::Control(payload) => if payload == stop_payload_spec() {
            stopping()
        } else {
            (ListenerPhase::Listening, ActionView::Wait)
        },
        EventView::ControlEnded => stopping(),
        EventView::TransportFailed => failure(ListenerError::Transport),
        EventView::SubscriptionAnswered(_) => (ListenerPhase::Listening, ActionView::Wait),
    }
}

/// The phase a listener moves to on an event, and what it asks for.
pub open spec fn step_spec(s: ListenerView, e: EventView) -> (ListenerPhase, ActionView) {
    match s.phase {
        ListenerPhase::Handshake => handshake_step(s, e),
        ListenerPhase::Subscribing => subscribing_step(s, e),
        ListenerPhase::Listening => listening_step(s, e),
        ListenerPhase::Finished => (ListenerPhase::Finished, ActionView::Wait),
    }
}

/// The EventSub WebSocket to connect to: the configured one, or Twitch's.
pub fn eventsub_url(configured: Option<String>) -> (url: String)
    ensures
        url@ == (match configured {
            Some(u) => u@,
            None => default_eventsub_url(),
        }),
{
    match configured {
        Some(u) => u,
        None => String::from_str("wss://eventsub.wss.twitch.tv/ws"),
    }
}

fn member(key: &str, value: String) -> (m: (String, String))
    ensures
        m.0@ == key@,
        m.1@ == value@,
{
    (String::from_str(key), value)
}

/// The body of the subscription request for `account_id` on `session_id`.
pub fn subscription_body(account_id: &str, session_id: &str) -> (body: String)
    ensures
        body@ == subscription_body_spec(account_id@, session_id@),
{
    let mut condition: Vec<(String, String)> = Vec::new();
    condition.push(member("broadcaster_user_id", quote(account_id)));
    condition.push(member("user_id", quote(account_id)));
    assert(members_view(condition@) =~= seq![
        ("broadcaster_user_id"@, json_quoted(account_id@)),
        ("user_id"@, json_quoted(account_id@)),
    ]);
    proof {
        reveal_strlit("broadcaster_user_id");
        reveal_strlit("user_id");
        lemma_text_less_at("broadcaster_user_id"@, "user_id"@, 0);
        assert(keys_ascending(members_view(condition@)));
    }
    let mut transport: Vec<(String, String)> = Vec::new();
    transport.push(member("method", quote("websocket")));
    transport.push(member("session_id", quote(session_id)));
    assert(members_view(transport@) =~= seq![
        ("method"@, json_quoted("websocket"@)),
        ("session_id"@, json_quoted(session_id@)),
    ]);
    proof {
        reveal_strlit("method");
        reveal_strlit("session_id");
        lemma_text_less_at("method"@, "session_id"@, 0);
        assert(keys_ascending(members_view(transport@)));
    }
    let mut top: Vec<(String, String)> = Vec::new();
    top.push(member("condition", object_text(&condition)));
    top.push(member("transport", object_text(&transport)));
    top.push(member("type", quote("channel.chat.message")));
    top.push(member("version", quote("1")));
    assert(members_view(top@) =~= seq![
        ("condition"@, json_object_text(members_view(condition@))),
        ("transport"@, json_object_text(members_view(transport@))),
        ("type"@, json_quoted("channel.chat.message"@)),
        ("version"@, json_quoted("1"@)),
    ]);
    proof {
        reveal_strlit("condition");
        reveal_strlit("transport");
        reveal_strlit("type");
        reveal_strlit("version");
        lemma_text_less_at("condition"@, "transport"@, 0);
        lemma_text_less_at("transport"@, "type"@, 1);
        lemma_text_less_at("type"@, "version"@, 0);
        assert(keys_ascending(members_view(top@)));
    }
    object_text(&top)
}

/// The message the hub receives for the chat notification `t`.
pub fn display_message(t: &str) -> (msg: String)
    ensures
        msg@ == display_message_spec(t@),
{
    let mut data: Vec<(String, String)> = Vec::new();
    data.push(member("badges", value_text_or_null(t, "/payload/event/badges")));
    data.push(member("color", value_text_or_null(t, "/payload/event/color")));
    data.push(member("message_id", value_text_or_null(t, "/payload/event/message_id")));
    data.push(member("text", value_text_or_null(t, "/payload/event/message/text")));
    data.push(member("user", value_text_or_null(t, "/payload/event/chatter_user_name")));
    assert(members_view(data@) =~= seq![
        ("badges"@, field_text(t@, "/payload/event/badges"@)),
        ("color"@, field_text(t@, "/payload/event/color"@)),
        ("message_id"@, field_text(t@, "/payload/event/message_id"@)),
        ("text"@, field_text(t@, "/payload/event/message/text"@)),
        ("user"@, field_text(t@, "/payload/event/chatter_user_name"@)),
    ]);
    proof {
        reveal_strlit("badges");
        reveal_strlit("color");
        reveal_strlit("message_id");
        reveal_strlit("text");
        reveal_strlit("user");
        lemma_text_less_at("badges"@, "color"@, 0);
        lemma_text_less_at("color"@, "message_id"@, 0);
        lemma_text_less_at("message_id"@, "text"@, 0);
        lemma_text_less_at("text"@, "user"@, 0);
        assert(keys_ascending(members_view(data@)));
    }
    let mut top: Vec<(String, String)> = Vec::new();
    top.push(member("data", object_text(&data)));
    top.push(member("label", quote("display_chat_message")));
    assert(members_view(top@) =~= seq![
        ("data"@, json_object_text(members_view(data@))),
        ("label"@, json_quoted("display_chat_message"@)),
    ]);
    proof {
        reveal_strlit("data");
        reveal_strlit("label");
        lemma_text_less_at("data"@, "label"@, 0);
        assert(keys_ascending(members_view(top@)));
    }
    object_text(&top)
}

impl Listener {
    /// A listener for `account`, which must hold an access token, registered
    /// with Twitch as the application `client_id`; it runs under the listener
    /// lock of `lock_owner`.
    pub fn new(account: &TwitchAccount, client_id: &str, lock_owner: &str) -> (l: Listener)
        requires
            account.access_token is Some,
        ensures
            l@ == (ListenerView {
                phase: ListenerPhase::Handshake,
                account_id: account_id_or_empty(*account),
                access_token: account.access_token->Some_0@,
                client_id: client_id@,
                lock_owner: lock_owner@,
            }),
    {
        let token = match &account.access_token {
            Some(t) => t.clone(),
            None => String::new(),
        };
        Listener {
            phase: ListenerPhase::Handshake,
            account_id: account.account_id_or_default(),
            access_token: token,
            client_id: String::from_str(client_id),
            lock_owner: String::from_str(lock_owner),
        }
    }

    /// The id whose listener lock this listener runs under.
    pub fn lock_owner(&self) -> (id: &String)
        ensures
            id@ == self@.lock_owner,
    {
        &self.lock_owner
    }

    /// The id whose lock the listener releases itself as it ends with `end`,
    /// if any.
    pub fn lock_released_on(&self, end: ListenerEnd) -> (owner: Option<String>)
        ensures
            opt_string_view(owner) == listener_release(end, self@.lock_owner),
    {
        if end.releases_lock_before_returning() {
            Some(self.lock_owner.clone())
        } else {
            None
        }
    }

    /// Where the listener stands.
    pub fn phase(&self) -> (p: ListenerPhase)
        ensures
            p == self@.phase,
    {
        self.phase
    }

    /// The Twitch id of the account the listener relays.
    pub fn account_id(&self) -> (id: &String)
        ensures
            id@ == self@.account_id,
    {
        &self.account_id
    }

    fn subscription(&self, session_id: &str) -> (r: SubscriptionRequest)
        ensures
            r@ == subscription_spec(self@, session_id@),
    {
        let mut authorization = String::from_str("Bearer ");
        authorization.append(self.access_token.as_str());
        SubscriptionRequest {
            url: String::from_str("https://api.twitch.tv/helix/eventsub/subscriptions"),
            authorization,
            client_id: self.client_id.clone(),
            body: subscription_body(self.account_id.as_str(), session_id),
        }
    }

    fn publication(&self, t: &str) -> (p: ChatPublication)
        ensures
            p@ == publication_spec(self@, t@),
    {
        ChatPublication {
            hub_key: self.account_id.clone(),
            hub_message: display_message(t),
            topic: String::from_str("twitch.raw.chat"),
            key: self.account_id.clone(),
            payload: value_text_or_null(t, "/payload/event"),
        }
    }

    fn handshake_text(&self, t: &String) -> (r: (ListenerPhase, ListenerAction))
        ensures
            (r.0, r.1@) == handshake_text(self@, t@),
    {
        if !parses_as_json(t.as_str()) {
            return (ListenerPhase::Finished, ListenerAction::Finish(ListenerEnd::Failed(ListenerError::InvalidJson)));
        }
        match string_at(t.as_str(), "/payload/session/id") {
            Some(session_id) => (
                ListenerPhase::Subscribing,
                ListenerAction::Subscribe(self.subscription(session_id.as_str())),
            ),
            None => (ListenerPhase::Handshake, ListenerAction::Wait),
        }
    }

    fn listening_text(&self, t: &String) -> (r: (ListenerPhase, ListenerAction))
        ensures
            (r.0, r.1@) == listening_text(self@, t@),
    {
        if !parses_as_json(t.as_str()) {
            return (ListenerPhase::Finished, ListenerAction::Finish(ListenerEnd::Failed(ListenerError::InvalidJson)));
        }
        let kind = string_at(t.as_str(), "/metadata/message_type");
        match kind {
            Some(k) => {
                if k == String::from_str("notification") {
                    (ListenerPhase::Listening, ListenerAction::Publish(self.publication(t.as_str())))
                } else if k == String::from_str("session_reconnect") || k == String::from_str("revocation") {
                    (ListenerPhase::Finished, ListenerAction::Finish(ListenerEnd::Stopped))
                } else {
                    (ListenerPhase::Listening, ListenerAction::Wait)
                }
            },
            None => (ListenerPhase::Listening, ListenerAction::Wait),
        }
    }

    /// Takes one event: moves to the phase `step_spec` gives and returns the
    /// action it asks for. The account, token and client id never change.
    pub fn step(&mut self, event: ListenerEvent) -> (action: ListenerAction)
        ensures
            final(self)@ == (ListenerView { phase: step_spec(old(self)@, event@).0, ..old(self)@ }),
            action@ == step_spec(old(self)@, event@).1,
    {
        let (phase, action) = match self.phase {
            ListenerPhase::Finished => (ListenerPhase::Finished, ListenerAction::Wait),
            ListenerPhase::Handshake => match event {
                ListenerEvent::Frame(WsFrame::Text(t)) => self.handshake_text(&t),
                ListenerEvent::Frame(WsFrame::Ping(p)) => (ListenerPhase::Handshake, ListenerAction::SendPong(p)),
                ListenerEvent::Frame(WsFrame::Close) => (
                    ListenerPhase::Finished,
                    ListenerAction::Finish(ListenerEnd::Failed(ListenerError::ConnectionClosed)),
                ),
                ListenerEvent::Frame(_) => (ListenerPhase::Handshake, ListenerAction::Wait),
                ListenerEvent::ReadError => (
                    ListenerPhase::Finished,
                    ListenerAction::Finish(ListenerEnd::Failed(ListenerError::ReadFailed)),
                ),
                ListenerEvent::StreamEnded => (
                    ListenerPhase::Finished,
                    ListenerAction::Finish(ListenerEnd::Failed(ListenerError::NoMessage)),
                ),
                ListenerEvent::TransportFailed => (
                    ListenerPhase::Finished,
                    ListenerAction::Finish(ListenerEnd::Failed(ListenerError::Transport)),
                ),
                _ => (ListenerPhase::Handshake, ListenerAction::Wait),
            },
            ListenerPhase::Subscribing => match event {
                ListenerEvent::SubscriptionAnswered(success) => if success {
                    (ListenerPhase::Listening, ListenerAction::ListenControl(control_channel(self.account_id.as_str())))
                } else {
                    (
                        ListenerPhase::Finished,
                        ListenerAction::Finish(ListenerEnd::Failed(ListenerError::SubscriptionRejected)),
                    )
                },
                ListenerEvent::TransportFailed => (
                    ListenerPhase::Finished,
                    ListenerAction::Finish(ListenerEnd::Failed(ListenerError::Transport)),
                ),
                _ => (ListenerPhase::Subscribing, ListenerAction::Wait),
            },
            ListenerPhase::Listening => match event {
                ListenerEvent::Frame(WsFrame::Text(t)) => self.listening_text(&t),
                ListenerEvent::Frame(WsFrame::Ping(p)) => (ListenerPhase::Listening, ListenerAction::SendPong(p)),
                ListenerEvent::Frame(WsFrame::Close) => (ListenerPhase::Finished, ListenerAction::Finish(ListenerEnd::Stopped)),
                ListenerEvent::Frame(_) => (ListenerPhase::Listening, ListenerAction::Wait),
                ListenerEvent::ReadError => (ListenerPhase::Finished, ListenerAction::Finish(ListenerEnd::Stopped)),
                ListenerEvent::StreamEnded => (ListenerPhase::Finished, ListenerAction::Finish(ListenerEnd::Stopped)),
                ListenerEvent::Control(payload) => if is_stop_payload(&payload) {
                    (ListenerPhase::Finished, ListenerAction::Finish(ListenerEnd::Stopped))
                } else {
                    (ListenerPhase::Listening, ListenerAction::Wait)
                },
                ListenerEvent::ControlEnded => (ListenerPhase::Finished, ListenerAction::Finish(ListenerEnd::Stopped)),
                ListenerEvent::TransportFailed => (
                    ListenerPhase::Finished,
                    ListenerAction::Finish(ListenerEnd::Failed(ListenerError::Transport)),
                ),
                ListenerEvent::SubscriptionAnswered(_) => (ListenerPhase::Listening, ListenerAction::Wait),
            },
        };
        self.phase = phase;
        action
    }
}

/// The order in which a listener goes through its phases.
pub open spec fn phase_rank(p: ListenerPhase) -> int {
    match p {
        ListenerPhase::Handshake => 0,
        ListenerPhase::Subscribing => 1,
        ListenerPhase::Listening => 2,
        ListenerPhase::Finished => 3,
    }
}

/// A listener that has ended stays ended and asks for nothing more.
pub proof fn lemma_finished_listener_ignores_events(s: ListenerView, e: EventView)
    requires
        s.phase == ListenerPhase::Finished,
    ensures
        step_spec(s, e) == (ListenerPhase::Finished, ActionView::Wait),
{
}

/// A running listener ends exactly on the steps that ask to finish it.
pub proof fn lemma_finish_exactly_when_ending(s: ListenerView, e: EventView)
    requires
        s.phase != ListenerPhase::Finished,
    ensures
        (step_spec(s, e).0 == ListenerPhase::Finished) <==> (step_spec(s, e).1 is Finish),
{
}

/// A listener never goes back to an earlier phase.
pub proof fn lemma_phase_never_goes_back(s: ListenerView, e: EventView)
    ensures
        phase_rank(step_spec(s, e).0) >= phase_rank(s.phase),
{
}

/// Once subscribed, the listener listens on the control channel of its own
/// account, and the stop message sent on that channel ends it.
pub proof fn lemma_stop_message_stops_listener(s: ListenerView)
    requires
        s.phase == ListenerPhase::Subscribing,
    ensures
        step_spec(s, EventView::SubscriptionAnswered(true)) == (
            ListenerPhase::Listening,
            ActionView::ListenControl(control_channel_spec(s.account_id)),
        ),
        step_spec(
            ListenerView { phase: ListenerPhase::Listening, ..s },
            EventView::Control(stop_payload_spec()),
        ) == (ListenerPhase::Finished, ActionView::Finish(ListenerEnd::Stopped)),
{
}

/// While the listener runs on the WebSocket, a ping is answered with a pong
/// carrying the same data, and nothing else changes.
pub proof fn lemma_ping_gets_pong(s: ListenerView, data: Seq<u8>)
    requires
        s.phase == ListenerPhase::Handshake || s.phase == ListenerPhase::Listening,
    ensures
        step_spec(s, EventView::Frame(FrameView::Ping(data))) == (s.phase, ActionView::SendPong(data)),
{
}

/// Chat is relayed only while listening, only for a notification frame, and
/// always under the listener's own account id.
pub proof fn lemma_relay_only_while_listening(s: ListenerView, e: EventView)
    requires
        step_spec(s, e).1 is Publish,
    ensures
        s.phase == ListenerPhase::Listening,
        step_spec(s, e).0 == ListenerPhase::Listening,
        e matches EventView::Frame(FrameView::Text(t)) && json_string_at(t, "/metadata/message_type"@)
            == Some("notification"@) && step_spec(s, e).1 == ActionView::Publish(publication_spec(s, t)),
        step_spec(s, e).1->Publish_0.hub_key == s.account_id,
        step_spec(s, e).1->Publish_0.key == s.account_id,
{
}

/// The subscription is asked for only once, from the handshake, for the
/// session that the welcome names.
pub proof fn lemma_subscribe_only_from_handshake(s: ListenerView, e: EventView)
    requires
        step_spec(s, e).1 is Subscribe,
    ensures
        s.phase == ListenerPhase::Handshake,
        step_spec(s, e).0 == ListenerPhase::Subscribing,
        e matches EventView::Frame(FrameView::Text(t)) && json_string_at(t, "/payload/session/id"@) is Some
            && step_spec(s, e).1 == ActionView::Subscribe(
            subscription_spec(s, json_string_at(t, "/payload/session/id"@)->Some_0),
        ),
{
}

/// The id whose lock a listener running under `lock_owner`'s lock releases
/// itself as it ends with `end`: it does when it stops and when Helix rejects
/// the subscription.
pub open spec fn listener_release(end: ListenerEnd, lock_owner: Seq<char>) -> Option<Seq<char>> {
    if releases_lock_before_returning(end) {
        Some(lock_owner)
    } else {
        None
    }
}

/// The id whose lock the starter of a listener releases once the listener has
/// ended with `end`: it does whenever the listener failed.
pub open spec fn starter_release(end: ListenerEnd, lock_owner: Seq<char>) -> Option<Seq<char>> {
    if end is Failed {
        Some(lock_owner)
    } else {
        None
    }
}

/// The id whose lock the starter releases once the listener has ended with
/// `end`, if any.
pub fn lock_released_after(lock_owner: &str, end: ListenerEnd) -> (owner: Option<String>)
    ensures
        opt_string_view(owner) == starter_release(end, lock_owner@),
{
    match end {
        ListenerEnd::Failed(_) => Some(String::from_str(lock_owner)),
        ListenerEnd::Stopped => None,
    }
}

/// However a listener ends, the lock it runs under is released: by the
/// listener itself, or by its starter.
pub proof fn lemma_every_end_releases_the_lock(end: ListenerEnd, lock_owner: Seq<char>)
    ensures
        listener_release(end, lock_owner) == Some(lock_owner) || starter_release(end, lock_owner)
            == Some(lock_owner),
{
}

/// However far a running listener has got, a failure to reach Twitch, Helix
/// or Redis ends it with that error.
pub proof fn lemma_transport_failure_ends_listener(s: ListenerView)
    requires
        s.phase != ListenerPhase::Finished,
    ensures
        step_spec(s, EventView::TransportFailed) == (
            ListenerPhase::Finished,
            ActionView::Finish(ListenerEnd::Failed(ListenerError::Transport)),
        ),
{
}

/// A listener starts listening only when Helix accepted its subscription.
pub proof fn lemma_listening_only_after_accepted_subscription(s: ListenerView, e: EventView)
    requires
        s.phase != ListenerPhase::Listening,
        step_spec(s, e).0 == ListenerPhase::Listening,
    ensures
        s.phase == ListenerPhase::Subscribing,
        e == EventView::SubscriptionAnswered(true),
{
}

/// The hub message is the object labelled `display_chat_message` whose `data`
/// holds, under ascending keys, the event's badges, color, message id, message
/// text and chatter name, each as the JSON value the frame has there (`null`
/// where it has none).
pub proof fn lemma_hub_message_carries_the_chat_fields(t: Seq<char>)
    ensures
        exists|data: Seq<(Seq<char>, Seq<char>)>|
            {
                &&& display_message_spec(t) == json_object_text(
                    seq![
                        ("data"@, json_object_text(data)),
                        ("label"@, json_quoted("display_chat_message"@)),
                    ],
                )
                &&& data.len() == 5
                &&& keys_ascending(data)
                &&& has_member(data, "badges"@, field_text(t, "/payload/event/badges"@))
                &&& has_member(data, "color"@, field_text(t, "/payload/event/color"@))
                &&& has_member(data, "message_id"@, field_text(t, "/payload/event/message_id"@))
                &&& has_member(data, "text"@, field_text(t, "/payload/event/message/text"@))
                &&& has_member(data, "user"@, field_text(t, "/payload/event/chatter_user_name"@))
            },
{
    let data = seq![
        ("badges"@, field_text(t, "/payload/event/badges"@)),
        ("color"@, field_text(t, "/payload/event/color"@)),
        ("message_id"@, field_text(t, "/payload/event/message_id"@)),
        ("text"@, field_text(t, "/payload/event/message/text"@)),
        ("user"@, field_text(t, "/payload/event/chatter_user_name"@)),
    ];
    reveal_strlit("badges");
    reveal_strlit("color");
    reveal_strlit("message_id");
    reveal_strlit("text");
    reveal_strlit("user");
    lemma_text_less_at("badges"@, "color"@, 0);
    lemma_text_less_at("color"@, "message_id"@, 0);
    lemma_text_less_at("message_id"@, "text"@, 0);
    lemma_text_less_at("text"@, "user"@, 0);
    assert(keys_ascending(data));
    assert(data[0] == ("badges"@, field_text(t, "/payload/event/badges"@)));
    assert(data[1] == ("color"@, field_text(t, "/payload/event/color"@)));
    assert(data[2] == ("message_id"@, field_text(t, "/payload/event/message_id"@)));
    assert(data[3] == ("text"@, field_text(t, "/payload/event/message/text"@)));
    assert(data[4] == ("user"@, field_text(t, "/payload/event/chatter_user_name"@)));
}

/// Two chat frames that agree on the event's badges, color, message id,
/// message text and chatter name give the same hub message, whatever else they
/// hold.
pub proof fn lemma_hub_message_depends_only_on_the_chat_fields(t1: Seq<char>, t2: Seq<char>)
    requires
        field_text(t1, "/payload/event/badges"@) == field_text(t2, "/payload/event/badges"@),
        field_text(t1, "/payload/event/color"@) == field_text(t2, "/payload/event/color"@),
        field_text(t1, "/payload/event/message_id"@) == field_text(t2, "/payload/event/message_id"@),
        field_text(t1, "/payload/event/message/text"@) == field_text(t2, "/payload/event/message/text"@),
        field_text(t1, "/payload/event/chatter_user_name"@) == field_text(
            t2,
            "/payload/event/chatter_user_name"@,
        ),
    ensures
        display_message_spec(t1) == display_message_spec(t2),
{
}

/// A relayed notification goes to the hub as the message built from the
/// frame, and to Kafka's raw chat topic as the frame's whole event, keyed by
/// the listener's account id.
pub proof fn lemma_relay_contents(s: ListenerView, e: EventView)
    requires
        step_spec(s, e).1 is Publish,
    ensures
        e matches EventView::Frame(FrameView::Text(t)) && ({
            let p = step_spec(s, e).1->Publish_0;
            &&& p.hub_message == display_message_spec(t)
            &&& p.payload == field_text(t, "/payload/event"@)
            &&& p.topic == raw_chat_topic()
            &&& p.key == s.account_id
            &&& p.hub_key == s.account_id
        }),
{
}

/// The subscription request goes to Helix's subscription endpoint with the
/// listener's own token and client id, and its body subscribes, under
/// ascending keys, to `channel.chat.message` version 1 of the listener's own
/// Twitch account (as broadcaster and as user) over the given WebSocket
/// session.
pub proof fn lemma_subscription_is_for_the_own_account(s: ListenerView, session_id: Seq<char>)
    ensures
        subscription_spec(s, session_id).url == subscriptions_url(),
        subscription_spec(s, session_id).authorization == "Bearer "@ + s.access_token,
        subscription_spec(s, session_id).client_id == s.client_id,
        exists|
            top: Seq<(Seq<char>, Seq<char>)>,
            condition: Seq<(Seq<char>, Seq<char>)>,
            transport: Seq<(Seq<char>, Seq<char>)>,
        |
            #![trigger json_object_text(top), json_object_text(condition), json_object_text(transport)]
            {
                &&& subscription_spec(s, session_id).body == json_object_text(top)
                &&& top.len() == 4 && keys_ascending(top)
                &&& has_member(top, "condition"@, json_object_text(condition))
                &&& has_member(top, "transport"@, json_object_text(transport))
                &&& has_member(top, "type"@, json_quoted("channel.chat.message"@))
                &&& has_member(top, "version"@, json_quoted("1"@))
                &&& condition.len() == 2 && keys_ascending(condition)
                &&& has_member(condition, "broadcaster_user_id"@, json_quoted(s.account_id))
                &&& has_member(condition, "user_id"@, json_quoted(s.account_id))
                &&& transport.len() == 2 && keys_ascending(transport)
                &&& has_member(transport, "method"@, json_quoted("websocket"@))
                &&& has_member(transport, "session_id"@, json_quoted(session_id))
            },
{
    let condition = seq![
        ("broadcaster_user_id"@, json_quoted(s.account_id)),
        ("user_id"@, json_quoted(s.account_id)),
    ];
    let transport = seq![
        ("method"@, json_quoted("websocket"@)),
        ("session_id"@, json_quoted(session_id)),
    ];
    let top = seq![
        ("condition"@, json_object_text(condition)),
        ("transport"@, json_object_text(transport)),
        ("type"@, json_quoted("channel.chat.message"@)),
        ("version"@, json_quoted("1"@)),
    ];
    reveal_strlit("broadcaster_user_id");
    reveal_strlit("user_id");
    reveal_strlit("method");
    reveal_strlit("session_id");
    reveal_strlit("condition");
    reveal_strlit("transport");
    reveal_strlit("type");
    reveal_strlit("version");
    lemma_text_less_at("broadcaster_user_id"@, "user_id"@, 0);
    lemma_text_less_at("method"@, "session_id"@, 0);
    lemma_text_less_at("condition"@, "transport"@, 0);
    lemma_text_less_at("transport"@, "type"@, 1);
    lemma_text_less_at("type"@, "version"@, 0);
    assert(keys_ascending(condition));
    assert(keys_ascending(transport));
    assert(keys_ascending(top));
    assert(condition[0] == ("broadcaster_user_id"@, json_quoted(s.account_id)));
    assert(condition[1] == ("user_id"@, json_quoted(s.account_id)));
    assert(transport[0] == ("method"@, json_quoted("websocket"@)));
    assert(transport[1] == ("session_id"@, json_quoted(session_id)));
    assert(top[0] == ("condition"@, json_object_text(condition)));
    assert(top[1] == ("transport"@, json_object_text(transport)));
    assert(top[2] == ("type"@, json_quoted("channel.chat.message"@)));
    assert(top[3] == ("version"@, json_quoted("1"@)));
    assert(subscription_spec(s, session_id).body == json_object_text(top));
}

/// The subscription body depends only on the listener's Twitch account id and
/// the session: not on the lock owner, the token or the client id.
pub proof fn lemma_subscription_body_depends_only_on_account_and_session(
    s1: ListenerView,
    s2: ListenerView,
    session_id: Seq<char>,
)
    requires
        s1.account_id == s2.account_id,
    ensures
        subscription_spec(s1, session_id).body == subscription_spec(s2, session_id).body,
{
}

/// During the handshake, the welcome, a JSON text that names a session,
/// starts the subscription for that session.
pub proof fn lemma_welcome_starts_the_subscription(s: ListenerView, t: Seq<char>, session_id: Seq<char>)
    requires
        s.phase == ListenerPhase::Handshake,
        json_document_parses(t),
        json_string_at(t, "/payload/session/id"@) == Some(session_id),
    ensures
        step_spec(s, EventView::Frame(FrameView::Text(t))) == (
            ListenerPhase::Subscribing,
            ActionView::Subscribe(subscription_spec(s, session_id)),
        ),
{
}

/// While listening, a chat notification is relayed and the listener keeps
/// listening.
pub proof fn lemma_notification_is_relayed(s: ListenerView, t: Seq<char>)
    requires
        s.phase == ListenerPhase::Listening,
        json_document_parses(t),
        json_string_at(t, "/metadata/message_type"@) == Some("notification"@),
    ensures
        step_spec(s, EventView::Frame(FrameView::Text(t))) == (
            ListenerPhase::Listening,
            ActionView::Publish(publication_spec(s, t)),
        ),
{
}

/// A running listener stops normally exactly while listening, when EventSub
/// closes, fails or ends, when it asks to reconnect or revokes the
/// subscription, when the control stream ends, or when `stop` comes on it.
pub proof fn lemma_when_a_listener_stops(s: ListenerView, e: EventView)
    requires
        s.phase != ListenerPhase::Finished,
    ensures
        (step_spec(s, e).1 == ActionView::Finish(ListenerEnd::Stopped)) <==> (s.phase
            == ListenerPhase::Listening && (e == EventView::Frame(FrameView::Close) || e
            == EventView::ReadError || e == EventView::StreamEnded || e == EventView::ControlEnded
            || e == EventView::Control(stop_payload_spec()) || (e matches EventView::Frame(
            FrameView::Text(t)) && json_document_parses(t) && (json_string_at(
            t,
            "/metadata/message_type"@,
        ) == Some("session_reconnect"@) || json_string_at(t, "/metadata/message_type"@) == Some(
            "revocation"@,
        ))))),
{
    reveal_strlit("notification");
    reveal_strlit("session_reconnect");
    reveal_strlit("revocation");
    assert("notification"@[0] != "session_reconnect"@[0]);
    assert("notification"@[0] != "revocation"@[0]);
}

/// When, and only when, a running listener fails with each error.
pub proof fn lemma_when_a_listener_fails(s: ListenerView, e: EventView, err: ListenerError)
    requires
        s.phase != ListenerPhase::Finished,
    ensures
        (step_spec(s, e).1 == ActionView::Finish(ListenerEnd::Failed(err))) <==> (match err {
            ListenerError::NoMessage => s.phase == ListenerPhase::Handshake && e
                == EventView::StreamEnded,
            ListenerError::ReadFailed => s.phase == ListenerPhase::Handshake && e
                == EventView::ReadError,
            ListenerError::ConnectionClosed => s.phase == ListenerPhase::Handshake && e
                == EventView::Frame(FrameView::Close),
            ListenerError::InvalidJson => (s.phase == ListenerPhase::Handshake || s.phase
                == ListenerPhase::Listening) && (e matches EventView::Frame(FrameView::Text(t))
                && !json_document_parses(t)),
            ListenerError::SubscriptionRejected => s.phase == ListenerPhase::Subscribing && e
                == EventView::SubscriptionAnswered(false),
            ListenerError::Transport => e == EventView::TransportFailed,
        }),
{
}

/// A pong is sent only in answer to a ping, with its data, and the phase
/// stays.
pub proof fn lemma_pong_only_for_ping(s: ListenerView, e: EventView)
    requires
        step_spec(s, e).1 is SendPong,
    ensures
        e == EventView::Frame(FrameView::Ping(step_spec(s, e).1->SendPong_0)),
        step_spec(s, e).0 == s.phase,
        s.phase == ListenerPhase::Handshake || s.phase == ListenerPhase::Listening,
{
}

/// The control channel is listened to only once Helix accepted the
/// subscription, and it is the channel of the listener's own account.
pub proof fn lemma_control_channel_only_after_accepted_subscription(s: ListenerView, e: EventView)
    requires
        step_spec(s, e).1 is ListenControl,
    ensures
        s.phase == ListenerPhase::Subscribing,
        e == EventView::SubscriptionAnswered(true),
        step_spec(s, e).0 == ListenerPhase::Listening,
        step_spec(s, e).1->ListenControl_0 == control_channel_spec(s.account_id),
{
}

} // verus!
