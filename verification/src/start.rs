//! How a request to start listening to a user's Twitch chat is answered.
//!
//! The caller looks the account up, tries to take the user's listener lock,
//! and hands both outcomes to `decide_start`; it starts a listener for the
//! account the decision names, if any, and answers with the reply's status
//! and body.

use vstd::prelude::*;
use crate::json::{has_member, keys_ascending, lemma_text_less_at, text_less, json_object_text, json_quoted, members_view, object_text, opt_string_view, quote};
use crate::listener::{lemma_every_end_releases_the_lock, listener_release, starter_release, ListenerEnd};
use crate::redis_keys::lock_key_spec;
use crate::twitch_account::{account_id_or_empty, TwitchAccount};

verus! {

/// What became of the attempt to take the listener lock.
#[derive(Clone, Copy, Debug, PartialEq, Eq, Structural)]
pub enum LockOutcome {
    /// The lock was taken: no listener ran for this user.
    Acquired,
    /// The lock was already held: a listener runs for this user.
    AlreadyHeld,
    /// Redis could not be asked.
    Failed,
}

/// What the account lookup found.
pub enum AccountLookup {
    Found(TwitchAccount),
    NotFound,
    Failed,
}

/// The answer to a start request.
pub enum StartReply {
    /// A listener was started for the account with this Twitch id.
    Started { broadcaster_id: String },
    /// The lock was taken but no account was found.
    AccountNotFound,
    /// A listener already runs; the account found has this Twitch id, if any.
    AlreadyListening { account_id: Option<String> },
    /// A listener already runs, but no account was found.
    AlreadyListeningWithoutAccount,
    /// Redis failed while the lock was being taken.
    LockFailed,
}

pub enum ReplyView {
    Started { broadcaster_id: Seq<char> },
    AccountNotFound,
    AlreadyListening { account_id: Option<Seq<char>> },
    AlreadyListeningWithoutAccount,
    LockFailed,
}

impl View for StartReply {
    type V = ReplyView;

    open spec fn view(&self) -> ReplyView {
        match self {
            StartReply::Started { broadcaster_id } => ReplyView::Started { broadcaster_id: broadcaster_id@ },
            StartReply::AccountNotFound => ReplyView::AccountNotFound,
            StartReply::AlreadyListening { account_id } => ReplyView::AlreadyListening {
                account_id: opt_string_view(*account_id),
            },
            StartReply::AlreadyListeningWithoutAccount => ReplyView::AlreadyListeningWithoutAccount,
            StartReply::LockFailed => ReplyView::LockFailed,
        }
    }
}

/// A listener to start: the account to listen to, and the id whose listener
/// lock the request took and the listener runs under.
pub struct ListenerStart {
    pub account: TwitchAccount,
    pub lock_owner: String,
}

/// The reply and, where one is to be started, the listener to start.
pub struct StartDecision {
    pub reply: StartReply,
    pub listener: Option<ListenerStart>,
}

/// The reply to a start request, from the lock outcome and the account found.
pub open spec fn start_reply_spec(lock: LockOutcome, account: Option<TwitchAccount>) -> ReplyView {
    match lock {
        LockOutcome::Acquired => match account {
            Some(a) => ReplyView::Started { broadcaster_id: account_id_or_empty(a) },
            None => ReplyView::AccountNotFound,
        },
        LockOutcome::AlreadyHeld => match account {
            Some(a) => ReplyView::AlreadyListening { account_id: opt_string_view(a.account_id) },
            None => ReplyView::AlreadyListeningWithoutAccount,
        },
        LockOutcome::Failed => ReplyView::LockFailed,
    }
}

/// The account a lookup found; a failed lookup finds none.
pub open spec fn found_account(lookup: AccountLookup) -> Option<TwitchAccount> {
    match lookup {
        AccountLookup::Found(a) => Some(a),
        _ => None,
    }
}

/// The HTTP status of a reply.
pub open spec fn status_spec(reply: ReplyView) -> u16 {
    match reply {
        ReplyView::Started { .. } => 200,
        ReplyView::AccountNotFound => 404,
        ReplyView::AlreadyListening { .. } => 200,
        ReplyView::AlreadyListeningWithoutAccount => 404,
        ReplyView::LockFailed => 500,
    }
}

/// The JSON string literal of a text, or `null` where there is none.
pub open spec fn quoted_or_null(v: Option<Seq<char>>) -> Seq<char> {
    match v {
        Some(t) => json_quoted(t),
        None => "null"@,
    }
}

/// The JSON body of a reply.
pub open spec fn body_spec(reply: ReplyView) -> Seq<char> {
    match reply {
        ReplyView::Started { broadcaster_id } => json_object_text(
            seq![
                ("broadcaster_id"@, json_quoted(broadcaster_id)),
                ("status"@, json_quoted("started"@)),
            ],
        ),
        ReplyView::AccountNotFound => json_object_text(
            seq![("message"@, json_quoted("account not found"@))],
        ),
        ReplyView::AlreadyListening { account_id } => json_object_text(
            seq![
                ("broadcaster_id"@, quoted_or_null(account_id)),
                ("status"@, json_quoted("already_listening"@)),
            ],
        ),
        ReplyView::AlreadyListeningWithoutAccount => json_object_text(
            seq![
                ("message"@, json_quoted("Twitch account not found"@)),
                ("status"@, json_quoted("already_listening"@)),
            ],
        ),
        ReplyView::LockFailed => json_object_text(
            seq![
                ("message"@, json_quoted("redis error while acquiring lock"@)),
                ("status"@, json_quoted("error"@)),
            ],
        ),
    }
}

/// Decides a start request for `user_id`: a listener is started exactly when
/// the user's lock was taken and the account was found, and then for that
/// account, under the lock of `user_id`.
pub fn decide_start(user_id: &str, lock: LockOutcome, lookup: AccountLookup) -> (d: StartDecision)
    ensures
        d.reply@ == start_reply_spec(lock, found_account(lookup)),
        d.listener is Some <==> (lock == LockOutcome::Acquired && found_account(lookup) is Some),
        d.listener matches Some(start) ==> Some(start.account) == found_account(lookup)
            && start.lock_owner@ == user_id@,
{
    match lock {
        LockOutcome::Acquired => match lookup {
            AccountLookup::Found(account) => {
                let broadcaster_id = account.account_id_or_default();
                StartDecision {
                    reply: StartReply::Started { broadcaster_id },
                    listener: Some(ListenerStart { account, lock_owner: String::from_str(user_id) }),
                }
            },
            _ => StartDecision { reply: StartReply::AccountNotFound, listener: None },
        },
        LockOutcome::AlreadyHeld => match lookup {
            AccountLookup::Found(account) => {
                let account_id = match &account.account_id {
                    Some(id) => Some(id.clone()),
                    None => None,
                };
                StartDecision { reply: StartReply::AlreadyListening { account_id }, listener: None }
            },
            _ => StartDecision { reply: StartReply::AlreadyListeningWithoutAccount, listener: None },
        },
        LockOutcome::Failed => StartDecision { reply: StartReply::LockFailed, listener: None },
    }
}

fn member(key: &str, value: String) -> (m: (String, String))
    ensures
        m.0@ == key@,
        m.1@ == value@,
{
    (String::from_str(key), value)
}

fn object2(k1: &str, v1: String, k2: &str, v2: String) -> (text: String)
    requires
        text_less(k1@, k2@),
    ensures
        text@ == json_object_text(seq![(k1@, v1@), (k2@, v2@)]),
{
    let mut members: Vec<(String, String)> = Vec::new();
    members.push(member(k1, v1));
    members.push(member(k2, v2));
    assert(members_view(members@) =~= seq![(k1@, v1@), (k2@, v2@)]);
    assert(keys_ascending(members_view(members@)));
    object_text(&members)
}

impl StartReply {
    /// The HTTP status of the reply.
    pub fn status_code(&self) -> (code: u16)
        ensures
            code == status_spec(self@),
    {
        match self {
            StartReply::Started { .. } => 200,
            StartReply::AccountNotFound => 404,
            StartReply::AlreadyListening { .. } => 200,
            StartReply::AlreadyListeningWithoutAccount => 404,
            StartReply::LockFailed => 500,
        }
    }

    /// The JSON body of the reply.
    pub fn body(&self) -> (text: String)
        ensures
            text@ == body_spec(self@),
    {
        proof {
            reveal_strlit("broadcaster_id");
            reveal_strlit("status");
            reveal_strlit("message");
            lemma_text_less_at("broadcaster_id"@, "status"@, 0);
            lemma_text_less_at("message"@, "status"@, 0);
        }
        match self {
            StartReply::Started { broadcaster_id } => {
                let id_text = quote(broadcaster_id.as_str());
                object2("broadcaster_id", id_text, "status", quote("started"))
            },
            StartReply::AccountNotFound => {
                let mut members: Vec<(String, String)> = Vec::new();
                members.push(member("message", quote("account not found")));
                assert(members_view(members@) =~= seq![("message"@, json_quoted("account not found"@))]);
                assert(keys_ascending(members_view(members@)));
                object_text(&members)
            },
            StartReply::AlreadyListening { account_id } => {
                let id_text = match account_id {
                    Some(id) => quote(id.as_str()),
                    None => String::from_str("null"),
                };
                assert(id_text@ == quoted_or_null(opt_string_view(*account_id)));
                object2("broadcaster_id", id_text, "status", quote("already_listening"))
            },
            StartReply::AlreadyListeningWithoutAccount => object2(
                "message",
                quote("Twitch account not found"),
                "status",
                quote("already_listening"),
            ),
            StartReply::LockFailed => object2(
                "message",
                quote("redis error while acquiring lock"),
                "status",
                quote("error"),
            ),
        }
    }
}

/// A start request is answered with status 200 exactly when Redis answered
/// and the account was found, and with status 500 exactly when Redis failed.
pub proof fn lemma_start_status(lock: LockOutcome, account: Option<TwitchAccount>)
    ensures
        (status_spec(start_reply_spec(lock, account)) == 200) <==> (lock != LockOutcome::Failed
            && account is Some),
        (status_spec(start_reply_spec(lock, account)) == 500) <==> (lock == LockOutcome::Failed),
{
}

/// A listener started for a request runs under the lock of the requested
/// user id (`decide_start` gives it that id), and however it ends, the key that
/// the request's lock set is deleted: by the listener itself, or by its
/// starter.
pub proof fn lemma_started_listener_releases_the_lock_it_took(
    user_id: Seq<char>,
    lock_owner: Seq<char>,
    end: ListenerEnd,
)
    requires
        lock_owner == user_id,
    ensures
        (listener_release(end, lock_owner) matches Some(o) && lock_key_spec(o) == lock_key_spec(
            user_id,
        )) || (starter_release(end, lock_owner) matches Some(o) && lock_key_spec(o)
            == lock_key_spec(user_id)),
{
    lemma_every_end_releases_the_lock(end, lock_owner);
}

/// The reply says a listener was started exactly when the lock was taken and
/// the account found, naming the account's Twitch id; it says one already runs
/// exactly when the lock was held, naming the found account's id if any; and
/// it reports a Redis error exactly when taking the lock failed.
pub proof fn lemma_reply_tells_what_happened(lock: LockOutcome, account: Option<TwitchAccount>)
    ensures
        (start_reply_spec(lock, account) is Started) <==> (lock == LockOutcome::Acquired
            && account is Some),
        start_reply_spec(lock, account) is Started ==> start_reply_spec(lock, account)->Started_broadcaster_id
            == account_id_or_empty(account->Some_0),
        (start_reply_spec(lock, account) is AccountNotFound) <==> (lock == LockOutcome::Acquired
            && account is None),
        (start_reply_spec(lock, account) is AlreadyListening) <==> (lock == LockOutcome::AlreadyHeld
            && account is Some),
        start_reply_spec(lock, account) is AlreadyListening ==> start_reply_spec(lock, account)->account_id
            == opt_string_view(account->Some_0.account_id),
        (start_reply_spec(lock, account) is AlreadyListeningWithoutAccount) <==> (lock
            == LockOutcome::AlreadyHeld && account is None),
        (start_reply_spec(lock, account) is LockFailed) <==> (lock == LockOutcome::Failed),
{
}

/// Each reply's body is a JSON object under ascending keys: a started
/// listener gives `status` `started` and the broadcaster id; an already
/// running one gives `status` `already_listening` and the broadcaster id
/// (`null` where none) or, without an account, a not-found message; a missing
/// account gives only a not-found message; a Redis failure gives `status`
/// `error` and its message.
pub proof fn lemma_reply_bodies(reply: ReplyView)
    ensures
        exists|members: Seq<(Seq<char>, Seq<char>)>|
            #![trigger json_object_text(members)]
            {
                &&& body_spec(reply) == json_object_text(members)
                &&& keys_ascending(members)
                &&& match reply {
                    ReplyView::Started { broadcaster_id } => members.len() == 2 && has_member(
                        members,
                        "broadcaster_id"@,
                        json_quoted(broadcaster_id),
                    ) && has_member(members, "status"@, json_quoted("started"@)),
                    ReplyView::AccountNotFound => members.len() == 1 && has_member(
                        members,
                        "message"@,
                        json_quoted("account not found"@),
                    ),
                    ReplyView::AlreadyListening { account_id } => members.len() == 2 && has_member(
                        members,
                        "broadcaster_id"@,
                        match account_id {
                            Some(id) => json_quoted(id),
                            None => "null"@,
                        },
                    ) && has_member(members, "status"@, json_quoted("already_listening"@)),
                    ReplyView::AlreadyListeningWithoutAccount => members.len() == 2 && has_member(
                        members,
                        "message"@,
                        json_quoted("Twitch account not found"@),
                    ) && has_member(members, "status"@, json_quoted("already_listening"@)),
                    ReplyView::LockFailed => members.len() == 2 && has_member(
                        members,
                        "message"@,
                        json_quoted("redis error while acquiring lock"@),
                    ) && has_member(members, "status"@, json_quoted("error"@)),
                }
            },
{
    reveal_strlit("broadcaster_id");
    reveal_strlit("status");
    reveal_strlit("message");
    lemma_text_less_at("broadcaster_id"@, "status"@, 0);
    lemma_text_less_at("message"@, "status"@, 0);
    let members = match reply {
        ReplyView::Started { broadcaster_id } => seq![
            ("broadcaster_id"@, json_quoted(broadcaster_id)),
            ("status"@, json_quoted("started"@)),
        ],
        ReplyView::AccountNotFound => seq![("message"@, json_quoted("account not found"@))],
        ReplyView::AlreadyListening { account_id } => seq![
            ("broadcaster_id"@, quoted_or_null(account_id)),
            ("status"@, json_quoted("already_listening"@)),
        ],
        ReplyView::AlreadyListeningWithoutAccount => seq![
            ("message"@, json_quoted("Twitch account not found"@)),
            ("status"@, json_quoted("already_listening"@)),
        ],
        ReplyView::LockFailed => seq![
            ("message"@, json_quoted("redis error while acquiring lock"@)),
            ("status"@, json_quoted("error"@)),
        ],
    };
    assert(keys_ascending(members));
    assert(members[0] == members[0]);
    if members.len() == 2 {
        assert(members[1] == members[1]);
    }
    assert(body_spec(reply) == json_object_text(members));
}

} // verus!
