//! What the listener lock and the control channel are called in Redis, and
//! what the Redis replies mean.

use vstd::prelude::*;

verus! {

/// The key of the lock that marks a running listener for `id`.
pub open spec fn lock_key_spec(id: Seq<char>) -> Seq<char> {
    "twitch_listener:"@ + id
}

/// The Redis channel on which a listener for `id` takes control messages.
pub open spec fn control_channel_spec(id: Seq<char>) -> Seq<char> {
    "twitch:control:"@ + id
}

/// The control message that stops a listener.
pub open spec fn stop_payload_spec() -> Seq<char> {
    "stop"@
}

/// How long, in seconds, a start request holds the listener lock.
pub const LISTENER_LOCK_TTL_SECS: usize = 60;

/// The key of the lock that marks a running listener for `id`.
pub fn lock_key(id: &str) -> (key: String)
    ensures
        key@ == lock_key_spec(id@),
{
    let mut key = String::from_str("twitch_listener:");
    key.append(id);
    key
}

/// The Redis channel on which a listener for `id` takes control messages.
pub fn control_channel(id: &str) -> (channel: String)
    ensures
        channel@ == control_channel_spec(id@),
{
    let mut channel = String::from_str("twitch:control:");
    channel.append(id);
    channel
}

/// Whether a control message asks the listener to stop.
pub fn is_stop_payload(payload: &String) -> (stop: bool)
    ensures
        stop == (payload@ == stop_payload_spec()),
{
    let stop = String::from_str("stop");
    *payload == stop
}

/// A request to take the listener lock: `SET key value NX EX ttl_secs`, which
/// succeeds only where the key is absent, and lets the key expire.
pub struct LockRequest {
    pub key: String,
    pub value: String,
    pub ttl_secs: usize,
}

/// The request that takes the listener lock of `id` for `ttl_secs` seconds.
pub fn lock_request(id: &str, ttl_secs: usize) -> (req: LockRequest)
    ensures
        req.key@ == lock_key_spec(id@),
        req.value@ == "locked"@,
        req.ttl_secs == ttl_secs,
{
    LockRequest { key: lock_key(id), value: String::from_str("locked"), ttl_secs }
}

/// Whether the reply to a lock request means the lock was taken: `SET ... NX`
/// answers with a value where it set the key and with nothing where the key
/// already existed.
pub fn lock_acquired(reply: &Option<String>) -> (acquired: bool)
    ensures
        acquired == reply.is_some(),
{
    reply.is_some()
}

/// A control message to publish: the channel and the payload.
pub struct ControlMessage {
    pub channel: String,
    pub payload: String,
}

/// The control message that asks the listener of `id` to stop.
pub fn stop_message(id: &str) -> (msg: ControlMessage)
    ensures
        msg.channel@ == control_channel_spec(id@),
        msg.payload@ == stop_payload_spec(),
{
    ControlMessage { channel: control_channel(id), payload: String::from_str("stop") }
}

/// Adding the same text in front of two texts keeps them apart.
pub proof fn lemma_prefix_cancel(p: Seq<char>, a: Seq<char>, b: Seq<char>)
    ensures
        (p + a == p + b) <==> (a == b),
{
    if p + a == p + b {
        assert((p + a).skip(p.len() as int) =~= a);
        assert((p + b).skip(p.len() as int) =~= b);
    }
}

/// Two ids share a lock key only when they are the same id.
pub proof fn lemma_lock_key_injective(a: Seq<char>, b: Seq<char>)
    ensures
        (lock_key_spec(a) == lock_key_spec(b)) <==> (a == b),
{
    lemma_prefix_cancel("twitch_listener:"@, a, b);
}

/// Two ids share a control channel only when they are the same id.
pub proof fn lemma_control_channel_injective(a: Seq<char>, b: Seq<char>)
    ensures
        (control_channel_spec(a) == control_channel_spec(b)) <==> (a == b),
{
    lemma_prefix_cancel("twitch:control:"@, a, b);
}

/// No lock key is ever the name of a control channel.
pub proof fn lemma_lock_key_is_not_a_channel(a: Seq<char>, b: Seq<char>)
    ensures
        lock_key_spec(a) != control_channel_spec(b),
{
    reveal_strlit("twitch_listener:");
    reveal_strlit("twitch:control:");
    assert(lock_key_spec(a)[6] == '_');
    assert(control_channel_spec(b)[6] == ':');
}

} // verus!
