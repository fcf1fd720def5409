//! The requests that the HTTP API takes.

use vstd::prelude::*;

verus! {

/// A request to start listening to a user's Twitch chat; the JSON body names
/// the user as `userId`.
#[derive(Debug)]
pub struct StartTwitchRequest {
    pub user_id: String,
}

/// A request to stop listening to a user's Twitch chat.
pub struct StopTwitchRequest {
    pub user_id: String,
}

/// The query of a hub WebSocket: the broadcaster whose chat the client wants.
pub struct WsQuery {
    pub broadcaster_id: String,
}

} // verus!
