//! The hub that hands each broadcaster's chat to the WebSocket clients that
//! watch it: one broadcast channel per broadcaster id.

use vstd::prelude::*;

verus! {

/// How many messages a broadcaster's channel keeps for a slow client.
pub const HUB_CHANNEL_CAPACITY: usize = 32;

/// Whether a client that leaves takes its broadcaster's channel out of the
/// hub: only where the channel is there and no client receives from it.
pub fn channel_removable(registered: bool, receiver_count: usize) -> (remove: bool)
    ensures
        remove == (registered && receiver_count == 0),
{
    registered && receiver_count == 0
}

} // verus!
