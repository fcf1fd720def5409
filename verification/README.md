# vanilla_chat_server

A server that relays a streamer's Twitch chat to WebSocket clients and to
Kafka. The decisions are a verified Verus library under `src/`:

- `listener` — the EventSub listener of one account as a state machine
  (handshake, subscription, relay, stop), from event to next phase and action;
- `start` — how a start request is answered, from the lock outcome and the
  account lookup;
- `redis_keys` — the listener lock and the control channel in Redis;
- `hub` — when a broadcaster's channel leaves the WebSocket hub;
- `json` — what is read out of EventSub frames through `serde_json`, and the
  compact JSON objects the server writes;
- `twitch_account`, `dto` — the account and the request types.

`app/` is the program around it: Axum routes, Postgres, Redis, Kafka and the
Twitch connections, each performing what the library decides.
