# chorus

A client library for Spacebar- and Discord-compatible chat instances, written in Verus.

- `src/` is the verified library: rate-limit buckets and their configuration
  (`api::limits`), request schemas and their validation (`api::schemas`), relationships,
  message sending and search decisions, the gateway's URL options, the meaning of gateway
  messages and payloads, the heartbeat state machine and the observer registry of gateway
  events. Each public function carries a contract; laws that relate several functions are
  public proof functions (`lemma_*`).
- `tests/` exercises the library on concrete values.
- `app/` is the network side: HTTP requests with `reqwest`, the gateway websocket with
  `tokio-tungstenite`, the heartbeat and listener tasks, and the JSON forms of the library's
  types. It hands plain values to the library and acts on what the library decides.
