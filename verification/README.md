# hmkit_ws_native

The verified core of a native WebSocket client and server for HarmonyOS
(Node-API). The library takes every decision of the bridge; the bindings in
`app/` do the input and output (sockets, tokio, channels, JavaScript
callbacks) and carry out the effects that the library returns.

- `src/types.rs` — plain values (payloads, messages, close frames and events,
  errors) and their views.
- `src/message.rs` — how calls become messages: ping size limit, close code
  defaults and truncation, the close events that are reported.
- `src/request.rs` — the client's opening request: URL and header checks,
  and the handshake request with the configured headers set on it, through
  `tokio-tungstenite` and `http`. `wss` URLs use rustls with the WebPKI roots.
- `src/session.rs` — the events of a running connection.
- `src/client.rs` — the client: its connection state, the calls that send on
  it, and the reaction of a running connection to each event.
- `src/server.rs` — the server: registry of peers, peer numbering, sending,
  broadcasting and closing, the listener's reaction, and each peer's reaction.
- `src/laws.rs` — properties over runs and across calls.
