# potato

A Noise handshake client for JavaScript hosts, and a Noise-secured relay that
forwards JSON-RPC requests to a local JSON-RPC server. The protocol logic is
written in Verus and verified; the network, terminal and JavaScript plumbing
is ordinary Rust.

- `src/snow_api.rs`: the calls into `snow` (builder, handshake, transport),
  each behind a trusted item whose contract states what `snow`'s source shows.
- `src/setup.rs`: `SessionBuilder`, which configures a `snow` session and
  keeps a record of the protocol name, keys and pre-shared key it was given.
- `src/json.rs`: the reading of request and reply texts by `serde_json`,
  behind trusted items whose results are named.
- `src/text.rs`: two std text conversions (`Debug` of a string, lossy UTF-8).
- `src/error.rs`: `NoiseError` and its message, `Debug` and byte renderings.
- `src/machine.rs`: `NoiseStateMachine`, the `XKpsk3` client driven one event
  at a time; each call says which callback receives what, and after the
  handshake messages are encrypted in a transport session.
- `src/session.rs`: `RelayServer` and `RelayClient`, the two ends of the
  `XXpsk3` relay as state machines over WebSocket events.
- `src/rpc.rs`: the JSON-RPC reply envelope, the planning of a forwarded
  request, and the procedures of the local server.
- `app/`: the program (`-s` server, `-p` local JSON-RPC server, `-c` client)
  and the `wasm-bindgen` face of `NoiseStateMachine`.
