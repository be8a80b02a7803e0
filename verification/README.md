# contextvm_sdk

MCP over Nostr: clients and servers exchange JSON-RPC messages in Nostr events,
in the open or in gift wraps.

`src/` is the library, written in Verus. Its transports decide and do not wait:
each step takes what has happened (an event came in, a gift wrap was decrypted,
a message is out) and says what is to be done. Every function carries a contract
over mathematical views of the data; the `laws` and `run` modules state what
holds over several steps.

- `protocol`: messages, their JSON text, validation, keys, tags and events.
- `transport`: the client and two servers. `server` keeps the routes of pending
  requests in a store of their own, `session_server` keeps them in the sessions.
- `rmcp_transport`: the bridge to services of the `rmcp` crate.
- `gateway`, `proxy`, `signer`, `util`.

`app/` is ordinary Rust around the library: relays, signers, encryption,
channels and logging. `tests/` runs the library, with events that are signed and
encrypted for real.
