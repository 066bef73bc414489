# alleycat

The host side of the alleycat protocol, verified with Verus. A host offers
coding agents to paired clients over iroh connections.

- `src/protocol.rs`: the messages and their mathematical content.
- `src/host.rs`: the pairing payload, and admission of requests by version and
  token.
- `src/stream.rs`: what the host does with one stream, as a step function from
  state and event to state and action.
- `src/stream_laws.rs`: what holds of every stream, whatever the client, the
  agents and the network do.
- `src/listener.rs`: endpoint settings, the accept loop, and the streams of a
  connection.
- `src/session.rs`: what the session registry answers.
- `src/text.rs`: decimal and hexadecimal text, cleaning up of host names.
- `src/outside.rs`: the calls into `iroh`, `hostname` and the standard library
  that the proofs rely on.

`app/` binds the endpoint, reads and writes frames, and drives the library. The
agents and the framing of messages are traits there, for the daemon to
implement.
