# raft

The decision core of a Raft node, verified with Verus.

- `src/state.rs` — a node's election state and how it answers `AppendEntries`,
  `RequestVote` and `VoteResponse`, with the laws of the protocol it keeps
  (one vote per term, majority to lead, terms never decrease).
- `src/swarm.rs` — a node with its sessions: one step per input, deciding
  what to send and when to restart the election timer.
- `src/codec.rs` — `\r\n`-terminated frames on a `bytes::BytesMut` buffer, with
  the law that a written frame reads back.
- `src/timeout.rs` — the election timer's policy (heartbeat or a random
  election timeout).
- `src/session.rs`, `src/handler.rs`, `src/config.rs`, `src/primitives.rs` —
  session outbox and handshake, sorting of peer messages, addressing, and the
  message types.
- `app/` — the program around it: TCP listener and sessions on tokio, JSON on
  the wire with serde, the command line with clap.
