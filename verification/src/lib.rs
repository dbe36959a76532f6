//! The decision core of a Raft node: the election state machine, the
//! framing of messages on the wire, the election timer's policy and the
//! bookkeeping of the node's peer sessions.
//!
//! Everything here is plain computation; the networking, the timers and the
//! task runtime that drive it live outside the library.

pub mod codec;
pub mod config;
pub mod handler;
pub mod primitives;
pub mod session;
pub mod state;
pub mod swarm;
pub mod timeout;
