//! A client-side shard for a WebSocket chat-gateway protocol.
//!
//! The crate models the gateway session: the close-code classifier, the
//! message envelope, the session record, the JSON envelope codec, and the
//! shard state machine that drives the handshake, heartbeat and resume
//! protocol. All protocol decisions live here as verified functions; the
//! actual socket, timer and store I/O is left to the embedding program.

use vstd::prelude::*;

pub mod cache;
pub mod close_code;
pub mod codec;
pub mod error;
pub mod event;
pub mod message;
pub mod model;
pub mod opcode;
pub mod rng;
pub mod session;
pub mod shard;
pub mod strutil;

verus! {

} // verus!
