//! A verified client core for the BitTorrent UDP tracker protocol (BEP 15):
//! fixed-layout big-endian wire codec, connection-id caching with a validity
//! window, transaction correlation with retransmission and backoff, and the
//! session logic that sequences Connect and Announce exchanges.
//!
//! The core is pure: it never touches a socket or a clock. A driver performs
//! each emitted [`session::Step`], feeds datagrams and timer expiries back in,
//! and supplies the current time in seconds.

pub mod bytes;
pub mod rng;
pub mod errors;
pub mod txn;
pub mod conn;
pub mod session;
pub mod wire;
