//! An administrative relay for a game server, driven from a chat platform:
//! short textual commands are framed over a private line-based TCP protocol
//! and forwarded to the server, and a timed multi-choice map vote picks a
//! server-state transition from reaction counts and applies it through the
//! same relay.
//!
//! This crate holds everything that decides: the wire codec, the handshake
//! and authentication rules, the reconnect-once relay policy, the command
//! parsers and their rendering, the configuration store, and the vote
//! coordinator with its finalize-once guarantee.  The thin shell that owns
//! the socket and the chat session calls in here for every decision and
//! performs only the I/O.

pub mod errors;
pub mod text;
pub mod codec;
pub mod session;
pub mod relay;
pub mod random;
pub mod pavlov;
pub mod config;
pub mod voting;
pub mod parsing;
pub mod permissions;
pub mod model;
pub mod output;
