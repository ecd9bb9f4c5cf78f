//! Accepting TLS connections from a source of new streams.
//!
//! The library keeps the decisions of a TLS listener: how incoming connections
//! are accepted in batches while TLS handshakes run for earlier ones, how the end
//! of a handshake becomes a connection or an error that names the peer, how a
//! listener is configured, and how listener errors are met.
//!
//! - `listener`: the listener's configuration and its builder.
//! - `round`: the decisions of one poll for the next connection.
//! - `handshake`: the handshakes in progress, and turning the end of one into a
//!   result.
//! - `error`: the error type.
//! - `accept_error`: what to do after the underlying listener fails.
//! - `adapters`: thin wrappers around acceptors and listeners.
//! - `std_items`: trusted specifications of the standard-library items used.

pub mod accept_error;
pub mod adapters;
pub mod error;
pub mod handshake;
pub mod listener;
pub mod round;
pub mod std_items;

pub use adapters::{wrap, ConcurrentHandshakeTls, SpawningHandshakes, WrappedAccept};
pub use error::Error;
pub use handshake::{HandshakeOutcome, PendingHandshakes};
pub use listener::{
    builder, BatchSize, Builder, TlsListener, DEFAULT_ACCEPT_BATCH_SIZE, DEFAULT_HANDSHAKE_TIMEOUT_SECS,
};
pub use round::{AcceptRound, HandshakePoll, ListenerPoll, ListenerStep, NextPoll, Outcome};
