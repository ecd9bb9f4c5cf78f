# tls_listener

A TLS listener whose decisions are verified with Verus.

`src/` is the verified library: the listener's configuration and builder
(`listener.rs`), the decisions of one poll for the next connection — batching of
accepts between checks of pending handshakes (`round.rs`), the handshakes in
progress, each paired by a ticket with its peer address, and the result of a
finished one with the address carried in errors (`handshake.rs`, `error.rs`), the reaction to listener errors (`accept_error.rs`), small wrappers
(`adapters.rs`), and the trusted specifications of the standard-library items
used (`std_items.rs`, and the `std::io::Error` and `std::io::ErrorKind` declarations in `accept_error.rs`).

`app/` performs the polls: it drives the verified round against real listeners,
TLS acceptors (rustls, native-tls, openssl), timers and a `FuturesUnordered` of
the running handshake futures, and offers the `Stream` of TLS connections and the axum
`Listener` impl.
