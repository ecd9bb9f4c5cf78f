use vstd::prelude::*;

verus! {

/// Wraps errors from either the listener or the TLS acceptor.
#[non_exhaustive]
pub enum Error<LE, TE, Addr> {
    /// An error that arose from the listener.
    ListenerError(LE),
    /// An error that occurred during the TLS accept handshake.
    TlsAcceptError {
        /// The original error that occurred.
        error: TE,
        /// Address of the other side of the connection.
        peer_addr: Addr,
    },
    /// The TLS handshake timed out.
    HandshakeTimeout {
        /// Address of the other side of the connection.
        peer_addr: Addr,
    },
}

impl<LE, TE, Addr> Error<LE, TE, Addr> {
    /// The peer address carried by an error: present for errors that arise after a
    /// connection was accepted, absent for listener errors.
    pub open spec fn peer_addr_of(self) -> Option<Addr> {
        match self {
            Error::ListenerError(_) => None,
            Error::TlsAcceptError { peer_addr, .. } => Some(peer_addr),
            Error::HandshakeTimeout { peer_addr } => Some(peer_addr),
        }
    }

    /// Get the peer address from the connection that caused the error, if applicable.
    pub fn peer_addr(&self) -> (r: Option<&Addr>)
        ensures
            match r {
                Some(a) => self.peer_addr_of() == Some(*a),
                None => self.peer_addr_of() is None,
            },
    {
        match self {
            Error::TlsAcceptError { peer_addr, .. } => Some(peer_addr),
            Error::HandshakeTimeout { peer_addr } => Some(peer_addr),
            _ => None,
        }
    }
}

/// Which errors name a peer: a listener error never does, since no connection was
/// accepted; a failed handshake and a timed-out one always name the peer of their
/// connection.
pub proof fn lemma_peer_addr_of_errors<LE, TE, Addr>(e: Error<LE, TE, Addr>)
    ensures
        e is ListenerError <==> e.peer_addr_of() is None,
        e matches Error::TlsAcceptError { peer_addr, .. } ==> e.peer_addr_of() == Some(peer_addr),
        e matches Error::HandshakeTimeout { peer_addr } ==> e.peer_addr_of() == Some(peer_addr),
{
}

} // verus!
