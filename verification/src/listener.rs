//! The TLS listener's configuration, and the builder that makes one.
use crate::adapters::{wrap, WrappedAccept};
use crate::round::{AcceptRound, RoundState};
use crate::std_items::{duration_from_secs, secs};
use std::time::Duration;
use vstd::prelude::*;

verus! {

/// Default number of connections to accept in a batch before checking whether
/// any TLS handshake has finished.
pub const DEFAULT_ACCEPT_BATCH_SIZE: usize = 64;

/// Default timeout for the TLS handshake, in seconds.
pub const DEFAULT_HANDSHAKE_TIMEOUT_SECS: u64 = 10;

/// A number of connections to accept in a batch: never zero.
#[derive(Clone, Copy, Debug)]
pub struct BatchSize {
    size: usize,
}

impl BatchSize {
    /// A batch size is never zero.
    #[verifier::type_invariant]
    closed spec fn positive(self) -> bool {
        self.size > 0
    }

    /// The number of connections.
    pub closed spec fn value(self) -> nat {
        self.size as nat
    }

    /// The batch size `size`, or `None` if it is zero.
    pub fn new(size: usize) -> (r: Option<BatchSize>)
        ensures
            r is Some <==> size > 0,
            r matches Some(b) ==> b.value() == size,
    {
        if size > 0 {
            Some(BatchSize { size })
        } else {
            None
        }
    }

    /// The number of connections, which is not zero.
    pub fn get(self) -> (r: usize)
        ensures
            r == self.value(),
            r > 0,
    {
        proof {
            use_type_invariant(&self);
        }
        self.size
    }
}

/// Builder for `TlsListener`.
#[derive(Clone)]
pub struct Builder<T> {
    tls: T,
    accept_batch_size: BatchSize,
    handshake_timeout: Duration,
}

impl<T> Builder<T> {
    /// The TLS acceptor that listeners built from this builder use.
    pub closed spec fn acceptor(self) -> T {
        self.tls
    }

    /// The batch size that listeners built from this builder use.
    pub closed spec fn batch_size(self) -> nat {
        self.accept_batch_size.value()
    }

    /// The handshake timeout that listeners built from this builder use.
    pub closed spec fn timeout(self) -> Duration {
        self.handshake_timeout
    }

    /// Set the size of batches of incoming connections to accept at once.
    ///
    /// When polling for a new connection, the listener first accepts at most this
    /// many incoming connections, starting a TLS handshake on each, before it
    /// checks whether any handshake has finished.
    pub fn accept_batch_size(&mut self, size: BatchSize) -> (r: &mut Self)
        ensures
            r.batch_size() == size.value(),
            r.acceptor() == old(self).acceptor(),
            r.timeout() == old(self).timeout(),
            *final(self) == *final(r),
    {
        self.accept_batch_size = size;
        self
    }

    /// Set the timeout for handshakes.
    ///
    /// A handshake that takes longer than `timeout` is aborted, and its
    /// connection dropped.
    pub fn handshake_timeout(&mut self, timeout: Duration) -> (r: &mut Self)
        ensures
            r.timeout() == timeout,
            r.acceptor() == old(self).acceptor(),
            r.batch_size() == old(self).batch_size(),
            *final(self) == *final(r),
    {
        self.handshake_timeout = timeout;
        self
    }

    /// Create a `TlsListener` from the builder, around `listener`, with a clone of
    /// the builder's acceptor and its batch size and timeout.
    pub fn listen<A>(&self, listener: A) -> (r: TlsListener<A, T>) where T: Clone
        ensures
            r.inner_listener() == listener,
            cloned(self.acceptor(), r.acceptor()),
            r.batch_size() == self.batch_size(),
            r.timeout() == self.timeout(),
    {
        TlsListener {
            listener,
            tls: self.tls.clone(),
            accept_batch_size: self.accept_batch_size,
            timeout: self.handshake_timeout,
        }
    }
}

/// Create a new builder for a TLS listener, with the default batch size and
/// handshake timeout.
///
/// `tls` will be used to configure the TLS sessions.
pub fn builder<T>(tls: T) -> (r: Builder<T>)
    ensures
        r.acceptor() == tls,
        r.batch_size() == DEFAULT_ACCEPT_BATCH_SIZE,
        r.timeout() == duration_from_secs(DEFAULT_HANDSHAKE_TIMEOUT_SECS),
{
    Builder {
        tls,
        accept_batch_size: BatchSize { size: DEFAULT_ACCEPT_BATCH_SIZE },
        handshake_timeout: secs(DEFAULT_HANDSHAKE_TIMEOUT_SECS),
    }
}

/// A listener of connections, each of which is encrypted using TLS.
///
/// It holds the underlying listener, the TLS acceptor used for new connections,
/// how many connections to accept in a batch, and how long a handshake may take.
pub struct TlsListener<A, T> {
    listener: A,
    tls: T,
    accept_batch_size: BatchSize,
    timeout: Duration,
}

impl<A, T> TlsListener<A, T> {
    /// The underlying listener.
    pub closed spec fn inner_listener(self) -> A {
        self.listener
    }

    /// The TLS acceptor used for new connections.
    pub closed spec fn acceptor(self) -> T {
        self.tls
    }

    /// The most connections accepted before finished handshakes are looked at.
    pub closed spec fn batch_size(self) -> nat {
        self.accept_batch_size.value()
    }

    /// How long a handshake may take.
    pub closed spec fn timeout(self) -> Duration {
        self.timeout
    }

    /// This listener with its acceptor replaced by `acceptor`.
    pub closed spec fn with_acceptor(self, acceptor: T) -> Self {
        TlsListener { tls: acceptor, ..self }
    }

    /// This listener after its acceptor was replaced by each of `acceptors` in turn.
    pub open spec fn after_replacements(self, acceptors: Seq<T>) -> Self
        decreases acceptors.len(),
    {
        if acceptors.len() == 0 {
            self
        } else {
            self.with_acceptor(acceptors[0]).after_replacements(acceptors.drop_first())
        }
    }

    /// Create a `TlsListener` with default options.
    pub fn new(tls: T, listener: A) -> (r: Self) where T: Clone
        ensures
            r.inner_listener() == listener,
            cloned(tls, r.acceptor()),
            r.batch_size() == DEFAULT_ACCEPT_BATCH_SIZE,
            r.timeout() == duration_from_secs(DEFAULT_HANDSHAKE_TIMEOUT_SECS),
    {
        builder(tls).listen(listener)
    }

    /// Replaces the TLS acceptor, which will be used for new connections.
    ///
    /// This can be used to change the certificate used at runtime.
    pub fn replace_acceptor(&mut self, acceptor: T)
        ensures
            *final(self) == old(self).with_acceptor(acceptor),
            final(self).acceptor() == acceptor,
            final(self).inner_listener() == old(self).inner_listener(),
            final(self).batch_size() == old(self).batch_size(),
            final(self).timeout() == old(self).timeout(),
    {
        self.tls = acceptor;
    }

    /// Get a reference to the underlying connection listener.
    pub fn listener(&self) -> (r: &A)
        ensures
            *r == self.inner_listener(),
    {
        &self.listener
    }

    /// Get a mutable reference to the underlying connection listener, to poll it.
    pub fn listener_mut(&mut self) -> (r: &mut A)
        ensures
            *r == old(self).inner_listener(),
            final(self).inner_listener() == *final(r),
            final(self).acceptor() == old(self).acceptor(),
            final(self).batch_size() == old(self).batch_size(),
            final(self).timeout() == old(self).timeout(),
    {
        &mut self.listener
    }

    /// The TLS acceptor used for new connections.
    pub fn tls(&self) -> (r: &T)
        ensures
            *r == self.acceptor(),
    {
        &self.tls
    }

    /// How long a handshake may take.
    pub fn handshake_timeout(&self) -> (r: Duration)
        ensures
            r == self.timeout(),
    {
        self.timeout
    }

    /// Begin one call that polls for the next connection: a fresh round whose
    /// batches have this listener's batch size.
    pub fn start_round(&self) -> (r: AcceptRound)
        ensures
            r@ == RoundState::fresh(self.batch_size()),
            r@.wf(),
    {
        AcceptRound::new(self.accept_batch_size.get())
    }
}

impl<A, T> TlsListener<WrappedAccept<A>, T> {
    /// Create a `TlsListener`, with default options, from a TLS acceptor and a
    /// listener that yields no peer addresses.
    pub fn new_hyper(tls: T, listener: A) -> (r: Self) where T: Clone
        ensures
            r.inner_listener().inner() == listener,
            cloned(tls, r.acceptor()),
            r.batch_size() == DEFAULT_ACCEPT_BATCH_SIZE,
            r.timeout() == duration_from_secs(DEFAULT_HANDSHAKE_TIMEOUT_SECS),
    {
        Self::new(tls, wrap(listener))
    }
}

/// The listener stays the one moved in: replacing the acceptor any number of
/// times keeps the underlying listener, the batch size and the timeout, and leaves
/// the last acceptor given in place.
pub proof fn lemma_listener_kept<A, T>(l: TlsListener<A, T>, acceptors: Seq<T>)
    ensures
        l.after_replacements(acceptors).inner_listener() == l.inner_listener(),
        l.after_replacements(acceptors).batch_size() == l.batch_size(),
        l.after_replacements(acceptors).timeout() == l.timeout(),
        acceptors.len() > 0 ==> l.after_replacements(acceptors).acceptor() == acceptors.last(),
        acceptors.len() == 0 ==> l.after_replacements(acceptors) == l,
    decreases acceptors.len(),
{
    if acceptors.len() > 0 {
        let next = l.with_acceptor(acceptors[0]);
        lemma_listener_kept(next, acceptors.drop_first());
        if acceptors.len() > 1 {
            assert(acceptors.drop_first().last() == acceptors.last());
        }
    }
}

/// The defaults: batches of 64 connections, and ten seconds for a handshake.
pub proof fn lemma_defaults()
    ensures
        DEFAULT_ACCEPT_BATCH_SIZE == 64,
        DEFAULT_HANDSHAKE_TIMEOUT_SECS == 10,
{
}

} // verus!
