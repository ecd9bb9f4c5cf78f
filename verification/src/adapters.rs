//! Thin wrappers around acceptors and listeners.
use std::ops::{Deref, DerefMut};
use vstd::prelude::*;

verus! {

/// An acceptor whose handshakes each run in a task of their own.
///
/// The wrapped acceptor does the handshake; this wrapper only asks for it to be
/// spawned, so that handshakes are spread over the threads of the runtime.
#[derive(Clone, Debug)]
pub struct SpawningHandshakes<T>(pub T);

/// An acceptor whose handshakes each run in a task of their own, made from
/// another acceptor and convertible back into it.
#[derive(Clone, Debug)]
pub struct ConcurrentHandshakeTls<T>(pub(crate) T);

impl<T> ConcurrentHandshakeTls<T> {
    /// The wrapped acceptor.
    pub closed spec fn inner(self) -> T {
        self.0
    }

    /// Wrap `tls` so that its handshakes run concurrently.
    pub fn new(tls: T) -> (r: Self)
        ensures
            r.inner() == tls,
    {
        ConcurrentHandshakeTls(tls)
    }

    /// A reference to the wrapped acceptor.
    pub fn get_ref(&self) -> (r: &T)
        ensures
            *r == self.inner(),
    {
        &self.0
    }

    /// Convert a `ConcurrentHandshakeTls` back into the inner type that it wraps.
    pub fn into_inner(self) -> (r: T)
        ensures
            r == self.inner(),
    {
        self.0
    }
}

/// A newtype around a listener of connections that yields no peer address.
pub struct WrappedAccept<A> {
    inner: A,
}

impl<A> WrappedAccept<A> {
    /// The wrapped listener.
    pub closed spec fn inner(self) -> A {
        self.inner
    }

    /// Convert to the object wrapped by this `WrappedAccept`.
    pub fn into_inner(self) -> (r: A)
        ensures
            r == self.inner(),
    {
        self.inner
    }
}

/// Wrap a listener as a `WrappedAccept`.
pub fn wrap<A>(acceptor: A) -> (r: WrappedAccept<A>)
    ensures
        r.inner() == acceptor,
{
    WrappedAccept { inner: acceptor }
}

impl<A> Deref for WrappedAccept<A> {
    type Target = A;

    fn deref(&self) -> (r: &A)
        ensures
            *r == self.inner(),
    {
        &self.inner
    }
}

impl<A> DerefMut for WrappedAccept<A> {
    fn deref_mut(&mut self) -> (r: &mut A)
        ensures
            *r == old(self).inner(),
            final(self).inner() == *final(r),
    {
        &mut self.inner
    }
}

} // verus!
