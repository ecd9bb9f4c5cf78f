//! What to do when the underlying listener fails to accept a connection.
use crate::std_items::{duration_from_secs, secs};
use std::time::Duration;
use vstd::prelude::*;

verus! {

/// `std::io::Error`, carried as an opaque value.
#[verifier::external_type_specification]
#[verifier::external_body]
pub struct ExIoError(std::io::Error);

/// `std::io::ErrorKind`, with its variants visible.
#[verifier::external_type_specification]
pub struct ExIoErrorKind(std::io::ErrorKind);

/// The kind of an I/O error, as `std::io::Error::kind` reports it.
pub uninterp spec fn io_kind(e: std::io::Error) -> std::io::ErrorKind;

/// Calls `std::io::Error::kind`. Trusted: the result is the error's kind, a
/// function of the error alone, named `io_kind`.
#[verifier::external_body]
fn kind_of(e: &std::io::Error) -> (r: std::io::ErrorKind)
    ensures
        r == io_kind(*e),
{
    e.kind()
}

/// Whether a kind of error concerns only the one connection being accepted: the
/// peer refused, aborted or reset it.
pub open spec fn is_connection_kind(kind: std::io::ErrorKind) -> bool {
    ||| kind matches std::io::ErrorKind::ConnectionRefused
    ||| kind matches std::io::ErrorKind::ConnectionAborted
    ||| kind matches std::io::ErrorKind::ConnectionReset
}

/// How long to wait before accepting again after a listener error that is not
/// about a single connection, in seconds.
pub const ACCEPT_ERROR_BACKOFF_SECS: u64 = 1;

/// Whether an error of this kind concerns only the one connection being accepted
/// (refused, aborted or reset), so that accepting may go on at once.
pub fn is_connection_error_kind(kind: std::io::ErrorKind) -> (r: bool)
    ensures
        r == is_connection_kind(kind),
{
    match kind {
        std::io::ErrorKind::ConnectionRefused => true,
        std::io::ErrorKind::ConnectionAborted => true,
        std::io::ErrorKind::ConnectionReset => true,
        _ => false,
    }
}

/// Whether an accept error concerns only the one connection being accepted.
pub fn is_connection_error(e: &std::io::Error) -> (r: bool)
    ensures
        r == is_connection_kind(io_kind(*e)),
{
    is_connection_error_kind(kind_of(e))
}

/// How long to wait before accepting again after an error of this kind: not at
/// all for an error about a single connection, otherwise the back-off, since the
/// cause (such as running out of file descriptors) may pass.
pub fn backoff_for_kind(kind: std::io::ErrorKind) -> (r: Option<Duration>)
    ensures
        r == if is_connection_kind(kind) {
            None
        } else {
            Some(duration_from_secs(ACCEPT_ERROR_BACKOFF_SECS))
        },
{
    if is_connection_error_kind(kind) {
        None
    } else {
        Some(secs(ACCEPT_ERROR_BACKOFF_SECS))
    }
}

/// How long to wait before accepting again after the listener failed with `e`.
pub fn backoff_after_accept_error(e: &std::io::Error) -> (r: Option<Duration>)
    ensures
        r == if is_connection_kind(io_kind(*e)) {
            None
        } else {
            Some(duration_from_secs(ACCEPT_ERROR_BACKOFF_SECS))
        },
{
    backoff_for_kind(kind_of(e))
}

/// Exactly three kinds of error concern a single connection: refused, aborted and
/// reset by the peer. Every other kind (running out of memory or of file
/// descriptors, say) is met with the back-off.
pub proof fn lemma_connection_kinds_exactly(kind: std::io::ErrorKind)
    ensures
        is_connection_kind(kind) <==> (kind == std::io::ErrorKind::ConnectionRefused || kind
            == std::io::ErrorKind::ConnectionAborted || kind
            == std::io::ErrorKind::ConnectionReset),
        kind == std::io::ErrorKind::OutOfMemory ==> !is_connection_kind(kind),
        kind == std::io::ErrorKind::Other ==> !is_connection_kind(kind),
        ACCEPT_ERROR_BACKOFF_SECS == 1,
{
}

} // verus!
