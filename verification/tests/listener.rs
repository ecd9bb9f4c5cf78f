use std::time::Duration;
use tls_listener::accept_error::{
    backoff_after_accept_error, backoff_for_kind, is_connection_error, is_connection_error_kind,
};
use tls_listener::{
    builder, wrap, AcceptRound, BatchSize, ConcurrentHandshakeTls, Error, HandshakeOutcome,
    HandshakePoll, ListenerPoll, ListenerStep, NextPoll, Outcome, PendingHandshakes,
    SpawningHandshakes, TlsListener, DEFAULT_ACCEPT_BATCH_SIZE,
};

type TestError = Error<std::io::Error, String, u32>;
type Step<C> = ListenerStep<C, TestError>;
type Done<S> = Option<Outcome<Result<(S, u32), TestError>>>;

#[test]
fn builder_defaults() {
    let listener = builder("acceptor").listen(7u32);
    assert_eq!(*listener.tls(), "acceptor");
    assert_eq!(*listener.listener(), 7u32);
    assert_eq!(listener.handshake_timeout(), Duration::from_secs(10));
    let round = listener.start_round();
    assert_eq!(DEFAULT_ACCEPT_BATCH_SIZE, 64);
    assert!(!round.is_finished());
}

#[test]
fn new_matches_builder_defaults() {
    let listener = TlsListener::new(5u8, "socket");
    assert_eq!(*listener.tls(), 5u8);
    assert_eq!(*listener.listener(), "socket");
    assert_eq!(listener.handshake_timeout(), Duration::from_secs(10));
}

#[test]
fn batch_size_is_never_zero() {
    assert!(BatchSize::new(0).is_none());
    assert_eq!(BatchSize::new(3).unwrap().get(), 3);
}

#[test]
fn builder_setters() {
    let mut b = builder(1u8);
    b.accept_batch_size(BatchSize::new(2).unwrap())
        .handshake_timeout(Duration::from_millis(250));
    let mut listener = b.listen(());
    assert_eq!(listener.handshake_timeout(), Duration::from_millis(250));
    // A batch of two: two accepted connections, then the handshakes are polled.
    let mut pending = PendingHandshakes::new();
    let mut round = listener.start_round();
    assert!(round.next_poll() == NextPoll::Listener);
    let _: Step<u8> = round.on_listener(&mut pending, ListenerPoll::Accepted(1u8, 1u32));
    assert!(round.next_poll() == NextPoll::Listener);
    let _: Step<u8> = round.on_listener(&mut pending, ListenerPoll::Accepted(2u8, 2u32));
    assert!(round.next_poll() == NextPoll::Handshakes);
    listener.replace_acceptor(9u8);
    assert_eq!(*listener.tls(), 9u8);
    assert_eq!(*listener.listener(), ());
    assert_eq!(listener.handshake_timeout(), Duration::from_millis(250));
}

#[test]
fn round_accepts_until_listener_empty() {
    let mut pending = PendingHandshakes::new();
    let mut round = AcceptRound::new(3);
    let step: Step<&str> = round.on_listener(&mut pending, ListenerPoll::Accepted("conn", 42u32));
    let ticket = match step {
        ListenerStep::StartHandshake(c, t) => {
            assert_eq!(c, "conn");
            t
        }
        _ => panic!("expected a handshake to start"),
    };
    assert!(pending.is_pending(ticket));
    assert!(round.next_poll() == NextPoll::Listener);
    let step: Step<&str> = round.on_listener(&mut pending, ListenerPoll::Pending);
    assert!(matches!(step, ListenerStep::Continue));
    assert!(round.next_poll() == NextPoll::Handshakes);
    let out: Done<()> = round.on_handshakes(&mut pending, HandshakePoll::Pending);
    assert!(matches!(out, Some(Outcome::Pending)));
    assert!(round.is_finished());
    assert!(pending.is_pending(ticket));
}

#[test]
fn round_returns_finished_handshake_with_its_address() {
    let mut pending = PendingHandshakes::new();
    let mut round = AcceptRound::new(2);
    let t1 = match round.on_listener::<u8, u32, std::io::Error, String>(
        &mut pending,
        ListenerPoll::Accepted(1u8, 42u32),
    ) {
        ListenerStep::StartHandshake(_, t) => t,
        _ => panic!("expected a handshake to start"),
    };
    let t2 = match round.on_listener::<u8, u32, std::io::Error, String>(
        &mut pending,
        ListenerPoll::Accepted(2u8, 43u32),
    ) {
        ListenerStep::StartHandshake(_, t) => t,
        _ => panic!("expected a handshake to start"),
    };
    assert_ne!(t1, t2);
    // The second handshake finishes first and is reported with its own address.
    let out: Done<&str> = round.on_handshakes(
        &mut pending,
        HandshakePoll::Finished((t2, HandshakeOutcome::Established("second"))),
    );
    match out {
        Some(Outcome::Ready(Ok((s, a)))) => {
            assert_eq!(s, "second");
            assert_eq!(a, 43);
        }
        _ => panic!("expected the second connection"),
    }
    assert!(round.is_finished());
    assert!(!pending.is_pending(t2));
    assert!(pending.is_pending(t1));
    // The first one is reported by a later call, with its address.
    let mut round = AcceptRound::new(2);
    let _: Step<u8> = round.on_listener(&mut pending, ListenerPoll::Pending);
    let out: Done<&str> =
        round.on_handshakes(&mut pending, HandshakePoll::Finished((t1, HandshakeOutcome::TimedOut)));
    match out {
        Some(Outcome::Ready(Err(e))) => {
            assert_eq!(e.peer_addr(), Some(&42));
            assert!(matches!(e, Error::HandshakeTimeout { peer_addr: 42 }));
        }
        _ => panic!("expected a timeout"),
    }
    assert!(!pending.is_pending(t1));
}

#[test]
fn round_starts_new_batch_when_listener_busy() {
    let mut pending = PendingHandshakes::new();
    let mut round = AcceptRound::new(1);
    let _: Step<u8> = round.on_listener(&mut pending, ListenerPoll::Accepted(1u8, 42u32));
    let out: Done<()> = round.on_handshakes(&mut pending, HandshakePoll::Exhausted);
    assert!(out.is_none());
    assert!(!round.is_finished());
    assert!(round.next_poll() == NextPoll::Listener);
}

#[test]
fn round_listener_error_keeps_pending_handshakes() {
    let mut pending = PendingHandshakes::new();
    let mut round = AcceptRound::new(4);
    let t = match round.on_listener::<u8, u32, std::io::Error, String>(
        &mut pending,
        ListenerPoll::Accepted(1u8, 42u32),
    ) {
        ListenerStep::StartHandshake(_, t) => t,
        _ => panic!("expected a handshake to start"),
    };
    let err = std::io::Error::new(std::io::ErrorKind::ConnectionReset, "test");
    let step: Step<u8> = round.on_listener(&mut pending, ListenerPoll::Failed(err));
    match step {
        ListenerStep::Fail(Error::ListenerError(e)) => {
            assert_eq!(e.kind(), std::io::ErrorKind::ConnectionReset);
        }
        _ => panic!("expected a listener error"),
    }
    assert!(round.is_finished());
    assert!(pending.is_pending(t));
}

#[test]
fn pending_handshakes_tickets() {
    let mut pending = PendingHandshakes::new();
    let a = pending.start(10u32);
    let b = pending.start(11u32);
    assert_ne!(a, b);
    assert_eq!(pending.take(a), Some(10));
    assert_eq!(pending.take(a), None);
    let c = pending.start(12u32);
    assert_ne!(c, b);
    let res: Option<Result<((), u32), TestError>> =
        pending.finish(b, HandshakeOutcome::Failed("bad certificate".to_string()));
    match res {
        Some(Err(e)) => {
            assert_eq!(e.peer_addr(), Some(&11));
            match e {
                Error::TlsAcceptError { error, peer_addr } => {
                    assert_eq!(error, "bad certificate");
                    assert_eq!(peer_addr, 11);
                }
                _ => panic!("expected a TLS accept error"),
            }
        }
        _ => panic!("expected an error"),
    }
    let again: Option<Result<((), u32), TestError>> = pending.finish(b, HandshakeOutcome::TimedOut);
    assert!(again.is_none());
    let ok: Option<Result<(&str, u32), TestError>> =
        pending.finish(c, HandshakeOutcome::Established("stream"));
    assert!(matches!(ok, Some(Ok(("stream", 12)))));
    assert!(pending.has_room());
}

#[test]
fn listener_error_has_no_peer() {
    let e: TestError = Error::ListenerError(std::io::Error::new(std::io::ErrorKind::Other, "x"));
    assert_eq!(e.peer_addr(), None);
}

#[test]
fn connection_errors() {
    for kind in [
        std::io::ErrorKind::ConnectionRefused,
        std::io::ErrorKind::ConnectionAborted,
        std::io::ErrorKind::ConnectionReset,
    ] {
        let e = std::io::Error::new(kind, "test");
        assert!(is_connection_error(&e));
        assert_eq!(backoff_after_accept_error(&e), None);
        assert!(is_connection_error_kind(kind));
        assert_eq!(backoff_for_kind(kind), None);
    }
    for kind in [std::io::ErrorKind::Other, std::io::ErrorKind::TimedOut] {
        let e = std::io::Error::new(kind, "too many open files");
        assert!(!is_connection_error(&e));
        assert_eq!(backoff_after_accept_error(&e), Some(Duration::from_secs(1)));
        assert!(!is_connection_error_kind(kind));
        assert_eq!(backoff_for_kind(kind), Some(Duration::from_secs(1)));
    }
}

#[test]
fn adapters() {
    let w = wrap(5u8);
    assert_eq!(*w, 5u8);
    assert_eq!(w.into_inner(), 5u8);
    let mut w = wrap(1u8);
    *w = 3;
    assert_eq!(w.into_inner(), 3);
    let c = ConcurrentHandshakeTls::new("tls");
    assert_eq!(*c.get_ref(), "tls");
    assert_eq!(c.clone().into_inner(), "tls");
    let s = SpawningHandshakes(7u8);
    assert_eq!(s.0, 7);
    let l = TlsListener::new_hyper(1u8, 2u8);
    assert_eq!(**l.listener(), 2u8);
}

#[test]
fn wrappers_give_back_what_they_wrap() {
    assert_eq!(wrap("listener").into_inner(), "listener");
    assert_eq!(ConcurrentHandshakeTls::new(11u8).into_inner(), 11u8);
}
