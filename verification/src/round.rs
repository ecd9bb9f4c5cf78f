//! The decisions of one call that polls a TLS listener for its next connection.
//!
//! A call first accepts up to a batch of new connections from the underlying
//! listener, starting a TLS handshake for each, then checks whether any handshake
//! has finished. It repeats this until a handshake result is ready, the listener
//! fails, or the listener has nothing waiting and no handshake is ready.
//!
//! `AcceptRound` holds the state of one such call. The caller performs each poll
//! and hands back what the poll gave; the round says what to do next.
use crate::error::Error;
use crate::handshake::{handshake_result, HandshakeOutcome, PendingHandshakes};
use vstd::prelude::*;

verus! {

/// What a poll of the underlying listener gave.
pub enum ListenerPoll<C, Addr, LE> {
    /// No connection is waiting.
    Pending,
    /// A new connection and the address of its peer.
    Accepted(C, Addr),
    /// The listener failed.
    Failed(LE),
}

/// What a poll of the set of pending handshakes gave.
pub enum HandshakePoll<R> {
    /// A handshake finished with this result.
    Finished(R),
    /// No handshake is pending at all.
    Exhausted,
    /// Handshakes are pending, none has finished.
    Pending,
}

/// Which source the round wants polled next.
#[derive(PartialEq, Eq, Structural, Clone, Copy)]
pub enum NextPoll {
    /// The underlying listener.
    Listener,
    /// The set of pending handshakes.
    Handshakes,
}

/// What to do after a poll of the listener.
pub enum ListenerStep<C, E> {
    /// Nothing to do; ask the round what to poll next.
    Continue,
    /// Start a TLS handshake on this connection; its peer address is recorded
    /// among the pending handshakes under this ticket.
    StartHandshake(C, usize),
    /// Stop and return this error.
    Fail(E),
}

/// The result of a whole call.
pub enum Outcome<R> {
    /// A result is ready.
    Ready(R),
    /// Nothing is ready; the call must be made again later.
    Pending,
}

/// The kinds of listener polls, without the values they carry.
#[derive(PartialEq, Eq, Structural, Clone, Copy)]
pub enum ListenerKind {
    /// The listener had nothing waiting.
    Pending,
    /// The listener gave a connection.
    Accepted,
    /// The listener failed.
    Failed,
}

impl<C, Addr, LE> ListenerPoll<C, Addr, LE> {
    /// The kind of this poll.
    pub open spec fn kind(self) -> ListenerKind {
        match self {
            ListenerPoll::Pending => ListenerKind::Pending,
            ListenerPoll::Accepted(_, _) => ListenerKind::Accepted,
            ListenerPoll::Failed(_) => ListenerKind::Failed,
        }
    }
}

/// The abstract state of a round.
pub struct RoundState {
    /// The most connections accepted before the handshakes are polled.
    pub batch_size: nat,
    /// Connections accepted in the current batch.
    pub accepted: nat,
    /// Whether the listener had nothing waiting during the current batch.
    pub listener_empty: bool,
    /// Whether the round has produced its outcome.
    pub finished: bool,
}

impl RoundState {
    /// A round state is consistent: the batch is not empty and not overrun.
    pub open spec fn wf(self) -> bool {
        &&& self.batch_size > 0
        &&& self.accepted <= self.batch_size
    }

    /// The state at the start of a call, or of a new batch within one.
    pub open spec fn fresh(batch_size: nat) -> RoundState {
        RoundState { batch_size, accepted: 0, listener_empty: false, finished: false }
    }

    /// Which source is polled next: the listener while it may still have
    /// connections and the batch is not full, otherwise the handshakes.
    pub open spec fn next_poll(self) -> NextPoll {
        if !self.listener_empty && self.accepted < self.batch_size {
            NextPoll::Listener
        } else {
            NextPoll::Handshakes
        }
    }

    /// The state after the listener was polled.
    pub open spec fn after_listener(self, kind: ListenerKind) -> RoundState {
        match kind {
            ListenerKind::Pending => RoundState { listener_empty: true, ..self },
            ListenerKind::Accepted => RoundState { accepted: self.accepted + 1, ..self },
            ListenerKind::Failed => RoundState { finished: true, ..self },
        }
    }

    /// The state after the handshakes were polled: a finished handshake or an
    /// empty listener ends the round, otherwise a new batch begins.
    pub open spec fn after_handshakes(self, handshake_ready: bool) -> RoundState {
        if handshake_ready || self.listener_empty {
            RoundState { finished: true, ..self }
        } else {
            RoundState::fresh(self.batch_size)
        }
    }

    /// Whether a sequence of listener polls can all be made, one after the other,
    /// from this state without the handshakes being polled in between.
    pub open spec fn listener_run(self, kinds: Seq<ListenerKind>) -> bool
        decreases kinds.len(),
    {
        if kinds.len() == 0 {
            true
        } else {
            &&& !self.finished
            &&& self.next_poll() == NextPoll::Listener
            &&& self.after_listener(kinds[0]).listener_run(kinds.drop_first())
        }
    }
}

/// The state of one call that polls for the next TLS connection.
pub struct AcceptRound {
    batch_size: usize,
    accepted: usize,
    listener_empty: bool,
    finished: bool,
}

impl View for AcceptRound {
    type V = RoundState;

    closed spec fn view(&self) -> RoundState {
        RoundState {
            batch_size: self.batch_size as nat,
            accepted: self.accepted as nat,
            listener_empty: self.listener_empty,
            finished: self.finished,
        }
    }
}

impl AcceptRound {
    /// Begin a call that accepts at most `batch_size` connections between two
    /// polls of the pending handshakes.
    pub fn new(batch_size: usize) -> (r: AcceptRound)
        requires
            batch_size > 0,
        ensures
            r@ == RoundState::fresh(batch_size as nat),
            r@.wf(),
    {
        AcceptRound { batch_size, accepted: 0, listener_empty: false, finished: false }
    }

    /// Whether the round has produced its outcome.
    pub fn is_finished(&self) -> (r: bool)
        ensures
            r == self@.finished,
    {
        self.finished
    }

    /// Which source to poll next.
    pub fn next_poll(&self) -> (r: NextPoll)
        ensures
            r == self@.next_poll(),
    {
        if !self.listener_empty && self.accepted < self.batch_size {
            NextPoll::Listener
        } else {
            NextPoll::Handshakes
        }
    }

    /// Take in what a poll of the listener gave.
    ///
    /// A new connection starts a handshake: its peer address is recorded among the
    /// pending handshakes under a fresh ticket. A listener error ends the call with
    /// that error, and an empty listener ends the batch; neither touches the
    /// pending handshakes.
    pub fn on_listener<C, Addr, LE, TE>(
        &mut self,
        pending: &mut PendingHandshakes<Addr>,
        poll: ListenerPoll<C, Addr, LE>,
    ) -> (r: ListenerStep<C, Error<LE, TE, Addr>>)
        requires
            old(self)@.wf(),
            !old(self)@.finished,
            old(self)@.next_poll() == NextPoll::Listener,
            old(pending).wf(),
            poll is Accepted ==> old(pending).slots_room(),
        ensures
            final(self)@ == old(self)@.after_listener(poll.kind()),
            final(self)@.wf(),
            final(pending).wf(),
            match poll {
                ListenerPoll::Pending => {
                    &&& r is Continue
                    &&& *final(pending) == *old(pending)
                },
                ListenerPoll::Accepted(c, a) => {
                    &&& r matches ListenerStep::StartHandshake(c2, t) && c2 == c
                        && !old(pending)@.contains_key(t)
                        && final(pending)@ == old(pending)@.insert(t, a)
                },
                ListenerPoll::Failed(e) => {
                    &&& r == ListenerStep::<C, Error<LE, TE, Addr>>::Fail(Error::ListenerError(e))
                    &&& *final(pending) == *old(pending)
                },
            },
    {
        match poll {
            ListenerPoll::Pending => {
                self.listener_empty = true;
                ListenerStep::Continue
            },
            ListenerPoll::Accepted(conn, addr) => {
                self.accepted = self.accepted + 1;
                let ticket = pending.start(addr);
                ListenerStep::StartHandshake(conn, ticket)
            },
            ListenerPoll::Failed(e) => {
                self.finished = true;
                ListenerStep::Fail(Error::ListenerError(e))
            },
        }
    }

    /// Take in what a poll of the pending handshakes gave.
    ///
    /// A finished handshake, known by its ticket, is the outcome of the call: its
    /// result names the peer recorded when it started, and it leaves the pending
    /// handshakes. Otherwise the call is pending if the listener had nothing
    /// waiting, and a new batch begins if it may have more (`None`).
    pub fn on_handshakes<S, Addr, LE, TE>(
        &mut self,
        pending: &mut PendingHandshakes<Addr>,
        poll: HandshakePoll<(usize, HandshakeOutcome<S, TE>)>,
    ) -> (r: Option<Outcome<Result<(S, Addr), Error<LE, TE, Addr>>>>)
        requires
            old(self)@.wf(),
            !old(self)@.finished,
            old(self)@.next_poll() == NextPoll::Handshakes,
            old(pending).wf(),
            poll matches HandshakePoll::Finished((t, _)) ==> old(pending)@.contains_key(t),
        ensures
            final(self)@ == old(self)@.after_handshakes(poll is Finished),
            final(self)@.wf(),
            final(pending).wf(),
            match poll {
                HandshakePoll::Finished((t, o)) => {
                    &&& r == Some(Outcome::Ready(handshake_result::<S, LE, TE, Addr>(o, old(pending)@[t])))
                    &&& final(pending)@ == old(pending)@.remove(t)
                    &&& final(pending).slots_room()
                },
                _ => {
                    &&& *final(pending) == *old(pending)
                    &&& if old(self)@.listener_empty {
                        r == Some(Outcome::<Result<(S, Addr), Error<LE, TE, Addr>>>::Pending)
                    } else {
                        r is None
                    }
                },
            },
    {
        match poll {
            HandshakePoll::Finished((ticket, outcome)) => {
                self.finished = true;
                match pending.finish(ticket, outcome) {
                    Some(res) => Some(Outcome::Ready(res)),
                    None => vstd::pervasive::unreached(),
                }
            },
            _ => {
                if self.listener_empty {
                    self.finished = true;
                    Some(Outcome::Pending)
                } else {
                    self.accepted = 0;
                    self.listener_empty = false;
                    None
                }
            },
        }
    }
}

/// Every step of a round keeps its state consistent: from a consistent state in
/// which a poll may be made, the state after that poll is consistent again.
pub proof fn lemma_round_steps_keep_wf(s: RoundState, kind: ListenerKind, handshake_ready: bool)
    requires
        s.wf(),
        !s.finished,
    ensures
        s.next_poll() == NextPoll::Listener ==> s.after_listener(kind).wf(),
        s.next_poll() == NextPoll::Handshakes ==> s.after_handshakes(handshake_ready).wf(),
{
}

/// Batching: between two polls of the pending handshakes, the listener is polled
/// at most as many times as the batch has room for, so no more than the batch
/// size of connections is accepted before finished handshakes are looked at.
pub proof fn lemma_batch_bound(s: RoundState, kinds: Seq<ListenerKind>)
    requires
        s.wf(),
        s.listener_run(kinds),
    ensures
        kinds.len() <= s.batch_size - s.accepted,
    decreases kinds.len(),
{
    if kinds.len() > 0 {
        let t = s.after_listener(kinds[0]);
        lemma_batch_bound(t, kinds.drop_first());
    }
}

/// A call only ends pending when, in its last batch, the listener had nothing
/// waiting and no handshake had finished; while the listener may have more
/// connections, an idle poll of the handshakes starts a fresh batch instead.
pub proof fn lemma_pending_only_when_idle(s: RoundState, handshake_ready: bool)
    requires
        s.wf(),
        !s.finished,
        s.next_poll() == NextPoll::Handshakes,
    ensures
        !handshake_ready && s.listener_empty ==> s.after_handshakes(handshake_ready).finished,
        !handshake_ready && !s.listener_empty ==> s.after_handshakes(handshake_ready) == RoundState::fresh(s.batch_size),
        s.after_handshakes(handshake_ready).finished ==> handshake_ready || s.listener_empty,
{
}

/// A full batch hands over to the handshakes: once the batch size of connections
/// has been accepted, the next poll is of the pending handshakes.
pub proof fn lemma_full_batch_polls_handshakes(s: RoundState)
    requires
        s.wf(),
        s.accepted == s.batch_size,
    ensures
        s.next_poll() == NextPoll::Handshakes,
{
}

/// An idle listener does not spin: a call whose first listener poll finds nothing
/// waiting polls the handshakes once and, if none has finished, ends pending.
pub proof fn lemma_idle_call_is_pending(batch_size: nat)
    requires
        batch_size > 0,
    ensures
        RoundState::fresh(batch_size).next_poll() == NextPoll::Listener,
        RoundState::fresh(batch_size).after_listener(ListenerKind::Pending).next_poll()
            == NextPoll::Handshakes,
        RoundState::fresh(batch_size).after_listener(ListenerKind::Pending).after_handshakes(
            false,
        ).finished,
{
}

/// The listener is polled exactly while it may still have connections and the
/// batch has room: the next poll is of the listener if and only if, in the current
/// batch, the listener has not reported that nothing is waiting and fewer than the
/// batch size of connections have been accepted.
pub proof fn lemma_next_poll_is_listener_exactly_while_batch_open(s: RoundState)
    ensures
        (s.next_poll() == NextPoll::Listener) <==> (!s.listener_empty && s.accepted
            < s.batch_size),
        (s.next_poll() == NextPoll::Handshakes) <==> (s.listener_empty || s.accepted
            >= s.batch_size),
{
}

/// What each listener poll changes: an accepted connection only counts one more
/// accept in the batch (it never marks the listener empty or ends the call); a
/// `Pending` only marks the listener empty; a failure only ends the call.
pub proof fn lemma_listener_poll_effects(s: RoundState)
    ensures
        s.after_listener(ListenerKind::Accepted).accepted == s.accepted + 1,
        s.after_listener(ListenerKind::Accepted).listener_empty == s.listener_empty,
        s.after_listener(ListenerKind::Accepted).finished == s.finished,
        s.after_listener(ListenerKind::Accepted).batch_size == s.batch_size,
        s.after_listener(ListenerKind::Pending).listener_empty,
        s.after_listener(ListenerKind::Pending).accepted == s.accepted,
        s.after_listener(ListenerKind::Pending).finished == s.finished,
        s.after_listener(ListenerKind::Pending).batch_size == s.batch_size,
        s.after_listener(ListenerKind::Failed).finished,
        s.after_listener(ListenerKind::Failed).accepted == s.accepted,
        s.after_listener(ListenerKind::Failed).listener_empty == s.listener_empty,
        s.after_listener(ListenerKind::Failed).batch_size == s.batch_size,
{
}

/// The state after a sequence of listener polls.
pub open spec fn after_listener_polls(s: RoundState, kinds: Seq<ListenerKind>) -> RoundState
    decreases kinds.len(),
{
    if kinds.len() == 0 {
        s
    } else {
        after_listener_polls(s.after_listener(kinds[0]), kinds.drop_first())
    }
}

/// The listener counts as empty only after it said so: over any sequence of
/// listener polls none of which reported `Pending`, the round's view of whether
/// the listener is empty does not change, and each accepted connection is counted.
pub proof fn lemma_empty_only_after_listener_pending(s: RoundState, kinds: Seq<ListenerKind>)
    requires
        !kinds.contains(ListenerKind::Pending),
    ensures
        after_listener_polls(s, kinds).listener_empty == s.listener_empty,
        after_listener_polls(s, kinds).batch_size == s.batch_size,
        !kinds.contains(ListenerKind::Failed) ==> after_listener_polls(s, kinds).accepted
            == s.accepted + kinds.len(),
        !kinds.contains(ListenerKind::Failed) ==> after_listener_polls(s, kinds).finished
            == s.finished,
    decreases kinds.len(),
{
    if kinds.len() > 0 {
        assert(kinds[0] != ListenerKind::Pending);
        assert(!kinds.drop_first().contains(ListenerKind::Pending)) by {
            if kinds.drop_first().contains(ListenerKind::Pending) {
                let k = choose|k: int|
                    0 <= k < kinds.drop_first().len() && kinds.drop_first()[k]
                        == ListenerKind::Pending;
                assert(kinds[k + 1] == ListenerKind::Pending);
            }
        }
        if !kinds.contains(ListenerKind::Failed) {
            assert(kinds[0] != ListenerKind::Failed);
            assert(kinds[0] == ListenerKind::Accepted);
            assert(!kinds.drop_first().contains(ListenerKind::Failed)) by {
                if kinds.drop_first().contains(ListenerKind::Failed) {
                    let k = choose|k: int|
                        0 <= k < kinds.drop_first().len() && kinds.drop_first()[k]
                            == ListenerKind::Failed;
                    assert(kinds[k + 1] == ListenerKind::Failed);
                }
            }
        }
        lemma_empty_only_after_listener_pending(s.after_listener(kinds[0]), kinds.drop_first());
    }
}

/// `n` listener polls in a row that each gave a connection.
pub open spec fn accepts(n: nat) -> Seq<ListenerKind> {
    Seq::new(n, |i: int| ListenerKind::Accepted)
}

/// The batch size is honoured: from a state with room for `n` more accepts and a
/// listener not known to be empty, `n` accepted connections in a row can all be
/// taken from the listener without the handshakes being polled in between.
pub proof fn lemma_batch_can_fill(s: RoundState, n: nat)
    requires
        !s.finished,
        !s.listener_empty,
        s.accepted + n <= s.batch_size,
    ensures
        s.listener_run(accepts(n)),
    decreases n,
{
    let kinds = accepts(n);
    if n > 0 {
        lemma_next_poll_is_listener_exactly_while_batch_open(s);
        lemma_listener_poll_effects(s);
        let t = s.after_listener(ListenerKind::Accepted);
        lemma_batch_can_fill(t, (n - 1) as nat);
        assert(kinds.drop_first() =~= accepts((n - 1) as nat));
    }
}

/// A fresh call accepts a full batch: exactly the batch size of connections can be
/// accepted before the handshakes are first polled, and then they are polled.
pub proof fn lemma_fresh_round_accepts_full_batch(batch_size: nat)
    requires
        batch_size > 0,
    ensures
        RoundState::fresh(batch_size).listener_run(
            accepts(batch_size),
        ),
        after_listener_polls(
            RoundState::fresh(batch_size),
            accepts(batch_size),
        ).next_poll() == NextPoll::Handshakes,
{
    let kinds = accepts(batch_size);
    lemma_batch_can_fill(RoundState::fresh(batch_size), batch_size);
    assert(!kinds.contains(ListenerKind::Pending));
    assert(!kinds.contains(ListenerKind::Failed));
    lemma_empty_only_after_listener_pending(RoundState::fresh(batch_size), kinds);
    let f = after_listener_polls(RoundState::fresh(batch_size), kinds);
    assert(kinds.len() == batch_size);
    assert(f.accepted == batch_size);
    assert(f.batch_size == batch_size);
    lemma_next_poll_is_listener_exactly_while_batch_open(
        after_listener_polls(RoundState::fresh(batch_size), kinds),
    );
}

/// What a poll of the handshakes changes: a finished handshake or a listener known
/// to be empty ends the call; otherwise a new batch begins, with no accepts counted
/// and the listener again not known to be empty.
pub proof fn lemma_handshake_poll_effects(s: RoundState, handshake_ready: bool)
    ensures
        s.after_handshakes(handshake_ready).finished <==> (handshake_ready || s.listener_empty),
        !handshake_ready && !s.listener_empty ==> {
            &&& s.after_handshakes(handshake_ready).accepted == 0
            &&& !s.after_handshakes(handshake_ready).listener_empty
            &&& s.after_handshakes(handshake_ready).batch_size == s.batch_size
        },
{
}

} // verus!
