//! The TLS handshakes in progress, and turning the end of one into the result
//! handed to the caller.
use crate::error::Error;
use vstd::prelude::*;

verus! {

/// How a TLS handshake, run under a timeout, ended.
pub enum HandshakeOutcome<S, TE> {
    /// The handshake succeeded and gave this TLS stream.
    Established(S),
    /// The handshake failed with this error.
    Failed(TE),
    /// The handshake did not finish before the timeout.
    TimedOut,
}

/// The result for a connection from `peer_addr` whose handshake ended in `outcome`:
/// the stream with the address on success, otherwise an error that carries the
/// address.
pub open spec fn handshake_result<S, LE, TE, Addr>(
    outcome: HandshakeOutcome<S, TE>,
    peer_addr: Addr,
) -> Result<(S, Addr), Error<LE, TE, Addr>> {
    match outcome {
        HandshakeOutcome::Established(stream) => Ok((stream, peer_addr)),
        HandshakeOutcome::Failed(error) => Err(Error::TlsAcceptError { error, peer_addr }),
        HandshakeOutcome::TimedOut => Err(Error::HandshakeTimeout { peer_addr }),
    }
}

/// The handshakes in progress, each known by a ticket and holding the address of
/// its peer until it ends.
///
/// The handshakes themselves run elsewhere; this set pairs each one with the
/// connection it was started for, so that its result names the right peer and is
/// handed out once.
pub struct PendingHandshakes<Addr> {
    slots: Vec<Option<Addr>>,
    free: Vec<usize>,
}

impl<Addr> View for PendingHandshakes<Addr> {
    type V = Map<usize, Addr>;

    /// The tickets of the handshakes in progress, each with its peer address.
    closed spec fn view(&self) -> Map<usize, Addr> {
        Map::new(
            |t: usize| t < self.slots@.len() && self.slots@[t as int] is Some,
            |t: usize| self.slots@[t as int]->0,
        )
    }
}

impl<Addr> PendingHandshakes<Addr> {
    /// The set is consistent: the free tickets are exactly the empty slots, each
    /// listed once.
    pub closed spec fn wf(self) -> bool {
        &&& self.free@.no_duplicates()
        &&& forall|k: int|
            0 <= k < self.free@.len() ==> {
                &&& #[trigger] self.free@[k] < self.slots@.len()
                &&& self.slots@[self.free@[k] as int] is None
            }
        &&& forall|i: usize|
            i < self.slots@.len() && #[trigger] self.slots@[i as int] is None ==> self.free@.contains(i)
    }

    /// An empty set of handshakes.
    pub fn new() -> (r: PendingHandshakes<Addr>)
        ensures
            r@ == Map::<usize, Addr>::empty(),
            r.wf(),
            r.slots_room(),
    {
        let r = PendingHandshakes { slots: Vec::new(), free: Vec::new() };
        assert(r@ =~= Map::<usize, Addr>::empty());
        r
    }

    /// Whether the handshake with ticket `ticket` is in progress.
    pub fn is_pending(&self, ticket: usize) -> (r: bool)
        ensures
            r == self@.contains_key(ticket),
    {
        ticket < self.slots.len() && self.slots[ticket].is_some()
    }

    /// Record a new handshake with the peer at `peer_addr`, giving it a ticket that
    /// no handshake in progress holds.
    pub fn start(&mut self, peer_addr: Addr) -> (ticket: usize)
        requires
            old(self).wf(),
            old(self).slots_room(),
        ensures
            final(self).wf(),
            !old(self)@.contains_key(ticket),
            final(self)@ == old(self)@.insert(ticket, peer_addr),
    {
        let ghost before = self.slots@;
        match self.free.pop() {
            Some(t) => {
                proof {
                    assert(self.free@ =~= old(self).free@.drop_last());
                    assert(old(self).free@[old(self).free@.len() - 1] == t);
                    assert forall|k: int| 0 <= k < self.free@.len() implies #[trigger] self.free@[k] != t by {
                        assert(old(self).free@[k] == self.free@[k]);
                    }
                }
                self.slots.set(t, Some(peer_addr));
                proof {
                    assert(self@ =~= old(self)@.insert(t, peer_addr));
                    assert forall|i: usize|
                        i < self.slots@.len() && #[trigger] self.slots@[i as int] is None implies self.free@.contains(i) by {
                        assert(i != t);
                                                assert(old(self).free@[old(self).free@.len() - 1] == t);
                        assert(old(self).slots@[i as int] is None);
                        assert(old(self).free@.contains(i));
                        let k = choose|k: int| 0 <= k < old(self).free@.len() && old(self).free@[k] == i;
                        assert(k != old(self).free@.len() - 1);
                        assert(self.free@[k] == i);
                    }
                }
                t
            },
            None => {
                let t = self.slots.len();
                self.slots.push(Some(peer_addr));
                proof {
                    assert(self@ =~= old(self)@.insert(t, peer_addr));
                    assert forall|i: usize|
                        i < self.slots@.len() && #[trigger] self.slots@[i as int] is None implies self.free@.contains(i) by {
                        assert(i < t);
                        assert(old(self).slots@[i as int] is None);
                        assert(old(self).free@.contains(i));
                    }
                }
                t
            },
        }
    }

    /// Room for one more ticket: a free slot, or a slot count below the largest
    /// ticket.
    pub closed spec fn slots_room(self) -> bool {
        self.free@.len() > 0 || self.slots@.len() < usize::MAX
    }

    /// Whether another handshake can be started.
    pub fn has_room(&self) -> (r: bool)
        ensures
            r == self.slots_room(),
    {
        self.free.len() > 0 || self.slots.len() < usize::MAX
    }

    /// Room runs out only when every ticket below `usize::MAX` is held by a pending
    /// handshake: while fewer handshakes are pending, another can be started.
    pub proof fn lemma_full_means_all_tickets_pending(self)
        requires
            self.wf(),
        ensures
            !self.slots_room() ==> forall|t: usize| t < usize::MAX ==> #[trigger] self@.contains_key(t),
    {
        if !self.slots_room() {
            assert forall|t: usize| t < usize::MAX implies #[trigger] self@.contains_key(t) by {
                if self.slots@[t as int] is None {
                    assert(self.free@.contains(t));
                }
            }
        }
    }

    /// End the handshake with ticket `ticket`, giving back its peer address, or
    /// `None` if no such handshake is in progress.
    pub fn take(&mut self, ticket: usize) -> (r: Option<Addr>)
        requires
            old(self).wf(),
        ensures
            final(self).wf(),
            old(self)@.contains_key(ticket) ==> final(self).slots_room(),
            old(self).slots_room() ==> final(self).slots_room(),
            r == (if old(self)@.contains_key(ticket) {
                Some(old(self)@[ticket])
            } else {
                None::<Addr>
            }),
            final(self)@ == old(self)@.remove(ticket),
    {
        if ticket < self.slots.len() && self.slots[ticket].is_some() {
            let r = self.slots[ticket].take();
            proof {
                assert forall|k: int| 0 <= k < self.free@.len() implies #[trigger] self.free@[k] != ticket by {
                }
            }
            self.free.push(ticket);
            proof {
                assert(self@ =~= old(self)@.remove(ticket));
                assert(self.free@[self.free@.len() - 1] == ticket);
                assert forall|i: usize|
                    i < self.slots@.len() && #[trigger] self.slots@[i as int] is None implies self.free@.contains(i) by {
                    if i != ticket {
                        assert(old(self).slots@[i as int] is None);
                        assert(old(self).free@.contains(i));
                        let k = choose|k: int| 0 <= k < old(self).free@.len() && old(self).free@[k] == i;
                        assert(self.free@[k] == i);
                    } else {
                        assert(self.free@[self.free@.len() - 1] == ticket);
                    }
                }
            }
            r
        } else {
            proof {
                assert(self@ =~= old(self)@.remove(ticket));
            }
            None
        }
    }

    /// End the handshake with ticket `ticket`, which ended in `outcome`, giving the
    /// result for the caller: the stream with the peer address recorded when the
    /// handshake started, or an error carrying that address. `None` if no such
    /// handshake is in progress.
    pub fn finish<S, LE, TE>(&mut self, ticket: usize, outcome: HandshakeOutcome<S, TE>) -> (r:
        Option<Result<(S, Addr), Error<LE, TE, Addr>>>)
        requires
            old(self).wf(),
        ensures
            final(self).wf(),
            old(self)@.contains_key(ticket) ==> final(self).slots_room(),
            old(self).slots_room() ==> final(self).slots_room(),
            r == (if old(self)@.contains_key(ticket) {
                Some(handshake_result::<S, LE, TE, Addr>(outcome, old(self)@[ticket]))
            } else {
                None
            }),
            final(self)@ == old(self)@.remove(ticket),
    {
        match self.take(ticket) {
            Some(addr) => Some(
                match outcome {
                    HandshakeOutcome::Established(stream) => Ok((stream, addr)),
                    HandshakeOutcome::Failed(error) => Err(
                        Error::TlsAcceptError { error, peer_addr: addr },
                    ),
                    HandshakeOutcome::TimedOut => Err(Error::HandshakeTimeout { peer_addr: addr }),
                },
            ),
            None => None,
        }
    }
}

/// Errors carry their address: the result of a handshake succeeds exactly when the
/// handshake was established, a success hands out the connection's own peer
/// address, and every failure is an error whose `peer_addr` is that address.
pub proof fn lemma_handshake_errors_carry_peer_addr<S, LE, TE, Addr>(
    outcome: HandshakeOutcome<S, TE>,
    peer_addr: Addr,
)
    ensures
        handshake_result::<S, LE, TE, Addr>(outcome, peer_addr) is Ok <==> outcome is Established,
        match handshake_result::<S, LE, TE, Addr>(outcome, peer_addr) {
            Ok((_, a)) => a == peer_addr,
            Err(e) => e.peer_addr_of() == Some(peer_addr),
        },
{
}

/// A change to the set of pending handshakes: a handshake started under a ticket
/// for a peer, or the handshake under a ticket ending.
pub enum PendingChange<Addr> {
    /// A handshake started under this ticket for this peer.
    Start(usize, Addr),
    /// The handshake under this ticket ended.
    Finish(usize),
}

/// The pending handshakes after a sequence of changes, as `start` and `finish`
/// make them.
pub open spec fn apply_changes<Addr>(m: Map<usize, Addr>, changes: Seq<PendingChange<Addr>>) -> Map<
    usize,
    Addr,
>
    decreases changes.len(),
{
    if changes.len() == 0 {
        m
    } else {
        let next = match changes[0] {
            PendingChange::Start(t, a) => m.insert(t, a),
            PendingChange::Finish(t) => m.remove(t),
        };
        apply_changes(next, changes.drop_first())
    }
}

/// Whether every start in a sequence of changes uses a ticket that is not pending
/// at that point, as `start` guarantees.
pub open spec fn fresh_starts<Addr>(m: Map<usize, Addr>, changes: Seq<PendingChange<Addr>>) -> bool
    decreases changes.len(),
{
    if changes.len() == 0 {
        true
    } else {
        match changes[0] {
            PendingChange::Start(t, a) => !m.contains_key(t) && fresh_starts(
                m.insert(t, a),
                changes.drop_first(),
            ),
            PendingChange::Finish(t) => fresh_starts(m.remove(t), changes.drop_first()),
        }
    }
}

/// A handshake is reported once: finishing the handshake under a ticket removes
/// it, so a second result for that ticket is refused, while every other pending
/// handshake stays, with its peer address, for a later report.
pub proof fn lemma_reported_once<Addr>(m: Map<usize, Addr>, ticket: usize)
    requires
        m.contains_key(ticket),
    ensures
        !m.remove(ticket).contains_key(ticket),
        forall|u: usize|
            u != ticket ==> (#[trigger] m.remove(ticket).contains_key(u) == m.contains_key(u)),
        forall|u: usize| u != ticket && m.contains_key(u) ==> #[trigger] m.remove(ticket)[u] == m[u],
{
}

/// Each connection is reported with its own address: whatever other handshakes
/// start and end meanwhile, the handshake under a ticket keeps the peer address it
/// was started with until it ends itself.
pub proof fn lemma_address_kept_until_finish<Addr>(
    m: Map<usize, Addr>,
    changes: Seq<PendingChange<Addr>>,
    ticket: usize,
)
    requires
        m.contains_key(ticket),
        fresh_starts(m, changes),
        forall|k: int| 0 <= k < changes.len() ==> changes[k] != PendingChange::<Addr>::Finish(ticket),
    ensures
        apply_changes(m, changes).contains_key(ticket),
        apply_changes(m, changes)[ticket] == m[ticket],
    decreases changes.len(),
{
    if changes.len() > 0 {
        let next = match changes[0] {
            PendingChange::Start(t, a) => m.insert(t, a),
            PendingChange::Finish(t) => m.remove(t),
        };
        assert(changes[0] != PendingChange::<Addr>::Finish(ticket));
        assert forall|k: int| 0 <= k < changes.drop_first().len() implies changes.drop_first()[k]
            != PendingChange::<Addr>::Finish(ticket) by {
            assert(changes.drop_first()[k] == changes[k + 1]);
        }
        lemma_address_kept_until_finish(next, changes.drop_first(), ticket);
    }
}

/// How each way a handshake can end is reported: an established handshake gives
/// its own stream with the connection's address, a failed one gives the TLS error
/// itself as `TlsAcceptError`, and one that ran out of time gives
/// `HandshakeTimeout`; the two failures are never confused.
pub proof fn lemma_handshake_outcomes_reported<S, LE, TE, Addr>(
    outcome: HandshakeOutcome<S, TE>,
    peer_addr: Addr,
)
    ensures
        outcome matches HandshakeOutcome::Established(s) ==> handshake_result::<S, LE, TE, Addr>(
            outcome,
            peer_addr,
        ) == Ok::<(S, Addr), Error<LE, TE, Addr>>((s, peer_addr)),
        outcome matches HandshakeOutcome::Failed(e) ==> handshake_result::<S, LE, TE, Addr>(
            outcome,
            peer_addr,
        ) == Err::<(S, Addr), Error<LE, TE, Addr>>(Error::TlsAcceptError { error: e, peer_addr }),
        outcome is TimedOut ==> handshake_result::<S, LE, TE, Addr>(outcome, peer_addr) == Err::<
            (S, Addr),
            Error<LE, TE, Addr>,
        >(Error::HandshakeTimeout { peer_addr }),
{
}

} // verus!
