//! The session manager: at most one transport connection per peer.
//!
//! The table of established connections is keyed by peer identity and
//! owned exclusively by the tick thread. Entries appear when an outbound
//! connect is issued for a new lobby member or when an inbound session
//! request is accepted, and disappear on a session failure or when the
//! lobby is left. The well-formedness invariant — no peer appears twice —
//! is what makes connection establishment idempotent.

use crate::actions::Action;
use crate::ids::DeliveryClass;
use crate::ids::PeerId;
use vstd::prelude::*;

verus! {

broadcast use vstd::seq_lib::group_seq_properties;

/// One framed message ready for the transport, addressed to one peer.
pub struct WireSend {
    pub peer: PeerId,
    pub bytes: Vec<u8>,
    pub class: DeliveryClass,
}

/// Why a single send could not be completed.
#[derive(Clone, Copy, PartialEq, Eq, Structural, Debug)]
pub enum SendError {
    /// No established connection exists for the addressed peer.
    NoConnection,
    /// The transport rejected the send, with the platform's reason code.
    TransportError(i64),
}

/// The connection table after connecting to every roster member other
/// than ourselves: previous connections are kept, each new member gains
/// exactly one entry.
pub open spec fn connect_step(conns: Set<PeerId>, roster: Seq<PeerId>, self_id: PeerId) -> Set<
    PeerId,
> {
    conns + roster.to_set().remove(self_id)
}

/// Tracks which peers have an established transport connection.
pub struct SessionManager {
    connections: Vec<PeerId>,
}

impl SessionManager {
    /// The connection entries in the order they were established.
    pub closed spec fn connection_list(self) -> Seq<PeerId> {
        self.connections@
    }

    /// The set of peers with an established connection.
    pub open spec fn peers(self) -> Set<PeerId> {
        self.connection_list().to_set()
    }

    /// Well-formed: no peer holds two connections.
    pub open spec fn wf(self) -> bool {
        self.connection_list().no_duplicates()
    }

    pub fn new() -> (r: SessionManager)
        ensures
            r.wf(),
            r.connection_list() == Seq::<PeerId>::empty(),
    {
        SessionManager { connections: Vec::new() }
    }

    /// Whether a connection to this peer is established.
    pub fn has_connection(&self, peer: PeerId) -> (r: bool)
        ensures
            r == self.peers().contains(peer),
    {
        let mut i: usize = 0;
        while i < self.connections.len()
            invariant
                i <= self.connections.len(),
                forall|j: int| 0 <= j < i ==> self.connections@[j] != peer,
            decreases self.connections.len() - i,
        {
            if self.connections[i] == peer {
                return true;
            }
            i = i + 1;
        }
        false
    }

    /// How many connections are established.
    pub fn connection_count(&self) -> (r: usize)
        ensures
            r == self.connection_list().len(),
    {
        self.connections.len()
    }

    /// The lobby was joined or its membership refreshed: establish an
    /// outbound connection to every roster member other than ourselves
    /// that has none yet. Returns the peers to connect to, each exactly
    /// once; establishment is fire-and-forget, so the entries are
    /// recorded now and a later failure takes them out again. Calling
    /// this twice with the same roster adds nothing the second time.
    pub fn on_joined(&mut self, roster: &Vec<PeerId>, self_id: PeerId) -> (new_peers: Vec<PeerId>)
        requires
            old(self).wf(),
        ensures
            final(self).wf(),
            final(self).peers() == connect_step(old(self).peers(), roster@, self_id),
            final(self).connection_list() == old(self).connection_list() + new_peers@,
            new_peers@.no_duplicates(),
            forall|p: PeerId|
                #[trigger] new_peers@.contains(p) <==> (roster@.contains(p) && p != self_id
                    && !old(self).peers().contains(p)),
    {
        let ghost orig = self.connections@;
        let mut new_peers: Vec<PeerId> = Vec::new();
        let mut i: usize = 0;
        while i < roster.len()
            invariant
                i <= roster.len(),
                self.connections@ == orig + new_peers@,
                self.connections@.no_duplicates(),
                new_peers@.no_duplicates(),
                forall|p: PeerId|
                    #[trigger] new_peers@.contains(p) <==> (roster@.subrange(
                        0,
                        i as int,
                    ).contains(p) && p != self_id && !orig.contains(p)),
            decreases roster.len() - i,
        {
            let peer = roster[i];
            let ghost np0 = new_peers@;
            let ghost c0 = self.connections@;
            let connect_new = peer != self_id && !self.has_connection(peer);
            if connect_new {
                self.connections.push(peer);
                new_peers.push(peer);
            }
            i = i + 1;
            proof {
                assert(roster@.subrange(0, i as int) =~= roster@.subrange(0, i - 1).push(
                    roster@[i - 1],
                ));
                if connect_new {
                    assert(!c0.contains(peer));
                    assert(!np0.contains(peer));
                    assert(!orig.contains(peer));
                    assert(self.connections@ =~= orig + new_peers@);
                }
                assert forall|p: PeerId| new_peers@.contains(p) implies (roster@.subrange(
                    0,
                    i as int,
                ).contains(p) && p != self_id && !orig.contains(p)) by {
                    if np0.contains(p) {
                        assert(roster@.subrange(0, i - 1).contains(p));
                        assert(p != self_id);
                        assert(!orig.contains(p));
                        assert(roster@.subrange(0, i as int).contains(p));
                    } else {
                        assert(connect_new);
                        assert(new_peers@ == np0.push(peer));
                        assert(p == peer);
                        assert(roster@.subrange(0, i as int).contains(p));
                    }
                }
                assert forall|p: PeerId|
                    (roster@.subrange(0, i as int).contains(p) && p != self_id && !orig.contains(
                        p,
                    )) implies new_peers@.contains(p) by {
                    if !roster@.subrange(0, i - 1).contains(p) {
                        assert(p == roster@[i - 1]);
                        if !connect_new {
                            assert(c0.contains(p));
                            assert(orig.contains(p) || np0.contains(p));
                        }
                    }
                }
            }
        }
        proof {
            assert(roster@.subrange(0, roster@.len() as int) =~= roster@);
            assert(self.connections@.to_set() =~= connect_step(orig.to_set(), roster@, self_id));
        }
        new_peers
    }

    /// A peer asks to open a session with us. The baseline policy accepts
    /// every request, member of our lobby or not — a deliberate trust
    /// decision; gating acceptance on lobby membership would be a policy
    /// change, not a bug fix. The accepted peer gains a connection entry
    /// if it has none.
    pub fn on_session_requested(&mut self, peer: PeerId) -> (r: Action)
        requires
            old(self).wf(),
        ensures
            final(self).wf(),
            final(self).peers() == old(self).peers().insert(peer),
            r == (Action::AcceptSession { peer }),
    {
        if !self.has_connection(peer) {
            self.connections.push(peer);
        }
        proof {
            assert(self.connections@.to_set() =~= old(self).connections@.to_set().insert(peer));
        }
        Action::AcceptSession { peer }
    }

    /// The transport reports the session to this peer as failed: drop its
    /// connection entry, if one exists. The failure is non-fatal and is
    /// reported onward; no automatic reconnect is attempted.
    pub fn on_session_failed(&mut self, peer: PeerId)
        requires
            old(self).wf(),
        ensures
            final(self).wf(),
            final(self).peers() == old(self).peers().remove(peer),
            !final(self).connection_list().contains(peer),
    {
        let mut kept: Vec<PeerId> = Vec::new();
        let mut i: usize = 0;
        while i < self.connections.len()
            invariant
                i <= self.connections.len(),
                self.connections@.no_duplicates(),
                kept@.no_duplicates(),
                forall|p: PeerId|
                    kept@.contains(p) <==> (self.connections@.subrange(0, i as int).contains(p)
                        && p != peer),
            decreases self.connections.len() - i,
        {
            let candidate = self.connections[i];
            if candidate != peer {
                proof {
                    if kept@.contains(candidate) {
                        let j = choose|j: int|
                            0 <= j < i && self.connections@.subrange(0, i as int)[j] == candidate;
                        assert(self.connections@[j] == self.connections@[i as int]);
                    }
                }
                kept.push(candidate);
            }
            i = i + 1;
            proof {
                assert(self.connections@.subrange(0, i as int) =~= self.connections@.subrange(
                    0,
                    i - 1,
                ).push(self.connections@[i - 1]));
            }
        }
        proof {
            assert(self.connections@.subrange(0, self.connections@.len() as int)
                =~= self.connections@);
        }
        self.connections = kept;
        proof {
            assert(self.connections@.to_set() =~= old(self).connections@.to_set().remove(peer));
        }
    }

    /// Leaving the lobby releases every connection at once.
    pub fn release_all(&mut self)
        ensures
            final(self).wf(),
            final(self).connection_list() == Seq::<PeerId>::empty(),
    {
        self.connections = Vec::new();
    }

    /// Address one framed message to one peer. Succeeds exactly when a
    /// connection to the peer is established, handing back the wire send
    /// for the transport to carry; otherwise nothing is sent and the
    /// caller learns why.
    pub fn send(&self, peer: PeerId, bytes: Vec<u8>, class: DeliveryClass) -> (r: Result<
        WireSend,
        SendError,
    >)
        ensures
            self.peers().contains(peer) ==> (r matches Ok(w) && w.peer == peer && w.bytes@
                == bytes@ && w.class == class),
            !self.peers().contains(peer) ==> r == Err::<WireSend, SendError>(
                SendError::NoConnection,
            ),
    {
        if self.has_connection(peer) {
            Ok(WireSend { peer, bytes, class })
        } else {
            Err(SendError::NoConnection)
        }
    }
}

/// Maps the transport's verdict on one wire send to the typed result the
/// application sees: no reason code means delivered to the transport,
/// a reason code becomes a `TransportError` carrying it.
pub fn finish_send(outcome: Option<i64>) -> (r: Result<(), SendError>)
    ensures
        (match outcome {
            None => r is Ok,
            Some(code) => r == Err::<(), SendError>(SendError::TransportError(code)),
        }),
{
    match outcome {
        None => Ok(()),
        Some(code) => Err(SendError::TransportError(code)),
    }
}

/// Idempotence law: connecting to the members of a roster is idempotent —
/// repeating `on_joined` with the same roster leaves the connection set
/// exactly as it was, one connection per member.
pub proof fn lemma_connect_idempotent(conns: Set<PeerId>, roster: Seq<PeerId>, self_id: PeerId)
    ensures
        connect_step(connect_step(conns, roster, self_id), roster, self_id) == connect_step(
            conns,
            roster,
            self_id,
        ),
{
    assert(connect_step(connect_step(conns, roster, self_id), roster, self_id) =~= connect_step(
        conns,
        roster,
        self_id,
    ));
}

/// Uniqueness law: a well-formed session table holds exactly one
/// connection entry for each connected peer and none for any other.
pub proof fn lemma_one_connection_per_peer(sm: SessionManager, peer: PeerId)
    requires
        sm.wf(),
    ensures
        sm.peers().contains(peer) ==> sm.connection_list().to_multiset().count(peer) == 1,
        !sm.peers().contains(peer) ==> sm.connection_list().to_multiset().count(peer) == 0,
{
    broadcast use vstd::seq_lib::group_to_multiset_ensures;

    sm.connection_list().lemma_multiset_has_no_duplicates();
}

} // verus!
