//! The message router: broadcast, point-to-point send, inbound decode.
//!
//! Routing is only planning: the router resolves targets against the
//! lobby membership and the session table, frames the payload once, and
//! hands back the wire sends for the transport shell to carry. A peer
//! without a connection or with a failing transport never affects what
//! the other peers receive — failures stay per-peer.

use crate::codec::Payload;
use crate::codec::spec_decode;
use crate::codec::spec_encode;
use crate::codec::decode;
use crate::codec::encode;
use crate::ids::DeliveryClass;
use crate::ids::PeerId;
use crate::lobby::LobbyState;
use crate::lobby::LobbyStateMachine;
use crate::session::SendError;
use crate::session::SessionManager;
use crate::session::WireSend;
use vstd::prelude::*;

verus! {

broadcast use vstd::seq_lib::group_seq_properties;

/// Why the router refused to route at all.
#[derive(Clone, Copy, PartialEq, Eq, Structural, Debug)]
pub enum RouteError {
    /// Routing requires current lobby membership.
    NotInLobby,
    /// The addressed peer has no established connection.
    NoConnection,
}

/// Everything a broadcast resolves to: one wire send per reachable
/// target, and the targets skipped for want of a connection. A skipped
/// peer is a soft, per-peer failure; it never aborts the rest.
pub struct BroadcastPlan {
    pub sends: Vec<WireSend>,
    pub skipped: Vec<PeerId>,
}

/// Whether a plan is the correct resolution of one broadcast of
/// `frame`: one wire send per reachable target, in membership order,
/// all carrying the same frame, and the unreachable members skipped in
/// membership order.
pub open spec fn plan_resolves(
    plan: BroadcastPlan,
    members: Seq<PeerId>,
    self_id: PeerId,
    conns: Set<PeerId>,
    frame: Seq<u8>,
    class: DeliveryClass,
) -> bool {
    let targets = send_targets(members, self_id, conns);
    &&& plan.sends@.len() == targets.len()
    &&& forall|j: int|
        0 <= j < targets.len() ==> (#[trigger] plan.sends@[j]).peer == targets[j]
            && plan.sends@[j].bytes@ == frame && plan.sends@[j].class == class
    &&& plan.skipped@ == skipped_targets(members, self_id, conns)
}

/// One failed delivery, with the transport's reason code.
#[derive(Clone, Copy, PartialEq, Eq, Structural, Debug)]
pub struct SendFailure {
    pub peer: PeerId,
    pub reason: i64,
}

/// Which peers a broadcast sends to: the members, in membership order,
/// that are not ourselves and have an established connection.
pub open spec fn send_targets(members: Seq<PeerId>, self_id: PeerId, conns: Set<PeerId>) -> Seq<
    PeerId,
>
    decreases members.len(),
{
    if members.len() == 0 {
        Seq::empty()
    } else {
        let rest = send_targets(members.drop_last(), self_id, conns);
        let last = members.last();
        if last != self_id && conns.contains(last) {
            rest.push(last)
        } else {
            rest
        }
    }
}

/// Which peers a broadcast must skip: the members, in membership order,
/// that are not ourselves and have no established connection.
pub open spec fn skipped_targets(members: Seq<PeerId>, self_id: PeerId, conns: Set<PeerId>) -> Seq<
    PeerId,
>
    decreases members.len(),
{
    if members.len() == 0 {
        Seq::empty()
    } else {
        let rest = skipped_targets(members.drop_last(), self_id, conns);
        let last = members.last();
        if last != self_id && !conns.contains(last) {
            rest.push(last)
        } else {
            rest
        }
    }
}

/// Whether a peer is a broadcast target depends on that peer alone:
/// on its membership, its identity and its own connection — never on
/// any other peer's state. This is the isolation behind soft per-peer
/// failure: an unreachable member cannot push a reachable one out of
/// the target list.
pub proof fn lemma_send_targets_membership(
    members: Seq<PeerId>,
    self_id: PeerId,
    conns: Set<PeerId>,
    peer: PeerId,
)
    ensures
        send_targets(members, self_id, conns).contains(peer) <==> (members.contains(peer) && peer
            != self_id && conns.contains(peer)),
    decreases members.len(),
{
    if members.len() > 0 {
        lemma_send_targets_membership(members.drop_last(), self_id, conns, peer);
        assert(members.drop_last().push(members.last()) =~= members);
    }
}

/// The skipped list is exactly the complement: members other than
/// ourselves without a connection.
pub proof fn lemma_skipped_targets_membership(
    members: Seq<PeerId>,
    self_id: PeerId,
    conns: Set<PeerId>,
    peer: PeerId,
)
    ensures
        skipped_targets(members, self_id, conns).contains(peer) <==> (members.contains(peer)
            && peer != self_id && !conns.contains(peer)),
    decreases members.len(),
{
    if members.len() > 0 {
        lemma_skipped_targets_membership(members.drop_last(), self_id, conns, peer);
        assert(members.drop_last().push(members.last()) =~= members);
    }
}

/// The peers whose wire send the transport accepted, in send order.
pub open spec fn delivered_of(sends: Seq<WireSend>, outcomes: Seq<Option<i64>>) -> Seq<PeerId>
    recommends
        sends.len() == outcomes.len(),
    decreases sends.len(),
{
    if sends.len() == 0 {
        Seq::empty()
    } else {
        let rest = delivered_of(sends.drop_last(), outcomes.drop_last());
        if outcomes.last() is None {
            rest.push(sends.last().peer)
        } else {
            rest
        }
    }
}

/// The per-peer failures the transport reported, in send order.
pub open spec fn failures_of(sends: Seq<WireSend>, outcomes: Seq<Option<i64>>) -> Seq<SendFailure>
    recommends
        sends.len() == outcomes.len(),
    decreases sends.len(),
{
    if sends.len() == 0 {
        Seq::empty()
    } else {
        let rest = failures_of(sends.drop_last(), outcomes.drop_last());
        match outcomes.last() {
            Some(reason) => rest.push(SendFailure { peer: sends.last().peer, reason }),
            None => rest,
        }
    }
}

/// One peer's delivery stands whatever happened to every other send:
/// an accepted wire send always appears among the delivered.
pub proof fn lemma_delivery_isolation(sends: Seq<WireSend>, outcomes: Seq<Option<i64>>, j: int)
    requires
        sends.len() == outcomes.len(),
        0 <= j < sends.len(),
        outcomes[j] is None,
    ensures
        delivered_of(sends, outcomes).contains(sends[j].peer),
    decreases sends.len(),
{
    if j == sends.len() - 1 {
    } else {
        lemma_delivery_isolation(sends.drop_last(), outcomes.drop_last(), j);
    }
}

/// The outcome of one broadcast: who received the message, who failed
/// with what reason, and who was skipped for want of a connection.
pub struct DeliveryReport {
    pub delivered: Vec<PeerId>,
    pub failed: Vec<SendFailure>,
}

fn clone_bytes(src: &Vec<u8>) -> (r: Vec<u8>)
    ensures
        r@ == src@,
{
    let mut out: Vec<u8> = Vec::new();
    let mut i: usize = 0;
    while i < src.len()
        invariant
            i <= src.len(),
            out@ == src@.subrange(0, i as int),
        decreases src.len() - i,
    {
        out.push(src[i]);
        i = i + 1;
        proof {
            assert(src@.subrange(0, i as int) =~= src@.subrange(0, i - 1).push(src@[i - 1]));
        }
    }
    proof {
        assert(src@.subrange(0, src@.len() as int) =~= src@);
    }
    out
}

/// Address one payload to one peer. Requires current lobby membership
/// and an established connection; the payload is framed and handed back
/// as the wire send for the transport to carry.
pub fn send_to_peer(
    lsm: &LobbyStateMachine,
    sessions: &SessionManager,
    peer: PeerId,
    payload: &Payload,
    class: DeliveryClass,
) -> (r: Result<WireSend, RouteError>)
    ensures
        !(lsm.state is Joined) ==> r == Err::<WireSend, RouteError>(RouteError::NotInLobby),
        lsm.state is Joined && !sessions.peers().contains(peer) ==> r == Err::<
            WireSend,
            RouteError,
        >(RouteError::NoConnection),
        lsm.state is Joined && sessions.peers().contains(peer) ==> (r matches Ok(w) && w.peer
            == peer && w.bytes@ == spec_encode(payload@) && w.class == class),
{
    if !lsm.is_in_lobby() {
        return Err(RouteError::NotInLobby);
    }
    let bytes = encode(payload);
    match sessions.send(peer, bytes, class) {
        Ok(wire) => Ok(wire),
        Err(SendError::NoConnection) => Err(RouteError::NoConnection),
        Err(SendError::TransportError(_)) => Err(RouteError::NoConnection),
    }
}

/// Resolve a broadcast: every lobby member other than ourselves, framed
/// once, one wire send per member with a connection, the rest skipped
/// softly. Fails only when no lobby is held.
pub fn broadcast(
    lsm: &LobbyStateMachine,
    sessions: &SessionManager,
    payload: &Payload,
    class: DeliveryClass,
) -> (r: Result<BroadcastPlan, RouteError>)
    ensures
        !(lsm.state is Joined) ==> r == Err::<BroadcastPlan, RouteError>(RouteError::NotInLobby),
        lsm.state is Joined ==> (r matches Ok(plan) && plan_resolves(
            plan,
            lsm.members(),
            lsm.self_id,
            sessions.peers(),
            spec_encode(payload@),
            class,
        )),
{
    let members: &Vec<PeerId> = match &lsm.state {
        LobbyState::Joined { members, .. } => members,
        _ => {
            return Err(RouteError::NotInLobby);
        },
    };
    let wire_bytes = encode(payload);
    let mut sends: Vec<WireSend> = Vec::new();
    let mut skipped: Vec<PeerId> = Vec::new();
    let mut i: usize = 0;
    while i < members.len()
        invariant
            i <= members.len(),
            members@ == lsm.members(),
            sends@.len() == send_targets(members@.subrange(0, i as int), lsm.self_id,
            sessions.peers()).len(),
            forall|j: int|
                0 <= j < sends@.len() ==> (#[trigger] sends@[j]).peer == send_targets(
                    members@.subrange(0, i as int),
                    lsm.self_id,
                    sessions.peers(),
                )[j] && sends@[j].bytes@ == spec_encode(payload@) && sends@[j].class == class,
            skipped@ == skipped_targets(members@.subrange(0, i as int), lsm.self_id,
            sessions.peers()),
            wire_bytes@ == spec_encode(payload@),
        decreases members.len() - i,
    {
        let peer = members[i];
        if peer != lsm.self_id && sessions.has_connection(peer) {
            sends.push(WireSend { peer, bytes: clone_bytes(&wire_bytes), class });
        } else if peer != lsm.self_id {
            skipped.push(peer);
        }
        i = i + 1;
        proof {
            let prefix = members@.subrange(0, i as int);
            assert(prefix.drop_last() =~= members@.subrange(0, i - 1));
            assert(prefix.last() == members@[i - 1]);
        }
    }
    proof {
        assert(members@.subrange(0, members@.len() as int) =~= members@);
    }
    Ok(BroadcastPlan { sends, skipped })
}

/// Fold the transport's per-send verdicts into one report. Each send's
/// fate is its own: a delivered peer stays delivered no matter how many
/// other sends failed, and each failure keeps its own reason.
pub fn apply_send_results(sends: &Vec<WireSend>, outcomes: &Vec<Option<i64>>) -> (r: DeliveryReport)
    requires
        sends@.len() == outcomes@.len(),
    ensures
        r.delivered@ == delivered_of(sends@, outcomes@),
        r.failed@ == failures_of(sends@, outcomes@),
        forall|j: int|
            0 <= j < sends@.len() && (#[trigger] outcomes@[j]) is None ==> r.delivered@.contains(
                sends@[j].peer,
            ),
{
    let mut delivered: Vec<PeerId> = Vec::new();
    let mut failed: Vec<SendFailure> = Vec::new();
    let mut i: usize = 0;
    while i < sends.len()
        invariant
            i <= sends.len(),
            sends@.len() == outcomes@.len(),
            delivered@ == delivered_of(sends@.subrange(0, i as int), outcomes@.subrange(
                0,
                i as int,
            )),
            failed@ == failures_of(sends@.subrange(0, i as int), outcomes@.subrange(0, i as int)),
        decreases sends.len() - i,
    {
        let peer = sends[i].peer;
        match outcomes[i] {
            None => delivered.push(peer),
            Some(reason) => failed.push(SendFailure { peer, reason }),
        }
        i = i + 1;
        proof {
            let sp = sends@.subrange(0, i as int);
            let op = outcomes@.subrange(0, i as int);
            assert(sp.drop_last() =~= sends@.subrange(0, i - 1));
            assert(op.drop_last() =~= outcomes@.subrange(0, i - 1));
            assert(sp.last() == sends@[i - 1]);
            assert(op.last() == outcomes@[i - 1]);
        }
    }
    proof {
        assert(sends@.subrange(0, sends@.len() as int) =~= sends@);
        assert(outcomes@.subrange(0, outcomes@.len() as int) =~= outcomes@);
        assert forall|j: int|
            0 <= j < sends@.len() && (#[trigger] outcomes@[j]) is None implies delivered_of(
            sends@,
            outcomes@,
        ).contains(sends@[j].peer) by {
            lemma_delivery_isolation(sends@, outcomes@, j);
        }
    }
    DeliveryReport { delivered, failed }
}

/// Whom one outbound message is addressed to.
#[derive(Clone, Copy, PartialEq, Eq, Structural, Debug)]
pub enum Target {
    /// Every member of the current lobby except ourselves.
    AllOthersInLobby,
    /// Exactly this peer.
    SinglePeer(PeerId),
}

/// An application payload paired with its target selector and delivery
/// class, ready to be routed.
pub struct OutboundMessage {
    pub payload: Payload,
    pub target: Target,
    pub class: DeliveryClass,
}

/// Route one outbound message by its target selector: a broadcast
/// resolves softly per peer, a point-to-point send demands the one
/// addressed connection.
pub fn route(
    lsm: &LobbyStateMachine,
    sessions: &SessionManager,
    out: &OutboundMessage,
) -> (r: Result<BroadcastPlan, RouteError>)
    ensures
        !(lsm.state is Joined) ==> r == Err::<BroadcastPlan, RouteError>(RouteError::NotInLobby),
        out.target is AllOthersInLobby && lsm.state is Joined ==> (r matches Ok(plan)
            && plan_resolves(
            plan,
            lsm.members(),
            lsm.self_id,
            sessions.peers(),
            spec_encode(out.payload@),
            out.class,
        )),
        out.target matches Target::SinglePeer(peer) ==> {
            &&& (lsm.state is Joined && !sessions.peers().contains(peer)) ==> r == Err::<
                BroadcastPlan,
                RouteError,
            >(RouteError::NoConnection)
            &&& (lsm.state is Joined && sessions.peers().contains(peer)) ==> (r matches Ok(plan)
                && plan.sends@.len() == 1 && plan.sends@[0].peer == peer && plan.sends@[0].bytes@
                == spec_encode(out.payload@) && plan.sends@[0].class == out.class
                && plan.skipped@ == Seq::<PeerId>::empty())
        },
{
    match out.target {
        Target::AllOthersInLobby => broadcast(lsm, sessions, &out.payload, out.class),
        Target::SinglePeer(peer) => {
            match send_to_peer(lsm, sessions, peer, &out.payload, out.class) {
                Ok(wire) => {
                    let mut sends: Vec<WireSend> = Vec::new();
                    sends.push(wire);
                    Ok(BroadcastPlan { sends, skipped: Vec::new() })
                },
                Err(error) => Err(error),
            }
        },
    }
}

/// One message pulled from the transport's buffer, not yet decoded.
pub struct RawInbound {
    pub from: PeerId,
    pub bytes: Vec<u8>,
}

/// One decoded application message, ready for dispatch.
pub struct InboundMessage {
    pub from: PeerId,
    pub payload: Payload,
}

/// What decoding a batch of raw messages keeps: the well-formed frames,
/// decoded, in arrival order; each malformed frame is dropped without a
/// trace in the result and without touching anything else.
pub open spec fn decoded_of(raw: Seq<RawInbound>) -> Seq<(PeerId, Seq<u8>)>
    decreases raw.len(),
{
    if raw.len() == 0 {
        Seq::empty()
    } else {
        let rest = decoded_of(raw.drop_last());
        match spec_decode(raw.last().bytes@) {
            Ok(p) => rest.push((raw.last().from, p)),
            Err(_) => rest,
        }
    }
}

/// Decode the batch of messages the transport buffered this tick.
/// Malformed entries are skipped, never surfaced as errors; decoding
/// only reads its input, so a corrupted frame cannot corrupt any state.
pub fn receive_pending(raw: &Vec<RawInbound>) -> (r: Vec<InboundMessage>)
    ensures
        r@.len() == decoded_of(raw@).len(),
        forall|j: int|
            0 <= j < r@.len() ==> ((#[trigger] r@[j]).from, r@[j].payload@) == decoded_of(raw@)[j],
{
    let mut out: Vec<InboundMessage> = Vec::new();
    let mut i: usize = 0;
    while i < raw.len()
        invariant
            i <= raw.len(),
            out@.len() == decoded_of(raw@.subrange(0, i as int)).len(),
            forall|j: int|
                0 <= j < out@.len() ==> ((#[trigger] out@[j]).from, out@[j].payload@)
                    == decoded_of(raw@.subrange(0, i as int))[j],
        decreases raw.len() - i,
    {
        match decode(&raw[i].bytes) {
            Ok(payload) => {
                out.push(InboundMessage { from: raw[i].from, payload });
            },
            Err(_) => {},
        }
        i = i + 1;
        proof {
            let prefix = raw@.subrange(0, i as int);
            assert(prefix.drop_last() =~= raw@.subrange(0, i - 1));
            assert(prefix.last() == raw@[i - 1]);
        }
    }
    proof {
        assert(raw@.subrange(0, raw@.len() as int) =~= raw@);
    }
    out
}

} // verus!
