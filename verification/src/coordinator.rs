//! The per-tick dispatcher: one drained event in, state updates and
//! outward actions out.
//!
//! The coordinator owns the lobby state machine and the session table
//! and is driven only by the tick thread: it matches each drained event
//! exhaustively, updates the two components, and hands back the actions
//! the unverified shell must perform against the platform. Events that
//! carry only a reference to data held by the matchmaking service (a
//! join completion, a membership change) need the current roster; the
//! shell fetches it synchronously and passes it in.

use crate::actions::Action;
use crate::actions::Visibility;
use crate::events::ChannelEvent;
use crate::ids::LobbyId;
use crate::ids::PeerId;
use crate::lobby::LobbyError;
use crate::lobby::LobbyState;
use crate::lobby::LobbyStateMachine;
use crate::session::SessionManager;
use crate::session::connect_step;
use vstd::prelude::*;

verus! {

/// A list of actions that connects to exactly the given peers: every
/// entry is a connect, and the connected peers are exactly the roster
/// members that are not ourselves and had no connection before.
pub open spec fn connects_exactly(
    actions: Seq<Action>,
    roster: Seq<PeerId>,
    self_id: PeerId,
    before: Set<PeerId>,
) -> bool {
    &&& forall|j: int| 0 <= j < actions.len() ==> (#[trigger] actions[j]) is Connect
    &&& forall|p: PeerId|
        #[trigger] actions.contains(Action::Connect { peer: p }) <==> (roster.contains(p) && p
            != self_id && !before.contains(p))
}

/// Owns all core state; mutated only by the tick thread.
pub struct LobbyCore {
    pub lobby: LobbyStateMachine,
    pub sessions: SessionManager,
}

impl LobbyCore {
    /// The session table is well-formed: one connection per peer.
    pub open spec fn wf(self) -> bool {
        self.sessions.wf()
    }

    pub fn new(self_id: PeerId) -> (r: LobbyCore)
        ensures
            r.wf(),
            r.lobby.self_id == self_id,
            r.lobby.state is Idle,
            r.sessions.connection_list() == Seq::<PeerId>::empty(),
    {
        LobbyCore { lobby: LobbyStateMachine::new(self_id), sessions: SessionManager::new() }
    }

    /// Command: create a lobby. Permitted only while `Idle`; in any
    /// other state the command is rejected and nothing at all changes.
    pub fn create_lobby(&mut self, visibility: Visibility, max_members: u32) -> (r: Result<
        Action,
        LobbyError,
    >)
        requires
            old(self).wf(),
        ensures
            final(self).wf(),
            final(self).lobby.self_id == old(self).lobby.self_id,
            final(self).sessions == old(self).sessions,
            old(self).lobby.state is Idle ==> final(self).lobby.state is Creating && r == Ok::<
                Action,
                LobbyError,
            >(Action::RequestCreate { visibility, max_members }),
            !(old(self).lobby.state is Idle) ==> final(self).lobby.state == old(self).lobby.state
                && r == Err::<Action, LobbyError>(LobbyError::InvalidState),
    {
        self.lobby.cmd_create_lobby(visibility, max_members)
    }

    /// Command: leave the lobby, releasing every connection that
    /// belonged to it.
    pub fn leave_lobby(&mut self)
        ensures
            final(self).wf(),
            final(self).lobby.self_id == old(self).lobby.self_id,
            final(self).lobby.state is Idle,
            final(self).sessions.connection_list() == Seq::<PeerId>::empty(),
    {
        self.lobby.cmd_leave();
        self.sessions.release_all();
    }

    /// Which lobby's roster an event needs before it can be processed.
    /// The shell fetches the membership of that lobby synchronously from
    /// the matchmaking service and passes it to `process_event`.
    pub fn roster_request(event: ChannelEvent) -> (r: Option<LobbyId>)
        ensures
            (match event {
                ChannelEvent::LobbyJoined(lobby) => r == Some(lobby),
                ChannelEvent::MembershipChanged(lobby) => r == Some(lobby),
                _ => r is None,
            }),
    {
        match event {
            ChannelEvent::LobbyJoined(lobby) => Some(lobby),
            ChannelEvent::MembershipChanged(lobby) => Some(lobby),
            _ => None,
        }
    }

    /// Process one drained event: update the lobby state machine and the
    /// session table, and hand back the actions the shell must perform.
    /// `roster` is the membership fetched for the event's lobby, owed
    /// exactly when `roster_request` asks for it.
    pub fn process_event(&mut self, event: ChannelEvent, roster: Option<Vec<PeerId>>) -> (actions:
        Vec<Action>)
        requires
            old(self).wf(),
            (event is LobbyJoined || event is MembershipChanged) ==> roster is Some,
        ensures
            final(self).wf(),
            final(self).lobby.self_id == old(self).lobby.self_id,
            event matches ChannelEvent::LobbyCreated(lobby) ==> {
                &&& final(self).sessions == old(self).sessions
                &&& actions@ == Seq::<Action>::empty()
                &&& old(self).lobby.state is Creating ==> (final(self).lobby.state matches
                    LobbyState::Joined { lobby: l, members } && l == lobby && members@ == seq![
                        old(self).lobby.self_id,
                    ])
                &&& !(old(self).lobby.state is Creating) ==> final(self).lobby.state == old(
                    self,
                ).lobby.state
            },
            event matches ChannelEvent::JoinRequested(lobby) ==> {
                &&& final(self).sessions == old(self).sessions
                &&& (old(self).lobby.state is Idle || old(self).lobby.state is Joined) ==> (
                final(self).lobby.state == (LobbyState::Joining { lobby }) && actions@ == seq![
                    Action::RequestJoin { lobby },
                ])
                &&& !(old(self).lobby.state is Idle || old(self).lobby.state is Joined) ==> (
                final(self).lobby.state == old(self).lobby.state && actions@ == Seq::<
                    Action,
                >::empty())
            },
            event matches ChannelEvent::LobbyJoined(lobby) ==> (roster matches Some(r) ==> {
                if old(self).lobby.state == (LobbyState::Joining { lobby }) {
                    &&& final(self).lobby.state matches LobbyState::Joined { lobby: l, members }
                        && l == lobby && members@ == r@
                    &&& final(self).sessions.peers() == connect_step(
                        old(self).sessions.peers(),
                        r@,
                        old(self).lobby.self_id,
                    )
                    &&& connects_exactly(
                        actions@,
                        r@,
                        old(self).lobby.self_id,
                        old(self).sessions.peers(),
                    )
                } else {
                    &&& final(self).lobby.state == old(self).lobby.state
                    &&& final(self).sessions == old(self).sessions
                    &&& actions@ == Seq::<Action>::empty()
                }
            }),
            event matches ChannelEvent::MembershipChanged(lobby) ==> (roster matches Some(r) ==> {
                if old(self).lobby.state matches LobbyState::Joined { lobby: l, .. } && l == lobby {
                    &&& final(self).lobby.state matches LobbyState::Joined { lobby: l2, members }
                        && l2 == lobby && members@ == r@
                    &&& final(self).sessions.peers() == connect_step(
                        old(self).sessions.peers(),
                        r@,
                        old(self).lobby.self_id,
                    )
                    &&& connects_exactly(
                        actions@,
                        r@,
                        old(self).lobby.self_id,
                        old(self).sessions.peers(),
                    )
                } else {
                    &&& final(self).lobby.state == old(self).lobby.state
                    &&& final(self).sessions == old(self).sessions
                    &&& actions@ == Seq::<Action>::empty()
                }
            }),
            event matches ChannelEvent::ChatReceived(lobby, slot) ==> {
                &&& final(self).lobby == old(self).lobby
                &&& final(self).sessions == old(self).sessions
                &&& actions@ == seq![Action::FetchChatEntry { lobby, slot }]
            },
            event matches ChannelEvent::SessionRequested(peer) ==> {
                &&& final(self).lobby == old(self).lobby
                &&& final(self).sessions.peers() == old(self).sessions.peers().insert(peer)
                &&& actions@ == seq![Action::AcceptSession { peer }]
            },
            event matches ChannelEvent::SessionFailed(peer, reason) ==> {
                &&& final(self).lobby == old(self).lobby
                &&& final(self).sessions.peers() == old(self).sessions.peers().remove(peer)
                &&& actions@ == seq![Action::ReportSessionFailed { peer, reason }]
            },
    {
        match event {
            ChannelEvent::LobbyCreated(lobby) => {
                self.lobby.on_lobby_created(lobby);
                Vec::new()
            },
            ChannelEvent::JoinRequested(lobby) => {
                let mut actions: Vec<Action> = Vec::new();
                match self.lobby.on_join_requested(lobby) {
                    Some(action) => {
                        actions.push(action);
                        proof {
                            assert(actions@ =~= seq![Action::RequestJoin { lobby }]);
                        }
                    },
                    None => {},
                }
                actions
            },
            ChannelEvent::LobbyJoined(lobby) => {
                let r = match roster {
                    Some(r) => r,
                    None => unreached(),
                };
                let was_pending = match &self.lobby.state {
                    LobbyState::Joining { lobby: pending } => pending.raw == lobby.raw,
                    _ => false,
                };
                if was_pending {
                    let self_id = self.lobby.self_id;
                    let new_peers = self.sessions.on_joined(&r, self_id);
                    self.lobby.on_lobby_joined(lobby, r);
                    connect_actions(new_peers)
                } else {
                    Vec::new()
                }
            },
            ChannelEvent::MembershipChanged(lobby) => {
                let r = match roster {
                    Some(r) => r,
                    None => unreached(),
                };
                let current = match &self.lobby.state {
                    LobbyState::Joined { lobby: l, .. } => l.raw == lobby.raw,
                    _ => false,
                };
                if current {
                    let self_id = self.lobby.self_id;
                    let new_peers = self.sessions.on_joined(&r, self_id);
                    self.lobby.on_membership_changed(r);
                    connect_actions(new_peers)
                } else {
                    Vec::new()
                }
            },
            ChannelEvent::ChatReceived(lobby, slot) => {
                let mut actions: Vec<Action> = Vec::new();
                actions.push(Action::FetchChatEntry { lobby, slot });
                proof {
                    assert(actions@ =~= seq![Action::FetchChatEntry { lobby, slot }]);
                }
                actions
            },
            ChannelEvent::SessionRequested(peer) => {
                let action = self.sessions.on_session_requested(peer);
                let mut actions: Vec<Action> = Vec::new();
                actions.push(action);
                proof {
                    assert(actions@ =~= seq![Action::AcceptSession { peer }]);
                }
                actions
            },
            ChannelEvent::SessionFailed(peer, reason) => {
                self.sessions.on_session_failed(peer);
                let mut actions: Vec<Action> = Vec::new();
                actions.push(Action::ReportSessionFailed { peer, reason });
                proof {
                    assert(actions@ =~= seq![Action::ReportSessionFailed { peer, reason }]);
                }
                actions
            },
        }
    }
}

/// Turn the list of peers the session table newly connected into the
/// connect actions the shell performs, one per peer, in order.
fn connect_actions(new_peers: Vec<PeerId>) -> (actions: Vec<Action>)
    ensures
        actions@.len() == new_peers@.len(),
        forall|j: int|
            0 <= j < new_peers@.len() ==> actions@[j] == (Action::Connect {
                peer: new_peers@[j],
            }),
        forall|p: PeerId|
            #[trigger] actions@.contains(Action::Connect { peer: p }) <==> new_peers@.contains(p),
        forall|j: int| 0 <= j < actions@.len() ==> (#[trigger] actions@[j]) is Connect,
{
    let mut actions: Vec<Action> = Vec::new();
    let mut i: usize = 0;
    while i < new_peers.len()
        invariant
            i <= new_peers.len(),
            actions@.len() == i,
            forall|j: int|
                0 <= j < i ==> actions@[j] == (Action::Connect { peer: new_peers@[j] }),
        decreases new_peers.len() - i,
    {
        actions.push(Action::Connect { peer: new_peers[i] });
        i = i + 1;
    }
    proof {
        assert forall|p: PeerId|
            #[trigger] actions@.contains(Action::Connect { peer: p })
                <==> new_peers@.contains(p) by {
            if actions@.contains(Action::Connect { peer: p }) {
                let j = choose|j: int|
                    0 <= j < actions@.len() && actions@[j] == (Action::Connect { peer: p });
                assert(new_peers@[j] == p);
            }
            if new_peers@.contains(p) {
                let j = choose|j: int| 0 <= j < new_peers@.len() && new_peers@[j] == p;
                assert(actions@[j] == (Action::Connect { peer: p }));
            }
        }
    }
    actions
}

} // verus!
