//! The lobby lifecycle state machine.
//!
//! At most one lobby is active at a time. The machine owns the current
//! lobby identity and membership view and changes them only when the tick
//! thread feeds it a drained event or an explicit command; commands issued
//! in a state that forbids them are rejected with a typed error and leave
//! the state untouched.

use crate::actions::Action;
use crate::actions::Visibility;
use crate::ids::LobbyId;
use crate::ids::PeerId;
use vstd::prelude::*;

verus! {

/// Where the machine stands in the lobby lifecycle. Only `Joined`
/// permits message routing.
#[derive(Debug)]
pub enum LobbyState {
    /// Not in a lobby and not waiting for one.
    Idle,
    /// A create request is in flight; its lobby identity is not known yet.
    Creating,
    /// A join request for this lobby is in flight.
    Joining { lobby: LobbyId },
    /// Member of this lobby, with the membership view as last fetched
    /// from the matchmaking service.
    Joined { lobby: LobbyId, members: Vec<PeerId> },
}

/// A command was issued in a state that forbids it.
#[derive(Clone, Copy, PartialEq, Eq, Structural, Debug)]
pub enum LobbyError {
    /// The command requires a different lifecycle state.
    InvalidState,
}

/// Owns the lobby lifecycle state; mutated only by the tick thread.
pub struct LobbyStateMachine {
    /// The local user's own identity, fixed for the session.
    pub self_id: PeerId,
    /// The current lifecycle state.
    pub state: LobbyState,
}

impl LobbyStateMachine {
    /// The membership view, meaningful only while `Joined`.
    pub open spec fn members(self) -> Seq<PeerId>
        recommends
            self.state is Joined,
    {
        self.state->Joined_members@
    }

    pub fn new(self_id: PeerId) -> (r: LobbyStateMachine)
        ensures
            r.self_id == self_id,
            r.state is Idle,
    {
        LobbyStateMachine { self_id, state: LobbyState::Idle }
    }

    /// Whether message routing is currently permitted.
    pub fn is_in_lobby(&self) -> (r: bool)
        ensures
            r == (self.state is Joined),
    {
        match &self.state {
            LobbyState::Joined { .. } => true,
            _ => false,
        }
    }

    /// The identity of the lobby we are a member of, if any.
    pub fn current_lobby(&self) -> (r: Option<LobbyId>)
        ensures
            (match r {
                Some(lobby) => self.state matches LobbyState::Joined { lobby: l, .. } && l
                    == lobby,
                None => !(self.state is Joined),
            }),
    {
        match &self.state {
            LobbyState::Joined { lobby, .. } => Some(*lobby),
            _ => None,
        }
    }

    /// Command: create a lobby. Allowed only while `Idle`; the create
    /// request itself is asynchronous, so the machine moves to `Creating`
    /// and the caller performs the returned request. In any other state
    /// the command is rejected and nothing changes, so a create cannot
    /// silently overwrite a lobby already held or requested.
    pub fn cmd_create_lobby(&mut self, visibility: Visibility, max_members: u32) -> (r: Result<
        Action,
        LobbyError,
    >)
        ensures
            final(self).self_id == old(self).self_id,
            old(self).state is Idle ==> final(self).state is Creating && r == Ok::<
                Action,
                LobbyError,
            >(Action::RequestCreate { visibility, max_members }),
            !(old(self).state is Idle) ==> final(self).state == old(self).state && r == Err::<
                Action,
                LobbyError,
            >(LobbyError::InvalidState),
    {
        match &self.state {
            LobbyState::Idle => {
                self.state = LobbyState::Creating;
                Ok(Action::RequestCreate { visibility, max_members })
            },
            _ => Err(LobbyError::InvalidState),
        }
    }

    /// Command: leave whatever lobby is held or pending. Always permitted;
    /// the owner of the session table releases every connection of the
    /// former lobby alongside this call.
    pub fn cmd_leave(&mut self)
        ensures
            final(self).self_id == old(self).self_id,
            final(self).state is Idle,
    {
        self.state = LobbyState::Idle;
    }

    /// Event: the create request completed and the lobby exists. Only a
    /// machine that is `Creating` takes the transition, becoming the sole
    /// member of the new lobby; in any other state the event is stale and
    /// ignored.
    pub fn on_lobby_created(&mut self, lobby: LobbyId)
        ensures
            final(self).self_id == old(self).self_id,
            old(self).state is Creating ==> (final(self).state matches LobbyState::Joined {
                lobby: l,
                members,
            } && l == lobby && members@ == seq![old(self).self_id]),
            !(old(self).state is Creating) ==> final(self).state == old(self).state,
    {
        match &self.state {
            LobbyState::Creating => {
                let mut members: Vec<PeerId> = Vec::new();
                members.push(self.self_id);
                proof {
                    assert(members@ =~= seq![self.self_id]);
                }
                self.state = LobbyState::Joined { lobby, members };
            },
            _ => {},
        }
    }

    /// Event: the local user asked (or accepted an invitation) to join a
    /// lobby. From `Idle` or `Joined` the machine moves to `Joining` and
    /// the caller issues the asynchronous join request; while a create or
    /// another join is already in flight the event is ignored.
    pub fn on_join_requested(&mut self, lobby: LobbyId) -> (r: Option<Action>)
        ensures
            final(self).self_id == old(self).self_id,
            (old(self).state is Idle || old(self).state is Joined) ==> final(self).state
                == (LobbyState::Joining { lobby }) && r == Some(Action::RequestJoin { lobby }),
            !(old(self).state is Idle || old(self).state is Joined)
                ==> final(self).state == old(self).state && r is None,
    {
        match &self.state {
            LobbyState::Idle | LobbyState::Joined { .. } => {
                self.state = LobbyState::Joining { lobby };
                Some(Action::RequestJoin { lobby })
            },
            _ => None,
        }
    }

    /// Event: the join request for this lobby completed. The caller hands
    /// in the roster it fetched synchronously from the matchmaking
    /// service at this transition. A completion for a lobby the machine
    /// is not waiting on is stale and ignored.
    pub fn on_lobby_joined(&mut self, lobby: LobbyId, roster: Vec<PeerId>)
        ensures
            final(self).self_id == old(self).self_id,
            (old(self).state matches LobbyState::Joining { lobby: l } && l == lobby)
                ==> (final(self).state matches LobbyState::Joined { lobby: l2, members }
                    && l2 == lobby && members@ == roster@),
            !(old(self).state matches LobbyState::Joining { lobby: l } && l == lobby)
                ==> final(self).state == old(self).state,
    {
        match &self.state {
            LobbyState::Joining { lobby: pending } => {
                if pending.raw == lobby.raw {
                    self.state = LobbyState::Joined { lobby, members: roster };
                }
            },
            _ => {},
        }
    }

    /// Event: the membership of the held lobby changed; the caller hands
    /// in the freshly fetched roster. Outside `Joined` the event is
    /// ignored.
    pub fn on_membership_changed(&mut self, roster: Vec<PeerId>)
        ensures
            final(self).self_id == old(self).self_id,
            old(self).state is Joined ==> (final(self).state matches LobbyState::Joined {
                lobby,
                members,
            } && lobby == old(self).state->Joined_lobby && members@ == roster@),
            !(old(self).state is Joined) ==> final(self).state == old(self).state,
    {
        match &mut self.state {
            LobbyState::Joined { members, .. } => {
                *members = roster;
            },
            _ => {},
        }
    }
}

} // verus!
