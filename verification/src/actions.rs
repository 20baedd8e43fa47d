//! Requests the core hands back to its unverified shell.
//!
//! The core never talks to the matchmaking or transport service itself.
//! Processing a command or an event yields a list of actions; the shell
//! performs each one against the platform and feeds any resulting
//! notification back through the event bridge.

use crate::ids::LobbyId;
use crate::ids::PeerId;
use vstd::prelude::*;

verus! {

/// Who may discover and enter a lobby the core asks to create.
#[derive(Clone, Copy, PartialEq, Eq, Structural, Debug)]
pub enum Visibility {
    Private,
    FriendsOnly,
    Public,
    Invisible,
}

/// One outward request for the shell to perform against the platform.
#[derive(Clone, Copy, PartialEq, Eq, Structural, Debug)]
pub enum Action {
    /// Ask the matchmaking service to create a lobby; its completion
    /// comes back as a `LobbyCreated` event.
    RequestCreate { visibility: Visibility, max_members: u32 },
    /// Ask the matchmaking service to join this lobby; its completion
    /// comes back as a `LobbyJoined` event.
    RequestJoin { lobby: LobbyId },
    /// Open an outbound transport connection to this peer.
    Connect { peer: PeerId },
    /// Accept this peer's inbound session request.
    AcceptSession { peer: PeerId },
    /// Fetch the chat entry sitting in the matchmaking service's buffer
    /// at this lobby and slot, via its bounded-buffer read.
    FetchChatEntry { lobby: LobbyId, slot: u32 },
    /// Tell the application that the session to this peer failed, with
    /// the platform's reason code; non-fatal.
    ReportSessionFailed { peer: PeerId, reason: i64 },
}

} // verus!
