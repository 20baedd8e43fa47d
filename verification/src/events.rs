//! The typed notifications the core reacts to.
//!
//! Platform callbacks fire on threads the core does not own; each callback
//! builds one `ChannelEvent` and hands it to the event bridge. The variants
//! form a closed tagged union, matched exhaustively once per tick, so a new
//! notification kind is a compile-time-checked extension point.

use crate::ids::LobbyId;
use crate::ids::PeerId;
use vstd::prelude::*;

verus! {

/// One asynchronous notification, consumed exactly once by the tick thread.
#[derive(Clone, Copy, PartialEq, Eq, Structural, Debug)]
pub enum ChannelEvent {
    /// The lobby requested by a create command now exists.
    LobbyCreated(LobbyId),
    /// The local user asked (or was invited) to join this lobby.
    JoinRequested(LobbyId),
    /// The join request for this lobby completed.
    LobbyJoined(LobbyId),
    /// A chat entry is waiting in the matchmaking service's buffer;
    /// only a reference (lobby plus slot index) travels with the event.
    ChatReceived(LobbyId, u32),
    /// The membership of this lobby changed; the current roster must be
    /// re-fetched from the matchmaking service.
    MembershipChanged(LobbyId),
    /// A remote peer asks to open a transport session with us.
    SessionRequested(PeerId),
    /// The transport session to this peer failed, with a platform
    /// reason code.
    SessionFailed(PeerId, i64),
}

} // verus!
