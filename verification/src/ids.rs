//! Identifiers and plain value types shared by every component.
//!
//! A peer and a lobby are known to the core only through opaque numeric
//! identities handed out by the platform; the core never interprets them,
//! it only compares and stores them.

use vstd::prelude::*;

verus! {

/// Opaque identifier of one participant, stable for the life of a session.
/// Used as the key for lobby membership and for connection lookup.
#[derive(Clone, Copy, PartialEq, Eq, Structural, Debug, Hash)]
pub struct PeerId {
    pub raw: u64,
}

impl PeerId {
    pub fn new(raw: u64) -> (r: PeerId)
        ensures
            r.raw == raw,
    {
        PeerId { raw }
    }
}

/// Opaque identifier of the lobby currently created or joined.
#[derive(Clone, Copy, PartialEq, Eq, Structural, Debug, Hash)]
pub struct LobbyId {
    pub raw: u64,
}

impl LobbyId {
    pub fn new(raw: u64) -> (r: LobbyId)
        ensures
            r.raw == raw,
    {
        LobbyId { raw }
    }
}

/// Reliability mode requested for a single message send.
#[derive(Clone, Copy, PartialEq, Eq, Structural, Debug)]
pub enum DeliveryClass {
    Reliable,
    Unreliable,
}

} // verus!
