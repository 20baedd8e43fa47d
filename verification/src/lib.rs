//! A verified core for coordinating a small lobby of networked peers.
//!
//! The library owns the logic of a peer-to-peer lobby session: a typed
//! event queue that turns asynchronous platform notifications into a
//! deterministic per-tick stream, the lobby lifecycle state machine, the
//! per-peer session table, and the message codec and router. The platform
//! services themselves (matchmaking backend, transport, render loop) are
//! external collaborators driven by a thin unverified shell.

pub mod actions;
pub mod bridge;
pub mod codec;
pub mod coordinator;
pub mod events;
pub mod ids;
pub mod lobby;
pub mod notify;
pub mod router;
pub mod session;

pub use actions::Action;
pub use actions::Visibility;
pub use bridge::EventBridge;
pub use codec::DecodeError;
pub use codec::Payload;
pub use coordinator::LobbyCore;
pub use events::ChannelEvent;
pub use ids::DeliveryClass;
pub use ids::LobbyId;
pub use ids::PeerId;
pub use lobby::LobbyError;
pub use lobby::LobbyState;
pub use lobby::LobbyStateMachine;
pub use notify::emit_from_callback;
pub use notify::notification_channel;
pub use notify::pump_notifications;
pub use router::BroadcastPlan;
pub use router::DeliveryReport;
pub use router::InboundMessage;
pub use router::OutboundMessage;
pub use router::RawInbound;
pub use router::RouteError;
pub use router::Target;
pub use router::SendFailure;
pub use session::SendError;
pub use session::SessionManager;
pub use session::WireSend;
