use lobby_link::Action;
use lobby_link::DeliveryClass;
use lobby_link::SendError;
use lobby_link::SessionManager;
use lobby_link::PeerId;
use lobby_link::session::finish_send;

#[test]
fn on_joined_twice_keeps_one_connection_per_peer() {
    let me = PeerId::new(1);
    let a = PeerId::new(2);
    let b = PeerId::new(3);
    let roster = vec![a, b, me];

    let mut sessions = SessionManager::new();
    let first = sessions.on_joined(&roster, me);
    assert_eq!(first, vec![a, b]);
    let second = sessions.on_joined(&roster, me);
    assert!(second.is_empty());

    assert_eq!(sessions.connection_count(), 2);
    assert!(sessions.has_connection(a));
    assert!(sessions.has_connection(b));
    assert!(!sessions.has_connection(me));
}

#[test]
fn on_joined_never_connects_to_self() {
    let me = PeerId::new(7);
    let mut sessions = SessionManager::new();
    let new_peers = sessions.on_joined(&vec![me], me);
    assert!(new_peers.is_empty());
    assert_eq!(sessions.connection_count(), 0);
}

#[test]
fn duplicate_roster_entries_connect_once() {
    let me = PeerId::new(1);
    let a = PeerId::new(2);
    let mut sessions = SessionManager::new();
    let new_peers = sessions.on_joined(&vec![a, a, a, me], me);
    assert_eq!(new_peers, vec![a]);
    assert_eq!(sessions.connection_count(), 1);
}

#[test]
fn inbound_request_is_accepted_and_recorded() {
    let stranger = PeerId::new(99);
    let mut sessions = SessionManager::new();
    let action = sessions.on_session_requested(stranger);
    assert_eq!(action, Action::AcceptSession { peer: stranger });
    assert!(sessions.has_connection(stranger));
    sessions.on_session_requested(stranger);
    assert_eq!(sessions.connection_count(), 1);
}

#[test]
fn session_failure_removes_the_connection() {
    let me = PeerId::new(1);
    let a = PeerId::new(2);
    let b = PeerId::new(3);
    let mut sessions = SessionManager::new();
    sessions.on_joined(&vec![a, b], me);
    sessions.on_session_failed(a);
    assert!(!sessions.has_connection(a));
    assert!(sessions.has_connection(b));
    assert_eq!(sessions.connection_count(), 1);
    sessions.on_session_failed(a);
    assert_eq!(sessions.connection_count(), 1);
}

#[test]
fn send_requires_a_connection() {
    let me = PeerId::new(1);
    let a = PeerId::new(2);
    let mut sessions = SessionManager::new();
    assert_eq!(
        sessions.send(a, vec![5], DeliveryClass::Reliable).err(),
        Some(SendError::NoConnection)
    );
    sessions.on_joined(&vec![a], me);
    let wire = sessions
        .send(a, vec![5], DeliveryClass::Reliable)
        .expect("connected peer must be sendable");
    assert_eq!(wire.peer, a);
    assert_eq!(wire.bytes, vec![5]);
    assert_eq!(wire.class, DeliveryClass::Reliable);
}

#[test]
fn release_all_clears_every_connection() {
    let me = PeerId::new(1);
    let mut sessions = SessionManager::new();
    sessions.on_joined(&vec![PeerId::new(2), PeerId::new(3)], me);
    sessions.release_all();
    assert_eq!(sessions.connection_count(), 0);
}

#[test]
fn transport_verdict_maps_to_typed_result() {
    assert_eq!(finish_send(None), Ok(()));
    assert_eq!(
        finish_send(Some(-42)),
        Err(SendError::TransportError(-42))
    );
}
