use lobby_link::ChannelEvent;
use lobby_link::DeliveryClass;
use lobby_link::LobbyCore;
use lobby_link::LobbyId;
use lobby_link::Payload;
use lobby_link::PeerId;
use lobby_link::RawInbound;
use lobby_link::RouteError;
use lobby_link::OutboundMessage;
use lobby_link::Target;
use lobby_link::codec::encode;
use lobby_link::router::apply_send_results;
use lobby_link::router::broadcast;
use lobby_link::router::receive_pending;
use lobby_link::router::route;
use lobby_link::router::send_to_peer;

fn joined_core(me: PeerId, others: Vec<PeerId>, lobby: LobbyId) -> LobbyCore {
    let mut core = LobbyCore::new(me);
    core.process_event(ChannelEvent::JoinRequested(lobby), None);
    let mut roster = vec![me];
    roster.extend(others);
    core.process_event(ChannelEvent::LobbyJoined(lobby), Some(roster));
    core
}

#[test]
fn broadcast_requires_a_lobby() {
    let core = LobbyCore::new(PeerId::new(1));
    let result = broadcast(
        &core.lobby,
        &core.sessions,
        &Payload::new(vec![42]),
        DeliveryClass::Reliable,
    );
    assert!(matches!(result, Err(RouteError::NotInLobby)));
}

#[test]
fn broadcast_targets_every_other_member_with_the_same_frame() {
    let me = PeerId::new(1);
    let a = PeerId::new(2);
    let b = PeerId::new(3);
    let core = joined_core(me, vec![a, b], LobbyId::new(5));

    let payload = Payload::new(vec![42]);
    let plan = broadcast(&core.lobby, &core.sessions, &payload, DeliveryClass::Reliable)
        .expect("broadcast while joined must resolve");

    assert_eq!(plan.sends.len(), 2);
    assert_eq!(plan.sends[0].peer, a);
    assert_eq!(plan.sends[1].peer, b);
    let frame = encode(&payload);
    for send in &plan.sends {
        assert_eq!(send.bytes, frame);
        assert_eq!(send.class, DeliveryClass::Reliable);
    }
    assert!(plan.skipped.is_empty());
}

#[test]
fn unreachable_member_is_skipped_softly() {
    let me = PeerId::new(1);
    let a = PeerId::new(2);
    let b = PeerId::new(3);
    let mut core = joined_core(me, vec![a, b], LobbyId::new(5));
    core.process_event(ChannelEvent::SessionFailed(a, -1), None);

    let plan = broadcast(
        &core.lobby,
        &core.sessions,
        &Payload::new(vec![9]),
        DeliveryClass::Unreliable,
    )
    .expect("broadcast while joined must resolve");

    assert_eq!(plan.sends.len(), 1);
    assert_eq!(plan.sends[0].peer, b);
    assert_eq!(plan.skipped, vec![a]);
}

#[test]
fn failed_send_to_one_peer_still_delivers_to_the_other() {
    let me = PeerId::new(1);
    let a = PeerId::new(2);
    let b = PeerId::new(3);
    let core = joined_core(me, vec![a, b], LobbyId::new(5));

    let plan = broadcast(
        &core.lobby,
        &core.sessions,
        &Payload::new(vec![7, 7]),
        DeliveryClass::Reliable,
    )
    .expect("broadcast while joined must resolve");
    assert_eq!(plan.sends.len(), 2);

    // The transport rejects A's send and accepts B's.
    let outcomes = vec![Some(-13), None];
    let report = apply_send_results(&plan.sends, &outcomes);
    assert_eq!(report.delivered, vec![b]);
    assert_eq!(report.failed.len(), 1);
    assert_eq!(report.failed[0].peer, a);
    assert_eq!(report.failed[0].reason, -13);
}

#[test]
fn send_to_peer_distinguishes_every_failure() {
    let me = PeerId::new(1);
    let a = PeerId::new(2);
    let idle = LobbyCore::new(me);
    let payload = Payload::new(vec![1]);

    let result = send_to_peer(&idle.lobby, &idle.sessions, a, &payload, DeliveryClass::Reliable);
    assert!(matches!(result, Err(RouteError::NotInLobby)));

    let mut core = joined_core(me, vec![a], LobbyId::new(6));
    core.process_event(ChannelEvent::SessionFailed(a, -1), None);
    let result = send_to_peer(&core.lobby, &core.sessions, a, &payload, DeliveryClass::Reliable);
    assert!(matches!(result, Err(RouteError::NoConnection)));

    let core = joined_core(me, vec![a], LobbyId::new(6));
    let wire = send_to_peer(&core.lobby, &core.sessions, a, &payload, DeliveryClass::Reliable)
        .expect("connected member must be sendable");
    assert_eq!(wire.peer, a);
    assert_eq!(wire.bytes, encode(&payload));
}

#[test]
fn receive_pending_decodes_in_order_and_skips_malformed() {
    let a = PeerId::new(2);
    let b = PeerId::new(3);
    let good1 = encode(&Payload::new(vec![1, 2]));
    let bad = vec![9, 9, 9];
    let good2 = encode(&Payload::new(Vec::new()));

    let raw = vec![
        RawInbound { from: a, bytes: good1 },
        RawInbound { from: b, bytes: bad },
        RawInbound { from: b, bytes: good2 },
    ];
    let inbound = receive_pending(&raw);
    assert_eq!(inbound.len(), 2);
    assert_eq!(inbound[0].from, a);
    assert_eq!(inbound[0].payload, Payload::new(vec![1, 2]));
    assert_eq!(inbound[1].from, b);
    assert_eq!(inbound[1].payload, Payload::new(Vec::new()));
}

#[test]
fn receive_pending_of_empty_batch_is_empty() {
    let inbound = receive_pending(&Vec::new());
    assert!(inbound.is_empty());
}

#[test]
fn route_dispatches_by_target_selector() {
    let me = PeerId::new(1);
    let a = PeerId::new(2);
    let b = PeerId::new(3);
    let core = joined_core(me, vec![a, b], LobbyId::new(5));
    let payload = Payload::new(vec![4, 5, 6]);

    let plan = route(
        &core.lobby,
        &core.sessions,
        &OutboundMessage {
            payload: Payload::new(vec![4, 5, 6]),
            target: Target::AllOthersInLobby,
            class: DeliveryClass::Reliable,
        },
    )
    .expect("broadcast route must resolve");
    assert_eq!(plan.sends.len(), 2);

    let plan = route(
        &core.lobby,
        &core.sessions,
        &OutboundMessage {
            payload: Payload::new(vec![4, 5, 6]),
            target: Target::SinglePeer(b),
            class: DeliveryClass::Unreliable,
        },
    )
    .expect("single route to a connected member must resolve");
    assert_eq!(plan.sends.len(), 1);
    assert_eq!(plan.sends[0].peer, b);
    assert_eq!(plan.sends[0].bytes, encode(&payload));
    assert!(plan.skipped.is_empty());

    let refused = route(
        &core.lobby,
        &core.sessions,
        &OutboundMessage {
            payload: Payload::new(vec![4]),
            target: Target::SinglePeer(PeerId::new(77)),
            class: DeliveryClass::Reliable,
        },
    );
    assert!(matches!(refused, Err(RouteError::NoConnection)));

    let idle = LobbyCore::new(me);
    let refused = route(
        &idle.lobby,
        &idle.sessions,
        &OutboundMessage {
            payload: Payload::new(vec![4]),
            target: Target::AllOthersInLobby,
            class: DeliveryClass::Reliable,
        },
    );
    assert!(matches!(refused, Err(RouteError::NotInLobby)));
}
