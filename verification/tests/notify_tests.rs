use lobby_link::ChannelEvent;
use lobby_link::EventBridge;
use lobby_link::LobbyId;
use lobby_link::PeerId;
use lobby_link::emit_from_callback;
use lobby_link::notification_channel;
use lobby_link::pump_notifications;

#[test]
fn pump_moves_channel_events_into_the_bridge_in_order() {
    let (tx, rx) = notification_channel();
    let e1 = ChannelEvent::LobbyCreated(LobbyId::new(1));
    let e2 = ChannelEvent::SessionRequested(PeerId::new(2));
    emit_from_callback(&tx, e1);
    emit_from_callback(&tx, e2);

    let mut bridge = EventBridge::new();
    let got = pump_notifications(&rx, &mut bridge, 16);
    assert_eq!(got, vec![e1, e2]);
    assert_eq!(bridge.drain_all(), vec![e1, e2]);
}

#[test]
fn pump_respects_its_per_tick_budget() {
    let (tx, rx) = notification_channel();
    for raw in 0..5u64 {
        emit_from_callback(&tx, ChannelEvent::JoinRequested(LobbyId::new(raw)));
    }

    let mut bridge = EventBridge::new();
    let first = pump_notifications(&rx, &mut bridge, 3);
    assert_eq!(first.len(), 3);
    let second = pump_notifications(&rx, &mut bridge, 16);
    assert_eq!(second.len(), 2);
    assert_eq!(bridge.drain_all().len(), 5);
}

#[test]
fn pump_on_an_empty_channel_takes_nothing() {
    let (tx, rx) = notification_channel();
    let mut bridge = EventBridge::new();
    let got = pump_notifications(&rx, &mut bridge, 16);
    assert!(got.is_empty());
    drop(tx);
}
