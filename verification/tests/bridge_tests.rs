use lobby_link::ChannelEvent;
use lobby_link::EventBridge;
use lobby_link::LobbyId;
use lobby_link::PeerId;

#[test]
fn drain_all_preserves_fifo_order_exactly_once() {
    let mut bridge = EventBridge::new();
    let e1 = ChannelEvent::LobbyCreated(LobbyId::new(1));
    let e2 = ChannelEvent::SessionRequested(PeerId::new(2));
    let e3 = ChannelEvent::MembershipChanged(LobbyId::new(1));
    bridge.emit(e1);
    bridge.emit(e2);
    let first = bridge.drain_all();
    assert_eq!(first, vec![e1, e2]);
    bridge.emit(e3);
    let second = bridge.drain_all();
    assert_eq!(second, vec![e3]);
    let third = bridge.drain_all();
    assert!(third.is_empty());
}

#[test]
fn drain_one_hands_out_oldest_first() {
    let mut bridge = EventBridge::new();
    let e1 = ChannelEvent::JoinRequested(LobbyId::new(9));
    let e2 = ChannelEvent::SessionFailed(PeerId::new(4), -42);
    bridge.emit(e1);
    bridge.emit(e2);
    assert_eq!(bridge.drain_one(), Some(e1));
    assert_eq!(bridge.drain_one(), Some(e2));
    assert_eq!(bridge.drain_one(), None);
}

#[test]
fn drain_on_empty_bridge_is_empty() {
    let mut bridge = EventBridge::new();
    assert_eq!(bridge.drain_one(), None);
    assert!(bridge.drain_all().is_empty());
}

#[test]
fn emit_after_drain_keeps_later_events() {
    let mut bridge = EventBridge::new();
    let e1 = ChannelEvent::ChatReceived(LobbyId::new(3), 0);
    let e2 = ChannelEvent::ChatReceived(LobbyId::new(3), 1);
    bridge.emit(e1);
    assert_eq!(bridge.drain_one(), Some(e1));
    bridge.emit(e2);
    assert_eq!(bridge.drain_all(), vec![e2]);
}
