//! The cross-thread notification channel.
//!
//! Platform callbacks fire on threads the core does not own, so the one
//! thing a callback may do is push a typed event into a channel; the tick
//! thread pumps that channel into the event bridge. The channel itself is
//! an outside concurrent queue: what another thread put into it cannot be
//! known here, so its operations carry no promises beyond their shape,
//! and everything provable — that the pump hands every event it took to
//! the bridge, in the order it took them, dropping none — is proved of
//! the pump.

use crate::bridge::EventBridge;
use crate::events::ChannelEvent;
use crossbeam_channel::Receiver;
use crossbeam_channel::Sender;
use vstd::prelude::*;

verus! {

#[verifier::external_type_specification]
#[verifier::external_body]
#[verifier::reject_recursive_types(T)]
pub struct ExSender<T>(Sender<T>);

#[verifier::external_type_specification]
#[verifier::external_body]
#[verifier::reject_recursive_types(T)]
pub struct ExReceiver<T>(Receiver<T>);

/// Relies on crossbeam_channel::unbounded: a channel of unlimited
/// capacity, so a send never blocks and never rejects a message.
#[verifier::external_body]
pub fn notification_channel() -> (Sender<ChannelEvent>, Receiver<ChannelEvent>) {
    crossbeam_channel::unbounded()
}

/// Relies on crossbeam_channel::Sender::send: enqueues the message; on
/// an unbounded channel it fails only when every receiver is gone, and
/// then the notification has nowhere to go anyway, so the error is
/// dropped — the calling thread is platform-owned and must never stall
/// or panic here.
#[verifier::external_body]
pub fn emit_from_callback(tx: &Sender<ChannelEvent>, event: ChannelEvent) {
    let _ = tx.send(event);
}

/// Relies on crossbeam_channel::Receiver::try_recv: hands out a queued
/// message without blocking, or nothing. Which message arrives depends
/// on what other threads sent, so nothing more is promised of the
/// result.
#[verifier::external_body]
fn try_recv_notification(rx: &Receiver<ChannelEvent>) -> Option<ChannelEvent> {
    rx.try_recv().ok()
}

/// Pump the cross-thread channel into the bridge: take up to
/// `max_events` queued notifications and emit each one, in the order
/// the channel handed them out. Every event taken reaches the bridge —
/// none is dropped, reordered or duplicated on the way — and what was
/// already queued or drained stays untouched. The budget keeps one tick
/// bounded even while other threads keep sending; the remainder is
/// picked up next tick.
pub fn pump_notifications(
    rx: &Receiver<ChannelEvent>,
    bridge: &mut EventBridge,
    max_events: usize,
) -> (got: Vec<ChannelEvent>)
    requires
        old(bridge).wf(),
    ensures
        final(bridge).wf(),
        final(bridge).emitted() == old(bridge).emitted() + got@,
        final(bridge).pending() == old(bridge).pending() + got@,
        final(bridge).drained() == old(bridge).drained(),
        got@.len() <= max_events,
{
    let mut got: Vec<ChannelEvent> = Vec::new();
    let mut live: usize = 1;
    let mut taken: usize = 0;
    while live == 1 && taken < max_events
        invariant
            bridge.wf(),
            bridge.emitted() == old(bridge).emitted() + got@,
            bridge.pending() == old(bridge).pending() + got@,
            bridge.drained() == old(bridge).drained(),
            taken == got@.len(),
            taken <= max_events,
        decreases max_events - taken + live,
    {
        match try_recv_notification(rx) {
            Some(event) => {
                bridge.emit(event);
                got.push(event);
                taken = taken + 1;
                proof {
                    assert(bridge.emitted() =~= old(bridge).emitted() + got@);
                    assert(bridge.pending() =~= old(bridge).pending() + got@);
                }
            },
            None => {
                live = 0;
            },
        }
    }
    proof {
        assert(bridge.emitted() =~= old(bridge).emitted() + got@);
        assert(bridge.pending() =~= old(bridge).pending() + got@);
    }
    got
}

} // verus!
