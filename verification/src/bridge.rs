//! The event bridge: a multi-producer single-consumer queue discipline.
//!
//! Producers only construct an event and enqueue it; the single polling
//! thread drains one event or all pending events once per tick. The bridge
//! keeps two ghost histories, everything ever emitted and everything ever
//! drained, and maintains the invariant that the drained history followed
//! by the pending queue is exactly the emitted history. From that invariant
//! the queueing discipline follows: events come out in submission order,
//! each exactly once, none dropped.

use crate::events::ChannelEvent;
use vstd::prelude::*;

verus! {

/// FIFO queue of pending events with ghost emission/drain histories.
pub struct EventBridge {
    queue: Vec<ChannelEvent>,
    emitted: Ghost<Seq<ChannelEvent>>,
    drained: Ghost<Seq<ChannelEvent>>,
}

impl EventBridge {
    /// Every event ever handed to `emit`, in submission order.
    pub closed spec fn emitted(self) -> Seq<ChannelEvent> {
        self.emitted@
    }

    /// Every event ever handed out by `drain_one` or `drain_all`,
    /// in the order it was handed out.
    pub closed spec fn drained(self) -> Seq<ChannelEvent> {
        self.drained@
    }

    /// The events emitted but not yet drained, oldest first.
    pub closed spec fn pending(self) -> Seq<ChannelEvent> {
        self.queue@
    }

    /// The bridge never loses, duplicates or reorders an event: what was
    /// drained, followed by what is still pending, is exactly what was
    /// emitted.
    pub closed spec fn wf(self) -> bool {
        self.drained@ + self.queue@ == self.emitted@
    }

    pub fn new() -> (r: EventBridge)
        ensures
            r.wf(),
            r.emitted() == Seq::<ChannelEvent>::empty(),
            r.drained() == Seq::<ChannelEvent>::empty(),
            r.pending() == Seq::<ChannelEvent>::empty(),
    {
        let r = EventBridge {
            queue: Vec::new(),
            emitted: Ghost(Seq::empty()),
            drained: Ghost(Seq::empty()),
        };
        proof {
            assert(r.drained@ + r.queue@ =~= r.emitted@);
        }
        r
    }

    /// Enqueue one event. Never rejects and never hands back an error:
    /// the queue grows instead of dropping, since a dropped lobby
    /// lifecycle event would corrupt downstream state.
    pub fn emit(&mut self, event: ChannelEvent)
        requires
            old(self).wf(),
        ensures
            final(self).wf(),
            final(self).emitted() == old(self).emitted().push(event),
            final(self).drained() == old(self).drained(),
            final(self).pending() == old(self).pending().push(event),
    {
        self.queue.push(event);
        proof {
            self.emitted@ = self.emitted@.push(event);
            assert(self.drained@ + self.queue@ =~= self.emitted@);
        }
    }

    /// Hand out the oldest pending event, if any.
    pub fn drain_one(&mut self) -> (r: Option<ChannelEvent>)
        requires
            old(self).wf(),
        ensures
            final(self).wf(),
            final(self).emitted() == old(self).emitted(),
            old(self).pending().len() == 0 ==> (r is None
                && final(self).drained() == old(self).drained()
                && final(self).pending() == old(self).pending()),
            old(self).pending().len() > 0 ==> (r == Some(old(self).pending()[0])
                && final(self).drained() == old(self).drained().push(old(self).pending()[0])
                && final(self).pending() == old(self).pending().drop_first()),
    {
        if self.queue.len() == 0 {
            None
        } else {
            let event = self.queue.remove(0);
            proof {
                self.drained@ = self.drained@.push(event);
                assert(self.drained@ + self.queue@ =~= self.emitted@);
            }
            Some(event)
        }
    }

    /// Hand out every pending event at once, oldest first, leaving the
    /// queue empty.
    pub fn drain_all(&mut self) -> (r: Vec<ChannelEvent>)
        requires
            old(self).wf(),
        ensures
            final(self).wf(),
            final(self).emitted() == old(self).emitted(),
            r@ == old(self).pending(),
            final(self).drained() == old(self).drained() + old(self).pending(),
            final(self).pending().len() == 0,
    {
        let mut out: Vec<ChannelEvent> = Vec::new();
        while self.queue.len() > 0
            invariant
                out@ + self.queue@ == old(self).pending(),
                self.emitted@ == old(self).emitted(),
                self.drained@ == old(self).drained(),
            decreases self.queue.len(),
        {
            let event = self.queue.remove(0);
            out.push(event);
            proof {
                assert(out@ + self.queue@ =~= old(self).pending());
            }
        }
        proof {
            self.drained@ = self.drained@ + out@;
            assert(self.drained@ + self.queue@ =~= self.emitted@);
        }
        out
    }
}

/// Submission order is preserved and nothing is lost or duplicated: at any
/// point, the drained history followed by the pending queue is exactly the
/// emitted history, so the drained history is always a prefix of the
/// emitted one.
pub proof fn lemma_bridge_fifo(bridge: EventBridge)
    requires
        bridge.wf(),
    ensures
        bridge.drained() + bridge.pending() == bridge.emitted(),
        bridge.drained() == bridge.emitted().subrange(0, bridge.drained().len() as int),
{
    assert(bridge.drained() =~= bridge.emitted().subrange(0, bridge.drained().len() as int));
}

} // verus!
