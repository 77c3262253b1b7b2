//! The event channel: a bounded, lossy queue from the data path to userspace.

use crate::common::PacketEvent;
use std::collections::VecDeque;
use vstd::prelude::*;

verus! {

/// Number of events that the channel of the data path can hold.
pub const EVENT_CHANNEL_CAPACITY: usize = 1024;

/// A bounded queue of packet events. An event that arrives while the queue
/// is full is lost, and the loss is counted.
pub struct EventChannel {
    queue: VecDeque<PacketEvent>,
    limit: usize,
    lost: u64,
}

/// The loss counter after one more loss; it stops at its maximum.
pub open spec fn lost_once(lost: u64) -> u64 {
    if lost < u64::MAX {
        (lost + 1) as u64
    } else {
        lost
    }
}

impl EventChannel {
    /// The pending events, oldest first.
    pub closed spec fn view(&self) -> Seq<PacketEvent> {
        self.queue@
    }

    /// The largest number of pending events.
    pub closed spec fn capacity(&self) -> nat {
        self.limit as nat
    }

    /// Number of events lost so far.
    pub closed spec fn dropped(&self) -> u64 {
        self.lost
    }

    /// The queue is within its capacity.
    pub open spec fn wf(&self) -> bool {
        self@.len() <= self.capacity()
    }

    /// The pending events after `e` was offered.
    pub open spec fn after_emit(&self, e: PacketEvent) -> Seq<PacketEvent> {
        if self@.len() < self.capacity() {
            self@.push(e)
        } else {
            self@
        }
    }

    /// The loss counter after `e` was offered.
    pub open spec fn dropped_after_emit(&self, e: PacketEvent) -> u64 {
        if self@.len() < self.capacity() {
            self.dropped()
        } else {
            lost_once(self.dropped())
        }
    }

    /// An empty channel that holds up to `capacity` events.
    pub fn new(capacity: usize) -> (ch: EventChannel)
        ensures
            ch.wf(),
            ch@ == Seq::<PacketEvent>::empty(),
            ch.capacity() == capacity,
            ch.dropped() == 0,
    {
        EventChannel { queue: VecDeque::new(), limit: capacity, lost: 0 }
    }

    /// Number of pending events.
    pub fn len(&self) -> (n: usize)
        ensures
            n == self@.len(),
    {
        self.queue.len()
    }

    /// Number of events lost so far.
    pub fn lost_events(&self) -> (n: u64)
        ensures
            n == self.dropped(),
    {
        self.lost
    }

    /// Offers an event. It is queued if there is room; otherwise it is lost
    /// and counted, and the queue stays as it was.
    pub fn emit(&mut self, e: PacketEvent) -> (accepted: bool)
        ensures
            accepted == (old(self)@.len() < old(self).capacity()),
            final(self)@ == old(self).after_emit(e),
            final(self).dropped() == old(self).dropped_after_emit(e),
            final(self).capacity() == old(self).capacity(),
            old(self).wf() ==> final(self).wf(),
    {
        if self.queue.len() < self.limit {
            self.queue.push_back(e);
            true
        } else {
            if self.lost < u64::MAX {
                self.lost = self.lost + 1;
            }
            false
        }
    }

    /// Takes the oldest pending event, if there is one.
    pub fn poll(&mut self) -> (e: Option<PacketEvent>)
        ensures
            final(self).capacity() == old(self).capacity(),
            final(self).dropped() == old(self).dropped(),
            old(self)@.len() == 0 ==> e is None && final(self)@ == old(self)@,
            old(self)@.len() > 0 ==> e == Some(old(self)@[0]) && final(self)@ == old(self)@.skip(1),
            old(self).wf() ==> final(self).wf(),
    {
        self.queue.pop_front()
    }
}

} // verus!
