//! The userspace handle of the data path: the interface it is attached to
//! and the tables it shares with the classifier.

use crate::block_map::{blocked_entry, BlockError, BLOCK_MAP_CAPACITY};
use crate::classifier::{frame_event, routertrap, verdict, DataPath, XDP_DROP, XDP_PASS};
use crate::common::{BlockedIp, PacketEvent};
use crate::detection::expiry_at;
use crate::events::{lost_once, EVENT_CHANNEL_CAPACITY};
use crate::stats::{bumped, protocol_stat_key, STAT_BLOCKED_PACKETS};
use vstd::prelude::*;

verus! {

/// The data path of one network interface.
pub struct EbpfManager {
    interface: String,
    maps: DataPath,
    attached: bool,
}

impl EbpfManager {
    /// The name of the interface.
    pub closed spec fn interface(&self) -> Seq<char> {
        self.interface@
    }

    /// The block map of the data path.
    pub closed spec fn blocked(&self) -> Map<u32, BlockedIp> {
        self.maps.blocked@
    }

    /// The pending packet events, oldest first.
    pub closed spec fn events(&self) -> Seq<PacketEvent> {
        self.maps.events@
    }

    /// The counters of the data path, by code.
    pub closed spec fn stats(&self) -> Map<u32, u64> {
        self.maps.stats@
    }

    /// Number of packet events that were lost because the channel was full.
    pub closed spec fn lost(&self) -> u64 {
        self.maps.events.dropped()
    }

    /// Whether the classifier is attached to the interface.
    pub closed spec fn attached(&self) -> bool {
        self.attached
    }

    /// The invariant of the type: its tables are well formed and of the
    /// default sizes.
    pub closed spec fn wf(&self) -> bool {
        &&& self.maps.wf()
        &&& self.maps.blocked.capacity() == BLOCK_MAP_CAPACITY
        &&& self.maps.events.capacity() == EVENT_CHANNEL_CAPACITY
    }

    /// The pending events after the classifier reported `e`: it is queued
    /// if the channel has room, and lost otherwise.
    pub open spec fn events_with(&self, e: PacketEvent) -> Seq<PacketEvent> {
        if self.events().len() < EVENT_CHANNEL_CAPACITY {
            self.events().push(e)
        } else {
            self.events()
        }
    }

    /// The loss counter after the classifier reported `e`.
    pub open spec fn lost_with(&self, e: PacketEvent) -> u64 {
        if self.events().len() < EVENT_CHANNEL_CAPACITY {
            self.lost()
        } else {
            lost_once(self.lost())
        }
    }

    /// Attaches to an interface, with empty tables of the default sizes.
    pub fn new(interface: &str) -> (m: EbpfManager)
        ensures
            m.wf(),
            m.interface() == interface@,
            m.attached(),
            m.blocked() == Map::<u32, BlockedIp>::empty(),
            m.events() == Seq::<PacketEvent>::empty(),
            m.lost() == 0,
            forall|key: u32| m.stats().contains_key(key) ==> m.stats()[key] == 0,
    {
        let maps = DataPath::new(BLOCK_MAP_CAPACITY, EVENT_CHANNEL_CAPACITY);
        assert forall|key: u32| maps.stats@.contains_key(key) implies maps.stats@[key] == 0 by {
            assert(maps.stats.count(key) == 0);
        }
        EbpfManager { interface: interface.to_string(), maps, attached: true }
    }

    /// Blocks `ip` for `duration_secs` seconds from `now` on. An address
    /// that is blocked already keeps the later of its two expiry times; a
    /// new address is refused when the block map is full.
    pub fn block_ip(&mut self, ip: u32, now: u64, duration_secs: u64, reason: u8) -> (r: Result<
        (),
        BlockError,
    >)
        requires
            old(self).wf(),
        ensures
            final(self).wf(),
            final(self).interface() == old(self).interface(),
            final(self).attached() == old(self).attached(),
            final(self).events() == old(self).events(),
            final(self).stats() == old(self).stats(),
            final(self).lost() == old(self).lost(),
            r is Err <==> !old(self).blocked().contains_key(ip) && old(self).blocked().len()
                >= BLOCK_MAP_CAPACITY,
            r is Err ==> final(self).blocked() == old(self).blocked(),
            r is Ok ==> final(self).blocked() == old(self).blocked().insert(
                ip,
                blocked_entry(old(self).blocked(), ip, expiry_at(now, duration_secs), reason),
            ),
    {
        let expiry = now.saturating_add(duration_secs);
        self.maps.blocked.block(ip, expiry, reason)
    }

    /// Lifts the block of `ip`; says whether there was one.
    pub fn unblock_ip(&mut self, ip: u32) -> (removed: bool)
        requires
            old(self).wf(),
        ensures
            final(self).wf(),
            final(self).interface() == old(self).interface(),
            final(self).attached() == old(self).attached(),
            final(self).events() == old(self).events(),
            final(self).stats() == old(self).stats(),
            final(self).lost() == old(self).lost(),
            removed == old(self).blocked().contains_key(ip),
            final(self).blocked() == old(self).blocked().remove(ip),
    {
        self.maps.blocked.unblock(ip)
    }

    /// Runs the classifier on one frame. Once detached, every frame is
    /// passed on untouched.
    pub fn process(&mut self, frame: &[u8]) -> (action: u32)
        requires
            old(self).wf(),
        ensures
            final(self).wf(),
            final(self).interface() == old(self).interface(),
            final(self).attached() == old(self).attached(),
            final(self).blocked() == old(self).blocked(),
            action == (if old(self).attached() {
                verdict(frame@, old(self).blocked())
            } else {
                XDP_PASS
            }),
            !old(self).attached() ==> {
                &&& final(self).stats() == old(self).stats()
                &&& final(self).events() == old(self).events()
                &&& final(self).lost() == old(self).lost()
            },
            old(self).attached() && action == XDP_DROP ==> {
                &&& final(self).stats() == bumped(old(self).stats(), STAT_BLOCKED_PACKETS)
                &&& final(self).events() == old(self).events()
                &&& final(self).lost() == old(self).lost()
            },
            old(self).attached() && action == XDP_PASS ==> match frame_event(frame@) {
                Some(e) => {
                    &&& final(self).stats() == bumped(
                        old(self).stats(),
                        protocol_stat_key(e.protocol_type),
                    )
                    &&& final(self).events() == old(self).events_with(e)
                    &&& final(self).lost() == old(self).lost_with(e)
                },
                None => {
                    &&& final(self).stats() == old(self).stats()
                    &&& final(self).events() == old(self).events()
                    &&& final(self).lost() == old(self).lost()
                },
            },
    {
        if self.attached {
            routertrap(frame, &mut self.maps)
        } else {
            XDP_PASS
        }
    }

    /// Takes the oldest pending packet event, if there is one.
    pub fn poll_event(&mut self) -> (e: Option<PacketEvent>)
        requires
            old(self).wf(),
        ensures
            final(self).wf(),
            final(self).interface() == old(self).interface(),
            final(self).attached() == old(self).attached(),
            final(self).blocked() == old(self).blocked(),
            final(self).stats() == old(self).stats(),
            final(self).lost() == old(self).lost(),
            old(self).events().len() == 0 ==> {
                &&& e is None
                &&& final(self).events() == old(self).events()
            },
            old(self).events().len() > 0 ==> {
                &&& e == Some(old(self).events()[0])
                &&& final(self).events() == old(self).events().skip(1)
            },
    {
        self.maps.events.poll()
    }

    /// The tables of a data path are well formed and of the default sizes.
    pub open spec fn tables_wf(maps: DataPath) -> bool {
        &&& maps.wf()
        &&& maps.blocked.capacity() == BLOCK_MAP_CAPACITY
        &&& maps.events.capacity() == EVENT_CHANNEL_CAPACITY
    }

    /// The tables, for the controller. They are handed out as they stand,
    /// and the handle is what the controller leaves of them: it is well
    /// formed again if the tables are, at their sizes.
    pub fn maps(&mut self) -> (maps: &mut DataPath)
        ensures
            old(self).wf() ==> EbpfManager::tables_wf(*maps),
            maps.blocked@ == old(self).blocked(),
            maps.events@ == old(self).events(),
            maps.events.dropped() == old(self).lost(),
            maps.stats@ == old(self).stats(),
            final(self).interface() == old(self).interface(),
            final(self).attached() == old(self).attached(),
            final(self).blocked() == final(maps).blocked@,
            final(self).events() == final(maps).events@,
            final(self).lost() == final(maps).events.dropped(),
            final(self).stats() == final(maps).stats@,
            EbpfManager::tables_wf(*final(maps)) ==> final(self).wf(),
    {
        &mut self.maps
    }

    /// Detaches from the interface. The tables stay readable.
    pub fn shutdown(&mut self)
        ensures
            !final(self).attached(),
            final(self).interface() == old(self).interface(),
            final(self).blocked() == old(self).blocked(),
            final(self).events() == old(self).events(),
            final(self).stats() == old(self).stats(),
            final(self).lost() == old(self).lost(),
            old(self).wf() ==> final(self).wf(),
    {
        self.attached = false;
    }
}

} // verus!
