//! The statistics map: monotonic 64-bit counters under small integer codes.

use crate::common::Protocol;
use std::collections::HashMap;
use vstd::prelude::*;

verus! {

/// Code of the counter of packets dropped because their source was blocked.
pub const STAT_BLOCKED_PACKETS: u32 = 0;

/// The counter of a protocol tag has this code plus the tag's value.
pub const STAT_PROTOCOL_BASE: u32 = 100;

/// Largest numeric value of a protocol tag.
pub const MAX_PROTOCOL_CODE: u8 = 14;

/// Whether `key` is one of the counters that a fresh map holds.
pub open spec fn is_stat_key(key: u32) -> bool {
    key == STAT_BLOCKED_PACKETS || (STAT_PROTOCOL_BASE <= key <= STAT_PROTOCOL_BASE
        + MAX_PROTOCOL_CODE)
}

/// The code of the counter of a protocol tag.
pub open spec fn protocol_stat_key(tag: u8) -> u32 {
    (STAT_PROTOCOL_BASE + tag) as u32
}

/// A counter after one more count: it never wraps and never decreases.
pub open spec fn counted_once(c: u64) -> u64 {
    if c < u64::MAX {
        (c + 1) as u64
    } else {
        c
    }
}

/// The map after one count under `key`. Only counters that exist count.
pub open spec fn bumped(m: Map<u32, u64>, key: u32) -> Map<u32, u64> {
    if m.contains_key(key) {
        m.insert(key, counted_once(m[key]))
    } else {
        m
    }
}

/// Counters of the data path, read by userspace.
pub struct StatsMap {
    counters: HashMap<u32, u64>,
}

impl StatsMap {
    /// The counters, by code.
    pub closed spec fn view(&self) -> Map<u32, u64> {
        self.counters@
    }

    /// The counter of blocked packets and one counter for each protocol tag
    /// exist.
    pub open spec fn wf(&self) -> bool {
        forall|key: u32| is_stat_key(key) ==> #[trigger] self@.contains_key(key)
    }

    /// The value under `key`; a counter that does not exist reads as zero.
    pub open spec fn count(&self, key: u32) -> u64 {
        if self@.contains_key(key) {
            self@[key]
        } else {
            0
        }
    }

    /// A map with the counter of blocked packets and one counter for each
    /// protocol tag, all at zero.
    pub fn new() -> (m: StatsMap)
        ensures
            m.wf(),
            forall|key: u32| m@.contains_key(key) <==> is_stat_key(key),
            forall|key: u32| m.count(key) == 0,
    {
        let mut counters: HashMap<u32, u64> = HashMap::new();
        counters.insert(STAT_BLOCKED_PACKETS, 0);
        let mut tag: u8 = 0;
        while tag <= MAX_PROTOCOL_CODE
            invariant
                tag <= MAX_PROTOCOL_CODE + 1,
                forall|key: u32|
                    counters@.contains_key(key) <==> (key == STAT_BLOCKED_PACKETS || (
                    STAT_PROTOCOL_BASE <= key < STAT_PROTOCOL_BASE + tag)),
                forall|key: u32| counters@.contains_key(key) ==> counters@[key] == 0,
            decreases MAX_PROTOCOL_CODE + 1 - tag,
        {
            counters.insert(STAT_PROTOCOL_BASE + tag as u32, 0);
            tag += 1;
        }
        StatsMap { counters }
    }

    /// Reads the counter under `key`.
    pub fn get(&self, key: u32) -> (c: u64)
        ensures
            c == self.count(key),
    {
        match self.counters.get(&key) {
            Some(c) => *c,
            None => 0,
        }
    }

    /// Counts once under `key`. A counter at its maximum stays there; a
    /// code without a counter is left alone.
    pub fn increment(&mut self, key: u32)
        ensures
            final(self)@ == bumped(old(self)@, key),
            old(self).wf() ==> final(self).wf(),
    {
        let next = match self.counters.get(&key) {
            Some(c) => {
                if *c < u64::MAX {
                    Some(*c + 1)
                } else {
                    None
                }
            },
            None => None,
        };
        match next {
            Some(n) => {
                self.counters.insert(key, n);
            },
            None => {
                assert(bumped(old(self)@, key) =~= old(self)@);
            },
        }
    }
}

/// Counting never lowers a counter, and touches no other counter.
pub proof fn lemma_bumped_monotonic(m: Map<u32, u64>, key: u32, other: u32)
    ensures
        bumped(m, key).dom() == m.dom(),
        m.contains_key(other) ==> bumped(m, key)[other] >= m[other],
        m.contains_key(other) && other != key ==> bumped(m, key)[other] == m[other],
{
    assert(bumped(m, key).dom() =~= m.dom());
}

} // verus!
