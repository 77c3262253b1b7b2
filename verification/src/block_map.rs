//! The block map: source addresses whose packets the data path drops.

use crate::common::BlockedIp;
use std::collections::HashMap;
use vstd::prelude::*;
use vstd::std_specs::iter::IteratorSpec;

verus! {

/// Number of entries that the block map of the data path can hold.
pub const BLOCK_MAP_CAPACITY: usize = 65536;

/// Why a block request was refused.
#[derive(Clone, Copy, Debug, PartialEq, Eq, Structural)]
pub enum BlockError {
    /// The map is at capacity and the address is not in it.
    Full,
}

/// A bounded table from source address to block entry. Entries leave only
/// by an explicit removal or by a sweep of the expired ones.
pub struct BlockMap {
    entries: HashMap<u32, BlockedIp>,
    limit: usize,
}

/// The entries of `m` that are still in force at `now`.
pub open spec fn active_entries(m: Map<u32, BlockedIp>, now: u64) -> Map<u32, BlockedIp> {
    m.restrict(Set::new(|ip: u32| m.contains_key(ip) && m[ip].active_at(now)))
}

/// What a block request leaves in the map: a new entry, or the old one with
/// the later of the two expiry times.
pub open spec fn blocked_entry(m: Map<u32, BlockedIp>, ip: u32, expiry: u64, reason: u8)
    -> BlockedIp {
    if m.contains_key(ip) && m[ip].expiry > expiry {
        BlockedIp { ip_addr: ip, expiry: m[ip].expiry, reason }
    } else {
        BlockedIp { ip_addr: ip, expiry, reason }
    }
}

impl BlockMap {
    /// The entries, by source address.
    pub closed spec fn view(&self) -> Map<u32, BlockedIp> {
        self.entries@
    }

    /// The largest number of entries the map accepts.
    pub closed spec fn capacity(&self) -> nat {
        self.limit as nat
    }

    /// Every entry is filed under its own address, and the map is within
    /// its capacity.
    pub open spec fn valid(m: Map<u32, BlockedIp>, capacity: nat) -> bool {
        &&& m.dom().finite()
        &&& m.len() <= capacity
        &&& forall|ip: u32| m.contains_key(ip) ==> (#[trigger] m[ip]).ip_addr == ip
    }

    /// The invariant of the type: what every constructor establishes and
    /// every method keeps.
    pub closed spec fn wf(&self) -> bool {
        BlockMap::valid(self.entries@, self.limit as nat)
    }

    /// A well-formed map is valid as a table.
    pub proof fn lemma_wf_valid(&self)
        requires
            self.wf(),
        ensures
            BlockMap::valid(self@, self.capacity()),
    {
    }

    /// An empty map that accepts up to `capacity` entries.
    pub fn new(capacity: usize) -> (m: BlockMap)
        ensures
            m.wf(),
            m@ == Map::<u32, BlockedIp>::empty(),
            m.capacity() == capacity,
    {
        BlockMap { entries: HashMap::new(), limit: capacity }
    }

    /// Number of entries.
    pub fn len(&self) -> (n: usize)
        requires
            self.wf(),
        ensures
            n == self@.len(),
            n <= self.capacity(),
    {
        self.entries.len()
    }

    /// The entry of `ip`, if it has one.
    pub fn lookup(&self, ip: u32) -> (entry: Option<BlockedIp>)
        ensures
            entry == (if self@.contains_key(ip) {
                Some(self@[ip])
            } else {
                None
            }),
    {
        match self.entries.get(&ip) {
            Some(e) => Some(*e),
            None => None,
        }
    }

    /// Whether `ip` has an entry, expired or not.
    pub fn contains(&self, ip: u32) -> (present: bool)
        ensures
            present == self@.contains_key(ip),
    {
        self.entries.contains_key(&ip)
    }

    /// Whether `ip` has an entry that is still in force at `now`.
    pub fn is_blocked(&self, ip: u32, now: u64) -> (blocked: bool)
        ensures
            blocked == (self@.contains_key(ip) && self@[ip].active_at(now)),
    {
        match self.entries.get(&ip) {
            Some(e) => now < e.expiry,
            None => false,
        }
    }

    /// Blocks `ip` until `expiry`. An address that is already in the map
    /// keeps the later of its two expiry times; a new address is refused
    /// when the map is at capacity, and then nothing changes.
    pub fn block(&mut self, ip: u32, expiry: u64, reason: u8) -> (r: Result<(), BlockError>)
        requires
            old(self).wf(),
        ensures
            final(self).wf(),
            final(self).capacity() == old(self).capacity(),
            r is Err <==> !old(self)@.contains_key(ip) && old(self)@.len() >= old(self).capacity(),
            r is Err ==> final(self)@ == old(self)@,
            r is Ok ==> final(self)@ == old(self)@.insert(
                ip,
                blocked_entry(old(self)@, ip, expiry, reason),
            ),
    {
        let until = match self.entries.get(&ip) {
            Some(e) => {
                if e.expiry > expiry {
                    e.expiry
                } else {
                    expiry
                }
            },
            None => {
                if self.entries.len() >= self.limit {
                    return Err(BlockError::Full);
                }
                expiry
            },
        };
        let ghost before = self.entries@;
        self.entries.insert(ip, BlockedIp { ip_addr: ip, expiry: until, reason });
        proof {
            if before.contains_key(ip) {
                assert(before.insert(ip, blocked_entry(before, ip, expiry, reason)).dom()
                    =~= before.dom());
            }
        }
        Ok(())
    }

    /// Removes the entry of `ip`; says whether there was one.
    pub fn unblock(&mut self, ip: u32) -> (removed: bool)
        requires
            old(self).wf(),
        ensures
            final(self).wf(),
            final(self).capacity() == old(self).capacity(),
            removed == old(self)@.contains_key(ip),
            final(self)@ == old(self)@.remove(ip),
    {
        let r = self.entries.remove(&ip);
        proof {
            if old(self)@.contains_key(ip) {
                old(self)@.lemma_remove_key_len(ip);
            } else {
                assert(old(self)@.remove(ip) =~= old(self)@);
            }
        }
        r.is_some()
    }
    /// The addresses whose entries have expired by `now`.
    fn expired_keys(&self, now: u64) -> (keys: Vec<u32>)
        requires
            self.wf(),
        ensures
            forall|i: int|
                0 <= i < keys@.len() ==> self@.contains_key(#[trigger] keys@[i]) && !self@[keys@[i]].active_at(
                    now,
                ),
            forall|ip: u32|
                self@.contains_key(ip) && !self@[ip].active_at(now) ==> keys@.contains(ip),
    {
        let mut keys: Vec<u32> = Vec::new();
        let ghost all: Seq<u32> = self.entries.keys().remaining().unref();
        for k in it: self.entries.keys()
            invariant
                it.seq().unref() == all,
                all.to_set() == self.entries@.dom(),
                forall|i: int|
                    0 <= i < keys@.len() ==> self.entries@.contains_key(#[trigger] keys@[i])
                        && !self.entries@[keys@[i]].active_at(now),
                forall|j: int|
                    0 <= j < it.index() && !self.entries@[all[j]].active_at(now)
                        ==> keys@.contains(#[trigger] all[j]),
        {
            assert(it.seq().unref()[it.index() as int] == *k);
            assert(it.seq().unref().to_set().contains(*k));
            let ghost prev = keys@;
            match self.entries.get(k) {
                Some(e) => {
                    if !(now < e.expiry) {
                        keys.push(*k);
                        assert(keys@[prev.len() as int] == *k);
                    }
                },
                None => {},
            }
            assert forall|j: int|
                0 <= j < it.index() + 1 && !self.entries@[all[j]].active_at(
                    now,
                ) implies keys@.contains(#[trigger] all[j]) by {
                if j < it.index() {
                    assert(prev.contains(all[j]));
                    let w = choose|w: int| 0 <= w < prev.len() && prev[w] == all[j];
                    assert(keys@[w] == all[j]);
                } else {
                    assert(keys@[prev.len() as int] == *k);
                }
            }
        }
        assert forall|ip: u32|
            self@.contains_key(ip) && !self@[ip].active_at(now) implies keys@.contains(ip) by {
            assert(all.to_set().contains(ip));
            let j = choose|j: int| 0 <= j < all.len() && all[j] == ip;
            assert(keys@.contains(all[j]));
        }
        keys
    }

    /// Removes every entry that has expired by `now`, and says how many
    /// there were. Entries still in force are left as they are.
    pub fn sweep(&mut self, now: u64) -> (removed: usize)
        requires
            old(self).wf(),
        ensures
            final(self).wf(),
            final(self).capacity() == old(self).capacity(),
            final(self)@ == active_entries(old(self)@, now),
            removed == old(self)@.len() - final(self)@.len(),
    {
        let keys = self.expired_keys(now);
        let ghost before = self.entries@;
        let total = self.entries.len();
        let mut i: usize = 0;
        while i < keys.len()
            invariant
                i <= keys@.len(),
                self.wf(),
                self.limit == old(self).limit,
                before == old(self)@,
                forall|j: int|
                    0 <= j < keys@.len() ==> before.contains_key(#[trigger] keys@[j])
                        && !before[keys@[j]].active_at(now),
                forall|ip: u32|
                    before.contains_key(ip) && !before[ip].active_at(now) ==> keys@.contains(ip),
                self.entries@ == before.remove_keys(keys@.take(i as int).to_set()),
            decreases keys@.len() - i,
        {
            let k = keys[i];
            let ghost cur = self.entries@;
            self.entries.remove(&k);
            proof {
                let done = keys@.take(i as int).to_set();
                let next = keys@.take(i + 1).to_set();
                assert(keys@.take(i + 1) =~= keys@.take(i as int).push(k));
                keys@.take(i as int).lemma_push_to_set_commute(k);
                assert(cur.remove(k) =~= before.remove_keys(next));
                if cur.contains_key(k) {
                    cur.lemma_remove_key_len(k);
                } else {
                    assert(cur.remove(k) =~= cur);
                }
            }
            i += 1;
        }
        proof {
            assert(keys@.take(keys@.len() as int) =~= keys@);
            assert(self.entries@ =~= active_entries(before, now)) by {
                assert forall|ip: u32| self.entries@.contains_key(ip) <==> active_entries(
                    before,
                    now,
                ).contains_key(ip) by {
                    if before.contains_key(ip) && !before[ip].active_at(now) {
                        assert(keys@.contains(ip));
                    }
                    if keys@.to_set().contains(ip) {
                        let w = choose|w: int| 0 <= w < keys@.len() && keys@[w] == ip;
                        assert(!before[keys@[w]].active_at(now));
                    }
                }
            }
            vstd::map_lib::lemma_submap_of_trans(self.entries@, before, before);
            assert(self.entries@.dom().subset_of(before.dom()));
            vstd::set_lib::lemma_len_subset(self.entries@.dom(), before.dom());
        }
        total - self.entries.len()
    }
}

/// Blocking an address again never shortens its block.
pub proof fn lemma_reblock_monotonic(m: Map<u32, BlockedIp>, ip: u32, expiry: u64, reason: u8)
    requires
        m.contains_key(ip),
    ensures
        blocked_entry(m, ip, expiry, reason).expiry >= m[ip].expiry,
        blocked_entry(m, ip, expiry, reason).expiry >= expiry,
        blocked_entry(m, ip, expiry, reason).expiry == m[ip].expiry || blocked_entry(
            m,
            ip,
            expiry,
            reason,
        ).expiry == expiry,
{
}

/// Sweeping twice at one time removes nothing the second time.
pub proof fn lemma_sweep_idempotent(m: Map<u32, BlockedIp>, now: u64)
    ensures
        active_entries(active_entries(m, now), now) == active_entries(m, now),
{
    assert(active_entries(active_entries(m, now), now) =~= active_entries(m, now));
}

/// An address whose block is still in force survives a sweep unchanged.
pub proof fn lemma_sweep_keeps_active(m: Map<u32, BlockedIp>, now: u64, ip: u32)
    requires
        m.contains_key(ip),
        m[ip].active_at(now),
    ensures
        active_entries(m, now).contains_key(ip),
        active_entries(m, now)[ip] == m[ip],
{
}

} // verus!
