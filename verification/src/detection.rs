//! The detection and mitigation controller: it turns what responders and
//! the data path observe into entries of the block map.

use crate::block_map::{active_entries, blocked_entry, BlockMap};
use crate::common::{
    BlockedIp, IpAddress, PacketEvent, PATTERN_AMPLIFICATION, PATTERN_EXPLOIT, PATTERN_SCAN,
};
use crate::config::Config;
use crate::protocols::amplification::{
    capped_sum, is_likely_attack, recorded, requests_of, AmplificationDetector,
};
use crate::protocols::AttackKind;
use std::collections::HashMap;
use vstd::prelude::*;

verus! {

/// What the controller did about one observation.
#[derive(Debug, Clone, Copy, PartialEq, Eq, Structural)]
pub enum Mitigation {
    /// Nothing to do: no threshold was crossed, or blocking is off.
    NoAction,
    /// The source was blocked; this is its entry in the block map.
    Blocked { entry: BlockedIp },
    /// The source should have been blocked, but the block map is full.
    /// The observation is dropped and traffic goes on.
    Refused,
}

/// The detection policy of a configuration.
#[derive(Debug, Clone, Copy, PartialEq, Eq, Structural)]
pub struct Policy {
    pub enabled: bool,
    /// A source with more packet events than this is a scanner.
    pub scan_threshold: u32,
    pub auto_block: bool,
    /// Seconds that a block lasts.
    pub block_duration: u64,
}

/// The controller. It counts the packet events of each source.
pub struct DetectionEngine {
    policy: Policy,
    scans: HashMap<u32, u32>,
}

/// One of the patterns is a request for a known amplifying exploit.
pub open spec fn has_exploit(attacks: Seq<AttackKind>) -> bool {
    exists|i: int| 0 <= i < attacks.len() && (#[trigger] attacks[i]).is_exploit()
}

/// The reason to block the source of a response, if there is one: an
/// exploit request, or an amplification that the profiler found likely.
pub open spec fn block_reason(attacks: Seq<AttackKind>, likely_amplification: bool) -> Option<u8> {
    if has_exploit(attacks) {
        Some(PATTERN_EXPLOIT)
    } else if likely_amplification {
        Some(PATTERN_AMPLIFICATION)
    } else {
        None
    }
}

/// When a block that starts at `now` expires; the time stops at the
/// largest 64-bit value.
pub open spec fn expiry_at(now: u64, duration: u64) -> u64 {
    if now + duration > u64::MAX {
        u64::MAX
    } else {
        (now + duration) as u64
    }
}

/// A policy blocks only when detection and automatic blocking are both on.
pub open spec fn blocks(policy: Policy) -> bool {
    policy.enabled && policy.auto_block
}

/// The block map refuses a new entry for `ip`.
pub open spec fn map_refuses(m: Map<u32, BlockedIp>, capacity: nat, ip: u32) -> bool {
    !m.contains_key(ip) && m.len() >= capacity
}

/// What the controller answers when it wants `ip` blocked for `reason`.
pub open spec fn mitigation_of(
    policy: Policy,
    m: Map<u32, BlockedIp>,
    capacity: nat,
    ip: u32,
    reason: u8,
    now: u64,
) -> Mitigation {
    if !blocks(policy) {
        Mitigation::NoAction
    } else if map_refuses(m, capacity, ip) {
        Mitigation::Refused
    } else {
        Mitigation::Blocked {
            entry: blocked_entry(m, ip, expiry_at(now, policy.block_duration), reason),
        }
    }
}

/// The block map after the controller wanted `ip` blocked for `reason`.
pub open spec fn map_after(
    policy: Policy,
    m: Map<u32, BlockedIp>,
    capacity: nat,
    ip: u32,
    reason: u8,
    now: u64,
) -> Map<u32, BlockedIp> {
    if !blocks(policy) || map_refuses(m, capacity, ip) {
        m
    } else {
        m.insert(ip, blocked_entry(m, ip, expiry_at(now, policy.block_duration), reason))
    }
}

/// A time of the block map, in seconds since the Unix epoch, as the
/// profiler holds it; it stops at the largest time that the profiler can
/// hold.
pub open spec fn profiler_time(now: u64) -> i64 {
    if now > i64::MAX {
        i64::MAX
    } else {
        now as i64
    }
}

/// How many packet events of `ip` were counted.
pub open spec fn scans_of(scans: Map<u32, u32>, ip: u32) -> u32 {
    if scans.contains_key(ip) {
        scans[ip]
    } else {
        0
    }
}

/// A count of packet events after one more.
pub open spec fn scanned_again(count: u32) -> u32 {
    if count < u32::MAX {
        (count + 1) as u32
    } else {
        count
    }
}

/// A source with `seen` packet events counted so far becomes a scanner by
/// one more: its count then exceeds the scan threshold.
pub open spec fn is_scanner(policy: Policy, seen: u32) -> bool {
    scanned_again(seen) > policy.scan_threshold
}

/// Whether one of the patterns is an exploit request.
pub fn contains_exploit(attacks: &Vec<AttackKind>) -> (found: bool)
    ensures
        found == has_exploit(attacks@),
{
    let mut i: usize = 0;
    while i < attacks.len()
        invariant
            i <= attacks@.len(),
            forall|k: int| 0 <= k < i ==> !(#[trigger] attacks@[k]).is_exploit(),
        decreases attacks@.len() - i,
    {
        if attacks[i].flags_exploit() {
            return true;
        }
        i += 1;
    }
    false
}

impl DetectionEngine {
    pub closed spec fn policy(&self) -> Policy {
        self.policy
    }

    /// The packet events counted so far, by source.
    pub closed spec fn scans(&self) -> Map<u32, u32> {
        self.scans@
    }

    /// A controller with the detection policy of the configuration, and
    /// with nothing counted.
    pub fn new(config: &Config) -> (engine: DetectionEngine)
        ensures
            engine.policy() == (Policy {
                enabled: config.detection.enabled,
                scan_threshold: config.detection.scan_threshold,
                auto_block: config.detection.auto_block,
                block_duration: config.detection.block_duration,
            }),
            engine.scans() == Map::<u32, u32>::empty(),
    {
        DetectionEngine {
            policy: Policy {
                enabled: config.detection.enabled,
                scan_threshold: config.detection.scan_threshold,
                auto_block: config.detection.auto_block,
                block_duration: config.detection.block_duration,
            },
            scans: HashMap::new(),
        }
    }

    /// Blocks `ip` for `reason` if the policy blocks at all. A full block
    /// map refuses; nothing is retried.
    fn mitigate(&self, ip: u32, reason: u8, now: u64, blocked: &mut BlockMap) -> (m: Mitigation)
        requires
            old(blocked).wf(),
        ensures
            final(blocked).wf(),
            final(blocked).capacity() == old(blocked).capacity(),
            m == mitigation_of(
                self.policy(),
                old(blocked)@,
                old(blocked).capacity(),
                ip,
                reason,
                now,
            ),
            final(blocked)@ == map_after(
                self.policy(),
                old(blocked)@,
                old(blocked).capacity(),
                ip,
                reason,
                now,
            ),
    {
        if !(self.policy.enabled && self.policy.auto_block) {
            return Mitigation::NoAction;
        }
        let expiry = now.saturating_add(self.policy.block_duration);
        match blocked.block(ip, expiry, reason) {
            Ok(()) => {
                match blocked.lookup(ip) {
                    Some(entry) => Mitigation::Blocked { entry },
                    None => Mitigation::Refused,
                }
            },
            Err(_) => Mitigation::Refused,
        }
    }

    /// A responder answered `src`: `attacks` are the patterns it
    /// recognized, and `likely_amplification` is what the profiler said of
    /// the observation. The source is blocked for an exploit request or
    /// for a likely amplification; only IPv4 sources can be blocked.
    pub fn on_observation(
        &self,
        src: IpAddress,
        attacks: &Vec<AttackKind>,
        likely_amplification: bool,
        now: u64,
        blocked: &mut BlockMap,
    ) -> (m: Mitigation)
        requires
            old(blocked).wf(),
        ensures
            final(blocked).wf(),
            final(blocked).capacity() == old(blocked).capacity(),
            match (src, block_reason(attacks@, likely_amplification)) {
                (IpAddress::V4(ip), Some(reason)) => {
                    &&& m == mitigation_of(
                        self.policy(),
                        old(blocked)@,
                        old(blocked).capacity(),
                        ip,
                        reason,
                        now,
                    )
                    &&& final(blocked)@ == map_after(
                        self.policy(),
                        old(blocked)@,
                        old(blocked).capacity(),
                        ip,
                        reason,
                        now,
                    )
                },
                _ => m == Mitigation::NoAction && final(blocked)@ == old(blocked)@,
            },
    {
        let reason = if contains_exploit(attacks) {
            PATTERN_EXPLOIT
        } else if likely_amplification {
            PATTERN_AMPLIFICATION
        } else {
            return Mitigation::NoAction;
        };
        match src {
            IpAddress::V4(ip) => self.mitigate(ip, reason, now, blocked),
            IpAddress::V6(_) => Mitigation::NoAction,
        }
    }

    /// One turn of the mitigation loop: a responder answered a request of
    /// `request_size` bytes from `src` with `response_size` bytes. The
    /// observation is recorded with the profiler, and the source is blocked
    /// if the request was an exploit request or if the profiler finds an
    /// amplification attack likely.
    pub fn on_response(
        &self,
        profiler: &mut AmplificationDetector,
        src: IpAddress,
        protocol: &str,
        attacks: &Vec<AttackKind>,
        request_size: usize,
        response_size: usize,
        now: u64,
        blocked: &mut BlockMap,
    ) -> (m: Mitigation)
        requires
            old(profiler).wf(),
            old(blocked).wf(),
        ensures
            final(profiler).wf(),
            final(profiler).threshold() == old(profiler).threshold(),
            final(profiler)@ == recorded(
                old(profiler)@,
                src,
                protocol@,
                request_size as nat,
                response_size as nat,
                profiler_time(now),
            ),
            final(blocked).wf(),
            final(blocked).capacity() == old(blocked).capacity(),
            match (
                src,
                block_reason(
                    attacks@,
                    is_likely_attack(
                        old(profiler).threshold(),
                        request_size as nat,
                        response_size as nat,
                        capped_sum(requests_of(old(profiler)@, src), 1),
                    ),
                ),
            ) {
                (IpAddress::V4(ip), Some(reason)) => {
                    &&& m == mitigation_of(
                        self.policy(),
                        old(blocked)@,
                        old(blocked).capacity(),
                        ip,
                        reason,
                        now,
                    )
                    &&& final(blocked)@ == map_after(
                        self.policy(),
                        old(blocked)@,
                        old(blocked).capacity(),
                        ip,
                        reason,
                        now,
                    )
                },
                _ => m == Mitigation::NoAction && final(blocked)@ == old(blocked)@,
            },
    {
        let at: i64 = if now > 0x7FFF_FFFF_FFFF_FFFF {
            0x7FFF_FFFF_FFFF_FFFF
        } else {
            now as i64
        };
        let likely = profiler.record_at(src, protocol, request_size, response_size, at);
        self.on_observation(src, attacks, likely, now, blocked)
    }

    /// The data path reported a packet: it is counted for its source, and
    /// a source with more packets than the scan threshold is blocked as a
    /// scanner.
    pub fn on_packet_event(&mut self, event: &PacketEvent, now: u64, blocked: &mut BlockMap) -> (m:
        Mitigation)
        requires
            old(blocked).wf(),
        ensures
            final(blocked).wf(),
            final(blocked).capacity() == old(blocked).capacity(),
            final(self).policy() == old(self).policy(),
            final(self).scans() == old(self).scans().insert(
                event.src_ip,
                scanned_again(scans_of(old(self).scans(), event.src_ip)),
            ),
            is_scanner(old(self).policy(), scans_of(old(self).scans(), event.src_ip)) ==> {
                &&& m == mitigation_of(
                    old(self).policy(),
                    old(blocked)@,
                    old(blocked).capacity(),
                    event.src_ip,
                    PATTERN_SCAN,
                    now,
                )
                &&& final(blocked)@ == map_after(
                    old(self).policy(),
                    old(blocked)@,
                    old(blocked).capacity(),
                    event.src_ip,
                    PATTERN_SCAN,
                    now,
                )
            },
            !is_scanner(old(self).policy(), scans_of(old(self).scans(), event.src_ip)) ==> {
                &&& m == Mitigation::NoAction
                &&& final(blocked)@ == old(blocked)@
            },
    {
        let seen = match self.scans.get(&event.src_ip) {
            Some(count) => *count,
            None => 0,
        };
        let count = if seen < u32::MAX {
            seen + 1
        } else {
            seen
        };
        self.scans.insert(event.src_ip, count);
        if count > self.policy.scan_threshold {
            self.mitigate(event.src_ip, PATTERN_SCAN, now, blocked)
        } else {
            Mitigation::NoAction
        }
    }

    /// How many packet events of `ip` were counted.
    pub fn scan_count(&self, ip: u32) -> (count: u32)
        ensures
            count == scans_of(self.scans(), ip),
    {
        match self.scans.get(&ip) {
            Some(count) => *count,
            None => 0,
        }
    }

    /// The background sweep: takes the entries that have expired by `now`
    /// out of the block map, and says how many there were.
    pub fn sweep(&self, now: u64, blocked: &mut BlockMap) -> (removed: usize)
        requires
            old(blocked).wf(),
        ensures
            final(blocked).wf(),
            final(blocked).capacity() == old(blocked).capacity(),
            final(blocked)@ == active_entries(old(blocked)@, now),
            removed == old(blocked)@.len() - final(blocked)@.len(),
    {
        blocked.sweep(now)
    }
}

/// A block that the controller writes lasts beyond its start, unless the
/// configured duration is zero.
pub proof fn lemma_block_expires_later(
    policy: Policy,
    m: Map<u32, BlockedIp>,
    capacity: nat,
    ip: u32,
    reason: u8,
    now: u64,
)
    requires
        blocks(policy),
        !map_refuses(m, capacity, ip),
        policy.block_duration > 0,
        now < u64::MAX,
    ensures
        map_after(policy, m, capacity, ip, reason, now).contains_key(ip),
        map_after(policy, m, capacity, ip, reason, now)[ip].active_at(now),
        map_after(policy, m, capacity, ip, reason, now)[ip].ip_addr == ip,
{
}

/// The controller fails open: a full block map stays as it is, and so does
/// every entry in it.
pub proof fn lemma_refusal_changes_nothing(
    policy: Policy,
    m: Map<u32, BlockedIp>,
    capacity: nat,
    ip: u32,
    reason: u8,
    now: u64,
)
    requires
        map_refuses(m, capacity, ip),
    ensures
        map_after(policy, m, capacity, ip, reason, now) == m,
        blocks(policy) ==> mitigation_of(policy, m, capacity, ip, reason, now)
            == Mitigation::Refused,
{
}

} // verus!
