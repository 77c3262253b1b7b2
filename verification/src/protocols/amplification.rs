//! The amplification profiler: per-source totals of request and response
//! bytes, and the rule that tells a likely amplification attack.

use crate::common::{IpAddress, Ratio};
use std::collections::HashMap;
use vstd::prelude::*;
use vstd::string::*;

verus! {

/// A source needs more than this many requests before an observation of
/// it counts as an attack.
pub const MIN_ATTACK_REQUESTS: u64 = 5;

/// One observation: the sizes of a request and of the response to it.
#[derive(Debug)]
pub struct AmplificationMetrics {
    pub request_size: usize,
    pub response_size: usize,
    /// Response size over request size.
    pub amplification_factor: Ratio,
    /// Seconds since the Unix epoch.
    pub timestamp: i64,
    pub protocol: String,
}

/// How often a source used one protocol.
#[derive(Debug)]
pub struct ProtocolCount {
    pub protocol: String,
    pub count: u32,
}

/// What is known of one source.
#[derive(Debug)]
pub struct AttackerProfile {
    pub ip: IpAddress,
    /// Seconds since the Unix epoch.
    pub first_seen: i64,
    /// Seconds since the Unix epoch.
    pub last_seen: i64,
    pub request_count: u64,
    pub total_request_bytes: u64,
    pub total_response_bytes: u64,
    /// One entry for each protocol that the source used, in the order of
    /// first use.
    pub protocols: Vec<ProtocolCount>,
    /// Total response bytes over total request bytes.
    pub avg_amplification_factor: Ratio,
}

/// The mathematical content of a profile.
pub struct ProfileView {
    pub ip: IpAddress,
    pub first_seen: i64,
    pub last_seen: i64,
    pub request_count: u64,
    pub total_request_bytes: u64,
    pub total_response_bytes: u64,
    pub protocols: Seq<(Seq<char>, u32)>,
    pub avg_amplification_factor: Ratio,
}

/// The profile table. Every operation on it is one short critical
/// section; the caller provides the mutual exclusion.
///
/// The profiles stand in the order in which their sources were first
/// seen. Two hash maps, keyed by the address as a number, say where the
/// profile of a source stands.
pub struct AmplificationDetector {
    profiles: Vec<AttackerProfile>,
    v4_slots: HashMap<u32, usize>,
    v6_slots: HashMap<u128, usize>,
    threshold: Ratio,
}

/// The current time in whole seconds since the Unix epoch: what
/// `chrono::Utc::now` returns, read by `DateTime::timestamp`. Nothing is
/// claimed of the value, which differs from call to call. The call panics
/// where the system clock stands before 1970 or beyond the years that
/// chrono can represent.
#[verifier::external_body]
fn utc_now_seconds() -> (now: i64) {
    chrono::Utc::now().timestamp()
}

/// A sum of byte counts that stops at the largest 64-bit value.
pub open spec fn capped_sum(a: u64, b: nat) -> u64 {
    if a + b > u64::MAX {
        u64::MAX
    } else {
        (a + b) as u64
    }
}

/// A 32-bit count after one more use.
pub open spec fn counted_again(c: u32) -> u32 {
    if c < u32::MAX {
        (c + 1) as u32
    } else {
        c
    }
}

/// Index of the first entry of a histogram for `protocol` at or after
/// `from`; the length if there is none.
pub open spec fn protocol_position(hist: Seq<(Seq<char>, u32)>, protocol: Seq<char>, from: int)
    -> int
    decreases hist.len() - from,
{
    if from < 0 || from >= hist.len() {
        hist.len() as int
    } else if hist[from].0 == protocol {
        from
    } else {
        protocol_position(hist, protocol, from + 1)
    }
}

/// How often a histogram counts `protocol`.
pub open spec fn protocol_uses(hist: Seq<(Seq<char>, u32)>, protocol: Seq<char>) -> u32 {
    let at = protocol_position(hist, protocol, 0);
    if 0 <= at < hist.len() {
        hist[at].1
    } else {
        0
    }
}

/// A histogram after one more use of `protocol`.
pub open spec fn histogram_with(hist: Seq<(Seq<char>, u32)>, protocol: Seq<char>) -> Seq<
    (Seq<char>, u32),
> {
    let at = protocol_position(hist, protocol, 0);
    if 0 <= at < hist.len() {
        hist.update(at, (protocol, counted_again(hist[at].1)))
    } else {
        hist.push((protocol, 1u32))
    }
}

/// No protocol has two entries in the histogram.
pub open spec fn histogram_wf(hist: Seq<(Seq<char>, u32)>) -> bool {
    forall|i: int, j: int|
        0 <= i < hist.len() && 0 <= j < hist.len() && i != j ==> (#[trigger] hist[i]).0
            != (#[trigger] hist[j]).0
}

/// How many uses a histogram counts, over all protocols.
pub open spec fn histogram_total(hist: Seq<(Seq<char>, u32)>) -> nat
    decreases hist.len(),
{
    if hist.len() == 0 {
        0
    } else {
        histogram_total(hist.drop_last()) + hist.last().1 as nat
    }
}

/// The average amplification factor of a profile is its total response
/// bytes over its total request bytes; it has one entry for each protocol;
/// and the counts of its protocols add up to its request count, as long as
/// that count fits the 32 bits of a protocol count.
pub open spec fn profile_wf(p: ProfileView) -> bool {
    &&& p.avg_amplification_factor == (Ratio {
        num: p.total_response_bytes,
        den: p.total_request_bytes,
    })
    &&& histogram_wf(p.protocols)
    &&& p.request_count <= u32::MAX ==> histogram_total(p.protocols) == p.request_count
}

/// One more request still fits the 32 bits of a protocol count.
pub open spec fn after_count_fits(p: ProfileView) -> bool {
    p.request_count < u32::MAX
}

/// The profile of a source that was not seen before `now`.
pub open spec fn fresh_profile(ip: IpAddress, now: i64) -> ProfileView {
    ProfileView {
        ip,
        first_seen: now,
        last_seen: now,
        request_count: 0,
        total_request_bytes: 0,
        total_response_bytes: 0,
        protocols: Seq::empty(),
        avg_amplification_factor: Ratio { num: 0, den: 0 },
    }
}

/// A profile after one more observation at `now`.
pub open spec fn observed(
    p: ProfileView,
    protocol: Seq<char>,
    request_size: nat,
    response_size: nat,
    now: i64,
) -> ProfileView {
    ProfileView {
        ip: p.ip,
        first_seen: p.first_seen,
        last_seen: now,
        request_count: capped_sum(p.request_count, 1),
        total_request_bytes: capped_sum(p.total_request_bytes, request_size),
        total_response_bytes: capped_sum(p.total_response_bytes, response_size),
        protocols: histogram_with(p.protocols, protocol),
        avg_amplification_factor: Ratio {
            num: capped_sum(p.total_response_bytes, response_size),
            den: capped_sum(p.total_request_bytes, request_size),
        },
    }
}

/// Index of the first profile of `ip` at or after `from`; the length if
/// there is none.
pub open spec fn profile_position(store: Seq<ProfileView>, ip: IpAddress, from: int) -> int
    decreases store.len() - from,
{
    if from < 0 || from >= store.len() {
        store.len() as int
    } else if store[from].ip == ip {
        from
    } else {
        profile_position(store, ip, from + 1)
    }
}

/// The profile of `ip` in a table, if it has one.
pub open spec fn profile_of(store: Seq<ProfileView>, ip: IpAddress) -> Option<ProfileView> {
    let at = profile_position(store, ip, 0);
    if 0 <= at < store.len() {
        Some(store[at])
    } else {
        None
    }
}

/// The profile of `ip` as an observation at `now` finds it: the one in the
/// table, or a fresh one.
pub open spec fn profile_before(store: Seq<ProfileView>, ip: IpAddress, now: i64) -> ProfileView {
    match profile_of(store, ip) {
        Some(p) => p,
        None => fresh_profile(ip, now),
    }
}

/// How many requests of `ip` a table has counted.
pub open spec fn requests_of(store: Seq<ProfileView>, ip: IpAddress) -> u64 {
    match profile_of(store, ip) {
        Some(p) => p.request_count,
        None => 0,
    }
}

/// A table after one more observation of `ip` at `now`. A new source goes
/// to the end of the table.
pub open spec fn recorded(
    store: Seq<ProfileView>,
    ip: IpAddress,
    protocol: Seq<char>,
    request_size: nat,
    response_size: nat,
    now: i64,
) -> Seq<ProfileView> {
    let at = profile_position(store, ip, 0);
    let after = observed(profile_before(store, ip, now), protocol, request_size, response_size, now);
    if 0 <= at < store.len() {
        store.update(at, after)
    } else {
        store.push(after)
    }
}

/// The rule for a likely amplification attack: this response over this
/// request exceeds the threshold, and the source has made more than five
/// requests, this one included.
pub open spec fn is_likely_attack(
    threshold: Ratio,
    request_size: nat,
    response_size: nat,
    request_count: u64,
) -> bool {
    response_size * threshold.den > threshold.num * request_size && request_count
        > MIN_ATTACK_REQUESTS
}

/// A profile is kept by a cleanup at `now` if it was last seen at most
/// `max_age` seconds before.
pub open spec fn is_recent(p: ProfileView, max_age: i64, now: i64) -> bool {
    now - p.last_seen <= max_age
}

/// The profiles that a cleanup keeps, in their order.
pub open spec fn recent_profiles(store: Seq<ProfileView>, max_age: i64, now: i64) -> Seq<
    ProfileView,
>
    decreases store.len(),
{
    if store.len() == 0 {
        Seq::empty()
    } else {
        let rest = recent_profiles(store.drop_last(), max_age, now);
        if is_recent(store.last(), max_age, now) {
            rest.push(store.last())
        } else {
            rest
        }
    }
}

/// Number of leading entries of a ranking that have at least as many
/// response bytes as `p`: where `p` goes into it.
pub open spec fn rank_position(ranking: Seq<ProfileView>, p: ProfileView, from: int) -> int
    decreases ranking.len() - from,
{
    if from < 0 || from >= ranking.len() {
        ranking.len() as int
    } else if ranking[from].total_response_bytes < p.total_response_bytes {
        from
    } else {
        rank_position(ranking, p, from + 1)
    }
}

/// The table ordered by total response bytes, largest first; among equals
/// the earlier entry of the table comes first.
pub open spec fn ranking(store: Seq<ProfileView>) -> Seq<ProfileView>
    decreases store.len(),
{
    if store.len() == 0 {
        Seq::empty()
    } else {
        let rest = ranking(store.drop_last());
        rest.insert(rank_position(rest, store.last(), 0), store.last())
    }
}

/// The `limit` profiles with the most response bytes, largest first.
pub open spec fn top_profiles(store: Seq<ProfileView>, limit: nat) -> Seq<ProfileView> {
    if limit < ranking(store).len() {
        ranking(store).take(limit as int)
    } else {
        ranking(store)
    }
}

/// No source has two profiles, and every profile is well formed.
pub open spec fn store_wf(store: Seq<ProfileView>) -> bool {
    &&& forall|i: int, j: int|
        0 <= i < store.len() && 0 <= j < store.len() && i != j ==> (#[trigger] store[i]).ip
            != (#[trigger] store[j]).ip
    &&& forall|i: int| 0 <= i < store.len() ==> profile_wf(#[trigger] store[i])
}

/// Where the slot maps say that the profile of `ip` stands, if they know
/// the source.
pub open spec fn slot_of(v4: Map<u32, usize>, v6: Map<u128, usize>, ip: IpAddress) -> Option<
    usize,
> {
    match ip {
        IpAddress::V4(a) => if v4.contains_key(a) {
            Some(v4[a])
        } else {
            None
        },
        IpAddress::V6(a) => if v6.contains_key(a) {
            Some(v6[a])
        } else {
            None
        },
    }
}

/// The slot maps know exactly the sources of the table, each at its place.
pub open spec fn slots_wf(store: Seq<ProfileView>, v4: Map<u32, usize>, v6: Map<u128, usize>)
    -> bool {
    &&& forall|i: int|
        0 <= i < store.len() ==> slot_of(v4, v6, (#[trigger] store[i]).ip) == Some(i as usize)
    &&& forall|ip: IpAddress|
        (#[trigger] slot_of(v4, v6, ip)) is Some ==> slot_of(v4, v6, ip)->0 < store.len()
            && store[slot_of(v4, v6, ip)->0 as int].ip == ip
}

/// The views of a sequence of profiles.
pub open spec fn profile_views(profiles: Seq<AttackerProfile>) -> Seq<ProfileView> {
    profiles.map_values(|p: AttackerProfile| p@)
}

impl View for ProtocolCount {
    type V = (Seq<char>, u32);

    open spec fn view(&self) -> (Seq<char>, u32) {
        (self.protocol@, self.count)
    }
}

impl View for AttackerProfile {
    type V = ProfileView;

    open spec fn view(&self) -> ProfileView {
        ProfileView {
            ip: self.ip,
            first_seen: self.first_seen,
            last_seen: self.last_seen,
            request_count: self.request_count,
            total_request_bytes: self.total_request_bytes,
            total_response_bytes: self.total_response_bytes,
            protocols: self.protocols@.map_values(|c: ProtocolCount| c@),
            avg_amplification_factor: self.avg_amplification_factor,
        }
    }
}

impl AmplificationMetrics {
    /// The metric of one observation.
    pub fn new(request_size: usize, response_size: usize, timestamp: i64, protocol: &str) -> (m:
        AmplificationMetrics)
        ensures
            m.request_size == request_size,
            m.response_size == response_size,
            m.amplification_factor == (Ratio { num: response_size as u64, den: request_size as u64 }),
            m.timestamp == timestamp,
            m.protocol@ == protocol@,
    {
        AmplificationMetrics {
            request_size,
            response_size,
            amplification_factor: Ratio { num: response_size as u64, den: request_size as u64 },
            timestamp,
            protocol: protocol.to_string(),
        }
    }
}

impl AttackerProfile {
    /// A copy of the profile.
    pub fn duplicate(&self) -> (copy: AttackerProfile)
        ensures
            copy@ == self@,
    {
        let mut protocols: Vec<ProtocolCount> = Vec::new();
        let mut i: usize = 0;
        while i < self.protocols.len()
            invariant
                i <= self.protocols@.len(),
                protocols@.map_values(|c: ProtocolCount| c@) == self.protocols@.map_values(
                    |c: ProtocolCount| c@,
                ).take(i as int),
            decreases self.protocols@.len() - i,
        {
            let name = self.protocols[i].protocol.clone();
            assert(name@ == self.protocols@[i as int].protocol@);
            let entry = ProtocolCount { protocol: name, count: self.protocols[i].count };
            assert(entry@ == self.protocols@[i as int]@);
            let ghost prev = protocols@.map_values(|c: ProtocolCount| c@);
            protocols.push(entry);
            assert(protocols@.map_values(|c: ProtocolCount| c@) =~= prev.push(entry@));
            assert(protocols@.map_values(|c: ProtocolCount| c@) =~= self.protocols@.map_values(
                |c: ProtocolCount| c@,
            ).take(i + 1));
            i += 1;
        }
        assert(protocols@.map_values(|c: ProtocolCount| c@) =~= self.protocols@.map_values(
            |c: ProtocolCount| c@,
        ));
        AttackerProfile {
            ip: self.ip,
            first_seen: self.first_seen,
            last_seen: self.last_seen,
            request_count: self.request_count,
            total_request_bytes: self.total_request_bytes,
            total_response_bytes: self.total_response_bytes,
            protocols,
            avg_amplification_factor: self.avg_amplification_factor,
        }
    }

    /// How often the source used `protocol`.
    pub fn protocol_count(&self, protocol: &str) -> (n: u32)
        ensures
            n == protocol_uses(self@.protocols, protocol@),
    {
        let ghost hist = self@.protocols;
        let mut i: usize = 0;
        while i < self.protocols.len()
            invariant
                i <= self.protocols@.len(),
                hist == self@.protocols,
                protocol_position(hist, protocol@, 0) == protocol_position(
                    hist,
                    protocol@,
                    i as int,
                ),
            decreases self.protocols@.len() - i,
        {
            assert(hist[i as int] == self.protocols@[i as int]@);
            if string_eq(&self.protocols[i].protocol, protocol) {
                return self.protocols[i].count;
            }
            i += 1;
        }
        0
    }

    /// Counts one more use of `protocol`.
    fn count_protocol(&mut self, protocol: &str)
        ensures
            final(self)@.protocols == histogram_with(old(self)@.protocols, protocol@),
            final(self).ip == old(self).ip,
            final(self).first_seen == old(self).first_seen,
            final(self).last_seen == old(self).last_seen,
            final(self).request_count == old(self).request_count,
            final(self).total_request_bytes == old(self).total_request_bytes,
            final(self).total_response_bytes == old(self).total_response_bytes,
            final(self).avg_amplification_factor == old(self).avg_amplification_factor,
    {
        let ghost hist = self@.protocols;
        let mut i: usize = 0;
        while i < self.protocols.len()
            invariant
                i <= self.protocols@.len(),
                *self == *old(self),
                hist == self@.protocols,
                protocol_position(hist, protocol@, 0) == protocol_position(
                    hist,
                    protocol@,
                    i as int,
                ),
            decreases self.protocols@.len() - i,
        {
            assert(hist[i as int] == self.protocols@[i as int]@);
            if string_eq(&self.protocols[i].protocol, protocol) {
                let old_entry = self.protocols.remove(i);
                let count = if old_entry.count < u32::MAX {
                    old_entry.count + 1
                } else {
                    old_entry.count
                };
                self.protocols.insert(i, ProtocolCount { protocol: old_entry.protocol, count });
                assert(self@.protocols =~= histogram_with(hist, protocol@));
                return ;
            }
            i += 1;
        }
        self.protocols.push(ProtocolCount { protocol: protocol.to_string(), count: 1 });
        assert(self@.protocols =~= histogram_with(hist, protocol@));
    }
}

/// Whether a string is the given text.
fn string_eq(a: &String, b: &str) -> (r: bool)
    ensures
        r == (a@ == b@),
{
    let other = b.to_string();
    *a == other
}

impl AmplificationDetector {
    /// The profiles, in the order in which their sources were first seen.
    pub closed spec fn view(&self) -> Seq<ProfileView> {
        profile_views(self.profiles@)
    }

    /// The amplification factor above which an observation counts.
    pub closed spec fn threshold(&self) -> Ratio {
        self.threshold
    }

    /// The invariant of the type: the table is well formed, and the slot
    /// maps say where each of its profiles stands.
    pub closed spec fn wf(&self) -> bool {
        &&& store_wf(self@)
        &&& slots_wf(self@, self.v4_slots@, self.v6_slots@)
    }

    /// The table of a well-formed detector is well formed.
    pub proof fn lemma_wf_store(&self)
        requires
            self.wf(),
        ensures
            store_wf(self@),
    {
    }

    /// An empty table with the given threshold.
    pub fn new(threshold: Ratio) -> (d: AmplificationDetector)
        ensures
            d.wf(),
            d@ == Seq::<ProfileView>::empty(),
            d.threshold() == threshold,
    {
        let d = AmplificationDetector {
            profiles: Vec::new(),
            v4_slots: HashMap::new(),
            v6_slots: HashMap::new(),
            threshold,
        };
        assert(d@ =~= Seq::<ProfileView>::empty());
        d
    }

    /// Number of profiles.
    pub fn len(&self) -> (n: usize)
        ensures
            n == self@.len(),
    {
        self.profiles.len()
    }

    /// Where the profile of `ip` stands in the table, by the slot maps.
    fn find(&self, ip: IpAddress) -> (at: usize)
        requires
            self.wf(),
        ensures
            at == profile_position(self@, ip, 0),
            at <= self@.len(),
            at < self@.len() <==> slot_of(self.v4_slots@, self.v6_slots@, ip) is Some,
    {
        let slot = match ip {
            IpAddress::V4(a) => match self.v4_slots.get(&a) {
                Some(i) => Some(*i),
                None => None,
            },
            IpAddress::V6(a) => match self.v6_slots.get(&a) {
                Some(i) => Some(*i),
                None => None,
            },
        };
        assert(slot == slot_of(self.v4_slots@, self.v6_slots@, ip));
        proof {
            lemma_position_found(self@, ip, 0);
        }
        match slot {
            Some(i) => {
                proof {
                    lemma_position_absent_or_first(self@, ip, i as int);
                }
                i
            },
            None => {
                proof {
                    let at = profile_position(self@, ip, 0);
                    if at < self@.len() {
                        assert(slot_of(self.v4_slots@, self.v6_slots@, self@[at].ip) == Some(
                            at as usize,
                        ));
                    }
                }
                self.profiles.len()
            },
        }
    }

    /// Records one observation made at `now`, and says whether it
    /// indicates a likely amplification attack. Counters and byte totals
    /// stop at their largest value.
    pub fn record_at(
        &mut self,
        ip: IpAddress,
        protocol: &str,
        request_size: usize,
        response_size: usize,
        now: i64,
    ) -> (likely: bool)
        requires
            old(self).wf(),
        ensures
            final(self).wf(),
            final(self).threshold() == old(self).threshold(),
            final(self)@ == recorded(
                old(self)@,
                ip,
                protocol@,
                request_size as nat,
                response_size as nat,
                now,
            ),
            likely == is_likely_attack(
                old(self).threshold(),
                request_size as nat,
                response_size as nat,
                capped_sum(requests_of(old(self)@, ip), 1),
            ),
    {
        let at = self.find(ip);
        let ghost before = self@;
        let ghost v4 = self.v4_slots@;
        let ghost v6 = self.v6_slots@;
        let found = at < self.profiles.len();
        let mut profile = AttackerProfile {
            ip,
            first_seen: now,
            last_seen: now,
            request_count: 0,
            total_request_bytes: 0,
            total_response_bytes: 0,
            protocols: Vec::new(),
            avg_amplification_factor: Ratio { num: 0, den: 0 },
        };
        assert(profile@.protocols =~= Seq::<(Seq<char>, u32)>::empty());
        assert(profile@ == fresh_profile(ip, now));
        if found {
            self.profiles.set_and_swap(at, &mut profile);
            assert(profile@ == before[at as int]);
        }
        assert(profile@ == profile_before(before, ip, now));
        let ghost start = profile@;
        profile.last_seen = now;
        profile.request_count = profile.request_count.saturating_add(1);
        profile.total_request_bytes = profile.total_request_bytes.saturating_add(
            request_size as u64,
        );
        profile.total_response_bytes = profile.total_response_bytes.saturating_add(
            response_size as u64,
        );
        profile.count_protocol(protocol);
        profile.avg_amplification_factor = Ratio {
            num: profile.total_response_bytes,
            den: profile.total_request_bytes,
        };
        let count = profile.request_count;
        assert(profile@ == observed(
            start,
            protocol@,
            request_size as nat,
            response_size as nat,
            now,
        ));
        proof {
            lemma_observed_profile(start, protocol@, request_size as nat, response_size as nat, now);
        }
        let ghost after = profile@;
        if found {
            self.profiles.set(at, profile);
            assert(self@ =~= before.update(at as int, after));
            assert(slots_wf(self@, v4, v6)) by {
                assert forall|i: int| 0 <= i < self@.len() implies slot_of(
                    v4,
                    v6,
                    (#[trigger] self@[i]).ip,
                ) == Some(i as usize) by {
                    assert(self@[i].ip == before[i].ip);
                }
                assert forall|x: IpAddress| (#[trigger] slot_of(v4, v6, x)) is Some implies slot_of(
                    v4,
                    v6,
                    x,
                )->0 < self@.len() && self@[slot_of(v4, v6, x)->0 as int].ip == x by {
                    let i = slot_of(v4, v6, x)->0;
                    assert(self@[i as int].ip == before[i as int].ip);
                }
            }
        } else {
            let slot = self.profiles.len();
            self.profiles.push(profile);
            match ip {
                IpAddress::V4(a) => {
                    self.v4_slots.insert(a, slot);
                },
                IpAddress::V6(a) => {
                    self.v6_slots.insert(a, slot);
                },
            }
            assert(self@ =~= before.push(after));
            proof {
                lemma_position_absent(before, ip, 0);
                let n4 = self.v4_slots@;
                let n6 = self.v6_slots@;
                assert forall|x: IpAddress| x != ip implies slot_of(n4, n6, x) == slot_of(
                    v4,
                    v6,
                    x,
                ) by {}
                assert(slot_of(n4, n6, ip) == Some(slot));
                assert forall|i: int| 0 <= i < self@.len() implies slot_of(
                    n4,
                    n6,
                    (#[trigger] self@[i]).ip,
                ) == Some(i as usize) by {
                    if i < before.len() {
                        assert(self@[i] == before[i]);
                        assert(before[i].ip != ip);
                    }
                }
                assert forall|x: IpAddress| (#[trigger] slot_of(n4, n6, x)) is Some implies slot_of(
                    n4,
                    n6,
                    x,
                )->0 < self@.len() && self@[slot_of(n4, n6, x)->0 as int].ip == x by {
                    if x != ip {
                        let i = slot_of(v4, v6, x)->0;
                        assert(self@[i as int] == before[i as int]);
                    }
                }
            }
        }
        let observation = Ratio { num: response_size as u64, den: request_size as u64 };
        observation.exceeds(&self.threshold) && count > MIN_ATTACK_REQUESTS
    }

    /// Records one observation made now, and says whether it indicates a
    /// likely amplification attack. The time is read from the system
    /// clock; what is recorded is what `record_at` records for that time.
    pub fn record_interaction(
        &mut self,
        ip: IpAddress,
        protocol: &str,
        request_size: usize,
        response_size: usize,
    ) -> (likely: bool)
        requires
            old(self).wf(),
        ensures
            final(self).wf(),
            final(self).threshold() == old(self).threshold(),
            exists|now: i64|
                final(self)@ == recorded(
                    old(self)@,
                    ip,
                    protocol@,
                    request_size as nat,
                    response_size as nat,
                    now,
                ),
            likely == is_likely_attack(
                old(self).threshold(),
                request_size as nat,
                response_size as nat,
                capped_sum(requests_of(old(self)@, ip), 1),
            ),
    {
        let now = utc_now_seconds();
        self.record_at(ip, protocol, request_size, response_size, now)
    }

    /// The profile of `ip`, if it has one.
    pub fn get_profile(&self, ip: &IpAddress) -> (profile: Option<AttackerProfile>)
        requires
            self.wf(),
        ensures
            profile is Some <==> profile_of(self@, *ip) is Some,
            profile matches Some(p) ==> Some(p@) == profile_of(self@, *ip),
    {
        let at = self.find(*ip);
        if at < self.profiles.len() {
            assert(self@[at as int] == self.profiles@[at as int]@);
            Some(self.profiles[at].duplicate())
        } else {
            None
        }
    }

    /// Evicts, as of `now`, every profile that was last seen more than
    /// `max_age` seconds before; the others stay in their order.
    pub fn cleanup_at(&mut self, max_age: i64, now: i64)
        requires
            old(self).wf(),
        ensures
            final(self).wf(),
            final(self).threshold() == old(self).threshold(),
            final(self)@ == recent_profiles(old(self)@, max_age, now),
    {
        let ghost before = self@;
        let mut kept: Vec<AttackerProfile> = Vec::new();
        let mut rest: Vec<AttackerProfile> = Vec::new();
        std::mem::swap(&mut self.profiles, &mut rest);
        let mut i: usize = 0;
        assert(before.take(0) =~= Seq::<ProfileView>::empty());
        while i < rest.len()
            invariant
                i <= rest@.len(),
                profile_views(rest@) == before,
                profile_views(kept@) == recent_profiles(before.take(i as int), max_age, now),
            decreases rest@.len() - i,
        {
            let profile = rest[i].duplicate();
            proof {
                assert(before[i as int] == rest@[i as int]@);
                assert(before.take(i + 1).drop_last() =~= before.take(i as int));
                assert(before.take(i + 1).last() == profile@);
            }
            let ghost prev = profile_views(kept@);
            if (now as i128) - (profile.last_seen as i128) <= max_age as i128 {
                kept.push(profile);
                assert(profile_views(kept@) =~= prev.push(before[i as int]));
            }
            i += 1;
        }
        assert(before.take(rest@.len() as int) =~= before);
        proof {
            lemma_recent_profiles_wf(before, max_age, now);
        }
        let ghost store = profile_views(kept@);
        let mut v4_slots: HashMap<u32, usize> = HashMap::new();
        let mut v6_slots: HashMap<u128, usize> = HashMap::new();
        let mut k: usize = 0;
        while k < kept.len()
            invariant
                k <= kept@.len(),
                store == profile_views(kept@),
                store_wf(store),
                slots_wf(store.take(k as int), v4_slots@, v6_slots@),
            decreases kept@.len() - k,
        {
            let ghost v4 = v4_slots@;
            let ghost v6 = v6_slots@;
            let ghost done = store.take(k as int);
            let ghost next = store.take(k + 1);
            let ip = kept[k].ip;
            assert(store[k as int] == kept@[k as int]@);
            match ip {
                IpAddress::V4(a) => {
                    v4_slots.insert(a, k);
                },
                IpAddress::V6(a) => {
                    v6_slots.insert(a, k);
                },
            }
            proof {
                let n4 = v4_slots@;
                let n6 = v6_slots@;
                assert(slot_of(v4, v6, ip) is None) by {
                    if slot_of(v4, v6, ip) is Some {
                        let i = slot_of(v4, v6, ip)->0;
                        assert(done[i as int] == store[i as int]);
                    }
                }
                assert forall|x: IpAddress| x != ip implies slot_of(n4, n6, x) == slot_of(
                    v4,
                    v6,
                    x,
                ) by {}
                assert(slot_of(n4, n6, ip) == Some(k));
                assert forall|i: int| 0 <= i < next.len() implies slot_of(
                    n4,
                    n6,
                    (#[trigger] next[i]).ip,
                ) == Some(i as usize) by {
                    assert(next[i] == store[i]);
                    if i < k {
                        assert(done[i] == store[i]);
                        assert(store[i].ip != store[k as int].ip);
                    }
                }
                assert forall|x: IpAddress| (#[trigger] slot_of(n4, n6, x)) is Some implies slot_of(
                    n4,
                    n6,
                    x,
                )->0 < next.len() && next[slot_of(n4, n6, x)->0 as int].ip == x by {
                    if x != ip {
                        let i = slot_of(v4, v6, x)->0;
                        assert(done[i as int] == store[i as int]);
                        assert(next[i as int] == store[i as int]);
                    } else {
                        assert(next[k as int] == store[k as int]);
                    }
                }
            }
            k += 1;
        }
        assert(store.take(kept@.len() as int) =~= store);
        self.profiles = kept;
        self.v4_slots = v4_slots;
        self.v6_slots = v6_slots;
    }

    /// Evicts every profile that was last seen more than `age` seconds
    /// ago. The time is read from the system clock; what is evicted is what
    /// `cleanup_at` evicts for that time.
    pub fn cleanup_old_entries(&mut self, age: i64)
        requires
            old(self).wf(),
        ensures
            final(self).wf(),
            final(self).threshold() == old(self).threshold(),
            exists|now: i64| final(self)@ == recent_profiles(old(self)@, age, now),
    {
        let now = utc_now_seconds();
        self.cleanup_at(age, now);
    }

    /// The `limit` profiles with the most response bytes, largest first;
    /// among equals the source that was seen first comes first.
    pub fn get_top_attackers(&self, limit: usize) -> (top: Vec<AttackerProfile>)
        ensures
            profile_views(top@) == top_profiles(self@, limit as nat),
    {
        let ghost store = self@;
        let mut ranked: Vec<AttackerProfile> = Vec::new();
        let mut i: usize = 0;
        assert(store.take(0) =~= Seq::<ProfileView>::empty());
        assert(profile_views(ranked@) =~= Seq::<ProfileView>::empty());
        while i < self.profiles.len()
            invariant
                i <= self.profiles@.len(),
                store == self@,
                profile_views(ranked@) == ranking(store.take(i as int)),
            decreases self.profiles@.len() - i,
        {
            let profile = self.profiles[i].duplicate();
            let ghost cur = profile_views(ranked@);
            proof {
                assert(store[i as int] == self.profiles@[i as int]@);
                assert(store.take(i + 1).drop_last() =~= store.take(i as int));
                assert(store.take(i + 1).last() == profile@);
            }
            let mut at: usize = 0;
            while at < ranked.len() && ranked[at].total_response_bytes
                >= profile.total_response_bytes
                invariant
                    at <= ranked@.len(),
                    cur == profile_views(ranked@),
                    rank_position(cur, profile@, 0) == rank_position(cur, profile@, at as int),
                decreases ranked@.len() - at,
            {
                assert(cur[at as int] == ranked@[at as int]@);
                at += 1;
            }
            proof {
                if at < ranked@.len() {
                    assert(cur[at as int] == ranked@[at as int]@);
                }
            }
            ranked.insert(at, profile);
            assert(profile_views(ranked@) =~= cur.insert(at as int, store[i as int]));
            i += 1;
        }
        assert(store.take(self.profiles@.len() as int) =~= store);
        if limit < ranked.len() {
            ranked.truncate(limit);
            assert(profile_views(ranked@) =~= ranking(store).take(limit as int));
        }
        ranked
    }
}

/// In a table where no source has two profiles, a profile of `ip` at `i`
/// is where the search for `ip` ends.
pub proof fn lemma_position_absent_or_first(store: Seq<ProfileView>, ip: IpAddress, i: int)
    requires
        store_wf(store),
        0 <= i < store.len(),
        store[i].ip == ip,
    ensures
        profile_position(store, ip, 0) == i,
{
    lemma_position_found(store, ip, 0);
    let at = profile_position(store, ip, 0);
    if at >= store.len() {
        lemma_position_absent(store, ip, 0);
    }
}

/// A source without a profile stands nowhere in the table.
pub proof fn lemma_position_absent(store: Seq<ProfileView>, ip: IpAddress, from: int)
    requires
        0 <= from <= store.len(),
        profile_position(store, ip, from) >= store.len(),
    ensures
        forall|k: int| from <= k < store.len() ==> store[k].ip != ip,
    decreases store.len() - from,
{
    if from < store.len() {
        lemma_position_absent(store, ip, from + 1);
    }
}

/// Where the profile of a source stands, that source's profile stands.
pub proof fn lemma_position_found(store: Seq<ProfileView>, ip: IpAddress, from: int)
    requires
        0 <= from <= store.len(),
    ensures
        from <= profile_position(store, ip, from) <= store.len(),
        profile_position(store, ip, from) < store.len() ==> store[profile_position(
            store,
            ip,
            from,
        )].ip == ip,
    decreases store.len() - from,
{
    if from < store.len() && store[from].ip != ip {
        lemma_position_found(store, ip, from + 1);
    }
}

proof fn lemma_protocol_position(hist: Seq<(Seq<char>, u32)>, protocol: Seq<char>, from: int)
    requires
        0 <= from <= hist.len(),
    ensures
        from <= protocol_position(hist, protocol, from) <= hist.len(),
        protocol_position(hist, protocol, from) < hist.len() ==> hist[protocol_position(
            hist,
            protocol,
            from,
        )].0 == protocol,
        forall|k: int| from <= k < protocol_position(hist, protocol, from) ==> hist[k].0 != protocol,
    decreases hist.len() - from,
{
    if from < hist.len() && hist[from].0 != protocol {
        lemma_protocol_position(hist, protocol, from + 1);
    }
}

proof fn lemma_total_push(hist: Seq<(Seq<char>, u32)>, entry: (Seq<char>, u32))
    ensures
        histogram_total(hist.push(entry)) == histogram_total(hist) + entry.1,
{
    assert(hist.push(entry).drop_last() =~= hist);
    assert(hist.push(entry).last() == entry);
}

proof fn lemma_total_update(hist: Seq<(Seq<char>, u32)>, at: int, entry: (Seq<char>, u32))
    requires
        0 <= at < hist.len(),
    ensures
        histogram_total(hist.update(at, entry)) == histogram_total(hist) - hist[at].1 + entry.1,
        hist[at].1 <= histogram_total(hist),
    decreases hist.len(),
{
    let next = hist.update(at, entry);
    if at == hist.len() - 1 {
        assert(next.drop_last() =~= hist.drop_last());
        assert(next.last() == entry);
    } else {
        assert(next.drop_last() =~= hist.drop_last().update(at, entry));
        assert(next.last() == hist.last());
        lemma_total_update(hist.drop_last(), at, entry);
    }
}

/// One more use of a protocol adds one to the total of the histogram, as
/// long as the total fits 32 bits.
pub proof fn lemma_histogram_with_total(hist: Seq<(Seq<char>, u32)>, protocol: Seq<char>)
    requires
        histogram_total(hist) < u32::MAX,
    ensures
        histogram_total(histogram_with(hist, protocol)) == histogram_total(hist) + 1,
{
    lemma_protocol_position(hist, protocol, 0);
    let at = protocol_position(hist, protocol, 0);
    if at < hist.len() {
        lemma_total_update(hist, at, (protocol, counted_again(hist[at].1)));
    } else {
        lemma_total_push(hist, (protocol, 1u32));
    }
}

proof fn lemma_position_after_update(
    store: Seq<ProfileView>,
    at: int,
    q: ProfileView,
    ip: IpAddress,
    from: int,
)
    requires
        0 <= at < store.len(),
        q.ip == store[at].ip,
        0 <= from <= store.len(),
    ensures
        profile_position(store.update(at, q), ip, from) == profile_position(store, ip, from),
    decreases store.len() - from,
{
    let next = store.update(at, q);
    if from < store.len() {
        assert(next[from].ip == store[from].ip);
        if store[from].ip != ip {
            lemma_position_after_update(store, at, q, ip, from + 1);
        }
    }
}

proof fn lemma_position_after_push(store: Seq<ProfileView>, q: ProfileView, ip: IpAddress, from: int)
    requires
        0 <= from <= store.len(),
    ensures
        profile_position(store, ip, from) < store.len() ==> profile_position(
            store.push(q),
            ip,
            from,
        ) == profile_position(store, ip, from),
        profile_position(store, ip, from) >= store.len() ==> profile_position(
            store.push(q),
            ip,
            from,
        ) == (if q.ip == ip {
            store.len() as int
        } else {
            store.len() as int + 1
        }),
    decreases store.len() - from,
{
    let next = store.push(q);
    if from < store.len() {
        assert(next[from] == store[from]);
        if store[from].ip != ip {
            lemma_position_after_push(store, q, ip, from + 1);
        }
    } else {
        assert(next[from] == q);
        assert(profile_position(next, ip, from + 1) == next.len());
    }
}

/// An observation changes the profile of its source and no other: the
/// source's profile becomes what `observed` makes of it, every other
/// profile stays as it is, and the table grows by one exactly if the
/// source is new.
pub proof fn lemma_recorded_profiles(
    store: Seq<ProfileView>,
    ip: IpAddress,
    protocol: Seq<char>,
    request_size: nat,
    response_size: nat,
    now: i64,
    other: IpAddress,
)
    ensures
        profile_of(recorded(store, ip, protocol, request_size, response_size, now), ip) == Some(
            observed(
                profile_before(store, ip, now),
                protocol,
                request_size,
                response_size,
                now,
            ),
        ),
        other != ip ==> profile_of(
            recorded(store, ip, protocol, request_size, response_size, now),
            other,
        ) == profile_of(store, other),
        recorded(store, ip, protocol, request_size, response_size, now).len() == store.len() + (
        if profile_of(store, ip) is Some {
            0int
        } else {
            1int
        }),
{
    let next = recorded(store, ip, protocol, request_size, response_size, now);
    let after = observed(profile_before(store, ip, now), protocol, request_size, response_size, now);
    let at = profile_position(store, ip, 0);
    lemma_position_found(store, ip, 0);
    lemma_position_found(store, other, 0);
    if at < store.len() {
        lemma_position_after_update(store, at, after, ip, 0);
        lemma_position_after_update(store, at, after, other, 0);
    } else {
        lemma_position_after_push(store, after, ip, 0);
        lemma_position_after_push(store, after, other, 0);
    }
}

/// What an observation does to the profile of its source: the request
/// count grows by one, the byte totals by the sizes, the count of the
/// protocol by one; the source was last seen at the time of the
/// observation, and first seen when it was first seen. Counts and totals
/// stop at their largest values.
pub proof fn lemma_observed_profile(
    p: ProfileView,
    protocol: Seq<char>,
    request_size: nat,
    response_size: nat,
    now: i64,
)
    requires
        profile_wf(p),
    ensures
        profile_wf(observed(p, protocol, request_size, response_size, now)),
        observed(p, protocol, request_size, response_size, now).request_count == capped_sum(
            p.request_count,
            1,
        ),
        protocol_uses(
            observed(p, protocol, request_size, response_size, now).protocols,
            protocol,
        ) == counted_again(protocol_uses(p.protocols, protocol)),
        observed(p, protocol, request_size, response_size, now).first_seen == p.first_seen,
        observed(p, protocol, request_size, response_size, now).last_seen == now,
        p.first_seen <= now ==> observed(p, protocol, request_size, response_size, now).first_seen
            <= observed(p, protocol, request_size, response_size, now).last_seen,
{
    lemma_histogram_with_wf(p.protocols, protocol);
    if after_count_fits(p) {
        lemma_histogram_with_total(p.protocols, protocol);
    }
    lemma_protocol_position(p.protocols, protocol, 0);
    let at = protocol_position(p.protocols, protocol, 0);
    let next = histogram_with(p.protocols, protocol);
    lemma_protocol_position(next, protocol, 0);
    if at < p.protocols.len() {
        assert(next[at].0 == protocol);
        assert forall|k: int| 0 <= k < at implies next[k].0 != protocol by {
            assert(next[k] == p.protocols[k]);
        }
    } else {
        assert(next[at] == (protocol, 1u32));
        assert forall|k: int| 0 <= k < at implies next[k].0 != protocol by {
            assert(next[k] == p.protocols[k]);
        }
    }
    assert(protocol_position(next, protocol, 0) == at);
}

/// Counting a protocol keeps the histogram free of duplicates.
pub proof fn lemma_histogram_with_wf(hist: Seq<(Seq<char>, u32)>, protocol: Seq<char>)
    requires
        histogram_wf(hist),
    ensures
        histogram_wf(histogram_with(hist, protocol)),
{
    lemma_protocol_position(hist, protocol, 0);
    let at = protocol_position(hist, protocol, 0);
    let next = histogram_with(hist, protocol);
    assert forall|i: int, j: int|
        0 <= i < next.len() && 0 <= j < next.len() && i != j implies (#[trigger] next[i]).0 != (
    #[trigger] next[j]).0 by {
        if at < hist.len() {
            assert(next[i].0 == hist[i].0);
            assert(next[j].0 == hist[j].0);
        } else {
            if i < hist.len() {
                assert(next[i] == hist[i]);
            }
            if j < hist.len() {
                assert(next[j] == hist[j]);
            }
        }
    }
}

/// Every profile that a cleanup keeps was in the table before.
pub proof fn lemma_recent_profiles_subsequence(store: Seq<ProfileView>, max_age: i64, now: i64)
    ensures
        recent_profiles(store, max_age, now).len() <= store.len(),
        forall|k: int|
            0 <= k < recent_profiles(store, max_age, now).len() ==> is_recent(
                #[trigger] recent_profiles(store, max_age, now)[k],
                max_age,
                now,
            ) && store.contains(recent_profiles(store, max_age, now)[k]),
        forall|j: int|
            0 <= j < store.len() && is_recent(store[j], max_age, now) ==> recent_profiles(
                store,
                max_age,
                now,
            ).contains(#[trigger] store[j]),
    decreases store.len(),
{
    if store.len() > 0 {
        let head = store.drop_last();
        lemma_recent_profiles_subsequence(head, max_age, now);
        let rest = recent_profiles(head, max_age, now);
        let all = recent_profiles(store, max_age, now);
        assert forall|k: int| 0 <= k < all.len() implies is_recent(#[trigger] all[k], max_age, now)
            && store.contains(all[k]) by {
            if k < rest.len() {
                assert(all[k] == rest[k]);
                assert(head.contains(rest[k]));
                let w = choose|w: int| 0 <= w < head.len() && head[w] == rest[k];
                assert(store[w] == rest[k]);
            } else {
                assert(all[k] == store.last());
                assert(store[store.len() - 1] == store.last());
            }
        }
        assert forall|j: int| 0 <= j < store.len() && is_recent(store[j], max_age, now) implies all.contains(
            #[trigger] store[j],
        ) by {
            if j < head.len() {
                assert(head[j] == store[j]);
                assert(rest.contains(head[j]));
                let w = choose|w: int| 0 <= w < rest.len() && rest[w] == head[j];
                assert(all[w] == store[j]);
            } else {
                assert(all[all.len() - 1] == store[j]);
            }
        }
    }
}

/// The profiles that a cleanup keeps stand at increasing places of the
/// table: `place(k)` is where the `k`-th of them stood.
proof fn lemma_recent_profiles_places(store: Seq<ProfileView>, max_age: i64, now: i64) -> (place:
    Seq<int>)
    ensures
        place.len() == recent_profiles(store, max_age, now).len(),
        forall|k: int|
            0 <= k < place.len() ==> 0 <= #[trigger] place[k] < store.len() && store[place[k]]
                == recent_profiles(store, max_age, now)[k],
        forall|a: int, b: int| 0 <= a < b < place.len() ==> place[a] < place[b],
    decreases store.len(),
{
    if store.len() == 0 {
        Seq::empty()
    } else {
        let head = store.drop_last();
        let inner = lemma_recent_profiles_places(head, max_age, now);
        assert forall|k: int| 0 <= k < inner.len() implies store[inner[k]] == head[inner[k]] by {}
        if is_recent(store.last(), max_age, now) {
            inner.push(store.len() - 1)
        } else {
            inner
        }
    }
}

/// A cleanup keeps the table well formed.
pub proof fn lemma_recent_profiles_wf(store: Seq<ProfileView>, max_age: i64, now: i64)
    requires
        store_wf(store),
    ensures
        store_wf(recent_profiles(store, max_age, now)),
{
    let kept = recent_profiles(store, max_age, now);
    let place = lemma_recent_profiles_places(store, max_age, now);
    assert forall|i: int, j: int|
        0 <= i < kept.len() && 0 <= j < kept.len() && i != j implies (#[trigger] kept[i]).ip != (
    #[trigger] kept[j]).ip by {
        assert(store[place[i]] == kept[i]);
        assert(store[place[j]] == kept[j]);
        if i < j {
            assert(place[i] < place[j]);
        } else {
            assert(place[j] < place[i]);
        }
    }
    assert forall|i: int| 0 <= i < kept.len() implies profile_wf(#[trigger] kept[i]) by {
        assert(store[place[i]] == kept[i]);
    }
}

proof fn lemma_rank_position(ranking: Seq<ProfileView>, p: ProfileView, from: int)
    requires
        0 <= from <= ranking.len(),
    ensures
        from <= rank_position(ranking, p, from) <= ranking.len(),
        forall|k: int|
            from <= k < rank_position(ranking, p, from) ==> (#[trigger] ranking[k]).total_response_bytes
                >= p.total_response_bytes,
        rank_position(ranking, p, from) < ranking.len() ==> ranking[rank_position(
            ranking,
            p,
            from,
        )].total_response_bytes < p.total_response_bytes,
    decreases ranking.len() - from,
{
    if from < ranking.len() && ranking[from].total_response_bytes >= p.total_response_bytes {
        lemma_rank_position(ranking, p, from + 1);
    }
}

/// The ranking holds every profile of the table, each as often as the
/// table does.
pub proof fn lemma_ranking_permutation(store: Seq<ProfileView>)
    ensures
        ranking(store).len() == store.len(),
        ranking(store).to_multiset() =~= store.to_multiset(),
    decreases store.len(),
{
    if store.len() == 0 {
        assert(store =~= Seq::<ProfileView>::empty());
    } else {
        let head = store.drop_last();
        let p = store.last();
        lemma_ranking_permutation(head);
        let rest = ranking(head);
        lemma_rank_position(rest, p, 0);
        let at = rank_position(rest, p, 0);
        let all = rest.insert(at, p);
        assert(all == ranking(store));
        assert(store =~= head.push(p));
        assert(all.remove(at) =~= rest);
        assert(all[at] == p);
        vstd::seq_lib::to_multiset_remove(all, at);
        all.to_multiset_ensures();
        assert(all.contains(p));
        assert(all.to_multiset().count(p) > 0);
        assert(all.to_multiset() =~= all.to_multiset().remove(p).insert(p));
        vstd::seq_lib::to_multiset_build(head, p);
    }
}

/// Every profile of the ranking is a profile of the table.
pub proof fn lemma_ranking_members(store: Seq<ProfileView>, i: int)
    requires
        0 <= i < ranking(store).len(),
    ensures
        store.contains(ranking(store)[i]),
{
    lemma_ranking_permutation(store);
    let r = ranking(store);
    r.to_multiset_ensures();
    store.to_multiset_ensures();
    assert(r.contains(r[i]));
    assert(store.to_multiset().count(r[i]) > 0);
}

/// In the ranking of a well-formed table no source stands twice, so the
/// top profiles are those of different sources.
pub proof fn lemma_ranking_distinct(store: Seq<ProfileView>)
    requires
        store_wf(store),
    ensures
        forall|i: int, j: int|
            0 <= i < ranking(store).len() && 0 <= j < ranking(store).len() && i != j ==> (
            #[trigger] ranking(store)[i]).ip != (#[trigger] ranking(store)[j]).ip,
    decreases store.len(),
{
    if store.len() > 0 {
        let head = store.drop_last();
        let p = store.last();
        assert(store_wf(head)) by {
            assert forall|i: int, j: int|
                0 <= i < head.len() && 0 <= j < head.len() && i != j implies (#[trigger] head[i]).ip
                != (#[trigger] head[j]).ip by {
                assert(head[i] == store[i]);
                assert(head[j] == store[j]);
            }
            assert forall|i: int| 0 <= i < head.len() implies profile_wf(#[trigger] head[i]) by {
                assert(head[i] == store[i]);
            }
        }
        lemma_ranking_distinct(head);
        lemma_ranking_permutation(head);
        let rest = ranking(head);
        lemma_rank_position(rest, p, 0);
        let at = rank_position(rest, p, 0);
        let all = rest.insert(at, p);
        assert(all == ranking(store));
        assert forall|k: int| 0 <= k < rest.len() implies (#[trigger] rest[k]).ip != p.ip by {
            lemma_ranking_members(head, k);
            let w = choose|w: int| 0 <= w < head.len() && head[w] == rest[k];
            assert(store[w] == rest[k]);
            assert(store[store.len() - 1] == p);
        }
        assert forall|i: int, j: int|
            0 <= i < all.len() && 0 <= j < all.len() && i != j implies (#[trigger] all[i]).ip != (
        #[trigger] all[j]).ip by {
            let a = if i < at {
                i
            } else {
                i - 1
            };
            let b = if j < at {
                j
            } else {
                j - 1
            };
            if i != at {
                assert(all[i] == rest[a]);
            }
            if j != at {
                assert(all[j] == rest[b]);
            }
        }
    }
}

/// The ranking is ordered by total response bytes, largest first.
pub proof fn lemma_ranking_sorted(store: Seq<ProfileView>)
    ensures
        forall|i: int, j: int|
            0 <= i <= j < ranking(store).len() ==> (#[trigger] ranking(store)[i]).total_response_bytes
                >= (#[trigger] ranking(store)[j]).total_response_bytes,
    decreases store.len(),
{
    if store.len() > 0 {
        let head = store.drop_last();
        let p = store.last();
        lemma_ranking_sorted(head);
        let rest = ranking(head);
        lemma_rank_position(rest, p, 0);
        let at = rank_position(rest, p, 0);
        let all = rest.insert(at, p);
        assert(all == ranking(store));
        assert forall|i: int, j: int| 0 <= i <= j < all.len() implies (#[trigger] all[i]).total_response_bytes
            >= (#[trigger] all[j]).total_response_bytes by {
            if i < at && j > at {
                assert(all[i] == rest[i]);
                assert(all[j] == rest[j - 1]);
                assert(rest[at].total_response_bytes < p.total_response_bytes);
                assert(rest[at].total_response_bytes >= rest[j - 1].total_response_bytes);
            } else if i < at && j < at {
                assert(all[i] == rest[i]);
                assert(all[j] == rest[j]);
            } else if i < at && j == at {
                assert(all[i] == rest[i]);
            } else if i == at && j > at {
                assert(all[j] == rest[j - 1]);
                assert(rest[at].total_response_bytes >= rest[j - 1].total_response_bytes);
            } else if i > at {
                assert(all[i] == rest[i - 1]);
                assert(all[j] == rest[j - 1]);
            }
        }
    }
}

/// A cleanup that is repeated at the same time, with nothing recorded in
/// between, changes nothing.
pub proof fn lemma_cleanup_idempotent(store: Seq<ProfileView>, max_age: i64, now: i64)
    ensures
        recent_profiles(recent_profiles(store, max_age, now), max_age, now) == recent_profiles(
            store,
            max_age,
            now,
        ),
    decreases store.len(),
{
    if store.len() > 0 {
        let head = store.drop_last();
        lemma_cleanup_idempotent(head, max_age, now);
        let rest = recent_profiles(head, max_age, now);
        if is_recent(store.last(), max_age, now) {
            let all = rest.push(store.last());
            assert(all.drop_last() =~= rest);
            assert(all.last() == store.last());
        }
    }
}

/// The average amplification factor of every profile in a well-formed
/// table is exactly its total response bytes over its total request bytes,
/// and an observation keeps it so.
pub proof fn lemma_average_is_exact(
    store: Seq<ProfileView>,
    ip: IpAddress,
    protocol: Seq<char>,
    request_size: nat,
    response_size: nat,
    now: i64,
    k: int,
)
    requires
        store_wf(store),
        0 <= k < recorded(store, ip, protocol, request_size, response_size, now).len(),
    ensures
        recorded(store, ip, protocol, request_size, response_size, now)[k].avg_amplification_factor
            == (Ratio {
            num: recorded(
                store,
                ip,
                protocol,
                request_size,
                response_size,
                now,
            )[k].total_response_bytes,
            den: recorded(
                store,
                ip,
                protocol,
                request_size,
                response_size,
                now,
            )[k].total_request_bytes,
        }),
{
    let next = recorded(store, ip, protocol, request_size, response_size, now);
    let at = profile_position(store, ip, 0);
    lemma_position_found(store, ip, 0);
    if k < store.len() && k != at {
        assert(next[k] == store[k]);
    }
}

} // verus!
