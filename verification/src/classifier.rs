//! The packet classifier of the data path.
//!
//! For each Ethernet frame the classifier answers with one of the XDP
//! actions. It reads the Ethernet and IPv4 headers, drops the frame if its
//! source has an entry in the block map, and otherwise reports frames that
//! go to a well-known port. Of the TCP or UDP header it reads the two ports
//! and nothing else, so a frame that ends behind them is reported like any
//! other. Whatever cannot be read is passed on untouched.
//!
//! Expiry is not looked at here: an entry blocks for as long as it is in the
//! map, and the userspace sweep takes expired entries out.

use crate::block_map::BlockMap;
use crate::common::{BlockedIp, PacketEvent, Protocol};
use crate::events::EventChannel;
use crate::stats::{bumped, protocol_stat_key, StatsMap, STAT_BLOCKED_PACKETS, STAT_PROTOCOL_BASE};
use crate::wire::{be16, be32, read_be16, read_be32};
use vstd::prelude::*;

verus! {

pub const XDP_ABORTED: u32 = 0;

pub const XDP_DROP: u32 = 1;

pub const XDP_PASS: u32 = 2;

pub const ETH_P_IP: u16 = 0x0800;

pub const ETH_HDR_LEN: usize = 14;

pub const IP_HDR_LEN: usize = 20;

/// Source and destination port, which open the TCP and the UDP header
/// alike: all that the classifier reads of either.
pub const PORT_PREFIX_LEN: usize = 4;

pub const IPPROTO_TCP: u8 = 6;

pub const IPPROTO_UDP: u8 = 17;

pub const PORT_DNS: u16 = 53;

pub const PORT_NTP: u16 = 123;

pub const PORT_SNMP: u16 = 161;

pub const PORT_LDAP: u16 = 389;

pub const PORT_LDAP_GC: u16 = 3268;

pub const PORT_SSDP: u16 = 1900;

pub const PORT_MDNS: u16 = 5353;

pub const PORT_MEMCACHED: u16 = 11211;

pub const PORT_BGP: u16 = 179;

pub const PORT_SSH: u16 = 22;

pub const PORT_TELNET: u16 = 23;

pub const PORT_WS_DISCOVERY: u16 = 3702;

pub const PORT_CHARGEN: u16 = 19;

pub const PORT_QOTD: u16 = 17;

/// The protocol tag of a transport protocol and destination port.
pub open spec fn protocol_tag(port: u16, protocol: u8) -> Protocol {
    if protocol == IPPROTO_TCP {
        if port == PORT_BGP {
            Protocol::BGP
        } else if port == PORT_SSH {
            Protocol::SSH
        } else if port == PORT_TELNET {
            Protocol::Telnet
        } else {
            Protocol::Unknown
        }
    } else if protocol == IPPROTO_UDP {
        if port == PORT_NTP {
            Protocol::NTP
        } else if port == PORT_DNS {
            Protocol::DNS
        } else if port == PORT_SNMP {
            Protocol::SNMP
        } else if port == PORT_SSDP {
            Protocol::SSDP
        } else if port == PORT_MEMCACHED {
            Protocol::Memcached
        } else if port == PORT_LDAP || port == PORT_LDAP_GC {
            Protocol::LDAP
        } else if port == PORT_MDNS {
            Protocol::MDNS
        } else if port == PORT_WS_DISCOVERY {
            Protocol::WSDiscovery
        } else if port == PORT_CHARGEN {
            Protocol::CharGen
        } else if port == PORT_QOTD {
            Protocol::QOTD
        } else {
            Protocol::Unknown
        }
    } else {
        Protocol::Unknown
    }
}

/// Whether a port has a line in the tag table, under either transport.
pub open spec fn port_in_tag_table(port: u16) -> bool {
    port == PORT_BGP || port == PORT_SSH || port == PORT_TELNET || port == PORT_NTP || port
        == PORT_DNS || port == PORT_SNMP || port == PORT_SSDP || port == PORT_MEMCACHED || port
        == PORT_LDAP || port == PORT_LDAP_GC || port == PORT_MDNS || port == PORT_WS_DISCOVERY
        || port == PORT_CHARGEN || port == PORT_QOTD
}

/// The frame is long enough for an Ethernet header and carries IPv4.
pub open spec fn frame_is_ipv4(frame: Seq<u8>) -> bool {
    frame.len() >= ETH_HDR_LEN && be16(frame[12], frame[13]) == ETH_P_IP
}

/// The frame carries IPv4 and is long enough for the fixed IPv4 header.
pub open spec fn frame_has_ip_header(frame: Seq<u8>) -> bool {
    frame_is_ipv4(frame) && frame.len() >= ETH_HDR_LEN + IP_HDR_LEN
}

/// Source address of the IPv4 header, in host byte order.
pub open spec fn frame_source(frame: Seq<u8>) -> u32 {
    be32(frame[26], frame[27], frame[28], frame[29])
}

/// Destination address of the IPv4 header, in host byte order.
pub open spec fn frame_destination(frame: Seq<u8>) -> u32 {
    be32(frame[30], frame[31], frame[32], frame[33])
}

/// Transport protocol number of the IPv4 header.
pub open spec fn frame_transport(frame: Seq<u8>) -> u8 {
    frame[23]
}

/// The frame carries TCP or UDP and holds the four bytes of the two ports.
/// The rest of the transport header is not asked for.
pub open spec fn frame_has_ports(frame: Seq<u8>) -> bool {
    &&& frame_has_ip_header(frame)
    &&& frame_transport(frame) == IPPROTO_TCP || frame_transport(frame) == IPPROTO_UDP
    &&& frame.len() >= ETH_HDR_LEN + IP_HDR_LEN + PORT_PREFIX_LEN
}

pub open spec fn frame_source_port(frame: Seq<u8>) -> u16 {
    be16(frame[34], frame[35])
}

pub open spec fn frame_destination_port(frame: Seq<u8>) -> u16 {
    be16(frame[36], frame[37])
}

/// The observed size of a frame, as the 32-bit field of an event holds it.
pub open spec fn frame_size(frame: Seq<u8>) -> u32 {
    (frame.len() % 0x1_0000_0000) as u32
}

/// The frame ends within its Ethernet header, or it carries IPv4 and ends
/// within the IPv4 header.
pub open spec fn frame_truncated(frame: Seq<u8>) -> bool {
    ||| frame.len() < ETH_HDR_LEN
    ||| frame_is_ipv4(frame) && !frame_has_ip_header(frame)
}

/// The frame carries TCP or UDP and ends before or within the two ports.
pub open spec fn transport_truncated(frame: Seq<u8>) -> bool {
    &&& frame_has_ip_header(frame)
    &&& frame_transport(frame) == IPPROTO_TCP || frame_transport(frame) == IPPROTO_UDP
    &&& !frame_has_ports(frame)
}

/// A read of the frame goes past its end before the classifier has its
/// answer. The ports of a frame from a blocked source are never read.
pub open spec fn read_fails(frame: Seq<u8>, blocked: Map<u32, BlockedIp>) -> bool {
    frame_truncated(frame) || (!frame_blocked(frame, blocked) && transport_truncated(frame))
}

/// The event that the classifier reports for a frame whose source is not
/// blocked: one for each TCP or UDP frame to a port that the tag table
/// lists.
pub open spec fn frame_event(frame: Seq<u8>) -> Option<PacketEvent> {
    if frame_has_ports(frame) && protocol_tag(
        frame_destination_port(frame),
        frame_transport(frame),
    ) != Protocol::Unknown {
        Some(
            PacketEvent {
                src_ip: frame_source(frame),
                dst_ip: frame_destination(frame),
                src_port: frame_source_port(frame),
                dst_port: frame_destination_port(frame),
                protocol: frame_transport(frame),
                protocol_type: protocol_tag(
                    frame_destination_port(frame),
                    frame_transport(frame),
                ).code(),
                packet_size: frame_size(frame),
                flags: 0,
                timestamp: 0,
            },
        )
    } else {
        None
    }
}

/// The frame has a readable IPv4 source that the block map holds.
pub open spec fn frame_blocked(frame: Seq<u8>, blocked: Map<u32, BlockedIp>) -> bool {
    frame_has_ip_header(frame) && blocked.contains_key(frame_source(frame))
}

/// The action for a frame: drop what comes from a blocked source, pass
/// everything else.
pub open spec fn verdict(frame: Seq<u8>, blocked: Map<u32, BlockedIp>) -> u32 {
    if frame_blocked(frame, blocked) {
        XDP_DROP
    } else {
        XDP_PASS
    }
}

/// The tables that the data path shares with userspace.
pub struct DataPath {
    pub blocked: BlockMap,
    pub stats: StatsMap,
    pub events: EventChannel,
}

impl DataPath {
    pub open spec fn wf(&self) -> bool {
        self.blocked.wf() && self.stats.wf() && self.events.wf()
    }

    /// Empty tables of the given capacities, with all counters at zero.
    pub fn new(block_capacity: usize, event_capacity: usize) -> (maps: DataPath)
        ensures
            maps.wf(),
            maps.blocked@ == Map::<u32, BlockedIp>::empty(),
            maps.blocked.capacity() == block_capacity,
            maps.events@ == Seq::<PacketEvent>::empty(),
            maps.events.capacity() == event_capacity,
            maps.events.dropped() == 0,
            forall|key: u32| maps.stats.count(key) == 0,
    {
        DataPath {
            blocked: BlockMap::new(block_capacity),
            stats: StatsMap::new(),
            events: EventChannel::new(event_capacity),
        }
    }
}

/// Maps a destination port and a transport protocol to the numeric value of
/// a protocol tag.
pub fn detect_protocol(port: u16, protocol: u8) -> (tag: u8)
    ensures
        tag == protocol_tag(port, protocol).code(),
        tag <= 14,
{
    if protocol == IPPROTO_TCP {
        if port == PORT_BGP {
            Protocol::BGP.to_u8()
        } else if port == PORT_SSH {
            Protocol::SSH.to_u8()
        } else if port == PORT_TELNET {
            Protocol::Telnet.to_u8()
        } else {
            Protocol::Unknown.to_u8()
        }
    } else if protocol == IPPROTO_UDP {
        if port == PORT_NTP {
            Protocol::NTP.to_u8()
        } else if port == PORT_DNS {
            Protocol::DNS.to_u8()
        } else if port == PORT_SNMP {
            Protocol::SNMP.to_u8()
        } else if port == PORT_SSDP {
            Protocol::SSDP.to_u8()
        } else if port == PORT_MEMCACHED {
            Protocol::Memcached.to_u8()
        } else if port == PORT_LDAP || port == PORT_LDAP_GC {
            Protocol::LDAP.to_u8()
        } else if port == PORT_MDNS {
            Protocol::MDNS.to_u8()
        } else if port == PORT_WS_DISCOVERY {
            Protocol::WSDiscovery.to_u8()
        } else if port == PORT_CHARGEN {
            Protocol::CharGen.to_u8()
        } else if port == PORT_QOTD {
            Protocol::QOTD.to_u8()
        } else {
            Protocol::Unknown.to_u8()
        }
    } else {
        Protocol::Unknown.to_u8()
    }
}

/// The bounds check that stands before every read of a frame: the offset
/// of a header of `len` bytes at `offset`, if the frame holds all of it.
pub fn ptr_at(frame: &[u8], offset: usize, len: usize) -> (r: Result<usize, ()>)
    ensures
        r is Ok <==> offset + len <= frame@.len(),
        r matches Ok(at) ==> at == offset,
{
    if offset > frame.len() || len > frame.len() - offset {
        Err(())
    } else {
        Ok(offset)
    }
}

/// Reads the IPv4 source address of a frame, if it has one.
pub fn frame_source_ip(frame: &[u8]) -> (src: Option<u32>)
    ensures
        src == (if frame_has_ip_header(frame@) {
            Some(frame_source(frame@))
        } else {
            None
        }),
{
    if frame.len() < ETH_HDR_LEN + IP_HDR_LEN {
        return None;
    }
    if read_be16(frame[12], frame[13]) != ETH_P_IP {
        return None;
    }
    Some(read_be32(frame[26], frame[27], frame[28], frame[29]))
}

/// Builds the event for a frame whose source is not blocked, if the frame
/// is one to report.
pub fn frame_packet_event(frame: &[u8]) -> (event: Option<PacketEvent>)
    ensures
        event == frame_event(frame@),
{
    if frame.len() < ETH_HDR_LEN + IP_HDR_LEN {
        return None;
    }
    if read_be16(frame[12], frame[13]) != ETH_P_IP {
        return None;
    }
    let protocol = frame[23];
    if protocol != IPPROTO_TCP && protocol != IPPROTO_UDP {
        return None;
    }
    if frame.len() < ETH_HDR_LEN + IP_HDR_LEN + PORT_PREFIX_LEN {
        return None;
    }
    let src_port = read_be16(frame[34], frame[35]);
    let dst_port = read_be16(frame[36], frame[37]);
    let protocol_type = detect_protocol(dst_port, protocol);
    if protocol_type == Protocol::Unknown.to_u8() {
        return None;
    }
    Some(
        PacketEvent {
            src_ip: read_be32(frame[26], frame[27], frame[28], frame[29]),
            dst_ip: read_be32(frame[30], frame[31], frame[32], frame[33]),
            src_port,
            dst_port,
            protocol,
            protocol_type,
            packet_size: (frame.len() as u64 % 0x1_0000_0000) as u32,
            flags: 0,
            timestamp: 0,
        },
    )
}

/// What the classifier does about one frame, once it is known whether the
/// source of the frame is blocked: the action, the event to offer to the
/// event channel, and the code of the counter to count under.
#[derive(Clone, Copy, Debug, PartialEq, Eq, Structural)]
pub struct Classification {
    pub action: u32,
    pub event: Option<PacketEvent>,
    pub counter: Option<u32>,
}

/// The decision for a frame. A frame with a readable IPv4 source that is
/// blocked is dropped and counted as blocked, and nothing more of it is
/// read. Any other frame is passed; if it is one to report, its event is
/// offered and it is counted under its protocol tag.
pub open spec fn classification(frame: Seq<u8>, source_blocked: bool) -> Classification {
    if frame_has_ip_header(frame) && source_blocked {
        Classification { action: XDP_DROP, event: None, counter: Some(STAT_BLOCKED_PACKETS) }
    } else {
        match frame_event(frame) {
            Some(e) => Classification {
                action: XDP_PASS,
                event: Some(e),
                counter: Some(protocol_stat_key(e.protocol_type)),
            },
            None => Classification { action: XDP_PASS, event: None, counter: None },
        }
    }
}

/// Decides what to do about one frame. `source_blocked` says whether the
/// block map holds the IPv4 source of the frame; it is not looked at for a
/// frame that has none.
pub fn classify(frame: &[u8], source_blocked: bool) -> (decision: Classification)
    ensures
        decision == classification(frame@, source_blocked),
{
    if source_blocked {
        match frame_source_ip(frame) {
            Some(_) => {
                return Classification {
                    action: XDP_DROP,
                    event: None,
                    counter: Some(STAT_BLOCKED_PACKETS),
                };
            },
            None => {},
        }
    }
    match frame_packet_event(frame) {
        Some(event) => Classification {
            action: XDP_PASS,
            event: Some(event),
            counter: Some(STAT_PROTOCOL_BASE + event.protocol_type as u32),
        },
        None => Classification { action: XDP_PASS, event: None, counter: None },
    }
}

/// Classifies one frame against the shared tables. A frame whose headers
/// cannot be read as far as the classifier needs them gives an error and
/// changes nothing.
pub fn try_routertrap(frame: &[u8], maps: &mut DataPath) -> (r: Result<u32, ()>)
    requires
        old(maps).wf(),
    ensures
        final(maps).wf(),
        final(maps).blocked == old(maps).blocked,
        final(maps).events.capacity() == old(maps).events.capacity(),
        r is Err <==> read_fails(frame@, old(maps).blocked@),
        r matches Ok(action) ==> action == verdict(frame@, old(maps).blocked@),
        frame_blocked(frame@, old(maps).blocked@) ==> {
            &&& r == Ok::<u32, ()>(XDP_DROP)
            &&& final(maps).stats@ == bumped(old(maps).stats@, STAT_BLOCKED_PACKETS)
            &&& final(maps).events == old(maps).events
        },
        !frame_blocked(frame@, old(maps).blocked@) ==> match frame_event(frame@) {
            Some(e) => {
                &&& r == Ok::<u32, ()>(XDP_PASS)
                &&& final(maps).stats@ == bumped(
                    old(maps).stats@,
                    protocol_stat_key(e.protocol_type),
                )
                &&& final(maps).events@ == old(maps).events.after_emit(e)
                &&& final(maps).events.dropped() == old(maps).events.dropped_after_emit(e)
            },
            None => final(maps).stats == old(maps).stats && final(maps).events == old(maps).events,
        },
{
    let eth = match ptr_at(frame, 0, ETH_HDR_LEN) {
        Ok(at) => at,
        Err(e) => {
            return Err(e);
        },
    };
    if read_be16(frame[eth + 12], frame[eth + 13]) != ETH_P_IP {
        return Ok(XDP_PASS);
    }
    let ip = match ptr_at(frame, ETH_HDR_LEN, IP_HDR_LEN) {
        Ok(at) => at,
        Err(e) => {
            return Err(e);
        },
    };
    let src_ip = read_be32(frame[ip + 12], frame[ip + 13], frame[ip + 14], frame[ip + 15]);
    let protocol = frame[ip + 9];

    if maps.blocked.contains(src_ip) {
        maps.stats.increment(STAT_BLOCKED_PACKETS);
        return Ok(XDP_DROP);
    }
    if protocol != IPPROTO_TCP && protocol != IPPROTO_UDP {
        return Ok(XDP_PASS);
    }
    match ptr_at(frame, ETH_HDR_LEN + IP_HDR_LEN, PORT_PREFIX_LEN) {
        Ok(at) => {},
        Err(e) => {
            return Err(e);
        },
    }
    let decision = classify(frame, false);
    match decision.event {
        Some(event) => {
            maps.events.emit(event);
        },
        None => {},
    }
    match decision.counter {
        Some(key) => {
            maps.stats.increment(key);
        },
        None => {},
    }
    Ok(decision.action)
}

/// The classifier: the action for one frame. It fails open: a frame that
/// cannot be read in full is passed on.
pub fn routertrap(frame: &[u8], maps: &mut DataPath) -> (action: u32)
    requires
        old(maps).wf(),
    ensures
        final(maps).wf(),
        action == verdict(frame@, old(maps).blocked@),
        action == XDP_DROP || action == XDP_PASS,
        final(maps).blocked == old(maps).blocked,
        final(maps).events.capacity() == old(maps).events.capacity(),
        action == XDP_DROP ==> {
            &&& final(maps).stats@ == bumped(old(maps).stats@, STAT_BLOCKED_PACKETS)
            &&& final(maps).events == old(maps).events
        },
        action == XDP_PASS ==> match frame_event(frame@) {
            Some(e) => {
                &&& final(maps).stats@ == bumped(
                    old(maps).stats@,
                    protocol_stat_key(e.protocol_type),
                )
                &&& final(maps).events@ == old(maps).events.after_emit(e)
                &&& final(maps).events.dropped() == old(maps).events.dropped_after_emit(e)
            },
            None => final(maps).stats == old(maps).stats && final(maps).events == old(maps).events,
        },
{
    match try_routertrap(frame, maps) {
        Ok(action) => action,
        Err(_) => XDP_PASS,
    }
}

/// The action of the decision is the verdict, where `source_blocked` says
/// what the block map holds.
pub proof fn lemma_classification_verdict(frame: Seq<u8>, blocked: Map<u32, BlockedIp>)
    ensures
        classification(frame, blocked.contains_key(frame_source(frame))).action == verdict(
            frame,
            blocked,
        ),
{
}

/// A TCP or UDP frame from a source that is not blocked, with both ports
/// in it and a destination port that the tag table lists for its
/// transport, is passed, reported and counted under its tag, however
/// little of the transport header follows the ports.
pub proof fn lemma_tagged_port_reported(frame: Seq<u8>, blocked: Map<u32, BlockedIp>)
    requires
        frame_has_ports(frame),
        !blocked.contains_key(frame_source(frame)),
        protocol_tag(frame_destination_port(frame), frame_transport(frame)) != Protocol::Unknown,
    ensures
        !read_fails(frame, blocked),
        verdict(frame, blocked) == XDP_PASS,
        frame_event(frame) is Some,
        frame_event(frame)->0.protocol_type == protocol_tag(
            frame_destination_port(frame),
            frame_transport(frame),
        ).code(),
        frame_event(frame)->0.packet_size == frame_size(frame),
{
}

/// A frame whose source has a block entry that is still in force is dropped.
pub proof fn lemma_blocked_source_dropped(frame: Seq<u8>, blocked: Map<u32, BlockedIp>, now: u64)
    requires
        frame_has_ip_header(frame),
        blocked.contains_key(frame_source(frame)),
        blocked[frame_source(frame)].active_at(now),
    ensures
        verdict(frame, blocked) == XDP_DROP,
{
}

/// A port outside the tag table has no tag, whatever the transport.
pub proof fn lemma_port_outside_table_unknown(port: u16, protocol: u8)
    requires
        !port_in_tag_table(port),
    ensures
        protocol_tag(port, protocol) == Protocol::Unknown,
{
}

/// A frame to a port outside the tag table, from a source that is not
/// blocked, is passed on and reported by no event.
pub proof fn lemma_untagged_port_passes(frame: Seq<u8>, blocked: Map<u32, BlockedIp>)
    requires
        !frame_blocked(frame, blocked),
        frame_has_ports(frame) ==> !port_in_tag_table(frame_destination_port(frame)),
    ensures
        verdict(frame, blocked) == XDP_PASS,
        frame_event(frame) is None,
{
}

/// A frame shorter than an Ethernet header is passed on, and no event
/// reports it.
pub proof fn lemma_short_frame_passes(frame: Seq<u8>, blocked: Map<u32, BlockedIp>)
    requires
        frame.len() < ETH_HDR_LEN,
    ensures
        verdict(frame, blocked) == XDP_PASS,
        frame_event(frame) is None,
{
}

} // verus!
