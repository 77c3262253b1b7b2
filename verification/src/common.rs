//! Records shared by the data path and userspace.

use crate::wire::{
    le16_at, le16_bytes, le32_at, le32_bytes, le64_at, le64_bytes, push_le16, push_le32, push_le64,
    read_le16, read_le32, read_le64,
};
use vstd::prelude::*;

verus! {

/// Protocols that can be abused for amplification, as inferred from the
/// transport protocol and destination port of a packet.
#[derive(Clone, Copy, Debug, PartialEq, Eq, Structural)]
pub enum Protocol {
    Unknown,
    BGP,
    NTP,
    DNS,
    SNMP,
    SSDP,
    Memcached,
    LDAP,
    CLDAP,
    MDNS,
    WSDiscovery,
    CharGen,
    QOTD,
    SSH,
    Telnet,
}

impl Protocol {
    /// The stable numeric value of a tag, used as the protocol field of an
    /// event and as a sub-key of the statistics map.
    pub open spec fn code(self) -> u8 {
        match self {
            Protocol::Unknown => 0,
            Protocol::BGP => 1,
            Protocol::NTP => 2,
            Protocol::DNS => 3,
            Protocol::SNMP => 4,
            Protocol::SSDP => 5,
            Protocol::Memcached => 6,
            Protocol::LDAP => 7,
            Protocol::CLDAP => 8,
            Protocol::MDNS => 9,
            Protocol::WSDiscovery => 10,
            Protocol::CharGen => 11,
            Protocol::QOTD => 12,
            Protocol::SSH => 13,
            Protocol::Telnet => 14,
        }
    }

    /// The tag with a given numeric value, if there is one.
    pub open spec fn of_code(v: u8) -> Option<Protocol> {
        if v == 0 {
            Some(Protocol::Unknown)
        } else if v == 1 {
            Some(Protocol::BGP)
        } else if v == 2 {
            Some(Protocol::NTP)
        } else if v == 3 {
            Some(Protocol::DNS)
        } else if v == 4 {
            Some(Protocol::SNMP)
        } else if v == 5 {
            Some(Protocol::SSDP)
        } else if v == 6 {
            Some(Protocol::Memcached)
        } else if v == 7 {
            Some(Protocol::LDAP)
        } else if v == 8 {
            Some(Protocol::CLDAP)
        } else if v == 9 {
            Some(Protocol::MDNS)
        } else if v == 10 {
            Some(Protocol::WSDiscovery)
        } else if v == 11 {
            Some(Protocol::CharGen)
        } else if v == 12 {
            Some(Protocol::QOTD)
        } else if v == 13 {
            Some(Protocol::SSH)
        } else if v == 14 {
            Some(Protocol::Telnet)
        } else {
            None
        }
    }

    pub fn to_u8(self) -> (v: u8)
        ensures
            v == self.code(),
            v <= 14,
    {
        match self {
            Protocol::Unknown => 0,
            Protocol::BGP => 1,
            Protocol::NTP => 2,
            Protocol::DNS => 3,
            Protocol::SNMP => 4,
            Protocol::SSDP => 5,
            Protocol::Memcached => 6,
            Protocol::LDAP => 7,
            Protocol::CLDAP => 8,
            Protocol::MDNS => 9,
            Protocol::WSDiscovery => 10,
            Protocol::CharGen => 11,
            Protocol::QOTD => 12,
            Protocol::SSH => 13,
            Protocol::Telnet => 14,
        }
    }

    pub fn from_u8(v: u8) -> (tag: Option<Protocol>)
        ensures
            tag == Protocol::of_code(v),
            tag is Some <==> v <= 14,
            tag matches Some(p) ==> p.code() == v,
    {
        match v {
            0 => Some(Protocol::Unknown),
            1 => Some(Protocol::BGP),
            2 => Some(Protocol::NTP),
            3 => Some(Protocol::DNS),
            4 => Some(Protocol::SNMP),
            5 => Some(Protocol::SSDP),
            6 => Some(Protocol::Memcached),
            7 => Some(Protocol::LDAP),
            8 => Some(Protocol::CLDAP),
            9 => Some(Protocol::MDNS),
            10 => Some(Protocol::WSDiscovery),
            11 => Some(Protocol::CharGen),
            12 => Some(Protocol::QOTD),
            13 => Some(Protocol::SSH),
            14 => Some(Protocol::Telnet),
            _ => None,
        }
    }
}

/// Numeric values are stable: a tag survives the trip through its code.
pub proof fn lemma_protocol_code_roundtrip(p: Protocol)
    ensures
        Protocol::of_code(p.code()) == Some(p),
{
}

/// Size in bytes of an encoded packet event.
pub const PACKET_EVENT_SIZE: usize = 32;

/// One observed packet, as the data path reports it to userspace.
#[derive(Clone, Copy, Debug, PartialEq, Eq, Structural)]
pub struct PacketEvent {
    pub src_ip: u32,
    pub dst_ip: u32,
    pub src_port: u16,
    pub dst_port: u16,
    /// Transport protocol number of the IPv4 header.
    pub protocol: u8,
    /// Numeric value of the protocol tag.
    pub protocol_type: u8,
    pub packet_size: u32,
    pub flags: u32,
    pub timestamp: u64,
}

impl PacketEvent {
    /// The wire form of an event: the fields in declaration order, each
    /// little-endian and naturally aligned, with two zero bytes of padding
    /// after the two protocol bytes.
    pub open spec fn encoding(self) -> Seq<u8> {
        le32_bytes(self.src_ip) + le32_bytes(self.dst_ip) + le16_bytes(self.src_port) + le16_bytes(
            self.dst_port,
        ) + seq![self.protocol, self.protocol_type, 0u8, 0u8] + le32_bytes(self.packet_size)
            + le32_bytes(self.flags) + le64_bytes(self.timestamp)
    }

    /// The event that a wire form stands for. Padding is not looked at.
    pub open spec fn decoding(bytes: Seq<u8>) -> Option<PacketEvent> {
        if bytes.len() == PACKET_EVENT_SIZE {
            Some(
                PacketEvent {
                    src_ip: le32_at(bytes, 0),
                    dst_ip: le32_at(bytes, 4),
                    src_port: le16_at(bytes, 8),
                    dst_port: le16_at(bytes, 10),
                    protocol: bytes[12],
                    protocol_type: bytes[13],
                    packet_size: le32_at(bytes, 16),
                    flags: le32_at(bytes, 20),
                    timestamp: le64_at(bytes, 24),
                },
            )
        } else {
            None
        }
    }

    /// Serializes the event into its fixed 32-byte layout.
    pub fn to_bytes(&self) -> (bytes: Vec<u8>)
        ensures
            bytes@ == self.encoding(),
            bytes@.len() == PACKET_EVENT_SIZE,
    {
        let mut bytes: Vec<u8> = Vec::new();
        push_le32(&mut bytes, self.src_ip);
        push_le32(&mut bytes, self.dst_ip);
        push_le16(&mut bytes, self.src_port);
        push_le16(&mut bytes, self.dst_port);
        bytes.push(self.protocol);
        bytes.push(self.protocol_type);
        bytes.push(0);
        bytes.push(0);
        push_le32(&mut bytes, self.packet_size);
        push_le32(&mut bytes, self.flags);
        push_le64(&mut bytes, self.timestamp);
        assert(bytes@ =~= self.encoding());
        bytes
    }

    /// Reads an event back from its wire form; anything that is not exactly
    /// 32 bytes long is refused.
    pub fn from_bytes(bytes: &[u8]) -> (event: Option<PacketEvent>)
        ensures
            event == PacketEvent::decoding(bytes@),
            event is Some <==> bytes@.len() == PACKET_EVENT_SIZE,
    {
        if bytes.len() != PACKET_EVENT_SIZE {
            return None;
        }
        Some(
            PacketEvent {
                src_ip: read_le32(bytes, 0),
                dst_ip: read_le32(bytes, 4),
                src_port: read_le16(bytes, 8),
                dst_port: read_le16(bytes, 10),
                protocol: bytes[12],
                protocol_type: bytes[13],
                packet_size: read_le32(bytes, 16),
                flags: read_le32(bytes, 20),
                timestamp: read_le64(bytes, 24),
            },
        )
    }
}

proof fn lemma_le16_at(s: Seq<u8>, at: int, v: u16)
    requires
        0 <= at,
        at + 2 <= s.len(),
        s.subrange(at, at + 2) == le16_bytes(v),
    ensures
        le16_at(s, at) == v,
{
    let t = s.subrange(at, at + 2);
    assert(s[at] == t[0]);
    assert(s[at + 1] == t[1]);
}

proof fn lemma_le32_at(s: Seq<u8>, at: int, v: u32)
    requires
        0 <= at,
        at + 4 <= s.len(),
        s.subrange(at, at + 4) == le32_bytes(v),
    ensures
        le32_at(s, at) == v,
{
    let t = s.subrange(at, at + 4);
    assert(s[at] == t[0]);
    assert(s[at + 1] == t[1]);
    assert(s[at + 2] == t[2]);
    assert(s[at + 3] == t[3]);
}

proof fn lemma_le64_at(s: Seq<u8>, at: int, v: u64)
    requires
        0 <= at,
        at + 8 <= s.len(),
        s.subrange(at, at + 8) == le64_bytes(v),
    ensures
        le64_at(s, at) == v,
{
    let t = s.subrange(at, at + 8);
    assert(v == (v % 256) + (v / 0x100 % 256) * 0x100 + (v / 0x1_0000 % 256) * 0x1_0000 + (v
        / 0x100_0000 % 256) * 0x100_0000 + (v / 0x1_0000_0000 % 256) * 0x1_0000_0000 + (v
        / 0x100_0000_0000 % 256) * 0x100_0000_0000 + (v / 0x1_0000_0000_0000 % 256)
        * 0x1_0000_0000_0000 + (v / 0x100_0000_0000_0000) * 0x100_0000_0000_0000) by (bit_vector);
    assert(s[at] == t[0]);
    assert(s[at + 1] == t[1]);
    assert(s[at + 2] == t[2]);
    assert(s[at + 3] == t[3]);
    assert(s[at + 4] == t[4]);
    assert(s[at + 5] == t[5]);
    assert(s[at + 6] == t[6]);
    assert(s[at + 7] == t[7]);
}

/// An event that is serialized and read back has the same fields as before.
pub proof fn lemma_packet_event_roundtrip(e: PacketEvent)
    ensures
        e.encoding().len() == PACKET_EVENT_SIZE,
        PacketEvent::decoding(e.encoding()) == Some(e),
{
    let b = e.encoding();
    let mid = seq![e.protocol, e.protocol_type, 0u8, 0u8];
    assert(b.len() == 32);
    assert(b.subrange(0, 4) =~= le32_bytes(e.src_ip));
    assert(b.subrange(4, 8) =~= le32_bytes(e.dst_ip));
    assert(b.subrange(8, 10) =~= le16_bytes(e.src_port));
    assert(b.subrange(10, 12) =~= le16_bytes(e.dst_port));
    assert(b.subrange(12, 16) =~= mid);
    assert(b.subrange(16, 20) =~= le32_bytes(e.packet_size));
    assert(b.subrange(20, 24) =~= le32_bytes(e.flags));
    assert(b.subrange(24, 32) =~= le64_bytes(e.timestamp));
    lemma_le32_at(b, 0, e.src_ip);
    lemma_le32_at(b, 4, e.dst_ip);
    lemma_le16_at(b, 8, e.src_port);
    lemma_le16_at(b, 10, e.dst_port);
    assert(b[12] == b.subrange(12, 16)[0]);
    assert(b[13] == b.subrange(12, 16)[1]);
    lemma_le32_at(b, 16, e.packet_size);
    lemma_le32_at(b, 20, e.flags);
    lemma_le64_at(b, 24, e.timestamp);
}

/// Kind of an attack pattern: a scan.
pub const PATTERN_SCAN: u8 = 0;

/// Kind of an attack pattern: amplification.
pub const PATTERN_AMPLIFICATION: u8 = 1;

/// Kind of an attack pattern: an exploit attempt.
pub const PATTERN_EXPLOIT: u8 = 2;

/// Kind of an attack pattern: botnet activity.
pub const PATTERN_BOTNET: u8 = 3;

/// An attack pattern that was detected.
#[derive(Clone, Copy, Debug, PartialEq, Eq, Structural)]
pub struct AttackPattern {
    /// 0 = scan, 1 = amplification, 2 = exploit, 3 = botnet.
    pub pattern_type: u8,
    /// 0 to 10.
    pub severity: u8,
    /// 0 to 100.
    pub confidence: u8,
}

impl AttackPattern {
    /// All three fields lie in their documented ranges.
    pub open spec fn in_range(self) -> bool {
        self.pattern_type <= PATTERN_BOTNET && self.severity <= 10 && self.confidence <= 100
    }

    /// Whether all three fields lie in their documented ranges.
    pub fn is_valid(&self) -> (ok: bool)
        ensures
            ok == self.in_range(),
    {
        self.pattern_type <= PATTERN_BOTNET && self.severity <= 10 && self.confidence <= 100
    }
}

/// An entry of the block map: a source address and when its block ends.
#[derive(Clone, Copy, Debug, PartialEq, Eq, Structural)]
pub struct BlockedIp {
    pub ip_addr: u32,
    /// Unix timestamp, in seconds, at which the block expires.
    pub expiry: u64,
    /// Reason code.
    pub reason: u8,
}

impl BlockedIp {
    /// The block is still in force at time `now`.
    pub open spec fn active_at(self, now: u64) -> bool {
        now < self.expiry
    }

    /// Whether the block is still in force at time `now`.
    pub fn is_active(&self, now: u64) -> (active: bool)
        ensures
            active == self.active_at(now),
    {
        now < self.expiry
    }
}

/// An IPv4 or IPv6 address as a plain number, most significant byte first.
#[derive(Clone, Copy, Debug, PartialEq, Eq, Structural)]
pub enum IpAddress {
    V4(u32),
    V6(u128),
}

/// A non-negative rational number `num / den`, used for amplification
/// factors and their thresholds. A zero denominator stands for infinity
/// (or, with a zero numerator, for no value at all).
#[derive(Clone, Copy, Debug, PartialEq, Eq, Structural)]
pub struct Ratio {
    pub num: u64,
    pub den: u64,
}

impl Ratio {
    /// `self` is strictly greater than `other`, by cross-multiplication.
    /// With a zero denominator on the left the ratio is greater than every
    /// finite one, unless its numerator is zero too.
    pub open spec fn gt(self, other: Ratio) -> bool {
        self.num * other.den > other.num * self.den
    }

    /// Whether `self` is strictly greater than `other`.
    pub fn exceeds(&self, other: &Ratio) -> (r: bool)
        ensures
            r == self.gt(*other),
    {
        assert(self.num * other.den <= u64::MAX * u64::MAX) by (nonlinear_arith)
            requires
                self.num <= u64::MAX,
                other.den <= u64::MAX,
        ;
        assert(other.num * self.den <= u64::MAX * u64::MAX) by (nonlinear_arith)
            requires
                other.num <= u64::MAX,
                self.den <= u64::MAX,
        ;
        (self.num as u128) * (other.den as u128) > (other.num as u128) * (self.den as u128)
    }
}

} // verus!
