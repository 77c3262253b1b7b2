use routertrap::common::{
    AttackPattern, BlockedIp, IpAddress, PacketEvent, Protocol, Ratio, PACKET_EVENT_SIZE,
};

fn sample_event() -> PacketEvent {
    PacketEvent {
        src_ip: 0x0102_0304,
        dst_ip: 0xC0A8_0101,
        src_port: 40000,
        dst_port: 53,
        protocol: 17,
        protocol_type: 3,
        packet_size: 71,
        flags: 0xDEAD_BEEF,
        timestamp: 0x0102_0304_0506_0708,
    }
}

#[test]
fn protocol_codes_are_stable() {
    assert_eq!(Protocol::Unknown.to_u8(), 0);
    assert_eq!(Protocol::BGP.to_u8(), 1);
    assert_eq!(Protocol::NTP.to_u8(), 2);
    assert_eq!(Protocol::DNS.to_u8(), 3);
    assert_eq!(Protocol::SNMP.to_u8(), 4);
    assert_eq!(Protocol::SSDP.to_u8(), 5);
    assert_eq!(Protocol::Memcached.to_u8(), 6);
    assert_eq!(Protocol::LDAP.to_u8(), 7);
    assert_eq!(Protocol::CLDAP.to_u8(), 8);
    assert_eq!(Protocol::MDNS.to_u8(), 9);
    assert_eq!(Protocol::WSDiscovery.to_u8(), 10);
    assert_eq!(Protocol::CharGen.to_u8(), 11);
    assert_eq!(Protocol::QOTD.to_u8(), 12);
    assert_eq!(Protocol::SSH.to_u8(), 13);
    assert_eq!(Protocol::Telnet.to_u8(), 14);
}

#[test]
fn protocol_code_roundtrip() {
    for v in 0u8..=14 {
        let tag = Protocol::from_u8(v).unwrap();
        assert_eq!(tag.to_u8(), v);
    }
    assert_eq!(Protocol::from_u8(15), None);
    assert_eq!(Protocol::from_u8(255), None);
}

#[test]
fn packet_event_layout_is_exact() {
    let bytes = sample_event().to_bytes();
    assert_eq!(bytes.len(), PACKET_EVENT_SIZE);
    assert_eq!(
        bytes,
        vec![
            0x04, 0x03, 0x02, 0x01, // src_ip
            0x01, 0x01, 0xA8, 0xC0, // dst_ip
            0x40, 0x9C, // src_port 40000
            53, 0, // dst_port
            17, 3, 0, 0, // protocol, tag, padding
            71, 0, 0, 0, // packet_size
            0xEF, 0xBE, 0xAD, 0xDE, // flags
            0x08, 0x07, 0x06, 0x05, 0x04, 0x03, 0x02, 0x01, // timestamp
        ]
    );
}

#[test]
fn packet_event_roundtrip() {
    let e = sample_event();
    assert_eq!(PacketEvent::from_bytes(e.to_bytes().as_slice()), Some(e));
    let zero = PacketEvent {
        src_ip: 0,
        dst_ip: 0,
        src_port: 0,
        dst_port: 0,
        protocol: 0,
        protocol_type: 0,
        packet_size: 0,
        flags: 0,
        timestamp: 0,
    };
    assert_eq!(PacketEvent::from_bytes(zero.to_bytes().as_slice()), Some(zero));
    let max = PacketEvent {
        src_ip: u32::MAX,
        dst_ip: u32::MAX,
        src_port: u16::MAX,
        dst_port: u16::MAX,
        protocol: u8::MAX,
        protocol_type: u8::MAX,
        packet_size: u32::MAX,
        flags: u32::MAX,
        timestamp: u64::MAX,
    };
    assert_eq!(PacketEvent::from_bytes(max.to_bytes().as_slice()), Some(max));
}

#[test]
fn packet_event_of_wrong_size_is_refused() {
    let bytes = sample_event().to_bytes();
    assert_eq!(PacketEvent::from_bytes(&bytes[..31]), None);
    let mut longer = bytes.clone();
    longer.push(0);
    assert_eq!(PacketEvent::from_bytes(longer.as_slice()), None);
    assert_eq!(PacketEvent::from_bytes(&[]), None);
}

#[test]
fn packet_event_padding_is_ignored() {
    let e = sample_event();
    let mut bytes = e.to_bytes();
    bytes[14] = 0xAA;
    bytes[15] = 0xBB;
    assert_eq!(PacketEvent::from_bytes(bytes.as_slice()), Some(e));
}

#[test]
fn attack_pattern_ranges() {
    assert!(AttackPattern { pattern_type: 3, severity: 10, confidence: 100 }.is_valid());
    assert!(!AttackPattern { pattern_type: 4, severity: 0, confidence: 0 }.is_valid());
    assert!(!AttackPattern { pattern_type: 0, severity: 11, confidence: 0 }.is_valid());
    assert!(!AttackPattern { pattern_type: 0, severity: 0, confidence: 101 }.is_valid());
}

#[test]
fn blocked_ip_is_active_before_expiry() {
    let b = BlockedIp { ip_addr: 1, expiry: 100, reason: 2 };
    assert!(b.is_active(99));
    assert!(!b.is_active(100));
    assert!(!b.is_active(101));
}

#[test]
fn ratio_comparison_by_cross_multiplication() {
    let two = Ratio { num: 2, den: 1 };
    assert!(Ratio { num: 442, den: 8 }.exceeds(&two));
    assert!(!Ratio { num: 16, den: 8 }.exceeds(&two));
    assert!(Ratio { num: 17, den: 8 }.exceeds(&two));
    assert!(Ratio { num: 1, den: 0 }.exceeds(&two));
    assert!(!Ratio { num: 0, den: 0 }.exceeds(&two));
    assert!(Ratio { num: u64::MAX, den: 1 }.exceeds(&Ratio { num: u64::MAX - 1, den: 1 }));
}

#[test]
fn ip_addresses_compare_by_value() {
    assert_eq!(IpAddress::V4(0x0102_0304), IpAddress::V4(0x0102_0304));
    assert_ne!(IpAddress::V4(1), IpAddress::V6(1));
}
