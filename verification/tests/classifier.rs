use routertrap::classifier::{
    classify, detect_protocol, frame_packet_event, frame_source_ip, ptr_at, routertrap,
    try_routertrap, Classification, DataPath, XDP_ABORTED, XDP_DROP, XDP_PASS,
};
use routertrap::common::PacketEvent;
use routertrap::stats::{STAT_BLOCKED_PACKETS, STAT_PROTOCOL_BASE};

const TCP: u8 = 6;
const UDP: u8 = 17;

fn frame(ether_type: u16, l4: u8, src: [u8; 4], dst: [u8; 4], sport: u16, dport: u16) -> Vec<u8> {
    let mut f = vec![0u8; 12];
    f.extend_from_slice(&ether_type.to_be_bytes());
    let mut ip = vec![0x45u8, 0, 0, 0, 0, 0, 0, 0, 64, l4, 0, 0];
    ip.extend_from_slice(&src);
    ip.extend_from_slice(&dst);
    f.extend_from_slice(&ip);
    f.extend_from_slice(&sport.to_be_bytes());
    f.extend_from_slice(&dport.to_be_bytes());
    let rest = if l4 == TCP { 16 } else { 4 };
    f.extend_from_slice(&vec![0u8; rest]);
    f
}

fn udp_frame(src: [u8; 4], dport: u16) -> Vec<u8> {
    frame(0x0800, UDP, src, [192, 168, 1, 1], 40000, dport)
}

fn maps() -> DataPath {
    DataPath::new(16, 4)
}

#[test]
fn detect_protocol_follows_the_tag_table() {
    assert_eq!(detect_protocol(22, TCP), 13);
    assert_eq!(detect_protocol(23, TCP), 14);
    assert_eq!(detect_protocol(179, TCP), 1);
    assert_eq!(detect_protocol(17, UDP), 12);
    assert_eq!(detect_protocol(19, UDP), 11);
    assert_eq!(detect_protocol(53, UDP), 3);
    assert_eq!(detect_protocol(123, UDP), 2);
    assert_eq!(detect_protocol(161, UDP), 4);
    assert_eq!(detect_protocol(389, UDP), 7);
    assert_eq!(detect_protocol(1900, UDP), 5);
    assert_eq!(detect_protocol(3268, UDP), 7);
    assert_eq!(detect_protocol(3702, UDP), 10);
    assert_eq!(detect_protocol(5353, UDP), 9);
    assert_eq!(detect_protocol(11211, UDP), 6);
}

#[test]
fn detect_protocol_depends_on_the_transport() {
    assert_eq!(detect_protocol(53, TCP), 0);
    assert_eq!(detect_protocol(179, UDP), 0);
    assert_eq!(detect_protocol(22, UDP), 0);
    assert_eq!(detect_protocol(53, 1), 0);
}

#[test]
fn detect_protocol_unknown_for_ports_outside_the_table() {
    for port in [0u16, 1, 80, 443, 8080, 65535] {
        assert_eq!(detect_protocol(port, TCP), 0);
        assert_eq!(detect_protocol(port, UDP), 0);
    }
}

#[test]
fn xdp_action_codes() {
    assert_eq!(XDP_ABORTED, 0);
    assert_eq!(XDP_DROP, 1);
    assert_eq!(XDP_PASS, 2);
}

#[test]
fn ptr_at_checks_bounds() {
    let f = vec![0u8; 34];
    assert_eq!(ptr_at(f.as_slice(), 0, 14), Ok(0));
    assert_eq!(ptr_at(f.as_slice(), 14, 20), Ok(14));
    assert_eq!(ptr_at(f.as_slice(), 14, 21), Err(()));
    assert_eq!(ptr_at(f.as_slice(), 35, 0), Err(()));
    assert_eq!(ptr_at(f.as_slice(), usize::MAX, 2), Err(()));
}

#[test]
fn short_ethernet_frame_passes() {
    let mut m = maps();
    for len in 0..14 {
        let f = vec![0xFFu8; len];
        assert_eq!(routertrap(f.as_slice(), &mut m), XDP_PASS);
        assert_eq!(try_routertrap(f.as_slice(), &mut m), Err(()));
    }
    assert_eq!(m.events.len(), 0);
    assert_eq!(m.stats.get(STAT_BLOCKED_PACKETS), 0);
}

#[test]
fn non_ipv4_frame_passes() {
    let mut m = maps();
    let f = frame(0x86DD, UDP, [1, 2, 3, 4], [5, 6, 7, 8], 1, 53);
    assert_eq!(try_routertrap(f.as_slice(), &mut m), Ok(XDP_PASS));
    assert_eq!(m.events.len(), 0);
}

#[test]
fn truncated_ip_header_passes() {
    let mut m = maps();
    let f = udp_frame([1, 2, 3, 4], 53);
    assert_eq!(routertrap(&f[..33], &mut m), XDP_PASS);
    assert_eq!(try_routertrap(&f[..33], &mut m), Err(()));
    assert_eq!(frame_source_ip(&f[..33]), None);
    assert_eq!(m.events.len(), 0);
}

#[test]
fn truncated_port_prefix_passes() {
    let mut m = maps();
    let u = udp_frame([1, 2, 3, 4], 53);
    let t = frame(0x0800, TCP, [1, 2, 3, 4], [5, 6, 7, 8], 1, 22);
    for len in 34..38 {
        assert_eq!(routertrap(&u[..len], &mut m), XDP_PASS);
        assert_eq!(try_routertrap(&u[..len], &mut m), Err(()));
        assert_eq!(try_routertrap(&t[..len], &mut m), Err(()));
        assert_eq!(frame_packet_event(&u[..len]), None);
    }
    assert_eq!(m.events.len(), 0);
    assert_eq!(m.stats.get(STAT_PROTOCOL_BASE + 3), 0);
    assert_eq!(m.stats.get(STAT_PROTOCOL_BASE + 13), 0);
}

#[test]
fn port_prefix_is_all_that_is_read_of_the_transport_header() {
    let mut m = DataPath::new(16, 64);
    let u = udp_frame([1, 2, 3, 4], 53);
    assert_eq!(u.len(), 42);
    for (n, len) in (38..=42).enumerate() {
        assert_eq!(try_routertrap(&u[..len], &mut m), Ok(XDP_PASS));
        assert_eq!(m.stats.get(STAT_PROTOCOL_BASE + 3), n as u64 + 1);
        let e = m.events.poll().unwrap();
        assert_eq!(e.src_ip, 0x0102_0304);
        assert_eq!(e.dst_port, 53);
        assert_eq!(e.protocol_type, 3);
        assert_eq!(e.packet_size, len as u32);
    }
    let t = frame(0x0800, TCP, [1, 2, 3, 4], [5, 6, 7, 8], 1, 22);
    assert_eq!(t.len(), 54);
    for (n, len) in [38usize, 40, 53, 54].iter().enumerate() {
        assert_eq!(routertrap(&t[..*len], &mut m), XDP_PASS);
        assert_eq!(m.stats.get(STAT_PROTOCOL_BASE + 13), n as u64 + 1);
        let e = m.events.poll().unwrap();
        assert_eq!(e.src_port, 1);
        assert_eq!(e.protocol_type, 13);
        assert_eq!(e.packet_size, *len as u32);
    }
    assert_eq!(m.events.poll(), None);
}

#[test]
fn decision_for_a_frame() {
    let u = udp_frame([1, 2, 3, 4], 123);
    let pass = classify(u.as_slice(), false);
    assert_eq!(pass.action, XDP_PASS);
    assert_eq!(pass.event, frame_packet_event(u.as_slice()));
    assert!(pass.event.is_some());
    assert_eq!(pass.counter, Some(STAT_PROTOCOL_BASE + 2));
    assert_eq!(
        classify(u.as_slice(), true),
        Classification { action: XDP_DROP, event: None, counter: Some(STAT_BLOCKED_PACKETS) }
    );
    // the ports of a frame from a blocked source are never read
    assert_eq!(classify(&u[..34], true).action, XDP_DROP);
    // without an IPv4 source there is nothing to block
    let quiet = Classification { action: XDP_PASS, event: None, counter: None };
    assert_eq!(classify(&u[..33], true), quiet);
    assert_eq!(classify(&[], true), quiet);
    let other = udp_frame([1, 2, 3, 4], 8080);
    assert_eq!(classify(other.as_slice(), false), quiet);
}

#[test]
fn interesting_packet_is_reported_and_counted() {
    let mut m = maps();
    let f = udp_frame([10, 0, 0, 7], 53);
    assert_eq!(routertrap(f.as_slice(), &mut m), XDP_PASS);
    assert_eq!(m.stats.get(STAT_PROTOCOL_BASE + 3), 1);
    assert_eq!(m.stats.get(STAT_BLOCKED_PACKETS), 0);
    assert_eq!(
        m.events.poll(),
        Some(PacketEvent {
            src_ip: 0x0A00_0007,
            dst_ip: 0xC0A8_0101,
            src_port: 40000,
            dst_port: 53,
            protocol: UDP,
            protocol_type: 3,
            packet_size: 42,
            flags: 0,
            timestamp: 0,
        })
    );
    assert_eq!(m.events.poll(), None);
}

#[test]
fn frame_helpers_read_the_headers() {
    let f = frame(0x0800, TCP, [1, 2, 3, 4], [9, 8, 7, 6], 1234, 179);
    assert_eq!(frame_source_ip(f.as_slice()), Some(0x0102_0304));
    let e = frame_packet_event(f.as_slice()).unwrap();
    assert_eq!(e.dst_ip, 0x0908_0706);
    assert_eq!(e.src_port, 1234);
    assert_eq!(e.dst_port, 179);
    assert_eq!(e.protocol_type, 1);
    assert_eq!(e.packet_size, 54);
}

#[test]
fn port_outside_the_table_passes_without_event() {
    let mut m = maps();
    for l4 in [TCP, UDP, 1u8, 47] {
        let f = frame(0x0800, l4, [10, 0, 0, 7], [10, 0, 0, 1], 40000, 8080);
        assert_eq!(routertrap(f.as_slice(), &mut m), XDP_PASS);
        assert_eq!(frame_packet_event(f.as_slice()), None);
    }
    assert_eq!(m.events.len(), 0);
    for tag in 0..=14u32 {
        assert_eq!(m.stats.get(STAT_PROTOCOL_BASE + tag), 0);
    }
}

#[test]
fn blocked_source_is_dropped() {
    let now = 1_700_000_000u64;
    let mut m = maps();
    assert_eq!(m.blocked.block(0x0102_0304, now + 3600, 1), Ok(()));
    let f = udp_frame([1, 2, 3, 4], 53);
    assert_eq!(routertrap(f.as_slice(), &mut m), XDP_DROP);
    assert_eq!(m.stats.get(STAT_BLOCKED_PACKETS), 1);
    assert_eq!(m.stats.get(STAT_PROTOCOL_BASE + 3), 0);
    assert_eq!(m.events.len(), 0);
    assert!(m.blocked.is_blocked(0x0102_0304, now));
}

#[test]
fn blocked_source_is_dropped_whatever_it_sends() {
    let mut m = maps();
    assert_eq!(m.blocked.block(0x0102_0304, 10, 0), Ok(()));
    let f = udp_frame([1, 2, 3, 4], 8080);
    assert_eq!(try_routertrap(f.as_slice(), &mut m), Ok(XDP_DROP));
    assert_eq!(try_routertrap(&f[..34], &mut m), Ok(XDP_DROP));
    assert_eq!(m.stats.get(STAT_BLOCKED_PACKETS), 2);
    let other = udp_frame([1, 2, 3, 5], 53);
    assert_eq!(routertrap(other.as_slice(), &mut m), XDP_PASS);
}

#[test]
fn full_event_channel_loses_events_but_counts_packets() {
    let mut m = DataPath::new(16, 2);
    let f = udp_frame([10, 0, 0, 7], 123);
    for _ in 0..5 {
        assert_eq!(routertrap(f.as_slice(), &mut m), XDP_PASS);
    }
    assert_eq!(m.events.len(), 2);
    assert_eq!(m.events.lost_events(), 3);
    assert_eq!(m.stats.get(STAT_PROTOCOL_BASE + 2), 5);
}
