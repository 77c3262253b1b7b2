use routertrap::block_map::BlockMap;
use routertrap::common::{BlockedIp, IpAddress, PacketEvent, Ratio};
use routertrap::config::Config;
use routertrap::detection::{contains_exploit, DetectionEngine, Mitigation};
use routertrap::ebpf_manager::EbpfManager;
use routertrap::protocols::amplification::AmplificationDetector;
use routertrap::protocols::AttackKind;

fn event(src: u32) -> PacketEvent {
    PacketEvent {
        src_ip: src,
        dst_ip: 1,
        src_port: 2,
        dst_port: 22,
        protocol: 6,
        protocol_type: 13,
        packet_size: 60,
        flags: 0,
        timestamp: 0,
    }
}

#[test]
fn controller_blocks_on_exploit_request() {
    let engine = DetectionEngine::new(&Config::default_config());
    let mut blocked = BlockMap::new(8);
    let m = engine.on_observation(
        IpAddress::V4(5),
        &vec![AttackKind::MemcachedAmplification],
        false,
        1000,
        &mut blocked,
    );
    assert_eq!(m, Mitigation::Blocked { entry: BlockedIp { ip_addr: 5, expiry: 4600, reason: 2 } });
    assert_eq!(blocked.lookup(5), Some(BlockedIp { ip_addr: 5, expiry: 4600, reason: 2 }));
}

#[test]
fn controller_blocks_on_likely_amplification() {
    let engine = DetectionEngine::new(&Config::default_config());
    let mut blocked = BlockMap::new(8);
    let attacks = vec![AttackKind::DnsAmplification, AttackKind::DnsAnyQuery];
    assert_eq!(
        engine.on_observation(IpAddress::V4(5), &attacks, false, 1000, &mut blocked),
        Mitigation::NoAction
    );
    assert_eq!(blocked.len(), 0);
    assert_eq!(
        engine.on_observation(IpAddress::V4(5), &attacks, true, 1000, &mut blocked),
        Mitigation::Blocked { entry: BlockedIp { ip_addr: 5, expiry: 4600, reason: 1 } }
    );
    assert_eq!(
        engine.on_observation(IpAddress::V4(6), &vec![], true, 1000, &mut blocked),
        Mitigation::Blocked { entry: BlockedIp { ip_addr: 6, expiry: 4600, reason: 1 } }
    );
}

#[test]
fn controller_does_nothing_when_blocking_is_off() {
    let mut config = Config::default_config();
    config.detection.auto_block = false;
    let engine = DetectionEngine::new(&config);
    let mut blocked = BlockMap::new(8);
    let attacks = vec![AttackKind::NtpMonlist];
    assert_eq!(
        engine.on_observation(IpAddress::V4(5), &attacks, true, 0, &mut blocked),
        Mitigation::NoAction
    );
    config.detection.auto_block = true;
    config.detection.enabled = false;
    let engine = DetectionEngine::new(&config);
    assert_eq!(
        engine.on_observation(IpAddress::V4(5), &attacks, true, 0, &mut blocked),
        Mitigation::NoAction
    );
    assert_eq!(blocked.len(), 0);
}

#[test]
fn controller_fails_open_when_the_map_is_full() {
    let engine = DetectionEngine::new(&Config::default_config());
    let mut blocked = BlockMap::new(1);
    let attacks = vec![AttackKind::NtpMonlist];
    assert!(matches!(
        engine.on_observation(IpAddress::V4(1), &attacks, false, 10, &mut blocked),
        Mitigation::Blocked { .. }
    ));
    assert_eq!(
        engine.on_observation(IpAddress::V4(2), &attacks, false, 20, &mut blocked),
        Mitigation::Refused
    );
    assert_eq!(blocked.len(), 1);
    assert_eq!(blocked.lookup(1), Some(BlockedIp { ip_addr: 1, expiry: 3610, reason: 2 }));
    assert_eq!(blocked.lookup(2), None);
    // the source that is in the map is still extended
    assert_eq!(
        engine.on_observation(IpAddress::V4(1), &attacks, false, 20, &mut blocked),
        Mitigation::Blocked { entry: BlockedIp { ip_addr: 1, expiry: 3620, reason: 2 } }
    );
}

#[test]
fn controller_never_shortens_a_block() {
    let engine = DetectionEngine::new(&Config::default_config());
    let mut blocked = BlockMap::new(4);
    assert_eq!(blocked.block(1, 1_000_000, 0), Ok(()));
    let m = engine.on_observation(IpAddress::V4(1), &vec![AttackKind::NtpMonlist], false, 10, &mut blocked);
    assert_eq!(m, Mitigation::Blocked { entry: BlockedIp { ip_addr: 1, expiry: 1_000_000, reason: 2 } });
}

#[test]
fn controller_ignores_ipv6_sources() {
    let engine = DetectionEngine::new(&Config::default_config());
    let mut blocked = BlockMap::new(4);
    assert_eq!(
        engine.on_observation(IpAddress::V6(5), &vec![AttackKind::NtpMonlist], true, 0, &mut blocked),
        Mitigation::NoAction
    );
    assert_eq!(blocked.len(), 0);
}

#[test]
fn controller_expiry_stops_at_the_largest_time() {
    let mut config = Config::default_config();
    config.detection.block_duration = u64::MAX;
    let engine = DetectionEngine::new(&config);
    let mut blocked = BlockMap::new(4);
    engine.on_observation(IpAddress::V4(1), &vec![AttackKind::NtpMonlist], false, 10, &mut blocked);
    assert_eq!(blocked.lookup(1).unwrap().expiry, u64::MAX);
}

#[test]
fn controller_blocks_scanners_above_the_threshold() {
    let mut config = Config::default_config();
    config.detection.scan_threshold = 3;
    let mut engine = DetectionEngine::new(&config);
    let mut blocked = BlockMap::new(4);
    for n in 1..=3 {
        assert_eq!(engine.on_packet_event(&event(9), 50, &mut blocked), Mitigation::NoAction);
        assert_eq!(engine.scan_count(9), n);
    }
    assert_eq!(engine.on_packet_event(&event(8), 50, &mut blocked), Mitigation::NoAction);
    assert_eq!(
        engine.on_packet_event(&event(9), 50, &mut blocked),
        Mitigation::Blocked { entry: BlockedIp { ip_addr: 9, expiry: 3650, reason: 0 } }
    );
    assert_eq!(engine.scan_count(9), 4);
    assert_eq!(engine.scan_count(8), 1);
    assert_eq!(engine.scan_count(7), 0);
    assert!(!blocked.contains(8));
}

#[test]
fn controller_sweep_removes_expired_blocks() {
    let engine = DetectionEngine::new(&Config::default_config());
    let mut blocked = BlockMap::new(4);
    engine.on_observation(IpAddress::V4(1), &vec![AttackKind::NtpMonlist], false, 0, &mut blocked);
    engine.on_observation(IpAddress::V4(2), &vec![AttackKind::NtpMonlist], false, 100, &mut blocked);
    assert_eq!(engine.sweep(3599, &mut blocked), 0);
    assert_eq!(engine.sweep(3600, &mut blocked), 1);
    assert!(!blocked.contains(1));
    assert!(blocked.contains(2));
    assert_eq!(engine.sweep(3700, &mut blocked), 1);
    assert_eq!(blocked.len(), 0);
}

#[test]
fn exploit_requests_are_told_apart() {
    assert!(!contains_exploit(&vec![]));
    assert!(!contains_exploit(&vec![
        AttackKind::DnsAmplification,
        AttackKind::DnsAnyQuery,
        AttackKind::SnmpAmplification,
        AttackKind::SnmpGetBulk,
        AttackKind::SsdpMsearch,
    ]));
    assert!(contains_exploit(&vec![AttackKind::DnsAnyQuery, AttackKind::NtpMonlist]));
    assert!(contains_exploit(&vec![AttackKind::MemcachedAmplification]));
    assert_eq!(AttackKind::NtpMonlist.name(), "ntp_monlist");
    assert_eq!(AttackKind::DnsAmplification.name(), "dns_amplification");
    assert_eq!(AttackKind::DnsAnyQuery.name(), "dns_any_query");
    assert_eq!(AttackKind::SnmpAmplification.name(), "snmp_amplification");
    assert_eq!(AttackKind::SnmpGetBulk.name(), "snmp_getbulk");
    assert_eq!(AttackKind::MemcachedAmplification.name(), "memcached_amplification");
    assert_eq!(AttackKind::SsdpMsearch.name(), "ssdp_msearch");
}

#[test]
fn data_path_handle_blocks_and_classifies() {
    let mut manager = EbpfManager::new("eth0");
    let mut frame = vec![0u8; 12];
    frame.extend_from_slice(&[0x08, 0x00]);
    frame.extend_from_slice(&[0x45, 0, 0, 0, 0, 0, 0, 0, 64, 17, 0, 0, 1, 2, 3, 4, 9, 9, 9, 9]);
    frame.extend_from_slice(&[0x9C, 0x40, 0, 53, 0, 0, 0, 0]);
    assert_eq!(manager.process(frame.as_slice()), 2);
    let e = manager.poll_event().unwrap();
    assert_eq!(e.src_ip, 0x0102_0304);
    assert_eq!(e.protocol_type, 3);
    assert_eq!(manager.poll_event(), None);

    assert_eq!(manager.block_ip(0x0102_0304, 1000, 3600, 1), Ok(()));
    assert_eq!(manager.process(frame.as_slice()), 1);
    assert_eq!(manager.poll_event(), None);
    assert_eq!(manager.maps().stats.get(0), 1);
    assert_eq!(
        manager.maps().blocked.lookup(0x0102_0304),
        Some(BlockedIp { ip_addr: 0x0102_0304, expiry: 4600, reason: 1 })
    );
    assert!(manager.unblock_ip(0x0102_0304));
    assert!(!manager.unblock_ip(0x0102_0304));
    assert_eq!(manager.process(frame.as_slice()), 2);

    assert_eq!(manager.block_ip(0x0102_0304, 1000, 3600, 1), Ok(()));
    manager.shutdown();
    assert_eq!(manager.process(frame.as_slice()), 2);
}

#[test]
fn mitigation_loop_records_and_blocks() {
    let engine = DetectionEngine::new(&Config::default_config());
    let mut profiler = AmplificationDetector::new(Ratio { num: 2, den: 1 });
    let mut blocked = BlockMap::new(4);
    let src = IpAddress::V4(0x0A00_0001);
    let attacks = vec![AttackKind::SnmpAmplification, AttackKind::SnmpGetBulk];
    for n in 1..=5u64 {
        let m = engine.on_response(&mut profiler, src, "snmp", &attacks, 40, 976, 500 + n, &mut blocked);
        assert_eq!(m, Mitigation::NoAction);
        let p = profiler.get_profile(&src).unwrap();
        assert_eq!(p.request_count, n);
        assert_eq!(p.last_seen, 500 + n as i64);
        assert_eq!(p.total_response_bytes, 976 * n);
    }
    assert_eq!(blocked.len(), 0);
    let m = engine.on_response(&mut profiler, src, "snmp", &attacks, 40, 976, 506, &mut blocked);
    assert_eq!(
        m,
        Mitigation::Blocked { entry: BlockedIp { ip_addr: 0x0A00_0001, expiry: 4106, reason: 1 } }
    );
    // a small response does not amplify, however often the source asks
    let m = engine.on_response(&mut profiler, IpAddress::V4(2), "snmp", &attacks, 40, 45, 506, &mut blocked);
    assert_eq!(m, Mitigation::NoAction);
    // times beyond what the profiler holds stop at its largest time
    engine.on_response(&mut profiler, IpAddress::V4(3), "x", &vec![], 1, 1, u64::MAX, &mut blocked);
    assert_eq!(profiler.get_profile(&IpAddress::V4(3)).unwrap().last_seen, i64::MAX);
}
