use routertrap::common::{IpAddress, Ratio};
use routertrap::protocols::amplification::{AmplificationDetector, AmplificationMetrics};

fn detector() -> AmplificationDetector {
    AmplificationDetector::new(Ratio { num: 2, den: 1 })
}

#[test]
fn profiler_creates_a_profile_on_first_observation() {
    let mut d = detector();
    let ip = IpAddress::V4(1);
    assert!(d.get_profile(&ip).is_none());
    assert!(!d.record_at(ip, "dns", 30, 300, 1000));
    let p = d.get_profile(&ip).unwrap();
    assert_eq!(p.ip, ip);
    assert_eq!(p.first_seen, 1000);
    assert_eq!(p.last_seen, 1000);
    assert_eq!(p.request_count, 1);
    assert_eq!(p.total_request_bytes, 30);
    assert_eq!(p.total_response_bytes, 300);
    assert_eq!(p.protocol_count("dns"), 1);
    assert_eq!(p.protocol_count("ntp"), 0);
    assert_eq!(p.avg_amplification_factor, Ratio { num: 300, den: 30 });
    assert_eq!(d.len(), 1);
}

#[test]
fn profiler_average_is_total_response_over_total_request() {
    let mut d = detector();
    let ip = IpAddress::V6(0x2001_0db8_0000_0000_0000_0000_0000_0001);
    let observations = [(8usize, 442usize), (29, 552), (15, 14593), (100, 0), (0, 48), (1, 1)];
    let mut req = 0u64;
    let mut resp = 0u64;
    for (i, (a, b)) in observations.iter().enumerate() {
        d.record_at(ip, "mixed", *a, *b, 10 + i as i64);
        req += *a as u64;
        resp += *b as u64;
        let p = d.get_profile(&ip).unwrap();
        assert_eq!(p.total_request_bytes, req);
        assert_eq!(p.total_response_bytes, resp);
        assert_eq!(p.avg_amplification_factor, Ratio { num: resp, den: req });
        assert_eq!(p.request_count, i as u64 + 1);
        assert_eq!(p.first_seen, 10);
        assert_eq!(p.last_seen, 10 + i as i64);
    }
}

#[test]
fn profiler_attack_rule_needs_ratio_and_more_than_five_requests() {
    let mut d = detector();
    let ip = IpAddress::V4(9);
    for _ in 0..5 {
        assert!(!d.record_at(ip, "ntp", 8, 442, 0));
    }
    // the sixth request: above the ratio
    assert!(d.record_at(ip, "ntp", 8, 442, 0));
    // exactly at the ratio is not above it
    assert!(!d.record_at(ip, "ntp", 8, 16, 0));
    assert!(d.record_at(ip, "ntp", 8, 17, 0));
    // another source starts from zero
    assert!(!d.record_at(IpAddress::V4(10), "ntp", 8, 442, 0));
}

#[test]
fn profiler_empty_request_counts_as_infinite_amplification() {
    let mut d = detector();
    let ip = IpAddress::V4(9);
    for _ in 0..5 {
        d.record_at(ip, "x", 1, 1, 0);
    }
    assert!(d.record_at(ip, "x", 0, 1, 0));
    assert!(!d.record_at(ip, "x", 0, 0, 0));
}

#[test]
fn profiler_threshold_may_be_a_fraction() {
    let mut d = AmplificationDetector::new(Ratio { num: 5, den: 2 });
    let ip = IpAddress::V4(1);
    for _ in 0..5 {
        d.record_at(ip, "x", 1, 1, 0);
    }
    assert!(!d.record_at(ip, "x", 2, 5, 0));
    assert!(d.record_at(ip, "x", 2, 6, 0));
}

#[test]
fn profiler_counts_protocols_separately() {
    let mut d = detector();
    let ip = IpAddress::V4(3);
    d.record_at(ip, "dns", 1, 1, 0);
    d.record_at(ip, "ntp", 1, 1, 0);
    d.record_at(ip, "dns", 1, 1, 0);
    d.record_at(ip, "", 1, 1, 0);
    let p = d.get_profile(&ip).unwrap();
    assert_eq!(p.protocol_count("dns"), 2);
    assert_eq!(p.protocol_count("ntp"), 1);
    assert_eq!(p.protocol_count(""), 1);
    assert_eq!(p.protocol_count("DNS"), 0);
    assert_eq!(p.protocols.len(), 3);
    assert_eq!(p.protocols[0].protocol, "dns");
    assert_eq!(p.protocols[1].protocol, "ntp");
}

#[test]
fn profiler_totals_stop_at_the_largest_value() {
    let mut d = detector();
    let ip = IpAddress::V4(3);
    d.record_at(ip, "x", usize::MAX, usize::MAX, 0);
    d.record_at(ip, "x", usize::MAX, 1, 0);
    let p = d.get_profile(&ip).unwrap();
    assert_eq!(p.total_request_bytes, u64::MAX);
    assert_eq!(p.total_response_bytes, u64::MAX);
    assert_eq!(p.avg_amplification_factor, Ratio { num: u64::MAX, den: u64::MAX });
}

#[test]
fn profiler_cleanup_evicts_old_profiles() {
    let mut d = detector();
    d.record_at(IpAddress::V4(1), "x", 1, 1, 100);
    d.record_at(IpAddress::V4(2), "x", 1, 1, 200);
    d.record_at(IpAddress::V4(3), "x", 1, 1, 300);
    d.record_at(IpAddress::V4(1), "x", 1, 1, 250);
    // at 400 with a retention of 150: 200 is too old, 250 is on the edge, 300 is recent
    d.cleanup_at(150, 400);
    assert_eq!(d.len(), 2);
    assert!(d.get_profile(&IpAddress::V4(1)).is_some());
    assert!(d.get_profile(&IpAddress::V4(2)).is_none());
    assert!(d.get_profile(&IpAddress::V4(3)).is_some());
    d.cleanup_at(149, 400);
    assert_eq!(d.len(), 1);
    assert!(d.get_profile(&IpAddress::V4(3)).is_some());
}

#[test]
fn profiler_cleanup_is_idempotent() {
    let mut d = detector();
    for i in 0..20u32 {
        d.record_at(IpAddress::V4(i), "x", 1, i as usize, (i * 10) as i64);
    }
    d.cleanup_at(55, 200);
    let first: Vec<(IpAddress, i64)> =
        d.get_top_attackers(100).iter().map(|p| (p.ip, p.last_seen)).collect();
    assert_eq!(first.len(), 5);
    d.cleanup_at(55, 200);
    d.cleanup_at(55, 200);
    let again: Vec<(IpAddress, i64)> =
        d.get_top_attackers(100).iter().map(|p| (p.ip, p.last_seen)).collect();
    assert_eq!(first, again);
}

#[test]
fn profiler_cleanup_handles_extreme_times() {
    let mut d = detector();
    d.record_at(IpAddress::V4(1), "x", 1, 1, i64::MIN);
    d.record_at(IpAddress::V4(2), "x", 1, 1, i64::MAX);
    d.cleanup_at(i64::MAX, i64::MAX);
    assert_eq!(d.len(), 1);
    assert!(d.get_profile(&IpAddress::V4(2)).is_some());
    d.cleanup_at(-1, i64::MAX);
    assert_eq!(d.len(), 0);
}

#[test]
fn profiler_top_attackers_are_ordered_by_response_bytes() {
    let mut d = detector();
    d.record_at(IpAddress::V4(1), "x", 1, 50, 0);
    d.record_at(IpAddress::V4(2), "x", 1, 500, 0);
    d.record_at(IpAddress::V4(3), "x", 1, 5, 0);
    d.record_at(IpAddress::V4(4), "x", 1, 500, 0);
    d.record_at(IpAddress::V4(5), "x", 1, 5000, 0);
    let ips: Vec<IpAddress> = d.get_top_attackers(3).iter().map(|p| p.ip).collect();
    assert_eq!(ips, vec![IpAddress::V4(5), IpAddress::V4(2), IpAddress::V4(4)]);
    let all: Vec<u64> = d.get_top_attackers(10).iter().map(|p| p.total_response_bytes).collect();
    assert_eq!(all, vec![5000, 500, 500, 50, 5]);
    assert!(d.get_top_attackers(0).is_empty());
    // asking does not change the table
    assert_eq!(d.len(), 5);
}

#[test]
fn profiler_reads_the_clock() {
    let mut d = detector();
    let ip = IpAddress::V4(1);
    assert!(!d.record_interaction(ip, "dns", 29, 552));
    let p = d.get_profile(&ip).unwrap();
    // later than 2020 and not in the far future
    assert!(p.first_seen > 1_577_836_800);
    assert!(p.first_seen < 32_503_680_000);
    assert_eq!(p.first_seen, p.last_seen);
    assert_eq!(p.request_count, 1);
    for _ in 0..4 {
        assert!(!d.record_interaction(ip, "dns", 29, 552));
    }
    assert!(d.record_interaction(ip, "dns", 29, 552));
    let q = d.get_profile(&ip).unwrap();
    assert!(q.last_seen >= p.last_seen);
    assert_eq!(q.first_seen, p.first_seen);
    // a retention of an hour keeps it, a negative one evicts it
    d.cleanup_old_entries(3600);
    assert_eq!(d.len(), 1);
    d.cleanup_old_entries(-1);
    assert_eq!(d.len(), 0);
}

#[test]
fn amplification_metric_holds_the_factor() {
    let m = AmplificationMetrics::new(8, 442, 1_700_000_000, "ntp");
    assert_eq!(m.request_size, 8);
    assert_eq!(m.response_size, 442);
    assert_eq!(m.amplification_factor, Ratio { num: 442, den: 8 });
    assert_eq!(m.timestamp, 1_700_000_000);
    assert_eq!(m.protocol, "ntp");
}

#[test]
fn profiler_protocol_counts_add_up_to_the_request_count() {
    let mut d = detector();
    let ip = IpAddress::V4(7);
    let protocols = ["dns", "ntp", "dns", "snmp", "dns", "ntp", "", "memcached", "dns"];
    for (n, protocol) in protocols.iter().enumerate() {
        d.record_at(ip, protocol, 10, 100, n as i64);
        let p = d.get_profile(&ip).unwrap();
        let total: u64 = p.protocols.iter().map(|c| c.count as u64).sum();
        assert_eq!(total, p.request_count);
        assert_eq!(p.request_count, n as u64 + 1);
    }
    let p = d.get_profile(&ip).unwrap();
    assert_eq!(p.protocol_count("dns"), 4);
    assert_eq!(p.protocols.len(), 5);
}

#[test]
fn profiler_observation_touches_no_other_source() {
    let mut d = detector();
    for i in 0..50u32 {
        d.record_at(IpAddress::V4(i), "x", i as usize + 1, 2 * i as usize, 1000 + i as i64);
    }
    d.record_at(IpAddress::V4(17), "y", 5, 500, 2000);
    assert_eq!(d.len(), 50);
    for i in 0..50u32 {
        let p = d.get_profile(&IpAddress::V4(i)).unwrap();
        assert_eq!(p.ip, IpAddress::V4(i));
        assert_eq!(p.first_seen, 1000 + i as i64);
        if i == 17 {
            assert_eq!(p.request_count, 2);
            assert_eq!(p.total_request_bytes, 18 + 5);
            assert_eq!(p.total_response_bytes, 34 + 500);
            assert_eq!(p.last_seen, 2000);
            assert_eq!(p.protocol_count("y"), 1);
        } else {
            assert_eq!(p.request_count, 1);
            assert_eq!(p.total_request_bytes, i as u64 + 1);
            assert_eq!(p.total_response_bytes, 2 * i as u64);
            assert_eq!(p.last_seen, 1000 + i as i64);
        }
    }
    // the order of first sight is kept
    let order: Vec<IpAddress> = {
        let mut all = d.get_top_attackers(100);
        all.sort_by_key(|p| p.first_seen);
        all.iter().map(|p| p.ip).collect()
    };
    assert_eq!(order, (0..50u32).map(IpAddress::V4).collect::<Vec<_>>());
}

#[test]
fn profiler_tells_the_address_families_apart() {
    let mut d = detector();
    d.record_at(IpAddress::V4(1), "x", 1, 10, 0);
    d.record_at(IpAddress::V6(1), "x", 1, 20, 0);
    d.record_at(IpAddress::V6(0xFFFF_0000_0001), "x", 1, 30, 0);
    d.record_at(IpAddress::V4(1), "x", 1, 10, 0);
    assert_eq!(d.len(), 3);
    assert_eq!(d.get_profile(&IpAddress::V4(1)).unwrap().total_response_bytes, 20);
    assert_eq!(d.get_profile(&IpAddress::V6(1)).unwrap().total_response_bytes, 20);
    assert_eq!(d.get_profile(&IpAddress::V6(1)).unwrap().request_count, 1);
    assert_eq!(d.get_profile(&IpAddress::V6(0xFFFF_0000_0001)).unwrap().total_response_bytes, 30);
    assert!(d.get_profile(&IpAddress::V4(2)).is_none());
    assert!(d.get_profile(&IpAddress::V6(2)).is_none());
}

#[test]
fn profiler_finds_its_profiles_after_a_cleanup() {
    let mut d = detector();
    for i in 0..40u32 {
        d.record_at(IpAddress::V4(i), "x", 1, i as usize, i as i64);
        d.record_at(IpAddress::V6(i as u128), "x", 1, i as usize, i as i64);
    }
    // keeps what was last seen at 30 or later
    d.cleanup_at(9, 39);
    assert_eq!(d.len(), 20);
    for i in 0..40u32 {
        assert_eq!(d.get_profile(&IpAddress::V4(i)).is_some(), i >= 30);
        assert_eq!(d.get_profile(&IpAddress::V6(i as u128)).is_some(), i >= 30);
    }
    // a source that was evicted starts anew, one that was kept goes on
    d.record_at(IpAddress::V4(3), "x", 1, 1, 50);
    d.record_at(IpAddress::V4(35), "x", 1, 1, 50);
    assert_eq!(d.len(), 21);
    assert_eq!(d.get_profile(&IpAddress::V4(3)).unwrap().first_seen, 50);
    assert_eq!(d.get_profile(&IpAddress::V4(3)).unwrap().request_count, 1);
    assert_eq!(d.get_profile(&IpAddress::V4(35)).unwrap().first_seen, 35);
    assert_eq!(d.get_profile(&IpAddress::V4(35)).unwrap().request_count, 2);
    assert_eq!(d.get_profile(&IpAddress::V6(35)).unwrap().request_count, 1);
}

#[test]
fn profiler_last_seen_follows_the_clock_even_backwards() {
    let mut d = detector();
    let ip = IpAddress::V4(1);
    d.record_at(ip, "x", 1, 1, 100);
    d.record_at(ip, "x", 1, 1, 150);
    let p = d.get_profile(&ip).unwrap();
    assert!(p.first_seen <= p.last_seen);
    d.record_at(ip, "x", 1, 1, 50);
    let p = d.get_profile(&ip).unwrap();
    assert_eq!(p.first_seen, 100);
    assert_eq!(p.last_seen, 50);
}

#[test]
fn profiler_top_attackers_are_different_sources() {
    let mut d = detector();
    for round in 0..3 {
        for i in 0..10u32 {
            d.record_at(IpAddress::V4(i % 4), "x", 1, (i * 7 % 5) as usize + round, 0);
        }
    }
    let top = d.get_top_attackers(3);
    assert_eq!(top.len(), 3);
    for a in 0..top.len() {
        for b in 0..a {
            assert_ne!(top[a].ip, top[b].ip);
            assert!(top[b].total_response_bytes >= top[a].total_response_bytes);
        }
    }
}
