use routertrap::config::Config;
use routertrap::protocols::memcached::{
    build_stats_response, build_stored_response, handle_packet, STATS_BLOCK,
};
use routertrap::protocols::AttackKind;

fn datagram(id: u16, seq: u16, command: &[u8]) -> Vec<u8> {
    let mut d = Vec::new();
    d.extend_from_slice(&id.to_be_bytes());
    d.extend_from_slice(&seq.to_be_bytes());
    d.extend_from_slice(&[0, 1, 0, 0]);
    d.extend_from_slice(command);
    d
}

#[test]
fn memcached_udp_amplification() {
    let config = Config::default_config();
    let request = datagram(0xABCD, 0x0002, b"stats\r\n");
    assert_eq!(request.len(), 15);
    let r = handle_packet(&config, request.as_slice());
    assert_eq!(r.attacks, vec![AttackKind::MemcachedAmplification]);
    let response = r.response.unwrap();
    assert_eq!(&response[..8], &[0xAB, 0xCD, 0x00, 0x02, 0, 1, 0, 0]);
    assert!(response.ends_with(b"END\r\n"));
    assert!(response.len() > 1024);
    assert_eq!(response.len(), 14593);
    let text = String::from_utf8(response[8..].to_vec()).unwrap();
    assert!(text.matches("STAT ").count() >= 30);
    assert_eq!(text.matches("STAT ").count(), 600);
    assert_eq!(text.matches("STAT pid 12345\r\n").count(), 30);
    assert_eq!(text.matches("STAT threads 4\r\nEND\r\n").count(), 1);
}

#[test]
fn memcached_stats_block_holds_twenty_lines() {
    assert_eq!(STATS_BLOCK.len(), 486);
    assert_eq!(STATS_BLOCK.lines().count(), 20);
    assert!(STATS_BLOCK.lines().all(|l| l.starts_with("STAT ")));
    assert!(STATS_BLOCK.starts_with("STAT pid 12345\r\nSTAT uptime 3600000\r\n"));
    assert!(STATS_BLOCK.ends_with("STAT limit_maxbytes 1073741824\r\nSTAT threads 4\r\n"));
}

#[test]
fn memcached_stats_response_is_exact() {
    let mut expected = vec![0x00, 0x07, 0x00, 0x09, 0, 1, 0, 0];
    for _ in 0..30 {
        expected.extend_from_slice(STATS_BLOCK.as_bytes());
    }
    expected.extend_from_slice(b"END\r\n");
    assert_eq!(build_stats_response(7, 9), expected);
}

#[test]
fn memcached_get_is_amplified_too() {
    let config = Config::default_config();
    let r = handle_packet(&config, datagram(1, 0, b"get foo\r\n").as_slice());
    assert_eq!(r.attacks, vec![AttackKind::MemcachedAmplification]);
    assert_eq!(r.response, Some(build_stats_response(1, 0)));
    let r = handle_packet(&config, datagram(1, 0, b"gets foo\r\n").as_slice());
    assert_eq!(r.attacks, vec![AttackKind::MemcachedAmplification]);
}

#[test]
fn memcached_storage_commands_are_stored() {
    let config = Config::default_config();
    for command in [&b"set k 0 0 1\r\nv\r\n"[..], &b"add k 0 0 1\r\nv\r\n"[..]] {
        let r = handle_packet(&config, datagram(0x0102, 0x0304, command).as_slice());
        assert!(r.attacks.is_empty());
        let mut expected = vec![1, 2, 3, 4, 0, 1, 0, 0];
        expected.extend_from_slice(b"STORED\r\n");
        assert_eq!(r.response, Some(expected));
    }
    assert_eq!(build_stored_response(0, 0).len(), 16);
}

#[test]
fn memcached_amplifying_command_without_udp_is_flagged_only() {
    let mut config = Config::default_config();
    config.protocols.memcached.udp_enabled = false;
    let r = handle_packet(&config, datagram(1, 0, b"stats\r\n").as_slice());
    assert_eq!(r.attacks, vec![AttackKind::MemcachedAmplification]);
    assert_eq!(r.response, None);
    let r = handle_packet(&config, datagram(1, 0, b"set a 0 0 1\r\n").as_slice());
    assert!(r.response.is_some());
}

#[test]
fn memcached_other_datagrams_are_discarded() {
    let config = Config::default_config();
    let inputs: Vec<Vec<u8>> = vec![
        vec![],
        vec![0; 7],
        datagram(1, 0, b""),
        datagram(1, 0, b"delete k\r\n"),
        datagram(1, 0, b"STATS\r\n"),
        datagram(1, 0, b" stats\r\n"),
        datagram(1, 0, b"sta"),
        datagram(1, 0, b"ge"),
    ];
    for input in inputs {
        let r = handle_packet(&config, input.as_slice());
        assert!(r.attacks.is_empty());
        assert_eq!(r.response, None);
    }
}
