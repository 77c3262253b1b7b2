use routertrap::config::Config;
use routertrap::protocols::snmp::{
    build_bulk_response, build_simple_response, contains_get_bulk, encode_oid, handle_packet,
    push_tlv,
};
use routertrap::protocols::AttackKind;

const SIMPLE: [u8; 45] = [
    0x30, 0x2b, 0x02, 0x01, 0x01, 0x04, 0x06, b'p', b'u', b'b', b'l', b'i', b'c', 0xa2, 0x1e, 0x02,
    0x01, 0x01, 0x02, 0x01, 0x00, 0x02, 0x01, 0x00, 0x30, 0x13, 0x30, 0x11, 0x06, 0x08, 0x2b, 0x06,
    0x01, 0x02, 0x01, 0x01, 0x01, 0x00, 0x04, 0x05, b'C', b'i', b's', b'c', b'o',
];

/// Reads one BER element at `at`: its tag, the range of its content.
fn element(data: &[u8], at: usize) -> (u8, usize, usize) {
    let tag = data[at];
    let first = data[at + 1];
    if first < 128 {
        (tag, at + 2, at + 2 + first as usize)
    } else {
        assert_eq!(first, 0x82);
        let n = u16::from_be_bytes([data[at + 2], data[at + 3]]) as usize;
        assert!(n >= 128);
        (tag, at + 4, at + 4 + n)
    }
}

#[test]
fn snmp_simple_response_is_exact() {
    assert_eq!(build_simple_response(&[]), SIMPLE.to_vec());
}

#[test]
fn snmp_short_request_is_discarded() {
    let config = Config::default_config();
    for len in 0..10 {
        let r = handle_packet(&config, vec![0xA5u8; len].as_slice());
        assert!(r.attacks.is_empty());
        assert_eq!(r.response, None);
    }
}

#[test]
fn snmp_ordinary_request_gets_the_simple_response() {
    let config = Config::default_config();
    let request = vec![0x30u8; 40];
    let r = handle_packet(&config, request.as_slice());
    assert_eq!(r.attacks, vec![AttackKind::SnmpAmplification]);
    assert_eq!(r.response, Some(SIMPLE.to_vec()));
    let big = vec![0x30u8; 100];
    let r = handle_packet(&config, big.as_slice());
    assert!(r.attacks.is_empty());
    assert_eq!(r.response, Some(SIMPLE.to_vec()));
}

#[test]
fn snmp_getbulk_gets_the_bulk_response() {
    let config = Config::default_config();
    let mut request = vec![0x30u8; 40];
    request[20] = 0xA5;
    let r = handle_packet(&config, request.as_slice());
    assert_eq!(r.attacks, vec![AttackKind::SnmpAmplification, AttackKind::SnmpGetBulk]);
    let response = r.response.unwrap();
    assert_eq!(response, build_bulk_response(request.as_slice()));
    assert!(response.len() >= 600 && response.len() <= 1500);
    assert_eq!(response.len(), 976);
    assert!(response.len() > 20 * request.len());
}

#[test]
fn snmp_getbulk_tag_is_found_anywhere() {
    assert!(!contains_get_bulk(&[]));
    assert!(!contains_get_bulk(&[0xA4, 0xA6, 0x5A]));
    assert!(contains_get_bulk(&[0xA5]));
    assert!(contains_get_bulk(&[0, 0xA5, 0]));
    assert!(contains_get_bulk(&[0, 0, 0xA5]));
}

#[test]
fn snmp_bulk_response_is_well_formed_ber() {
    let r = build_bulk_response(&[]);
    let (tag, start, end) = element(r.as_slice(), 0);
    assert_eq!(tag, 0x30);
    assert_eq!(end, r.len());
    assert_eq!(&r[start..start + 3], &[2, 1, 1]);
    let (tag, cs, ce) = element(r.as_slice(), start + 3);
    assert_eq!(tag, 0x04);
    assert_eq!(&r[cs..ce], b"public");
    let (tag, ps, pe) = element(r.as_slice(), ce);
    assert_eq!(tag, 0xA2);
    assert_eq!(pe, r.len());
    assert_eq!(&r[ps..ps + 9], &[2, 1, 1, 2, 1, 0, 2, 1, 0]);
    let (tag, vs, ve) = element(r.as_slice(), ps + 9);
    assert_eq!(tag, 0x30);
    assert_eq!(ve, r.len());
    let mut at = vs;
    let mut count = 0;
    while at < ve {
        let (tag, s, e) = element(r.as_slice(), at);
        assert_eq!(tag, 0x30);
        let (tag, os, oe) = element(r.as_slice(), s);
        assert_eq!(tag, 0x06);
        assert_eq!(&r[os..oe], &[0x2b, 6, 1, 2, 1, 1, (count % 6) as u8 + 1, 0]);
        let (tag, _, value_end) = element(r.as_slice(), oe);
        assert_eq!(tag, 0x04);
        assert_eq!(value_end, e);
        at = e;
        count += 1;
    }
    assert_eq!(count, 20);
}

#[test]
fn snmp_bulk_response_cycles_through_the_fake_values() {
    let r = build_bulk_response(&[]);
    let text = String::from_utf8_lossy(r.as_slice()).to_string();
    assert_eq!(text.matches("Cisco IOS Software, C3750 Software").count(), 4);
    assert_eq!(text.matches("1.3.6.1.4.1.9.1.516").count(), 4);
    assert_eq!(text.matches("123456789").count(), 3);
    assert_eq!(text.matches("Network Administrator admin@example.com").count(), 3);
    assert_eq!(text.matches("router.example.com").count(), 3);
    assert_eq!(text.matches("Data Center Room 42 Rack 7").count(), 3);
}

#[test]
fn snmp_ber_lengths() {
    let mut out = Vec::new();
    push_tlv(&mut out, 0x04, &[]);
    assert_eq!(out, vec![0x04, 0x00]);
    let mut out = Vec::new();
    push_tlv(&mut out, 0x04, &[7u8; 127]);
    assert_eq!(&out[..2], &[0x04, 127]);
    assert_eq!(out.len(), 129);
    let mut out = Vec::new();
    push_tlv(&mut out, 0x30, &[7u8; 128]);
    assert_eq!(&out[..4], &[0x30, 0x82, 0x00, 0x80]);
    assert_eq!(out.len(), 132);
    let mut out = vec![0xEE];
    push_tlv(&mut out, 0x30, &[7u8; 0x1234]);
    assert_eq!(&out[..5], &[0xEE, 0x30, 0x82, 0x12, 0x34]);
    let mut out = Vec::new();
    push_tlv(&mut out, 0x30, vec![1u8; 0x1_0000].as_slice());
    assert_eq!(&out[..6], &[0x30, 0x84, 0x00, 0x01, 0x00, 0x00]);
}

#[test]
fn snmp_oid_encoding() {
    assert_eq!(encode_oid("1.3.6.1.2.1.1.1.0"), vec![0x2b, 6, 1, 2, 1, 1, 1, 0]);
    assert_eq!(encode_oid("1.3.6.1.4.1.9.1.516"), vec![0x2b, 6, 1, 4, 1, 9, 1, 0x84, 0x04]);
    assert_eq!(encode_oid("2.5.4.3"), vec![85, 4, 3]);
    assert_eq!(encode_oid("1.3.127.128"), vec![0x2b, 127, 0x81, 0x00]);
    assert_eq!(encode_oid(""), vec![0x2b]);
    assert_eq!(encode_oid("1"), vec![0x2b]);
    assert_eq!(encode_oid("x.y"), vec![0x2b]);
    // fields that are no numbers are passed over
    assert_eq!(encode_oid("1.x.3..6"), vec![0x2b, 6]);
    assert_eq!(encode_oid("1.3.4294967295"), vec![0x2b, 0xFF, 0x7F]);
    assert_eq!(encode_oid("1.3.4294967296"), vec![0x2b]);
}
