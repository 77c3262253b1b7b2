use routertrap::wire::{
    copy_bytes, extend_bytes, extend_fill, extend_repeated, extend_str, find_bytes, matches_at,
    push_be16, push_be32, push_le16, push_le32, push_le64, read_be16, read_be32, read_le16,
    read_le32, read_le64,
};

#[test]
fn wire_big_endian_values() {
    assert_eq!(read_be16(0x12, 0x34), 0x1234);
    assert_eq!(read_be16(0xFF, 0xFF), 0xFFFF);
    assert_eq!(read_be32(0x01, 0x02, 0x03, 0x04), 0x0102_0304);
    assert_eq!(read_be32(0xFF, 0xFF, 0xFF, 0xFF), u32::MAX);
    let mut buf = vec![9u8];
    push_be16(&mut buf, 0xFDE9);
    push_be32(&mut buf, 0x83AA_7E80);
    assert_eq!(buf, vec![9, 0xFD, 0xE9, 0x83, 0xAA, 0x7E, 0x80]);
}

#[test]
fn wire_little_endian_values() {
    let mut buf = Vec::new();
    push_le16(&mut buf, 0x1234);
    push_le32(&mut buf, 0x0102_0304);
    push_le64(&mut buf, 0x1122_3344_5566_7788);
    assert_eq!(
        buf,
        vec![0x34, 0x12, 0x04, 0x03, 0x02, 0x01, 0x88, 0x77, 0x66, 0x55, 0x44, 0x33, 0x22, 0x11]
    );
    assert_eq!(read_le16(buf.as_slice(), 0), 0x1234);
    assert_eq!(read_le32(buf.as_slice(), 2), 0x0102_0304);
    assert_eq!(read_le64(buf.as_slice(), 6), 0x1122_3344_5566_7788);
    for v in [0u64, 1, 255, 256, u64::MAX, 0x8000_0000_0000_0000] {
        let mut b = Vec::new();
        push_le64(&mut b, v);
        assert_eq!(b, v.to_le_bytes().to_vec());
        assert_eq!(read_le64(b.as_slice(), 0), v);
    }
}

#[test]
fn wire_buffers_grow_by_what_is_appended() {
    let mut buf = vec![1u8];
    extend_bytes(&mut buf, &[2, 3]);
    extend_bytes(&mut buf, &[]);
    extend_fill(&mut buf, 7, 3);
    extend_fill(&mut buf, 8, 0);
    extend_repeated(&mut buf, &[4, 5], 2);
    extend_repeated(&mut buf, &[6], 0);
    extend_str(&mut buf, "A\u{e9}");
    assert_eq!(buf, vec![1, 2, 3, 7, 7, 7, 4, 5, 4, 5, b'A', 0xC3, 0xA9]);
    assert_eq!(copy_bytes(buf.as_slice(), 1, 3), vec![2, 3]);
    assert_eq!(copy_bytes(buf.as_slice(), 5, 5), Vec::<u8>::new());
}

#[test]
fn wire_pattern_search() {
    let data = b"xxM-SEARCH * HTTP/1.1";
    assert!(matches_at(data, 2, b"M-SEARCH"));
    assert!(!matches_at(data, 1, b"M-SEARCH"));
    assert!(matches_at(data, 0, b""));
    assert!(matches_at(data, data.len(), b""));
    assert!(!matches_at(data, data.len() + 1, b""));
    assert!(!matches_at(data, 18, b"1.1x"));
    assert!(!matches_at(data, usize::MAX, b"x"));
    assert!(find_bytes(data, b"HTTP"));
    assert!(find_bytes(data, b"1.1"));
    assert!(find_bytes(data, b""));
    assert!(find_bytes(b"", b""));
    assert!(!find_bytes(b"", b"x"));
    assert!(!find_bytes(data, b"HTTPS"));
    assert!(!find_bytes(b"ab", b"abc"));
}
