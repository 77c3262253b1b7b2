use routertrap::block_map::{BlockError, BlockMap, BLOCK_MAP_CAPACITY};
use routertrap::common::BlockedIp;
use routertrap::events::EventChannel;
use routertrap::stats::{StatsMap, STAT_BLOCKED_PACKETS, STAT_PROTOCOL_BASE};
use routertrap::common::PacketEvent;

#[test]
fn block_map_default_capacity() {
    assert_eq!(BLOCK_MAP_CAPACITY, 65536);
}

#[test]
fn block_and_lookup() {
    let mut m = BlockMap::new(4);
    assert_eq!(m.len(), 0);
    assert_eq!(m.lookup(7), None);
    assert_eq!(m.block(7, 100, 2), Ok(()));
    assert_eq!(m.lookup(7), Some(BlockedIp { ip_addr: 7, expiry: 100, reason: 2 }));
    assert!(m.contains(7));
    assert!(!m.contains(8));
    assert!(m.is_blocked(7, 99));
    assert!(!m.is_blocked(7, 100));
    assert!(!m.is_blocked(8, 0));
    assert_eq!(m.len(), 1);
}

#[test]
fn reblocking_never_shortens_a_block() {
    let mut m = BlockMap::new(4);
    assert_eq!(m.block(7, 100, 1), Ok(()));
    assert_eq!(m.block(7, 50, 2), Ok(()));
    assert_eq!(m.lookup(7), Some(BlockedIp { ip_addr: 7, expiry: 100, reason: 2 }));
    assert_eq!(m.block(7, 200, 0), Ok(()));
    assert_eq!(m.lookup(7), Some(BlockedIp { ip_addr: 7, expiry: 200, reason: 0 }));
    assert_eq!(m.block(7, 200, 3), Ok(()));
    assert_eq!(m.lookup(7).unwrap().expiry, 200);
    assert_eq!(m.len(), 1);
}

#[test]
fn full_block_map_refuses_new_entries() {
    let mut m = BlockMap::new(2);
    assert_eq!(m.block(1, 10, 0), Ok(()));
    assert_eq!(m.block(2, 20, 0), Ok(()));
    assert_eq!(m.block(3, 30, 0), Err(BlockError::Full));
    assert_eq!(m.len(), 2);
    assert_eq!(m.lookup(1), Some(BlockedIp { ip_addr: 1, expiry: 10, reason: 0 }));
    assert_eq!(m.lookup(2), Some(BlockedIp { ip_addr: 2, expiry: 20, reason: 0 }));
    assert_eq!(m.lookup(3), None);
    // an address that is in the map can still be blocked for longer
    assert_eq!(m.block(2, 99, 1), Ok(()));
    assert_eq!(m.lookup(2).unwrap().expiry, 99);
}

#[test]
fn block_map_of_capacity_zero_refuses_everything() {
    let mut m = BlockMap::new(0);
    assert_eq!(m.block(1, 10, 0), Err(BlockError::Full));
    assert_eq!(m.len(), 0);
}

#[test]
fn unblock_removes_the_entry() {
    let mut m = BlockMap::new(2);
    assert_eq!(m.block(1, 10, 0), Ok(()));
    assert!(m.unblock(1));
    assert!(!m.unblock(1));
    assert_eq!(m.len(), 0);
    assert_eq!(m.block(2, 10, 0), Ok(()));
    assert_eq!(m.block(3, 10, 0), Ok(()));
}

#[test]
fn sweep_removes_exactly_the_expired_entries() {
    let mut m = BlockMap::new(8);
    assert_eq!(m.block(1, 10, 0), Ok(()));
    assert_eq!(m.block(2, 20, 0), Ok(()));
    assert_eq!(m.block(3, 30, 0), Ok(()));
    assert_eq!(m.block(4, 20, 0), Ok(()));
    assert_eq!(m.sweep(20), 3);
    assert_eq!(m.len(), 1);
    assert_eq!(m.lookup(3), Some(BlockedIp { ip_addr: 3, expiry: 30, reason: 0 }));
    assert_eq!(m.lookup(2), None);
    assert_eq!(m.sweep(20), 0);
    assert_eq!(m.len(), 1);
    assert_eq!(m.sweep(29), 0);
    assert_eq!(m.sweep(30), 1);
    assert_eq!(m.len(), 0);
}

#[test]
fn sweep_makes_room_in_a_full_map() {
    let mut m = BlockMap::new(1);
    assert_eq!(m.block(1, 10, 0), Ok(()));
    assert_eq!(m.block(2, 50, 0), Err(BlockError::Full));
    assert_eq!(m.sweep(10), 1);
    assert_eq!(m.block(2, 50, 0), Ok(()));
}

#[test]
fn stats_start_at_zero_and_count() {
    let mut s = StatsMap::new();
    assert_eq!(s.get(STAT_BLOCKED_PACKETS), 0);
    s.increment(STAT_BLOCKED_PACKETS);
    s.increment(STAT_BLOCKED_PACKETS);
    s.increment(STAT_PROTOCOL_BASE + 14);
    assert_eq!(s.get(STAT_BLOCKED_PACKETS), 2);
    assert_eq!(s.get(STAT_PROTOCOL_BASE + 14), 1);
    assert_eq!(s.get(STAT_PROTOCOL_BASE + 13), 0);
}

#[test]
fn stats_ignore_codes_without_a_counter() {
    let mut s = StatsMap::new();
    s.increment(1);
    s.increment(99);
    s.increment(115);
    assert_eq!(s.get(1), 0);
    assert_eq!(s.get(99), 0);
    assert_eq!(s.get(115), 0);
}

fn event(n: u32) -> PacketEvent {
    PacketEvent {
        src_ip: n,
        dst_ip: 0,
        src_port: 0,
        dst_port: 0,
        protocol: 17,
        protocol_type: 3,
        packet_size: 0,
        flags: 0,
        timestamp: 0,
    }
}

#[test]
fn event_channel_is_first_in_first_out() {
    let mut ch = EventChannel::new(3);
    assert!(ch.emit(event(1)));
    assert!(ch.emit(event(2)));
    assert_eq!(ch.len(), 2);
    assert_eq!(ch.poll(), Some(event(1)));
    assert_eq!(ch.poll(), Some(event(2)));
    assert_eq!(ch.poll(), None);
    assert_eq!(ch.lost_events(), 0);
}

#[test]
fn event_channel_drops_when_full() {
    let mut ch = EventChannel::new(2);
    assert!(ch.emit(event(1)));
    assert!(ch.emit(event(2)));
    assert!(!ch.emit(event(3)));
    assert!(!ch.emit(event(4)));
    assert_eq!(ch.len(), 2);
    assert_eq!(ch.lost_events(), 2);
    assert_eq!(ch.poll(), Some(event(1)));
    assert!(ch.emit(event(5)));
    assert_eq!(ch.poll(), Some(event(2)));
    assert_eq!(ch.poll(), Some(event(5)));
}
