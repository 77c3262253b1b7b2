//! The Memcached responder, on the UDP transport.

use crate::config::Config;
use crate::protocols::{AttackKind, Reaction};
use crate::wire::{
    be16, be16_bytes, extend_repeated, extend_str, matches_at, occurs_at, push_be16, read_be16,
    repeated, text_bytes,
};
use vstd::prelude::*;
use vstd::string::*;

verus! {

/// Size of the frame header that precedes every command and response.
pub const MEMCACHED_HEADER_SIZE: usize = 8;

/// How often the statistics are repeated in one response.
pub const STATS_REPEAT: usize = 30;

/// The statistics of the fake server, one line each.
pub const STATS_BLOCK: &'static str =
    "STAT pid 12345\r\n\
    STAT uptime 3600000\r\n\
    STAT time 1699999999\r\n\
    STAT version 1.4.15\r\n\
    STAT pointer_size 64\r\n\
    STAT curr_items 1000000\r\n\
    STAT total_items 5000000\r\n\
    STAT bytes 104857600\r\n\
    STAT curr_connections 100\r\n\
    STAT total_connections 50000\r\n\
    STAT connection_structures 150\r\n\
    STAT cmd_get 10000000\r\n\
    STAT cmd_set 5000000\r\n\
    STAT get_hits 9000000\r\n\
    STAT get_misses 1000000\r\n\
    STAT evictions 50000\r\n\
    STAT bytes_read 1073741824\r\n\
    STAT bytes_written 2147483648\r\n\
    STAT limit_maxbytes 1073741824\r\n\
    STAT threads 4\r\n";

/// The request ID of a framed datagram.
pub open spec fn request_id(data: Seq<u8>) -> u16 {
    be16(data[0], data[1])
}

/// The sequence number of a framed datagram.
pub open spec fn sequence_number(data: Seq<u8>) -> u16 {
    be16(data[2], data[3])
}

/// The command of a framed datagram starts with the given word.
pub open spec fn command_starts_with(data: Seq<u8>, word: Seq<char>) -> bool {
    occurs_at(data, MEMCACHED_HEADER_SIZE as int, text_bytes(word))
}

/// The command is one whose answer amplifies: `stats` or `get`.
pub open spec fn is_amplifying_command(data: Seq<u8>) -> bool {
    data.len() > MEMCACHED_HEADER_SIZE && (command_starts_with(data, "stats"@)
        || command_starts_with(data, "get"@))
}

/// The command stores a value: `set` or `add`.
pub open spec fn is_storage_command(data: Seq<u8>) -> bool {
    data.len() > MEMCACHED_HEADER_SIZE && !is_amplifying_command(data) && (command_starts_with(
        data,
        "set"@,
    ) || command_starts_with(data, "add"@))
}

/// The frame header of a response: the request ID and sequence number of
/// the request, one datagram in total, and a reserved zero.
pub open spec fn frame_header(id: u16, seq: u16) -> Seq<u8> {
    be16_bytes(id) + be16_bytes(seq) + be16_bytes(1) + seq![0u8, 0u8]
}

/// The amplified answer: the statistics thirty times over, then `END`.
pub open spec fn stats_response(id: u16, seq: u16) -> Seq<u8> {
    frame_header(id, seq) + repeated(text_bytes(STATS_BLOCK@), STATS_REPEAT as nat) + text_bytes(
        "END\r\n"@,
    )
}

/// The answer to a storage command.
pub open spec fn stored_response(id: u16, seq: u16) -> Seq<u8> {
    frame_header(id, seq) + text_bytes("STORED\r\n"@)
}

/// The patterns that the responder recognizes in a datagram.
pub open spec fn memcached_attacks(data: Seq<u8>) -> Seq<AttackKind> {
    if is_amplifying_command(data) {
        seq![AttackKind::MemcachedAmplification]
    } else {
        Seq::empty()
    }
}

/// The response to a datagram: the statistics to an amplifying command if
/// the UDP transport is enabled, `STORED` to a storage command, and none to
/// anything else.
pub open spec fn memcached_reply(udp_enabled: bool, data: Seq<u8>) -> Option<Seq<u8>> {
    if is_amplifying_command(data) {
        if udp_enabled {
            Some(stats_response(request_id(data), sequence_number(data)))
        } else {
            None
        }
    } else if is_storage_command(data) {
        Some(stored_response(request_id(data), sequence_number(data)))
    } else {
        None
    }
}

fn push_frame_header(response: &mut Vec<u8>, request_id: u16, seq_num: u16)
    ensures
        final(response)@ == old(response)@ + frame_header(request_id, seq_num),
{
    push_be16(response, request_id);
    push_be16(response, seq_num);
    push_be16(response, 1);
    response.push(0);
    response.push(0);
    assert(response@ =~= old(response)@ + frame_header(request_id, seq_num));
}

/// The amplified answer to `stats` and `get`.
pub fn build_stats_response(request_id: u16, seq_num: u16) -> (response: Vec<u8>)
    ensures
        response@ == stats_response(request_id, seq_num),
{
    let mut response: Vec<u8> = Vec::new();
    push_frame_header(&mut response, request_id, seq_num);
    extend_repeated(&mut response, STATS_BLOCK.as_bytes(), STATS_REPEAT);
    extend_str(&mut response, "END\r\n");
    assert(response@ =~= stats_response(request_id, seq_num));
    response
}

/// The answer to `set` and `add`.
pub fn build_stored_response(request_id: u16, seq_num: u16) -> (response: Vec<u8>)
    ensures
        response@ == stored_response(request_id, seq_num),
{
    let mut response: Vec<u8> = Vec::new();
    push_frame_header(&mut response, request_id, seq_num);
    extend_str(&mut response, "STORED\r\n");
    assert(response@ =~= stored_response(request_id, seq_num));
    response
}

/// Whether the command of a framed datagram starts with `word`.
fn command_has_prefix(data: &[u8], word: &str) -> (r: bool)
    ensures
        r == command_starts_with(data@, word@),
{
    matches_at(data, MEMCACHED_HEADER_SIZE, word.as_bytes())
}

/// What the responder makes of one datagram.
pub fn handle_packet(config: &Config, data: &[u8]) -> (r: Reaction)
    ensures
        r.attacks@ == memcached_attacks(data@),
        r.reply() == memcached_reply(config.protocols.memcached.udp_enabled, data@),
        data@.len() <= MEMCACHED_HEADER_SIZE ==> r.is_silent(),
{
    let mut attacks: Vec<AttackKind> = Vec::new();
    if data.len() <= MEMCACHED_HEADER_SIZE {
        return Reaction { attacks, response: None };
    }
    let request_id = read_be16(data[0], data[1]);
    let seq_num = read_be16(data[2], data[3]);
    if command_has_prefix(data, "stats") || command_has_prefix(data, "get") {
        attacks.push(AttackKind::MemcachedAmplification);
        assert(attacks@ =~= memcached_attacks(data@));
        if config.protocols.memcached.udp_enabled {
            Reaction { attacks, response: Some(build_stats_response(request_id, seq_num)) }
        } else {
            Reaction { attacks, response: None }
        }
    } else if command_has_prefix(data, "set") || command_has_prefix(data, "add") {
        Reaction { attacks, response: Some(build_stored_response(request_id, seq_num)) }
    } else {
        Reaction { attacks, response: None }
    }
}

/// The statistics are 486 bytes long, so that the amplified answer has
/// 14593 bytes, whatever the request.
pub proof fn lemma_stats_response_len(id: u16, seq: u16)
    ensures
        text_bytes(STATS_BLOCK@).len() == 486,
        stats_response(id, seq).len() == 14593,
        stored_response(id, seq).len() == 16,
{
    reveal_strlit(
        "STAT pid 12345\r\n\
        STAT uptime 3600000\r\n\
        STAT time 1699999999\r\n\
        STAT version 1.4.15\r\n\
        STAT pointer_size 64\r\n\
        STAT curr_items 1000000\r\n\
        STAT total_items 5000000\r\n\
        STAT bytes 104857600\r\n\
        STAT curr_connections 100\r\n\
        STAT total_connections 50000\r\n\
        STAT connection_structures 150\r\n\
        STAT cmd_get 10000000\r\n\
        STAT cmd_set 5000000\r\n\
        STAT get_hits 9000000\r\n\
        STAT get_misses 1000000\r\n\
        STAT evictions 50000\r\n\
        STAT bytes_read 1073741824\r\n\
        STAT bytes_written 2147483648\r\n\
        STAT limit_maxbytes 1073741824\r\n\
        STAT threads 4\r\n",
    );
    reveal_strlit("END\r\n");
    reveal_strlit("STORED\r\n");
    crate::wire::lemma_ascii_text_bytes(STATS_BLOCK@);
    crate::wire::lemma_ascii_text_bytes("END\r\n"@);
    crate::wire::lemma_ascii_text_bytes("STORED\r\n"@);
    lemma_repeated_len(text_bytes(STATS_BLOCK@), 30);
}

proof fn lemma_repeated_len(block: Seq<u8>, count: nat)
    ensures
        repeated(block, count).len() == count * block.len(),
    decreases count,
{
    if count > 0 {
        lemma_repeated_len(block, (count - 1) as nat);
        assert(count * block.len() == (count - 1) * block.len() + block.len())
            by (nonlinear_arith);
    }
}

/// Every response starts with the request ID and sequence number of the
/// request, byte for byte.
pub proof fn lemma_reply_echoes_ids(udp_enabled: bool, data: Seq<u8>)
    requires
        data.len() >= 4,
    ensures
        memcached_reply(udp_enabled, data) matches Some(r) ==> r.len() >= MEMCACHED_HEADER_SIZE
            && r.subrange(0, 4) == data.subrange(0, 4) && r.subrange(4, 8) == seq![
            0u8,
            1u8,
            0u8,
            0u8,
        ],
{
    if memcached_reply(udp_enabled, data) is Some {
        let r = memcached_reply(udp_enabled, data)->0;
        let h = frame_header(request_id(data), sequence_number(data));
        crate::wire::lemma_be16_roundtrip(data[0], data[1]);
        crate::wire::lemma_be16_roundtrip(data[2], data[3]);
        assert(h.len() == 8);
        assert(h =~= seq![data[0], data[1], data[2], data[3], 0u8, 1u8, 0u8, 0u8]);
        assert(r.subrange(0, 8) =~= h);
        assert(r.subrange(0, 4) =~= data.subrange(0, 4));
        assert(r.subrange(4, 8) =~= seq![0u8, 1u8, 0u8, 0u8]);
    }
}

} // verus!
