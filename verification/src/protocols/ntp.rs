//! The NTP responder.

use crate::config::Config;
use crate::protocols::{AttackKind, Reaction};
use crate::wire::{be16_bytes, be32_bytes, extend_bytes, extend_fill, filled, push_be16, push_be32};
use vstd::prelude::*;

verus! {

pub const NTP_PACKET_SIZE: usize = 48;

pub const MODE_SYMMETRIC_ACTIVE: u8 = 1;

pub const MODE_SYMMETRIC_PASSIVE: u8 = 2;

pub const MODE_CLIENT: u8 = 3;

pub const MODE_SERVER: u8 = 4;

pub const MODE_BROADCAST: u8 = 5;

/// Request code of the monlist command of the private mode.
pub const REQ_MON_GETLIST: u8 = 42;

/// Seconds from the NTP epoch, 1 January 1900, to the Unix epoch.
pub const NTP_EPOCH_OFFSET: u64 = 2208988800;

/// Number of entries in the fake monlist answer.
pub const MONLIST_ENTRIES: usize = 6;

/// Size of one monlist entry in bytes.
pub const MONLIST_ENTRY_SIZE: usize = 72;

/// The datagram is a request in private mode, as the monlist command is.
pub open spec fn is_monlist_request(data: Seq<u8>) -> bool {
    data.len() >= 1 && (data[0] == 0x17 || data[0] == 0x1a)
}

/// The datagram is a client request: the mode bits of its first byte are 3.
pub open spec fn is_client_request(data: Seq<u8>) -> bool {
    data.len() >= 1 && data[0] % 8 == MODE_CLIENT
}

/// An NTP timestamp for a time given as seconds and nanoseconds since the
/// Unix epoch: seconds since 1900 in the high 32 bits, the fraction of a
/// second in the low 32 bits, both taken modulo 2^32, big-endian.
pub open spec fn ntp_timestamp(secs: u64, nanos: u32) -> Seq<u8> {
    be32_bytes(((secs + NTP_EPOCH_OFFSET) % 0x1_0000_0000) as u32) + be32_bytes(
        (nanos * 0x1_0000_0000 / 1_000_000_000 % 0x1_0000_0000) as u32,
    )
}

/// The originate timestamp of a response: the transmit timestamp of the
/// request, or zero for a request too short to hold one.
pub open spec fn originate_timestamp(request: Seq<u8>) -> Seq<u8> {
    if request.len() >= NTP_PACKET_SIZE {
        request.subrange(40, 48)
    } else {
        filled(0, 8)
    }
}

/// The 48-byte server response to a client request: version 4, mode 4,
/// stratum 2, poll 6, precision 0xEC, the reference ID `LOCL`, and `time`
/// as receive and transmit timestamp.
pub open spec fn ntp_response(request: Seq<u8>, time: Seq<u8>) -> Seq<u8> {
    seq![0x24u8, 2u8, 6u8, 0xECu8] + filled(0, 8) + seq![0x4Cu8, 0x4Fu8, 0x43u8, 0x4Cu8] + filled(
        0,
        8,
    ) + originate_timestamp(request) + time + time
}

/// One fake monitoring entry of 72 bytes: the client 192.168.1.(100 + i),
/// port 123, mode 3, version 4.
pub open spec fn monlist_entry(i: u8) -> Seq<u8> {
    seq![192u8, 168u8, 1u8, (100 + i) as u8] + be16_bytes(123) + seq![MODE_CLIENT, 4u8] + filled(
        0,
        64,
    )
}

/// The first `n` monitoring entries, one after the other.
pub open spec fn monlist_entries(n: nat) -> Seq<u8>
    decreases n,
{
    if n == 0 {
        Seq::empty()
    } else {
        monlist_entries((n - 1) as nat) + monlist_entry((n - 1) as u8)
    }
}

/// The fake monlist answer: a ten-byte header and six entries.
pub open spec fn monlist_response() -> Seq<u8> {
    seq![0x1au8, 0x00u8, REQ_MON_GETLIST, 0x00u8] + be16_bytes(1) + be16_bytes(0) + be16_bytes(72)
        + monlist_entries(MONLIST_ENTRIES as nat)
}

/// The patterns that the responder recognizes in a datagram.
pub open spec fn ntp_attacks(data: Seq<u8>) -> Seq<AttackKind> {
    if is_monlist_request(data) {
        seq![AttackKind::NtpMonlist]
    } else {
        Seq::empty()
    }
}

/// The response to a datagram that arrives at the given time: the monlist
/// answer to a private-mode request if that is allowed, the server
/// response to a client request, and none to anything else.
pub open spec fn ntp_reply(allow_monlist: bool, data: Seq<u8>, secs: u64, nanos: u32) -> Option<
    Seq<u8>,
> {
    if is_monlist_request(data) {
        if allow_monlist {
            Some(monlist_response())
        } else {
            None
        }
    } else if is_client_request(data) {
        Some(ntp_response(data, ntp_timestamp(secs, nanos)))
    } else {
        None
    }
}

/// The NTP timestamp of a time given as seconds and nanoseconds since the
/// Unix epoch.
pub fn get_ntp_timestamp(secs: u64, nanos: u32) -> (stamp: Vec<u8>)
    ensures
        stamp@ == ntp_timestamp(secs, nanos),
        stamp@.len() == 8,
{
    let ntp_seconds = ((secs % 0x1_0000_0000 + NTP_EPOCH_OFFSET) % 0x1_0000_0000) as u32;
    let ntp_fraction = ((nanos as u64 * 0x1_0000_0000) / 1_000_000_000 % 0x1_0000_0000) as u32;
    assert((secs % 0x1_0000_0000 + 2208988800u64) % 0x1_0000_0000 == (secs + 2208988800u64)
        % 0x1_0000_0000) by (bit_vector);
    assert(ntp_seconds == ((secs + NTP_EPOCH_OFFSET) % 0x1_0000_0000) as u32);
    assert(ntp_fraction == (nanos * 0x1_0000_0000 / 1_000_000_000 % 0x1_0000_0000) as u32);
    let mut stamp: Vec<u8> = Vec::new();
    push_be32(&mut stamp, ntp_seconds);
    push_be32(&mut stamp, ntp_fraction);
    stamp
}

/// The server response to a client request, stamped with the given time.
pub fn build_ntp_response(request: &[u8], secs: u64, nanos: u32) -> (response: Vec<u8>)
    ensures
        response@ == ntp_response(request@, ntp_timestamp(secs, nanos)),
        response@.len() == NTP_PACKET_SIZE,
{
    let mut response: Vec<u8> = Vec::new();
    response.push((0 << 6) | (4 << 3) | MODE_SERVER);
    assert(((0u8 << 6) | (4u8 << 3) | 4u8) == 0x24u8) by (bit_vector);
    response.push(2);
    response.push(6);
    response.push(0xEC);
    extend_fill(&mut response, 0, 8);
    response.push(0x4C);
    response.push(0x4F);
    response.push(0x43);
    response.push(0x4C);
    extend_fill(&mut response, 0, 8);
    if request.len() >= NTP_PACKET_SIZE {
        extend_bytes(&mut response, vstd::slice::slice_subrange(request, 40, 48));
    } else {
        extend_fill(&mut response, 0, 8);
    }
    let stamp = get_ntp_timestamp(secs, nanos);
    extend_bytes(&mut response, stamp.as_slice());
    extend_bytes(&mut response, stamp.as_slice());
    assert(response@ =~= ntp_response(request@, ntp_timestamp(secs, nanos)));
    response
}

/// The fake monlist answer.
pub fn build_monlist_response() -> (response: Vec<u8>)
    ensures
        response@ == monlist_response(),
        response@.len() == 10 + MONLIST_ENTRIES * MONLIST_ENTRY_SIZE,
{
    let mut response: Vec<u8> = Vec::new();
    response.push(0x1a);
    response.push(0x00);
    response.push(REQ_MON_GETLIST);
    response.push(0x00);
    push_be16(&mut response, 1);
    push_be16(&mut response, 0);
    push_be16(&mut response, 72);
    let ghost head = response@;
    assert(head + monlist_entries(0) =~= head);
    let mut i: u8 = 0;
    while i < 6
        invariant
            i <= 6,
            response@ == head + monlist_entries(i as nat),
            response@.len() == 10 + i * 72,
            head.len() == 10,
        decreases 6 - i,
    {
        let ghost before = response@;
        response.push(192);
        response.push(168);
        response.push(1);
        response.push(100 + i);
        push_be16(&mut response, 123);
        response.push(MODE_CLIENT);
        response.push(4);
        extend_fill(&mut response, 0, 64);
        proof {
            assert(response@ =~= before + monlist_entry(i));
            assert(head + monlist_entries(i as nat) + monlist_entry(i) =~= head + monlist_entries(
                (i + 1) as nat,
            ));
        }
        i += 1;
    }
    assert(response@ =~= monlist_response());
    response
}

/// What the responder makes of one datagram that arrives at the given
/// time, in seconds and nanoseconds since the Unix epoch.
pub fn handle_packet(config: &Config, data: &[u8], secs: u64, nanos: u32) -> (r: Reaction)
    ensures
        r.attacks@ == ntp_attacks(data@),
        r.reply() == ntp_reply(config.protocols.ntp.allow_monlist, data@, secs, nanos),
        data@.len() == 0 ==> r.is_silent(),
{
    let mut attacks: Vec<AttackKind> = Vec::new();
    if data.len() < 1 {
        return Reaction { attacks, response: None };
    }
    let mode = data[0] % 8;
    if data[0] == 0x17 || data[0] == 0x1a {
        attacks.push(AttackKind::NtpMonlist);
        assert(attacks@ =~= ntp_attacks(data@));
        if config.protocols.ntp.allow_monlist {
            Reaction { attacks, response: Some(build_monlist_response()) }
        } else {
            Reaction { attacks, response: None }
        }
    } else if mode == MODE_CLIENT {
        Reaction { attacks, response: Some(build_ntp_response(data, secs, nanos)) }
    } else {
        Reaction { attacks, response: None }
    }
}

/// A client request of full size is answered, and the originate timestamp
/// of the answer is the transmit timestamp of the request.
pub proof fn lemma_originate_echoes_transmit(
    allow_monlist: bool,
    request: Seq<u8>,
    secs: u64,
    nanos: u32,
)
    requires
        is_client_request(request),
        request.len() >= NTP_PACKET_SIZE,
    ensures
        ntp_reply(allow_monlist, request, secs, nanos) is Some,
        ntp_reply(allow_monlist, request, secs, nanos)->0.len() == NTP_PACKET_SIZE,
        ntp_reply(allow_monlist, request, secs, nanos)->0.subrange(24, 32) == request.subrange(
            40,
            48,
        ),
{
    let time = ntp_timestamp(secs, nanos);
    assert(time.len() == 8);
    assert(!is_monlist_request(request));
    assert(ntp_response(request, time).subrange(24, 32) =~= request.subrange(40, 48));
}

/// The monlist answer is 442 bytes long, whatever the request.
pub proof fn lemma_monlist_response_len()
    ensures
        monlist_response().len() == 442,
{
    lemma_monlist_entries_len(6);
}

proof fn lemma_monlist_entries_len(n: nat)
    ensures
        monlist_entries(n).len() == n * 72,
    decreases n,
{
    if n > 0 {
        lemma_monlist_entries_len((n - 1) as nat);
    }
}

} // verus!
