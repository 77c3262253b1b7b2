//! The DNS responder.

use crate::config::Config;
use crate::protocols::{AttackKind, Reaction};
use crate::wire::{be16, copy_bytes, extend_bytes, extend_str, read_be16, text_bytes};
use vstd::prelude::*;

verus! {

pub const DNS_HEADER_SIZE: usize = 12;

/// The query type that asks for every record.
pub const QTYPE_ANY: u16 = 255;

/// A query below this size that asks for recursion looks like an
/// amplification attempt.
pub const DNS_SMALL_QUERY: usize = 100;

/// Index just behind the name that starts at `offset`: behind its zero
/// byte, or at or beyond the end of the datagram if the labels run out of
/// it.
pub open spec fn name_end(data: Seq<u8>, offset: int) -> int
    decreases data.len() - offset,
{
    if offset < 0 || offset >= data.len() {
        offset
    } else if data[offset] == 0 {
        offset + 1
    } else if offset + data[offset] + 1 > data.len() {
        offset + data[offset] + 1
    } else {
        name_end(data, offset + data[offset] + 1)
    }
}

/// Index just behind the name of the first question.
pub open spec fn question_end(data: Seq<u8>) -> int {
    name_end(data, DNS_HEADER_SIZE as int)
}

/// The datagram is a query: the response bit of its flags is clear.
pub open spec fn is_query(data: Seq<u8>) -> bool {
    data.len() >= DNS_HEADER_SIZE && data[2] < 128
}

/// The recursion-desired bit of the flags is set.
pub open spec fn wants_recursion(data: Seq<u8>) -> bool {
    data[2] % 2 == 1
}

/// The first question asks for type ANY.
pub open spec fn is_any_query(data: Seq<u8>) -> bool {
    let end = question_end(data);
    data.len() >= 16 && end + 2 <= data.len() && be16(data[end], data[end + 1]) == QTYPE_ANY
}

/// The question section as a response repeats it: the name as far as the
/// datagram holds it, then type and class if all four bytes are there.
pub open spec fn question_echo(query: Seq<u8>) -> Seq<u8> {
    let end = question_end(query);
    if end + 4 <= query.len() {
        query.subrange(DNS_HEADER_SIZE as int, end + 4)
    } else if end <= query.len() {
        query.subrange(DNS_HEADER_SIZE as int, end)
    } else {
        query.subrange(DNS_HEADER_SIZE as int, query.len() as int)
    }
}

/// One A record for the queried name: 192.168.1.1, with a TTL of 60.
pub open spec fn a_record() -> Seq<u8> {
    seq![0xc0u8, 0x0c, 0, 1, 0, 1, 0, 0, 0, 60, 0, 4, 192, 168, 1, 1]
}

/// The header of a response with `answers` answers: the transaction ID and
/// the question count of the query, and the flags 0x8400.
pub open spec fn response_header(query: Seq<u8>, answers: u8) -> Seq<u8> {
    seq![query[0], query[1], 0x84u8, 0x00u8, query[4], query[5], 0u8, answers, 0u8, 0u8, 0u8, 0u8]
}

/// The response to an ordinary query of at least 12 bytes.
pub open spec fn simple_response(query: Seq<u8>) -> Seq<u8> {
    response_header(query, 1) + question_echo(query) + a_record()
}

/// The text of the TXT record with the given number.
pub open spec fn txt_data(i: u8) -> Seq<u8> {
    text_bytes("v=spf1 include:_spf.example.com include:_spf"@) + seq![(0x30 + i) as u8]
        + text_bytes(".example.com ~all"@)
}

/// A TXT record for the queried name.
pub open spec fn txt_record(i: u8) -> Seq<u8> {
    seq![0xc0u8, 0x0c, 0, 16, 0, 1, 0, 0, 0, 60, 0, (txt_data(i).len() + 1) as u8, txt_data(
        i,
    ).len() as u8] + txt_data(i)
}

/// An MX record for the queried name, with the exchange
/// `mail<i>.example.com`. The data length that it states is 20, one less
/// than the 21 bytes of preference and exchange that follow.
pub open spec fn mx_record(i: u8) -> Seq<u8> {
    seq![0xc0u8, 0x0c, 0, 15, 0, 1, 0, 0, 0, 60, 0, 20, 0, 10] + seq![5u8] + text_bytes("mail"@)
        + seq![(0x30 + i) as u8] + seq![7u8] + text_bytes("example"@) + seq![3u8] + text_bytes(
        "com"@,
    ) + seq![0u8]
}

/// The `i`-th of the records that are added to a large response: TXT for
/// even numbers, MX for odd ones.
pub open spec fn extra_record(i: u8) -> Seq<u8> {
    if i % 2 == 0 {
        txt_record(i)
    } else {
        mx_record(i)
    }
}

/// The first `n` added records, one after the other.
pub open spec fn extra_records(n: nat) -> Seq<u8>
    decreases n,
{
    if n == 0 {
        Seq::empty()
    } else {
        extra_records((n - 1) as nat) + extra_record((n - 1) as u8)
    }
}

/// The amplified response to a query for type ANY: ten answers, the A
/// record and nine more.
pub open spec fn large_response(query: Seq<u8>) -> Seq<u8> {
    response_header(query, 10) + question_echo(query) + a_record() + extra_records(9)
}

/// The patterns that the responder recognizes in a datagram.
pub open spec fn dns_attacks(data: Seq<u8>) -> Seq<AttackKind> {
    if !is_query(data) {
        Seq::empty()
    } else {
        (if data.len() < DNS_SMALL_QUERY && wants_recursion(data) {
            seq![AttackKind::DnsAmplification]
        } else {
            Seq::empty()
        }) + (if is_any_query(data) {
            seq![AttackKind::DnsAnyQuery]
        } else {
            Seq::empty()
        })
    }
}

/// The response to a datagram: none to what is no query of at least 12
/// bytes; the large answer to a query for ANY if recursion is allowed, none
/// if it is not; the simple answer to every other query.
pub open spec fn dns_response(allow_recursion: bool, data: Seq<u8>) -> Option<Seq<u8>> {
    if !is_query(data) {
        None
    } else if is_any_query(data) {
        if allow_recursion {
            Some(large_response(data))
        } else {
            None
        }
    } else {
        Some(simple_response(data))
    }
}

/// Finds the end of the name of the first question, if the name ends
/// within the datagram.
fn find_question_end(data: &[u8]) -> (end: Option<usize>)
    requires
        data@.len() >= DNS_HEADER_SIZE,
    ensures
        end matches Some(e) ==> e == question_end(data@) && DNS_HEADER_SIZE <= e <= data@.len(),
        end is None ==> question_end(data@) > data@.len(),
{
    let mut offset: usize = DNS_HEADER_SIZE;
    while offset < data.len()
        invariant
            DNS_HEADER_SIZE <= offset <= data@.len(),
            question_end(data@) == name_end(data@, offset as int),
        decreases data@.len() - offset,
    {
        let len = data[offset] as usize;
        if len == 0 {
            return Some(offset + 1);
        }
        if len + 1 > data.len() - offset {
            return None;
        }
        offset += len + 1;
    }
    Some(offset)
}

/// Whether the first question of a datagram asks for type ANY.
pub fn contains_any_query(data: &[u8]) -> (any: bool)
    ensures
        any == is_any_query(data@),
{
    if data.len() < 16 {
        return false;
    }
    match find_question_end(data) {
        Some(end) => {
            if 2 <= data.len() - end {
                read_be16(data[end], data[end + 1]) == QTYPE_ANY
            } else {
                false
            }
        },
        None => false,
    }
}

/// Writes header, question section and A record of a response.
fn build_response_start(query: &[u8], answers: u8) -> (response: Vec<u8>)
    requires
        query@.len() >= DNS_HEADER_SIZE,
    ensures
        response@ == response_header(query@, answers) + question_echo(query@) + a_record(),
{
    let mut response: Vec<u8> = Vec::new();
    response.push(query[0]);
    response.push(query[1]);
    response.push(0x84);
    response.push(0x00);
    response.push(query[4]);
    response.push(query[5]);
    response.push(0);
    response.push(answers);
    response.push(0);
    response.push(0);
    response.push(0);
    response.push(0);
    assert(response@ =~= response_header(query@, answers));

    let stop = match find_question_end(query) {
        Some(end) => {
            if 4 <= query.len() - end {
                end + 4
            } else {
                end
            }
        },
        None => query.len(),
    };
    let question = copy_bytes(query, DNS_HEADER_SIZE, stop);
    extend_bytes(&mut response, question.as_slice());
    assert(question@ == question_echo(query@));

    let answer: [u8; 16] = [0xc0, 0x0c, 0, 1, 0, 1, 0, 0, 0, 60, 0, 4, 192, 168, 1, 1];
    assert(answer@ =~= a_record());
    extend_bytes(&mut response, answer.as_slice());
    response
}

/// The response to an ordinary query: one A record.
pub fn build_simple_response(query: &[u8]) -> (response: Vec<u8>)
    requires
        query@.len() >= DNS_HEADER_SIZE,
    ensures
        response@ == simple_response(query@),
{
    build_response_start(query, 1)
}

/// Appends the `i`-th added record.
fn push_extra_record(response: &mut Vec<u8>, i: u8)
    requires
        i < 9,
    ensures
        final(response)@ == old(response)@ + extra_record(i),
{
    let digit: u8 = 0x30 + i;
    if i % 2 == 0 {
        let mut text: Vec<u8> = Vec::new();
        extend_str(&mut text, "v=spf1 include:_spf.example.com include:_spf");
        text.push(digit);
        extend_str(&mut text, ".example.com ~all");
        assert(text@ =~= txt_data(i));
        proof {
            lemma_txt_data_len(i);
        }
        let n = text.len();
        let head: [u8; 11] = [0xc0, 0x0c, 0, 16, 0, 1, 0, 0, 0, 60, 0];
        let ghost before = response@;
        extend_bytes(response, head.as_slice());
        response.push(((n + 1) % 256) as u8);
        response.push((n % 256) as u8);
        extend_bytes(response, text.as_slice());
        assert(response@ =~= before + txt_record(i));
    } else {
        let head: [u8; 14] = [0xc0, 0x0c, 0, 15, 0, 1, 0, 0, 0, 60, 0, 20, 0, 10];
        let ghost before = response@;
        extend_bytes(response, head.as_slice());
        response.push(5);
        extend_str(response, "mail");
        response.push(digit);
        response.push(7);
        extend_str(response, "example");
        response.push(3);
        extend_str(response, "com");
        response.push(0);
        assert(response@ =~= before + mx_record(i));
    }
}

/// The amplified response to a query for type ANY: ten answers.
pub fn build_large_response(query: &[u8]) -> (response: Vec<u8>)
    requires
        query@.len() >= DNS_HEADER_SIZE,
    ensures
        response@ == large_response(query@),
{
    let mut response = build_response_start(query, 10);
    let ghost start = response@;
    let mut i: u8 = 0;
    assert(start + extra_records(0) =~= start);
    while i < 9
        invariant
            i <= 9,
            response@ == start + extra_records(i as nat),
        decreases 9 - i,
    {
        push_extra_record(&mut response, i);
        assert(start + extra_records(i as nat) + extra_record(i) =~= start + extra_records(
            (i + 1) as nat,
        ));
        i += 1;
    }
    response
}

/// What the responder makes of one datagram.
pub fn handle_packet(config: &Config, data: &[u8]) -> (r: Reaction)
    ensures
        r.attacks@ == dns_attacks(data@),
        r.reply() == dns_response(config.protocols.dns.allow_recursion, data@),
        data@.len() < DNS_HEADER_SIZE ==> r.is_silent(),
{
    let mut attacks: Vec<AttackKind> = Vec::new();
    if data.len() < DNS_HEADER_SIZE {
        return Reaction { attacks, response: None };
    }
    if data[2] >= 128 {
        return Reaction { attacks, response: None };
    }
    if data.len() < DNS_SMALL_QUERY && data[2] % 2 == 1 {
        attacks.push(AttackKind::DnsAmplification);
    }
    let response = if contains_any_query(data) {
        attacks.push(AttackKind::DnsAnyQuery);
        if config.protocols.dns.allow_recursion {
            Some(build_large_response(data))
        } else {
            None
        }
    } else {
        Some(build_simple_response(data))
    };
    assert(attacks@ =~= dns_attacks(data@));
    Reaction { attacks, response }
}

/// The text of a TXT record is 62 bytes long.
pub proof fn lemma_txt_data_len(i: u8)
    requires
        i < 9,
    ensures
        txt_data(i).len() == 62,
{
    reveal_strlit("v=spf1 include:_spf.example.com include:_spf");
    reveal_strlit(".example.com ~all");
    crate::wire::lemma_ascii_text_bytes("v=spf1 include:_spf.example.com include:_spf"@);
    crate::wire::lemma_ascii_text_bytes(".example.com ~all"@);
}

/// An MX record is 33 bytes long.
pub proof fn lemma_mx_record_len(i: u8)
    ensures
        mx_record(i).len() == 33,
{
    reveal_strlit("mail");
    reveal_strlit("example");
    reveal_strlit("com");
    crate::wire::lemma_ascii_text_bytes("mail"@);
    crate::wire::lemma_ascii_text_bytes("example"@);
    crate::wire::lemma_ascii_text_bytes("com"@);
}

proof fn lemma_extra_records_len(n: nat)
    requires
        n <= 9,
    ensures
        extra_records(n).len() == 75 * ((n + 1) / 2) + 33 * (n / 2),
    decreases n,
{
    if n > 0 {
        lemma_extra_records_len((n - 1) as nat);
        lemma_txt_data_len((n - 1) as u8);
        lemma_mx_record_len((n - 1) as u8);
    }
}

proof fn lemma_name_end_bounds(data: Seq<u8>, offset: int)
    requires
        0 <= offset,
    ensures
        name_end(data, offset) >= offset,
    decreases data.len() - offset,
{
    if offset < data.len() && data[offset] != 0 && offset + data[offset] + 1 <= data.len() {
        lemma_name_end_bounds(data, offset + data[offset] + 1);
    }
}

/// A response is never longer than the query and a fixed number of bytes:
/// 16 more for the simple answer, 523 more for the large one.
pub proof fn lemma_response_len(allow_recursion: bool, data: Seq<u8>)
    ensures
        dns_response(allow_recursion, data) matches Some(r) ==> r.len() <= data.len() + (
        if is_any_query(data) {
            523int
        } else {
            16int
        }),
        data.len() >= DNS_HEADER_SIZE ==> large_response(data).len() == simple_response(
            data,
        ).len() + 507,
{
    lemma_extra_records_len(9);
    if data.len() >= DNS_HEADER_SIZE {
        lemma_name_end_bounds(data, DNS_HEADER_SIZE as int);
        assert(question_echo(data).len() <= data.len() - DNS_HEADER_SIZE);
    }
}

/// Every response repeats the transaction ID of the query and carries the
/// flags 0x8400.
pub proof fn lemma_response_header(allow_recursion: bool, data: Seq<u8>)
    ensures
        dns_response(allow_recursion, data) matches Some(r) ==> {
            &&& r.len() >= DNS_HEADER_SIZE
            &&& r.subrange(0, 2) == data.subrange(0, 2)
            &&& r[2] == 0x84u8
            &&& r[3] == 0x00u8
        },
{
    if dns_response(allow_recursion, data) is Some {
        let r = dns_response(allow_recursion, data)->0;
        let answers: u8 = if is_any_query(data) {
            10
        } else {
            1
        };
        let h = response_header(data, answers);
        assert(h.len() == 12);
        assert(r.len() >= 12);
        assert(r[0] == h[0]);
        assert(r[1] == h[1]);
        assert(r[2] == h[2]);
        assert(r[3] == h[3]);
        assert(r.subrange(0, 2) =~= data.subrange(0, 2));
    }
}

} // verus!
