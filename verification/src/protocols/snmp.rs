//! The SNMP responder.

use crate::config::Config;
use crate::protocols::{AttackKind, Reaction};
use crate::text::{
    bounded_decimal, decimal_value, digit_value, find_char, is_digit, parse_decimal, split_fields,
    split_on, to_chars, views,
};
use crate::wire::{extend_bytes, extend_str, text_bytes};
use vstd::prelude::*;

verus! {

/// A datagram shorter than this is discarded.
pub const SNMP_MIN_SIZE: usize = 10;

/// A request below this size looks like an amplification attempt.
pub const SNMP_SMALL_REQUEST: usize = 100;

/// The tag of a GetBulkRequest PDU.
pub const TAG_GET_BULK: u8 = 0xA5;

/// The tag of a GetResponse PDU.
pub const TAG_GET_RESPONSE: u8 = 0xA2;

pub const TAG_SEQUENCE: u8 = 0x30;

pub const TAG_INTEGER: u8 = 0x02;

pub const TAG_OCTET_STRING: u8 = 0x04;

pub const TAG_OID: u8 = 0x06;

/// Number of variable bindings in a bulk response.
pub const BULK_VARBINDS: usize = 20;

/// Number of different fake variables; a bulk response cycles through them.
pub const FAKE_VARIABLES: usize = 6;

/// The byte 0xA5 occurs somewhere in the datagram.
pub open spec fn has_get_bulk(data: Seq<u8>) -> bool {
    exists|i: int| 0 <= i < data.len() && data[i] == TAG_GET_BULK
}

/// The BER encoding of a length: one byte below 128, `0x82` and two bytes
/// below 65536, `0x84` and four bytes (the length modulo 2^32) from there.
pub open spec fn ber_length(n: nat) -> Seq<u8> {
    if n < 128 {
        seq![n as u8]
    } else if n < 0x1_0000 {
        seq![0x82u8, (n / 256) as u8, (n % 256) as u8]
    } else {
        seq![
            0x84u8,
            (n / 0x100_0000 % 256) as u8,
            (n / 0x1_0000 % 256) as u8,
            (n / 0x100 % 256) as u8,
            (n % 256) as u8,
        ]
    }
}

/// A BER element: tag, length, content.
pub open spec fn tlv(tag: u8, content: Seq<u8>) -> Seq<u8> {
    seq![tag] + ber_length(content.len()) + content
}

/// The numbers of a dotted object identifier; a field that is no decimal
/// number of 32 bits is passed over.
pub open spec fn oid_arcs_of(fields: Seq<Seq<char>>) -> Seq<u32>
    decreases fields.len(),
{
    if fields.len() == 0 {
        Seq::empty()
    } else {
        let rest = oid_arcs_of(fields.drop_last());
        match bounded_decimal(fields.last(), u32::MAX as nat) {
            Some(v) => rest.push(v as u32),
            None => rest,
        }
    }
}

pub open spec fn oid_arcs(text: Seq<char>) -> Seq<u32> {
    oid_arcs_of(split_on(text, '.'))
}

/// The first byte of a two-byte number: the bits above the low seven, with
/// the continuation bit set.
pub open spec fn arc_high_byte(arc: u32) -> u8 {
    let h = arc / 128 % 256;
    if h < 128 {
        (h + 128) as u8
    } else {
        h as u8
    }
}

/// One number of an object identifier: one byte below 128, two bytes
/// otherwise.
pub open spec fn arc_bytes(arc: u32) -> Seq<u8> {
    if arc < 128 {
        seq![arc as u8]
    } else {
        seq![arc_high_byte(arc), (arc % 128) as u8]
    }
}

pub open spec fn arcs_bytes(arcs: Seq<u32>) -> Seq<u8>
    decreases arcs.len(),
{
    if arcs.len() == 0 {
        Seq::empty()
    } else {
        arcs_bytes(arcs.drop_last()) + arc_bytes(arcs.last())
    }
}

/// The content of an object identifier: the first two numbers in one
/// byte, then the others. Fewer than two numbers stand for `1.3`.
pub open spec fn oid_bytes(arcs: Seq<u32>) -> Seq<u8> {
    if arcs.len() < 2 {
        seq![0x2bu8]
    } else {
        seq![((40 * arcs[0] + arcs[1]) % 256) as u8] + arcs_bytes(arcs.skip(2))
    }
}

/// A variable binding: an object identifier and an octet string.
pub open spec fn varbind(oid: Seq<char>, value: Seq<char>) -> Seq<u8> {
    tlv(
        TAG_SEQUENCE,
        tlv(TAG_OID, oid_bytes(oid_arcs(oid))) + tlv(TAG_OCTET_STRING, text_bytes(value)),
    )
}

/// A GetResponse message of version 2c and community `public`, with
/// request ID 1 and no error, around the given variable bindings.
pub open spec fn get_response(varbinds: Seq<u8>) -> Seq<u8> {
    tlv(
        TAG_SEQUENCE,
        seq![TAG_INTEGER, 1u8, 1u8] + tlv(TAG_OCTET_STRING, text_bytes("public"@)) + tlv(
            TAG_GET_RESPONSE,
            seq![TAG_INTEGER, 1u8, 1u8, TAG_INTEGER, 1u8, 0u8, TAG_INTEGER, 1u8, 0u8] + tlv(
                TAG_SEQUENCE,
                varbinds,
            ),
        ),
    )
}

/// The answer to an ordinary request: sysDescr.0 is `Cisco`.
pub open spec fn simple_response() -> Seq<u8> {
    get_response(varbind("1.3.6.1.2.1.1.1.0"@, "Cisco"@))
}

/// The object identifier of the `k`-th fake variable, counted from zero.
pub open spec fn fake_oid(k: nat) -> Seq<char> {
    if k % 6 == 0 {
        "1.3.6.1.2.1.1.1.0"@
    } else if k % 6 == 1 {
        "1.3.6.1.2.1.1.2.0"@
    } else if k % 6 == 2 {
        "1.3.6.1.2.1.1.3.0"@
    } else if k % 6 == 3 {
        "1.3.6.1.2.1.1.4.0"@
    } else if k % 6 == 4 {
        "1.3.6.1.2.1.1.5.0"@
    } else {
        "1.3.6.1.2.1.1.6.0"@
    }
}

/// The value of the `k`-th fake variable, counted from zero.
pub open spec fn fake_value(k: nat) -> Seq<char> {
    if k % 6 == 0 {
        "Cisco IOS Software, C3750 Software (C3750-IPSERVICESK9-M), Version 15.0(2)SE11"@
    } else if k % 6 == 1 {
        "1.3.6.1.4.1.9.1.516"@
    } else if k % 6 == 2 {
        "123456789"@
    } else if k % 6 == 3 {
        "Network Administrator admin@example.com"@
    } else if k % 6 == 4 {
        "router.example.com"@
    } else {
        "Data Center Room 42 Rack 7"@
    }
}

/// The first `n` variable bindings of a bulk response.
pub open spec fn bulk_varbinds(n: nat) -> Seq<u8>
    decreases n,
{
    if n == 0 {
        Seq::empty()
    } else {
        bulk_varbinds((n - 1) as nat) + varbind(
            fake_oid((n - 1) as nat),
            fake_value((n - 1) as nat),
        )
    }
}

/// The amplified answer to a GetBulkRequest: twenty variable bindings.
pub open spec fn bulk_response() -> Seq<u8> {
    get_response(bulk_varbinds(BULK_VARBINDS as nat))
}

/// The patterns that the responder recognizes in a datagram.
pub open spec fn snmp_attacks(data: Seq<u8>) -> Seq<AttackKind> {
    if data.len() < SNMP_MIN_SIZE {
        Seq::empty()
    } else {
        (if data.len() < SNMP_SMALL_REQUEST {
            seq![AttackKind::SnmpAmplification]
        } else {
            Seq::empty()
        }) + (if has_get_bulk(data) {
            seq![AttackKind::SnmpGetBulk]
        } else {
            Seq::empty()
        })
    }
}

/// The response to a datagram: none below ten bytes, the bulk response to
/// a GetBulkRequest, the simple response to everything else.
pub open spec fn snmp_reply(data: Seq<u8>) -> Option<Seq<u8>> {
    if data.len() < SNMP_MIN_SIZE {
        None
    } else if has_get_bulk(data) {
        Some(bulk_response())
    } else {
        Some(simple_response())
    }
}

/// Whether the tag of a GetBulkRequest occurs in the datagram.
pub fn contains_get_bulk(data: &[u8]) -> (found: bool)
    ensures
        found == has_get_bulk(data@),
{
    let mut i: usize = 0;
    while i < data.len()
        invariant
            i <= data@.len(),
            forall|k: int| 0 <= k < i ==> data@[k] != TAG_GET_BULK,
        decreases data@.len() - i,
    {
        if data[i] == TAG_GET_BULK {
            return true;
        }
        i += 1;
    }
    false
}

/// Appends the BER encoding of a length.
fn push_ber_length(buf: &mut Vec<u8>, n: usize)
    ensures
        final(buf)@ == old(buf)@ + ber_length(n as nat),
{
    if n < 128 {
        buf.push(n as u8);
    } else if n < 0x1_0000 {
        buf.push(0x82);
        buf.push((n / 256) as u8);
        buf.push((n % 256) as u8);
    } else {
        buf.push(0x84);
        buf.push((n / 0x100_0000 % 256) as u8);
        buf.push((n / 0x1_0000 % 256) as u8);
        buf.push((n / 0x100 % 256) as u8);
        buf.push((n % 256) as u8);
    }
    assert(buf@ =~= old(buf)@ + ber_length(n as nat));
}

/// Appends a BER element with the given tag and content.
pub fn push_tlv(buf: &mut Vec<u8>, tag: u8, content: &[u8])
    ensures
        final(buf)@ == old(buf)@ + tlv(tag, content@),
{
    buf.push(tag);
    push_ber_length(buf, content.len());
    extend_bytes(buf, content);
    assert(buf@ =~= old(buf)@ + tlv(tag, content@));
}

/// The numbers of a dotted object identifier.
fn parse_oid(oid_str: &str) -> (arcs: Vec<u32>)
    ensures
        arcs@ == oid_arcs(oid_str@),
{
    let chars = to_chars(oid_str);
    let fields = split_fields(&chars, '.');
    let ghost all = views(fields@);
    let mut arcs: Vec<u32> = Vec::new();
    let mut i: usize = 0;
    assert(all.take(0) =~= Seq::<Seq<char>>::empty());
    while i < fields.len()
        invariant
            i <= fields@.len(),
            all == views(fields@),
            all == split_on(oid_str@, '.'),
            arcs@ == oid_arcs_of(all.take(i as int)),
        decreases fields@.len() - i,
    {
        proof {
            assert(all.take(i + 1).drop_last() =~= all.take(i as int));
            assert(all.take(i + 1).last() == fields@[i as int]@);
        }
        match parse_decimal(&fields[i], 0xFFFF_FFFF) {
            Some(v) => {
                arcs.push(v as u32);
            },
            None => {},
        }
        i += 1;
    }
    assert(all.take(fields@.len() as int) =~= all);
    arcs
}

/// The content of the object identifier that a dotted text writes.
pub fn encode_oid(oid_str: &str) -> (encoded: Vec<u8>)
    ensures
        encoded@ == oid_bytes(oid_arcs(oid_str@)),
{
    let parts = parse_oid(oid_str);
    let mut encoded: Vec<u8> = Vec::new();
    if parts.len() < 2 {
        encoded.push(0x2b);
        assert(encoded@ =~= oid_bytes(parts@));
        return encoded;
    }
    encoded.push(((40 * (parts[0] as u64) + parts[1] as u64) % 256) as u8);
    let ghost rest = parts@.skip(2);
    let mut i: usize = 2;
    assert(rest.take(0) =~= Seq::<u32>::empty());
    while i < parts.len()
        invariant
            2 <= i <= parts@.len(),
            rest == parts@.skip(2),
            encoded@ == seq![((40 * parts@[0] + parts@[1]) % 256) as u8] + arcs_bytes(
                rest.take(i - 2),
            ),
        decreases parts@.len() - i,
    {
        let num = parts[i];
        let ghost before = encoded@;
        proof {
            assert(rest.take(i - 1).drop_last() =~= rest.take(i - 2));
            assert(rest.take(i - 1).last() == num);
        }
        if num < 128 {
            encoded.push(num as u8);
        } else {
            let h = num / 128 % 256;
            if h < 128 {
                encoded.push((h + 128) as u8);
            } else {
                encoded.push(h as u8);
            }
            encoded.push((num % 128) as u8);
        }
        assert(encoded@ =~= before + arc_bytes(num));
        i += 1;
    }
    assert(rest.take(parts@.len() - 2) =~= rest);
    encoded
}

/// Appends one variable binding.
fn push_varbind(buf: &mut Vec<u8>, oid_str: &str, value: &str)
    ensures
        final(buf)@ == old(buf)@ + varbind(oid_str@, value@),
{
    let oid = encode_oid(oid_str);
    let mut content: Vec<u8> = Vec::new();
    push_tlv(&mut content, TAG_OID, oid.as_slice());
    let mut text: Vec<u8> = Vec::new();
    extend_str(&mut text, value);
    push_tlv(&mut content, TAG_OCTET_STRING, text.as_slice());
    assert(text@ =~= text_bytes(value@));
    push_tlv(buf, TAG_SEQUENCE, content.as_slice());
}

/// Wraps variable bindings into a GetResponse message.
fn build_get_response(varbinds: &[u8]) -> (response: Vec<u8>)
    ensures
        response@ == get_response(varbinds@),
{
    let mut pdu: Vec<u8> = Vec::new();
    let head: [u8; 9] = [TAG_INTEGER, 1, 1, TAG_INTEGER, 1, 0, TAG_INTEGER, 1, 0];
    extend_bytes(&mut pdu, head.as_slice());
    push_tlv(&mut pdu, TAG_SEQUENCE, varbinds);

    let mut body: Vec<u8> = Vec::new();
    body.push(TAG_INTEGER);
    body.push(1);
    body.push(1);
    let mut community: Vec<u8> = Vec::new();
    extend_str(&mut community, "public");
    assert(community@ =~= text_bytes("public"@));
    push_tlv(&mut body, TAG_OCTET_STRING, community.as_slice());
    push_tlv(&mut body, TAG_GET_RESPONSE, pdu.as_slice());

    let mut response: Vec<u8> = Vec::new();
    push_tlv(&mut response, TAG_SEQUENCE, body.as_slice());
    proof {
        assert(head@ =~= seq![
            TAG_INTEGER,
            1u8,
            1u8,
            TAG_INTEGER,
            1u8,
            0u8,
            TAG_INTEGER,
            1u8,
            0u8,
        ]);
        assert(pdu@ =~= head@ + tlv(TAG_SEQUENCE, varbinds@));
        assert(body@ =~= seq![TAG_INTEGER, 1u8, 1u8] + tlv(TAG_OCTET_STRING, text_bytes("public"@))
            + tlv(TAG_GET_RESPONSE, pdu@));
        assert(response@ =~= tlv(TAG_SEQUENCE, body@));
    }
    response
}

/// The answer to an ordinary request. It does not depend on the request.
pub fn build_simple_response(request: &[u8]) -> (response: Vec<u8>)
    ensures
        response@ == simple_response(),
{
    let mut varbinds: Vec<u8> = Vec::new();
    push_varbind(&mut varbinds, "1.3.6.1.2.1.1.1.0", "Cisco");
    assert(varbinds@ =~= varbind("1.3.6.1.2.1.1.1.0"@, "Cisco"@));
    build_get_response(varbinds.as_slice())
}

/// Appends the `k`-th fake variable binding.
fn push_fake_varbind(buf: &mut Vec<u8>, k: usize)
    ensures
        final(buf)@ == old(buf)@ + varbind(fake_oid(k as nat), fake_value(k as nat)),
{
    let which = k % FAKE_VARIABLES;
    if which == 0 {
        push_varbind(
            buf,
            "1.3.6.1.2.1.1.1.0",
            "Cisco IOS Software, C3750 Software (C3750-IPSERVICESK9-M), Version 15.0(2)SE11",
        );
    } else if which == 1 {
        push_varbind(buf, "1.3.6.1.2.1.1.2.0", "1.3.6.1.4.1.9.1.516");
    } else if which == 2 {
        push_varbind(buf, "1.3.6.1.2.1.1.3.0", "123456789");
    } else if which == 3 {
        push_varbind(buf, "1.3.6.1.2.1.1.4.0", "Network Administrator admin@example.com");
    } else if which == 4 {
        push_varbind(buf, "1.3.6.1.2.1.1.5.0", "router.example.com");
    } else {
        push_varbind(buf, "1.3.6.1.2.1.1.6.0", "Data Center Room 42 Rack 7");
    }
}

/// The amplified answer to a GetBulkRequest. It does not depend on the
/// request.
pub fn build_bulk_response(request: &[u8]) -> (response: Vec<u8>)
    ensures
        response@ == bulk_response(),
{
    let mut varbinds: Vec<u8> = Vec::new();
    let mut k: usize = 0;
    while k < BULK_VARBINDS
        invariant
            k <= BULK_VARBINDS,
            varbinds@ == bulk_varbinds(k as nat),
        decreases BULK_VARBINDS - k,
    {
        push_fake_varbind(&mut varbinds, k);
        k += 1;
    }
    build_get_response(varbinds.as_slice())
}

/// What the responder makes of one datagram.
pub fn handle_packet(config: &Config, data: &[u8]) -> (r: Reaction)
    ensures
        r.attacks@ == snmp_attacks(data@),
        r.reply() == snmp_reply(data@),
        data@.len() < SNMP_MIN_SIZE ==> r.is_silent(),
{
    let mut attacks: Vec<AttackKind> = Vec::new();
    if data.len() < SNMP_MIN_SIZE {
        return Reaction { attacks, response: None };
    }
    if data.len() < SNMP_SMALL_REQUEST {
        attacks.push(AttackKind::SnmpAmplification);
    }
    let response = if contains_get_bulk(data) {
        attacks.push(AttackKind::SnmpGetBulk);
        build_bulk_response(data)
    } else {
        build_simple_response(data)
    };
    assert(attacks@ =~= snmp_attacks(data@));
    Reaction { attacks, response: Some(response) }
}

/// A text of single digits with a dot between each two.
pub open spec fn dotted_digits(t: Seq<char>) -> bool {
    &&& t.len() % 2 == 1
    &&& forall|i: int| 0 <= i < t.len() && i % 2 == 0 ==> is_digit(#[trigger] t[i])
    &&& forall|i: int| 0 <= i < t.len() && i % 2 == 1 ==> #[trigger] t[i] == '.'
}

/// The fields of dotted digits are the digits.
proof fn lemma_dotted_digits_fields(t: Seq<char>)
    requires
        dotted_digits(t),
    ensures
        split_on(t, '.').len() == (t.len() + 1) / 2,
        forall|k: int|
            0 <= k < (t.len() + 1) / 2 ==> #[trigger] split_on(t, '.')[k] == seq![t[2 * k]],
    decreases t.len(),
{
    assert(t[0] != '.');
    if t.len() == 1 {
        assert(find_char(t, '.', 1) == 1);
        assert(find_char(t, '.', 0) == 1);
        assert(split_on(t, '.') =~= seq![t]);
        assert(t =~= seq![t[0]]);
    } else {
        assert(t[1] == '.');
        assert(find_char(t, '.', 1) == 1);
        assert(find_char(t, '.', 0) == 1);
        let rest = t.skip(2);
        assert(dotted_digits(rest)) by {
            assert forall|i: int| 0 <= i < rest.len() && i % 2 == 0 implies is_digit(
                #[trigger] rest[i],
            ) by {
                assert(rest[i] == t[i + 2]);
            }
            assert forall|i: int| 0 <= i < rest.len() && i % 2 == 1 implies #[trigger] rest[i]
                == '.' by {
                assert(rest[i] == t[i + 2]);
            }
        }
        lemma_dotted_digits_fields(rest);
        assert(t.take(1) =~= seq![t[0]]);
        assert(split_on(t, '.') == seq![t.take(1)] + split_on(rest, '.'));
        assert forall|k: int| 0 <= k < (t.len() + 1) / 2 implies #[trigger] split_on(t, '.')[k]
            == seq![t[2 * k]] by {
            if k > 0 {
                assert(split_on(t, '.')[k] == split_on(rest, '.')[k - 1]);
                assert(rest[2 * (k - 1)] == t[2 * k]);
            }
        }
    }
}

/// Fields that are single digits stand for one number each.
proof fn lemma_digit_fields_arcs(fields: Seq<Seq<char>>)
    requires
        forall|k: int|
            0 <= k < fields.len() ==> (#[trigger] fields[k]).len() == 1 && is_digit(fields[k][0]),
    ensures
        oid_arcs_of(fields).len() == fields.len(),
        forall|k: int| 0 <= k < fields.len() ==> #[trigger] oid_arcs_of(fields)[k] < 10,
    decreases fields.len(),
{
    if fields.len() > 0 {
        let head = fields.drop_last();
        assert forall|k: int| 0 <= k < head.len() implies (#[trigger] head[k]).len() == 1
            && is_digit(head[k][0]) by {
            assert(head[k] == fields[k]);
        }
        lemma_digit_fields_arcs(head);
        let f = fields.last();
        assert(f == fields[fields.len() - 1]);
        assert(f.last() == f[0]);
        assert(decimal_value(f) == Some(digit_value(f[0])));
    }
}

/// Numbers below 128 take one byte each.
proof fn lemma_small_arcs_bytes(arcs: Seq<u32>)
    requires
        forall|k: int| 0 <= k < arcs.len() ==> #[trigger] arcs[k] < 128,
    ensures
        arcs_bytes(arcs).len() == arcs.len(),
    decreases arcs.len(),
{
    if arcs.len() > 0 {
        let head = arcs.drop_last();
        assert forall|k: int| 0 <= k < head.len() implies #[trigger] head[k] < 128 by {
            assert(head[k] == arcs[k]);
        }
        lemma_small_arcs_bytes(head);
        assert(arcs.last() == arcs[arcs.len() - 1]);
    }
}

/// An object identifier of nine single digits is encoded in eight bytes.
proof fn lemma_short_oid_len(t: Seq<char>)
    requires
        dotted_digits(t),
        t.len() == 17,
    ensures
        oid_bytes(oid_arcs(t)).len() == 8,
{
    lemma_dotted_digits_fields(t);
    let fields = split_on(t, '.');
    assert forall|k: int| 0 <= k < fields.len() implies (#[trigger] fields[k]).len() == 1
        && is_digit(fields[k][0]) by {
        assert(fields[k] == seq![t[2 * k]]);
    }
    lemma_digit_fields_arcs(fields);
    let arcs = oid_arcs(t);
    let rest = arcs.skip(2);
    assert forall|k: int| 0 <= k < rest.len() implies #[trigger] rest[k] < 128 by {
        assert(rest[k] == arcs[k + 2]);
    }
    lemma_small_arcs_bytes(rest);
}

/// Each fake variable has an identifier of eight bytes and a value that is
/// as many bytes long as its text has characters.
proof fn lemma_fake_varbind_len(k: nat)
    ensures
        varbind(fake_oid(k), fake_value(k)).len() == 14 + fake_value(k).len(),
        fake_value(k).len() == fake_value_len(k),
{
    reveal_strlit("1.3.6.1.2.1.1.1.0");
    reveal_strlit("1.3.6.1.2.1.1.2.0");
    reveal_strlit("1.3.6.1.2.1.1.3.0");
    reveal_strlit("1.3.6.1.2.1.1.4.0");
    reveal_strlit("1.3.6.1.2.1.1.5.0");
    reveal_strlit("1.3.6.1.2.1.1.6.0");
    reveal_strlit(
        "Cisco IOS Software, C3750 Software (C3750-IPSERVICESK9-M), Version 15.0(2)SE11",
    );
    reveal_strlit("1.3.6.1.4.1.9.1.516");
    reveal_strlit("123456789");
    reveal_strlit("Network Administrator admin@example.com");
    reveal_strlit("router.example.com");
    reveal_strlit("Data Center Room 42 Rack 7");
    lemma_short_oid_len(fake_oid(k));
    crate::wire::lemma_ascii_text_bytes(fake_value(k));
}

/// Number of characters of the value of the `k`-th fake variable.
pub open spec fn fake_value_len(k: nat) -> nat {
    if k % 6 == 0 {
        78
    } else if k % 6 == 1 {
        19
    } else if k % 6 == 2 {
        9
    } else if k % 6 == 3 {
        39
    } else if k % 6 == 4 {
        18
    } else {
        26
    }
}

/// Number of bytes of the first `n` variable bindings of a bulk response.
pub open spec fn bulk_varbinds_len(n: nat) -> nat
    decreases n,
{
    if n == 0 {
        0
    } else {
        bulk_varbinds_len((n - 1) as nat) + 14 + fake_value_len((n - 1) as nat)
    }
}

proof fn lemma_bulk_varbinds_len(n: nat)
    ensures
        bulk_varbinds(n).len() == bulk_varbinds_len(n),
    decreases n,
{
    if n > 0 {
        lemma_bulk_varbinds_len((n - 1) as nat);
        lemma_fake_varbind_len((n - 1) as nat);
    }
}

/// A GetResponse around 128 to 65000 bytes of variable bindings is 32
/// bytes longer than they are.
proof fn lemma_get_response_len(varbinds: Seq<u8>)
    requires
        128 <= varbinds.len() < 65000,
    ensures
        get_response(varbinds).len() == varbinds.len() + 32,
{
    reveal_strlit("public");
    crate::wire::lemma_ascii_text_bytes("public"@);
}

/// The responses have fixed sizes: 45 bytes the simple one, 976 bytes the
/// bulk one.
pub proof fn lemma_response_sizes()
    ensures
        simple_response().len() == 45,
        bulk_response().len() == 976,
{
    reveal_strlit("public");
    crate::wire::lemma_ascii_text_bytes("public"@);
    reveal_strlit("1.3.6.1.2.1.1.1.0");
    reveal_strlit("Cisco");
    lemma_short_oid_len("1.3.6.1.2.1.1.1.0"@);
    crate::wire::lemma_ascii_text_bytes("Cisco"@);
    assert(varbind("1.3.6.1.2.1.1.1.0"@, "Cisco"@).len() == 19);

    lemma_bulk_varbinds_len(20);
    assert(bulk_varbinds_len(20) == 944) by {
        reveal_with_fuel(bulk_varbinds_len, 21);
    }
    lemma_get_response_len(bulk_varbinds(20));
}

/// The length that an element states is the length of its content, in the
/// short form below 128 and in the long form up to 65535.
pub proof fn lemma_tlv_length(tag: u8, content: Seq<u8>)
    requires
        content.len() < 0x1_0000,
    ensures
        tlv(tag, content)[0] == tag,
        content.len() < 128 ==> tlv(tag, content).len() == content.len() + 2 && tlv(
            tag,
            content,
        )[1] == content.len(),
        content.len() >= 128 ==> tlv(tag, content).len() == content.len() + 4 && tlv(
            tag,
            content,
        )[1] == 0x82u8 && tlv(tag, content)[2] * 256 + tlv(tag, content)[3] == content.len(),
        tlv(tag, content).subrange(
            tlv(tag, content).len() - content.len(),
            tlv(tag, content).len() as int,
        ) == content,
{
    let t = tlv(tag, content);
    assert(t.subrange(t.len() - content.len(), t.len() as int) =~= content);
}

} // verus!
