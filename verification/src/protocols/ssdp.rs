//! The SSDP responder, which also stands for mDNS and WS-Discovery.

use crate::config::Config;
use crate::protocols::{AttackKind, Reaction};
use crate::wire::{contains_bytes, find_bytes, text_bytes};
use vstd::prelude::*;
use vstd::string::*;

verus! {

/// The start of every response block, up to the search target.
pub const SSDP_BLOCK_HEAD: &'static str =
    "HTTP/1.1 200 OK\r\n\
    CACHE-CONTROL: max-age=1800\r\n\
    EXT:\r\n\
    LOCATION: http://192.168.1.1:49152/description.xml\r\n\
    SERVER: Linux/3.14 UPnP/1.0 IpBridge/1.26.0\r\n\
    ST: ";

/// What stands between the search target and its repetition in the USN.
pub const SSDP_BLOCK_MIDDLE: &'static str =
    "\r\nUSN: uuid:12345678-1234-1234-1234-123456789abc::";

/// The end of every response block.
pub const SSDP_BLOCK_END: &'static str = "\r\n\r\n";

/// The datagram holds the method of a search request.
pub open spec fn is_msearch(data: Seq<u8>) -> bool {
    contains_bytes(data, text_bytes("M-SEARCH"@))
}

/// The datagram holds the method of an announcement.
pub open spec fn is_notify(data: Seq<u8>) -> bool {
    contains_bytes(data, text_bytes("NOTIFY"@))
}

/// One response block: an HTTP 200 with the headers CACHE-CONTROL, EXT,
/// LOCATION, SERVER, ST and USN, for the search target `st`.
pub open spec fn response_block(st: Seq<char>) -> Seq<char> {
    SSDP_BLOCK_HEAD@ + st + SSDP_BLOCK_MIDDLE@ + st + SSDP_BLOCK_END@
}

/// The answer to a search: one block each for the root device, the
/// configured device type, the WAN device, the WAN connection device, and
/// three services.
pub open spec fn msearch_response(device_type: Seq<char>) -> Seq<char> {
    response_block("upnp:rootdevice"@) + response_block(device_type) + response_block(
        "urn:schemas-upnp-org:device:WANDevice:1"@,
    ) + response_block("urn:schemas-upnp-org:device:WANConnectionDevice:1"@) + response_block(
        "urn:schemas-upnp-org:service:WANIPConnection:1"@,
    ) + response_block("urn:schemas-upnp-org:service:WANPPPConnection:1"@) + response_block(
        "urn:schemas-upnp-org:service:Layer3Forwarding:1"@,
    )
}

/// The patterns that the responder recognizes in a datagram.
pub open spec fn ssdp_attacks(data: Seq<u8>) -> Seq<AttackKind> {
    if is_msearch(data) {
        seq![AttackKind::SsdpMsearch]
    } else {
        Seq::empty()
    }
}

/// The response to a datagram: the answer to a search, none to anything
/// else.
pub open spec fn ssdp_reply(device_type: Seq<char>, data: Seq<u8>) -> Option<Seq<u8>> {
    if is_msearch(data) {
        Some(text_bytes(msearch_response(device_type)))
    } else {
        None
    }
}

fn push_block(out: &mut String, st: &str)
    ensures
        final(out)@ == old(out)@ + response_block(st@),
{
    out.append(SSDP_BLOCK_HEAD);
    out.append(st);
    out.append(SSDP_BLOCK_MIDDLE);
    out.append(st);
    out.append(SSDP_BLOCK_END);
    assert(out@ =~= old(out)@ + response_block(st@));
}

/// The answer to a search request.
pub fn build_msearch_response(config: &Config) -> (response: String)
    ensures
        response@ == msearch_response(config.protocols.ssdp.device_type@),
{
    let mut response = String::new();
    push_block(&mut response, "upnp:rootdevice");
    push_block(&mut response, config.protocols.ssdp.device_type.as_str());
    push_block(&mut response, "urn:schemas-upnp-org:device:WANDevice:1");
    push_block(&mut response, "urn:schemas-upnp-org:device:WANConnectionDevice:1");
    push_block(&mut response, "urn:schemas-upnp-org:service:WANIPConnection:1");
    push_block(&mut response, "urn:schemas-upnp-org:service:WANPPPConnection:1");
    push_block(&mut response, "urn:schemas-upnp-org:service:Layer3Forwarding:1");
    assert(response@ =~= msearch_response(config.protocols.ssdp.device_type@));
    response
}

/// Whether the datagram holds the method of a search request.
pub fn contains_msearch(data: &[u8]) -> (found: bool)
    ensures
        found == is_msearch(data@),
{
    find_bytes(data, "M-SEARCH".as_bytes())
}

/// Whether the datagram holds the method of an announcement.
pub fn contains_notify(data: &[u8]) -> (found: bool)
    ensures
        found == is_notify(data@),
{
    find_bytes(data, "NOTIFY".as_bytes())
}

/// What the responder makes of one datagram.
pub fn handle_packet(config: &Config, data: &[u8]) -> (r: Reaction)
    ensures
        r.attacks@ == ssdp_attacks(data@),
        r.reply() == ssdp_reply(config.protocols.ssdp.device_type@, data@),
        data@.len() == 0 ==> r.is_silent(),
{
    let mut attacks: Vec<AttackKind> = Vec::new();
    proof {
        if data@.len() == 0 {
            lemma_empty_has_no_msearch(data@);
        }
    }
    if contains_msearch(data) {
        attacks.push(AttackKind::SsdpMsearch);
        assert(attacks@ =~= ssdp_attacks(data@));
        let text = build_msearch_response(config);
        let response = text.as_str().as_bytes_vec();
        Reaction { attacks, response: Some(response) }
    } else {
        Reaction { attacks, response: None }
    }
}

/// The answer to a search has 1935 characters besides the two mentions
/// of the configured device type.
pub proof fn lemma_msearch_response_len(device_type: Seq<char>)
    ensures
        msearch_response(device_type).len() == 1935 + 2 * device_type.len(),
{
    reveal_strlit(
        "HTTP/1.1 200 OK\r\n\
        CACHE-CONTROL: max-age=1800\r\n\
        EXT:\r\n\
        LOCATION: http://192.168.1.1:49152/description.xml\r\n\
        SERVER: Linux/3.14 UPnP/1.0 IpBridge/1.26.0\r\n\
        ST: ",
    );
    reveal_strlit("\r\nUSN: uuid:12345678-1234-1234-1234-123456789abc::");
    reveal_strlit("\r\n\r\n");
    reveal_strlit("upnp:rootdevice");
    reveal_strlit("urn:schemas-upnp-org:device:WANDevice:1");
    reveal_strlit("urn:schemas-upnp-org:device:WANConnectionDevice:1");
    reveal_strlit("urn:schemas-upnp-org:service:WANIPConnection:1");
    reveal_strlit("urn:schemas-upnp-org:service:WANPPPConnection:1");
    reveal_strlit("urn:schemas-upnp-org:service:Layer3Forwarding:1");
    assert(response_block(device_type).len() == 207 + 2 * device_type.len());
}

/// An empty datagram holds no search request.
pub proof fn lemma_empty_has_no_msearch(data: Seq<u8>)
    requires
        data.len() == 0,
    ensures
        !is_msearch(data),
{
    reveal_strlit("M-SEARCH");
    crate::wire::lemma_ascii_text_bytes("M-SEARCH"@);
}

} // verus!
