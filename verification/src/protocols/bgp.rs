//! The BGP responder: message framing and the session state machine.

use crate::config::Config;
use crate::text::{ipv4_octets, parse_ipv4};
use crate::wire::{
    be16, be16_bytes, be32, extend_fill, filled, push_be16, read_be16, read_be32,
};
use vstd::prelude::*;

verus! {

pub const BGP_HEADER_SIZE: usize = 19;

pub const BGP_VERSION: u8 = 4;

pub const BGP_HOLD_TIME: u16 = 180;

pub const BGP_MSG_OPEN: u8 = 1;

pub const BGP_MSG_UPDATE: u8 = 2;

pub const BGP_MSG_NOTIFICATION: u8 = 3;

pub const BGP_MSG_KEEPALIVE: u8 = 4;

pub const BGP_MSG_ROUTE_REFRESH: u8 = 5;

/// The states of a BGP session.
#[derive(Debug, Clone, Copy, PartialEq, Eq, Structural)]
pub enum BgpState {
    Idle,
    Connect,
    Active,
    OpenSent,
    OpenConfirm,
    Established,
}

/// What the body of an OPEN message announces.
#[derive(Debug, Clone, Copy, PartialEq, Eq, Structural)]
pub struct BgpOpen {
    pub version: u8,
    pub asn: u16,
    pub hold_time: u16,
    /// The four bytes of the identifier as one number, first byte highest.
    pub router_id: u32,
}

/// Error code and subcode of a NOTIFICATION.
#[derive(Debug, Clone, Copy, PartialEq, Eq, Structural)]
pub struct BgpError {
    pub code: u8,
    pub subcode: u8,
}

/// A message as the responder reads it.
#[derive(Debug, Clone, Copy, PartialEq, Eq, Structural)]
pub enum BgpMessage {
    /// Fewer bytes than a header; skipped.
    TooShort,
    /// An OPEN, with what its body announces if the body is long enough.
    Open { details: Option<BgpOpen> },
    /// An UPDATE whose body has `length` bytes: a possible route hijack.
    Update { length: usize },
    /// A NOTIFICATION, with error code and subcode if the body holds them.
    Notification { error: Option<BgpError> },
    Keepalive,
    RouteRefresh,
    Unknown { kind: u8 },
}

/// The 16 bytes that open every message.
pub open spec fn marker() -> Seq<u8> {
    filled(0xFF, 16)
}

/// A message of the given type with the given body.
pub open spec fn bgp_message(kind: u8, body: Seq<u8>) -> Seq<u8> {
    marker() + be16_bytes((BGP_HEADER_SIZE + body.len()) as u16) + seq![kind] + body
}

/// The identifier that a configured router ID stands for; a text that is
/// no dotted IPv4 address stands for 192.168.1.1.
pub open spec fn router_id_bytes(text: Seq<char>) -> Seq<u8> {
    match ipv4_octets(text) {
        Some(octets) => octets,
        None => seq![192u8, 168u8, 1u8, 1u8],
    }
}

/// The body of the OPEN that the responder sends: version 4, the low 16
/// bits of the AS number, a hold time of 180 seconds, the router ID, and no
/// optional parameters.
pub open spec fn open_body(asn: u32, router_id: Seq<char>) -> Seq<u8> {
    seq![BGP_VERSION] + be16_bytes((asn % 0x1_0000) as u16) + be16_bytes(BGP_HOLD_TIME)
        + router_id_bytes(router_id) + seq![0u8]
}

pub open spec fn open_message(asn: u32, router_id: Seq<char>) -> Seq<u8> {
    bgp_message(BGP_MSG_OPEN, open_body(asn, router_id))
}

pub open spec fn keepalive_message() -> Seq<u8> {
    bgp_message(BGP_MSG_KEEPALIVE, Seq::empty())
}

/// A message starts with the marker and states its own length.
pub open spec fn well_framed(msg: Seq<u8>) -> bool {
    &&& msg.len() >= BGP_HEADER_SIZE
    &&& forall|i: int| 0 <= i < 16 ==> msg[i] == 0xFFu8
    &&& be16(msg[16], msg[17]) == msg.len()
}

/// Where the body of a received message ends: at the length that the
/// header states, but not before the header's end nor after the last byte
/// that was read.
pub open spec fn body_end(data: Seq<u8>) -> int {
    let stated = be16(data[16], data[17]) as int;
    if stated < BGP_HEADER_SIZE {
        BGP_HEADER_SIZE as int
    } else if stated > data.len() {
        data.len() as int
    } else {
        stated
    }
}

/// The body of a received message of at least 19 bytes.
pub open spec fn message_body(data: Seq<u8>) -> Seq<u8> {
    data.subrange(BGP_HEADER_SIZE as int, body_end(data))
}

/// What the body of an OPEN announces, if it has the nine bytes for it.
pub open spec fn open_details(body: Seq<u8>) -> Option<BgpOpen> {
    if body.len() < 9 {
        None
    } else {
        Some(
            BgpOpen {
                version: body[0],
                asn: be16(body[1], body[2]),
                hold_time: be16(body[3], body[4]),
                router_id: be32(body[5], body[6], body[7], body[8]),
            },
        )
    }
}

/// Error code and subcode of a NOTIFICATION, if its body holds both.
pub open spec fn notification_error(body: Seq<u8>) -> Option<BgpError> {
    if body.len() < 2 {
        None
    } else {
        Some(BgpError { code: body[0], subcode: body[1] })
    }
}

/// How the responder reads what one read of the connection returned.
pub open spec fn received_message(data: Seq<u8>) -> BgpMessage {
    if data.len() < BGP_HEADER_SIZE {
        BgpMessage::TooShort
    } else if data[18] == BGP_MSG_OPEN {
        BgpMessage::Open { details: open_details(message_body(data)) }
    } else if data[18] == BGP_MSG_UPDATE {
        BgpMessage::Update { length: message_body(data).len() as usize }
    } else if data[18] == BGP_MSG_NOTIFICATION {
        BgpMessage::Notification { error: notification_error(message_body(data)) }
    } else if data[18] == BGP_MSG_KEEPALIVE {
        BgpMessage::Keepalive
    } else if data[18] == BGP_MSG_ROUTE_REFRESH {
        BgpMessage::RouteRefresh
    } else {
        BgpMessage::Unknown { kind: data[18] }
    }
}

/// The state after a message: an OPEN establishes the session, a
/// NOTIFICATION ends it, everything else leaves it where it is.
pub open spec fn state_after(state: BgpState, msg: BgpMessage) -> BgpState {
    match msg {
        BgpMessage::Open { .. } => BgpState::Established,
        BgpMessage::Notification { .. } => BgpState::Idle,
        _ => state,
    }
}

/// The answer to a message: a KEEPALIVE to an OPEN and to a KEEPALIVE.
pub open spec fn reply_to(msg: BgpMessage) -> Option<Seq<u8>> {
    match msg {
        BgpMessage::Open { .. } => Some(keepalive_message()),
        BgpMessage::Keepalive => Some(keepalive_message()),
        _ => None,
    }
}

/// Whether the connection is closed after a message.
pub open spec fn closes(msg: BgpMessage) -> bool {
    msg is Notification
}

/// What the responder does about one received message.
pub struct BgpReaction {
    pub received: BgpMessage,
    pub reply: Option<Vec<u8>>,
    pub close: bool,
}

impl BgpReaction {
    pub open spec fn reply_bytes(&self) -> Option<Seq<u8>> {
        match self.reply {
            Some(bytes) => Some(bytes@),
            None => None,
        }
    }
}

/// One BGP session, from accept to close.
pub struct BgpSession {
    state: BgpState,
}

fn push_marker(msg: &mut Vec<u8>)
    ensures
        final(msg)@ == old(msg)@ + marker(),
{
    extend_fill(msg, 0xFF, 16);
}

/// The OPEN message that is sent as soon as a connection is accepted.
pub fn build_open_message(config: &Config) -> (msg: Vec<u8>)
    ensures
        msg@ == open_message(config.protocols.bgp.asn, config.protocols.bgp.router_id@),
        msg@.len() == 29,
        well_framed(msg@),
{
    let mut msg: Vec<u8> = Vec::new();
    push_marker(&mut msg);
    push_be16(&mut msg, 29);
    msg.push(BGP_MSG_OPEN);
    msg.push(BGP_VERSION);
    let asn = (config.protocols.bgp.asn % 0x1_0000) as u16;
    push_be16(&mut msg, asn);
    push_be16(&mut msg, BGP_HOLD_TIME);
    let router_id = match parse_ipv4(config.protocols.bgp.router_id.as_str()) {
        Some(octets) => octets,
        None => [192, 168, 1, 1],
    };
    msg.push(router_id[0]);
    msg.push(router_id[1]);
    msg.push(router_id[2]);
    msg.push(router_id[3]);
    msg.push(0);
    proof {
        let rid = router_id_bytes(config.protocols.bgp.router_id@);
        assert(rid =~= seq![router_id[0], router_id[1], router_id[2], router_id[3]]);
        assert(msg@ =~= open_message(
            config.protocols.bgp.asn,
            config.protocols.bgp.router_id@,
        ));
        lemma_open_message_framed(config.protocols.bgp.asn, config.protocols.bgp.router_id@);
    }
    msg
}

/// The KEEPALIVE message: a header and nothing else.
pub fn build_keepalive() -> (msg: Vec<u8>)
    ensures
        msg@ == keepalive_message(),
        msg@.len() == BGP_HEADER_SIZE,
        well_framed(msg@),
{
    let mut msg: Vec<u8> = Vec::new();
    push_marker(&mut msg);
    push_be16(&mut msg, 19);
    msg.push(BGP_MSG_KEEPALIVE);
    proof {
        assert(msg@ =~= keepalive_message());
        lemma_keepalive_framed();
    }
    msg
}

/// Reads what the body of an OPEN announces.
pub fn parse_open(body: &[u8]) -> (details: Option<BgpOpen>)
    ensures
        details == open_details(body@),
{
    if body.len() < 9 {
        return None;
    }
    Some(
        BgpOpen {
            version: body[0],
            asn: read_be16(body[1], body[2]),
            hold_time: read_be16(body[3], body[4]),
            router_id: read_be32(body[5], body[6], body[7], body[8]),
        },
    )
}

/// Reads error code and subcode of a NOTIFICATION.
pub fn parse_notification(body: &[u8]) -> (error: Option<BgpError>)
    ensures
        error == notification_error(body@),
{
    if body.len() < 2 {
        return None;
    }
    Some(BgpError { code: body[0], subcode: body[1] })
}

/// Reads one message from the bytes that one read returned.
pub fn read_message(data: &[u8]) -> (msg: BgpMessage)
    ensures
        msg == received_message(data@),
{
    if data.len() < BGP_HEADER_SIZE {
        return BgpMessage::TooShort;
    }
    let kind = data[18];
    let stated = read_be16(data[16], data[17]) as usize;
    let end = if stated < BGP_HEADER_SIZE {
        BGP_HEADER_SIZE
    } else if stated > data.len() {
        data.len()
    } else {
        stated
    };
    let body = vstd::slice::slice_subrange(data, BGP_HEADER_SIZE, end);
    if kind == BGP_MSG_OPEN {
        BgpMessage::Open { details: parse_open(body) }
    } else if kind == BGP_MSG_UPDATE {
        BgpMessage::Update { length: body.len() }
    } else if kind == BGP_MSG_NOTIFICATION {
        BgpMessage::Notification { error: parse_notification(body) }
    } else if kind == BGP_MSG_KEEPALIVE {
        BgpMessage::Keepalive
    } else if kind == BGP_MSG_ROUTE_REFRESH {
        BgpMessage::RouteRefresh
    } else {
        BgpMessage::Unknown { kind }
    }
}

impl BgpSession {
    pub closed spec fn state(&self) -> BgpState {
        self.state
    }

    /// A session that has not started.
    pub fn new() -> (s: BgpSession)
        ensures
            s.state() == BgpState::Idle,
    {
        BgpSession { state: BgpState::Idle }
    }

    pub fn current_state(&self) -> (state: BgpState)
        ensures
            state == self.state(),
    {
        self.state
    }

    /// A connection was accepted: the OPEN to send at once. The session
    /// then waits for the peer's OPEN.
    pub fn accept(&mut self, config: &Config) -> (msg: Vec<u8>)
        ensures
            final(self).state() == BgpState::OpenSent,
            msg@ == open_message(config.protocols.bgp.asn, config.protocols.bgp.router_id@),
            well_framed(msg@),
    {
        self.state = BgpState::Connect;
        let msg = build_open_message(config);
        self.state = BgpState::OpenSent;
        msg
    }

    /// One read of the connection returned `data`: what it holds, what to
    /// answer, and whether to close.
    pub fn receive(&mut self, data: &[u8]) -> (r: BgpReaction)
        ensures
            r.received == received_message(data@),
            r.reply_bytes() == reply_to(r.received),
            r.close == closes(r.received),
            final(self).state() == state_after(old(self).state(), r.received),
            r.reply_bytes() matches Some(m) ==> well_framed(m),
    {
        let received = read_message(data);
        match received {
            BgpMessage::Open { details } => {
                self.state = BgpState::Established;
                BgpReaction { received, reply: Some(build_keepalive()), close: false }
            },
            BgpMessage::Keepalive => BgpReaction {
                received,
                reply: Some(build_keepalive()),
                close: false,
            },
            BgpMessage::Notification { error } => {
                self.state = BgpState::Idle;
                BgpReaction { received, reply: None, close: true }
            },
            _ => BgpReaction { received, reply: None, close: false },
        }
    }

    /// The peer closed the connection.
    pub fn close(&mut self)
        ensures
            final(self).state() == BgpState::Idle,
    {
        self.state = BgpState::Idle;
    }
}

proof fn lemma_framed(kind: u8, body: Seq<u8>)
    requires
        BGP_HEADER_SIZE + body.len() <= 0xFFFF,
    ensures
        well_framed(bgp_message(kind, body)),
        bgp_message(kind, body).len() == BGP_HEADER_SIZE + body.len(),
{
    let m = bgp_message(kind, body);
    let n = (BGP_HEADER_SIZE + body.len()) as u16;
    assert(m.len() == 19 + body.len());
    assert forall|i: int| 0 <= i < 16 implies m[i] == 0xFFu8 by {
        assert(m[i] == marker()[i]);
    }
    assert(m[16] == be16_bytes(n)[0]);
    assert(m[17] == be16_bytes(n)[1]);
}

/// Every OPEN that the responder emits starts with the marker and states
/// its own length.
pub proof fn lemma_open_message_framed(asn: u32, router_id: Seq<char>)
    ensures
        well_framed(open_message(asn, router_id)),
        open_message(asn, router_id).len() == 29,
{
    assert(router_id_bytes(router_id).len() == 4);
    lemma_framed(BGP_MSG_OPEN, open_body(asn, router_id));
}

/// The KEEPALIVE that the responder emits starts with the marker and
/// states its own length.
pub proof fn lemma_keepalive_framed()
    ensures
        well_framed(keepalive_message()),
        keepalive_message().len() == BGP_HEADER_SIZE,
{
    lemma_framed(BGP_MSG_KEEPALIVE, Seq::empty());
}

/// Whatever the responder answers to a message is well framed.
pub proof fn lemma_replies_framed(msg: BgpMessage)
    ensures
        reply_to(msg) matches Some(m) ==> well_framed(m),
{
    lemma_keepalive_framed();
}

/// An established session stays established until a NOTIFICATION.
pub proof fn lemma_established_absorbing(msg: BgpMessage)
    requires
        !(msg is Notification),
    ensures
        state_after(BgpState::Established, msg) == BgpState::Established,
{
}

} // verus!
