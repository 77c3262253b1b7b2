//! The protocol responders: for each datagram or message, what was
//! observed and which bytes go back.

pub mod amplification;
pub mod bgp;
pub mod dns;
pub mod memcached;
pub mod ntp;
pub mod snmp;
pub mod ssdp;

use crate::classifier::{PORT_MDNS, PORT_WS_DISCOVERY};
use crate::config::Config;
use vstd::prelude::*;

verus! {

/// An attack pattern that a responder recognizes in a request.
#[derive(Clone, Copy, Debug, PartialEq, Eq, Structural)]
pub enum AttackKind {
    DnsAmplification,
    DnsAnyQuery,
    NtpMonlist,
    SnmpAmplification,
    SnmpGetBulk,
    MemcachedAmplification,
    SsdpMsearch,
}

impl AttackKind {
    /// The label under which the pattern is logged.
    pub open spec fn label(self) -> Seq<char> {
        match self {
            AttackKind::DnsAmplification => "dns_amplification"@,
            AttackKind::DnsAnyQuery => "dns_any_query"@,
            AttackKind::NtpMonlist => "ntp_monlist"@,
            AttackKind::SnmpAmplification => "snmp_amplification"@,
            AttackKind::SnmpGetBulk => "snmp_getbulk"@,
            AttackKind::MemcachedAmplification => "memcached_amplification"@,
            AttackKind::SsdpMsearch => "ssdp_msearch"@,
        }
    }

    /// The pattern is a request for a known amplifying exploit, which is
    /// flagged on sight.
    pub open spec fn is_exploit(self) -> bool {
        self == AttackKind::NtpMonlist || self == AttackKind::MemcachedAmplification
    }

    pub fn name(&self) -> (s: &'static str)
        ensures
            s@ == self.label(),
    {
        match self {
            AttackKind::DnsAmplification => "dns_amplification",
            AttackKind::DnsAnyQuery => "dns_any_query",
            AttackKind::NtpMonlist => "ntp_monlist",
            AttackKind::SnmpAmplification => "snmp_amplification",
            AttackKind::SnmpGetBulk => "snmp_getbulk",
            AttackKind::MemcachedAmplification => "memcached_amplification",
            AttackKind::SsdpMsearch => "ssdp_msearch",
        }
    }

    pub fn flags_exploit(&self) -> (r: bool)
        ensures
            r == self.is_exploit(),
    {
        match self {
            AttackKind::NtpMonlist => true,
            AttackKind::MemcachedAmplification => true,
            _ => false,
        }
    }
}

/// What a responder makes of one datagram: the patterns it recognized, in
/// the order in which it reports them, and the datagram to send back, if
/// any.
pub struct Reaction {
    pub attacks: Vec<AttackKind>,
    pub response: Option<Vec<u8>>,
}

impl Reaction {
    /// The bytes to send back, if any.
    pub open spec fn reply(&self) -> Option<Seq<u8>> {
        match self.response {
            Some(bytes) => Some(bytes@),
            None => None,
        }
    }

    /// The datagram is discarded in silence: nothing recognized, nothing
    /// sent.
    pub open spec fn is_silent(&self) -> bool {
        self.attacks@.len() == 0 && self.response is None
    }

    /// The reaction to a datagram that is discarded.
    pub fn silent() -> (r: Reaction)
        ensures
            r.is_silent(),
            r.attacks@ == Seq::<AttackKind>::empty(),
            r.reply() == None::<Seq<u8>>,
    {
        Reaction { attacks: Vec::new(), response: None }
    }
}

/// The services that the protocol plane can run.
#[derive(Clone, Copy, Debug, PartialEq, Eq, Structural)]
pub enum ServiceKind {
    Bgp,
    Ntp,
    Dns,
    Snmp,
    Memcached,
    Ssdp,
}

impl ServiceKind {
    pub open spec fn label(self) -> Seq<char> {
        match self {
            ServiceKind::Bgp => "BGP"@,
            ServiceKind::Ntp => "NTP"@,
            ServiceKind::Dns => "DNS"@,
            ServiceKind::Snmp => "SNMP"@,
            ServiceKind::Memcached => "Memcached"@,
            ServiceKind::Ssdp => "SSDP"@,
        }
    }

    /// The name of the service, as the logs give it.
    pub fn name(&self) -> (s: &'static str)
        ensures
            s@ == self.label(),
    {
        match self {
            ServiceKind::Bgp => "BGP",
            ServiceKind::Ntp => "NTP",
            ServiceKind::Dns => "DNS",
            ServiceKind::Snmp => "SNMP",
            ServiceKind::Memcached => "Memcached",
            ServiceKind::Ssdp => "SSDP",
        }
    }

    /// Whether the configuration turns the service on.
    pub open spec fn enabled_in(self, config: Config) -> bool {
        match self {
            ServiceKind::Bgp => config.protocols.bgp.enabled,
            ServiceKind::Ntp => config.protocols.ntp.enabled,
            ServiceKind::Dns => config.protocols.dns.enabled,
            ServiceKind::Snmp => config.protocols.snmp.enabled,
            ServiceKind::Memcached => config.protocols.memcached.enabled,
            ServiceKind::Ssdp => config.protocols.ssdp.enabled,
        }
    }

    /// The port that the configuration gives the service.
    pub open spec fn port_in(self, config: Config) -> u16 {
        match self {
            ServiceKind::Bgp => config.protocols.bgp.port,
            ServiceKind::Ntp => config.protocols.ntp.port,
            ServiceKind::Dns => config.protocols.dns.port,
            ServiceKind::Snmp => config.protocols.snmp.port,
            ServiceKind::Memcached => config.protocols.memcached.port,
            ServiceKind::Ssdp => config.protocols.ssdp.port,
        }
    }

    pub fn is_enabled(&self, config: &Config) -> (on: bool)
        ensures
            on == self.enabled_in(*config),
    {
        match self {
            ServiceKind::Bgp => config.protocols.bgp.enabled,
            ServiceKind::Ntp => config.protocols.ntp.enabled,
            ServiceKind::Dns => config.protocols.dns.enabled,
            ServiceKind::Snmp => config.protocols.snmp.enabled,
            ServiceKind::Memcached => config.protocols.memcached.enabled,
            ServiceKind::Ssdp => config.protocols.ssdp.enabled,
        }
    }

    pub fn port(&self, config: &Config) -> (p: u16)
        ensures
            p == self.port_in(*config),
    {
        match self {
            ServiceKind::Bgp => config.protocols.bgp.port,
            ServiceKind::Ntp => config.protocols.ntp.port,
            ServiceKind::Dns => config.protocols.dns.port,
            ServiceKind::Snmp => config.protocols.snmp.port,
            ServiceKind::Memcached => config.protocols.memcached.port,
            ServiceKind::Ssdp => config.protocols.ssdp.port,
        }
    }
}

/// A port on which a service listens.
#[derive(Clone, Copy, Debug, PartialEq, Eq, Structural)]
pub struct ListenPort {
    pub port: u16,
    /// The service does not start without this port. A port that is not
    /// required is served only if it can be bound.
    pub required: bool,
}

/// The ports on which a service listens. Its configured port is required.
/// The SSDP service answers on the ports of mDNS and WS-Discovery too,
/// where they are free; Memcached listens nowhere unless its UDP transport
/// is enabled.
pub open spec fn ports_of(kind: ServiceKind, config: Config) -> Seq<ListenPort> {
    match kind {
        ServiceKind::Memcached => if config.protocols.memcached.udp_enabled {
            seq![ListenPort { port: config.protocols.memcached.port, required: true }]
        } else {
            Seq::empty()
        },
        ServiceKind::Ssdp => seq![
            ListenPort { port: config.protocols.ssdp.port, required: true },
            ListenPort { port: PORT_MDNS, required: false },
            ListenPort { port: PORT_WS_DISCOVERY, required: false },
        ],
        _ => seq![ListenPort { port: kind.port_in(config), required: true }],
    }
}

/// The ports on which a service listens, and which of them it must get.
pub fn listen_ports(kind: ServiceKind, config: &Config) -> (ports: Vec<ListenPort>)
    ensures
        ports@ == ports_of(kind, *config),
{
    let mut ports: Vec<ListenPort> = Vec::new();
    match kind {
        ServiceKind::Memcached => {
            if config.protocols.memcached.udp_enabled {
                ports.push(ListenPort { port: config.protocols.memcached.port, required: true });
            }
        },
        ServiceKind::Ssdp => {
            ports.push(ListenPort { port: config.protocols.ssdp.port, required: true });
            ports.push(ListenPort { port: PORT_MDNS, required: false });
            ports.push(ListenPort { port: PORT_WS_DISCOVERY, required: false });
        },
        _ => {
            ports.push(ListenPort { port: kind.port(config), required: true });
        },
    }
    assert(ports@ =~= ports_of(kind, *config));
    ports
}

/// All services, in the order in which they are started.
pub open spec fn start_order() -> Seq<ServiceKind> {
    seq![
        ServiceKind::Bgp,
        ServiceKind::Ntp,
        ServiceKind::Dns,
        ServiceKind::Snmp,
        ServiceKind::Memcached,
        ServiceKind::Ssdp,
    ]
}

/// The services that a configuration turns on, in start order.
pub open spec fn services_to_start(config: Config) -> Seq<ServiceKind> {
    start_order().filter(|s: ServiceKind| s.enabled_in(config))
}

/// The services to start for a configuration, in start order. They are
/// shut down in the reverse order.
pub fn enabled_services(config: &Config) -> (services: Vec<ServiceKind>)
    ensures
        services@ == services_to_start(*config),
{
    let all = [
        ServiceKind::Bgp,
        ServiceKind::Ntp,
        ServiceKind::Dns,
        ServiceKind::Snmp,
        ServiceKind::Memcached,
        ServiceKind::Ssdp,
    ];
    assert(all@ =~= start_order());
    let ghost pred = |s: ServiceKind| s.enabled_in(*config);
    let mut services: Vec<ServiceKind> = Vec::new();
    let mut i: usize = 0;
    assert(all@.take(0).filter(pred) =~= Seq::<ServiceKind>::empty()) by {
        assert(all@.take(0) =~= Seq::<ServiceKind>::empty());
        reveal(Seq::filter);
    }
    while i < 6
        invariant
            i <= 6,
            all@ == start_order(),
            pred == (|s: ServiceKind| s.enabled_in(*config)),
            services@ == all@.take(i as int).filter(pred),
        decreases 6 - i,
    {
        let kind = all[i];
        proof {
            assert(all@.take(i + 1).drop_last() =~= all@.take(i as int));
            assert(all@.take(i + 1).last() == kind);
            reveal(Seq::filter);
        }
        if kind.is_enabled(config) {
            services.push(kind);
        }
        i += 1;
    }
    assert(all@.take(6) =~= all@);
    services
}

/// An empty datagram is discarded by every responder: nothing is
/// recognized in it, and nothing is sent back.
pub proof fn lemma_empty_datagram_discarded(config: Config, secs: u64, nanos: u32)
    ensures
        dns::dns_attacks(Seq::empty()).len() == 0,
        dns::dns_response(config.protocols.dns.allow_recursion, Seq::empty()) is None,
        ntp::ntp_attacks(Seq::empty()).len() == 0,
        ntp::ntp_reply(config.protocols.ntp.allow_monlist, Seq::empty(), secs, nanos) is None,
        snmp::snmp_attacks(Seq::empty()).len() == 0,
        snmp::snmp_reply(Seq::empty()) is None,
        memcached::memcached_attacks(Seq::empty()).len() == 0,
        memcached::memcached_reply(config.protocols.memcached.udp_enabled, Seq::empty()) is None,
        ssdp::ssdp_attacks(Seq::empty()).len() == 0,
        ssdp::ssdp_reply(config.protocols.ssdp.device_type@, Seq::empty()) is None,
{
    ssdp::lemma_empty_has_no_msearch(Seq::empty());
}

/// The order in which started services are shut down: the reverse of the
/// order in which they were started.
pub fn shutdown_order(started: &Vec<ServiceKind>) -> (order: Vec<ServiceKind>)
    ensures
        order@ == started@.reverse(),
{
    let mut order: Vec<ServiceKind> = Vec::new();
    let mut i: usize = started.len();
    while i > 0
        invariant
            i <= started@.len(),
            order@.len() == started@.len() - i,
            forall|k: int| 0 <= k < order@.len() ==> order@[k] == started@[started@.len() - 1 - k],
        decreases i,
    {
        i -= 1;
        order.push(started[i]);
    }
    assert(order@ =~= started@.reverse());
    order
}

} // verus!
