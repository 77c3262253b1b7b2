//! The configuration of the honeypot, section by section.

use crate::common::{IpAddress, Ratio};
use vstd::prelude::*;

verus! {

#[derive(Debug)]
pub struct Config {
    pub honeypot: HoneypotConfig,
    pub protocols: ProtocolsConfig,
    pub detection: DetectionConfig,
    pub feeds: FeedsConfig,
    pub logging: LoggingConfig,
}

#[derive(Debug)]
pub struct HoneypotConfig {
    pub hostname: String,
    pub listen_ip: IpAddress,
    pub session_timeout: u64,
    pub max_connections: usize,
}

#[derive(Debug)]
pub struct ProtocolsConfig {
    pub bgp: BgpConfig,
    pub ssh: SshConfig,
    pub telnet: TelnetConfig,
    pub snmp: SnmpConfig,
    pub ntp: NtpConfig,
    pub dns: DnsConfig,
    pub memcached: MemcachedConfig,
    pub ssdp: SsdpConfig,
}

#[derive(Debug)]
pub struct BgpConfig {
    pub enabled: bool,
    pub port: u16,
    pub asn: u32,
    pub router_id: String,
    pub emulate_cisco: bool,
    pub emulate_juniper: bool,
}

#[derive(Debug)]
pub struct SshConfig {
    pub enabled: bool,
    pub port: u16,
    pub banner: String,
    pub version: String,
    pub hostkey_path: String,
    pub max_auth_tries: u32,
    /// "cisco" or "juniper".
    pub default_router: String,
}

#[derive(Debug)]
pub struct TelnetConfig {
    pub enabled: bool,
    pub port: u16,
    pub banner: String,
    pub default_router: String,
}

#[derive(Debug)]
pub struct SnmpConfig {
    pub enabled: bool,
    pub port: u16,
    pub communities: Vec<String>,
    pub v3_enabled: bool,
}

#[derive(Debug)]
pub struct NtpConfig {
    pub enabled: bool,
    pub port: u16,
    /// Answer the monlist command, which amplifies.
    pub allow_monlist: bool,
}

#[derive(Debug)]
pub struct DnsConfig {
    pub enabled: bool,
    pub port: u16,
    pub allow_recursion: bool,
    pub zone_file: Option<String>,
}

#[derive(Debug)]
pub struct MemcachedConfig {
    pub enabled: bool,
    pub port: u16,
    /// Serve the UDP transport, which amplifies.
    pub udp_enabled: bool,
}

#[derive(Debug)]
pub struct SsdpConfig {
    pub enabled: bool,
    pub port: u16,
    pub device_type: String,
}

#[derive(Debug)]
pub struct DetectionConfig {
    pub enabled: bool,
    pub scan_threshold: u32,
    pub amplification_ratio_threshold: Ratio,
    pub auto_block: bool,
    /// Seconds.
    pub block_duration: u64,
    pub botnet_signatures_path: String,
}

#[derive(Debug)]
pub struct FeedsConfig {
    pub enabled: bool,
    pub output_dir: String,
    pub stix_enabled: bool,
    pub misp_enabled: bool,
    pub json_enabled: bool,
    /// Seconds.
    pub update_interval: u64,
}

#[derive(Debug)]
pub struct LoggingConfig {
    pub output_dir: String,
    pub json_logs: bool,
    pub syslog_enabled: bool,
    pub syslog_server: Option<String>,
    pub database: DatabaseConfig,
}

#[derive(Debug)]
pub struct DatabaseConfig {
    pub enabled: bool,
    /// "sqlite", "postgres" or "mysql".
    pub db_type: String,
    pub connection_string: String,
}

/// The protocol section of the default configuration: every service on,
/// each on its well-known port, every amplifying answer allowed.
pub open spec fn is_default_protocols(p: ProtocolsConfig) -> bool {
    &&& p.bgp.enabled
    &&& p.bgp.port == 179
    &&& p.bgp.asn == 65001
    &&& p.bgp.router_id@ == "192.168.1.1"@
    &&& p.bgp.emulate_cisco
    &&& p.bgp.emulate_juniper
    &&& p.ssh.enabled
    &&& p.ssh.port == 22
    &&& p.ssh.banner@ == "SSH-2.0-Cisco-1.25"@
    &&& p.ssh.version@ == "SSH-2.0"@
    &&& p.ssh.hostkey_path@ == "/var/lib/routertrap/ssh_host_rsa_key"@
    &&& p.ssh.max_auth_tries == 3
    &&& p.ssh.default_router@ == "cisco"@
    &&& p.telnet.enabled
    &&& p.telnet.port == 23
    &&& p.telnet.banner@ == "Cisco IOS Software, C3750 Software (C3750-IPSERVICESK9-M)"@
    &&& p.telnet.default_router@ == "cisco"@
    &&& p.snmp.enabled
    &&& p.snmp.port == 161
    &&& p.snmp.communities@.len() == 2
    &&& p.snmp.communities@[0]@ == "public"@
    &&& p.snmp.communities@[1]@ == "private"@
    &&& p.snmp.v3_enabled
    &&& p.ntp.enabled
    &&& p.ntp.port == 123
    &&& p.ntp.allow_monlist
    &&& p.dns.enabled
    &&& p.dns.port == 53
    &&& p.dns.allow_recursion
    &&& p.dns.zone_file is None
    &&& p.memcached.enabled
    &&& p.memcached.port == 11211
    &&& p.memcached.udp_enabled
    &&& p.ssdp.enabled
    &&& p.ssdp.port == 1900
    &&& p.ssdp.device_type@ == "urn:schemas-upnp-org:device:InternetGatewayDevice:1"@
}

/// The default configuration.
pub open spec fn is_default_config(c: Config) -> bool {
    &&& c.honeypot.hostname@ == "router.example.com"@
    &&& c.honeypot.listen_ip == IpAddress::V4(0)
    &&& c.honeypot.session_timeout == 300
    &&& c.honeypot.max_connections == 1000
    &&& is_default_protocols(c.protocols)
    &&& c.detection.enabled
    &&& c.detection.scan_threshold == 100
    &&& c.detection.amplification_ratio_threshold == (Ratio { num: 2, den: 1 })
    &&& c.detection.auto_block
    &&& c.detection.block_duration == 3600
    &&& c.detection.botnet_signatures_path@ == "/var/lib/routertrap/signatures/"@
    &&& c.feeds.enabled
    &&& c.feeds.output_dir@ == "/var/lib/routertrap/feeds/"@
    &&& c.feeds.stix_enabled
    &&& c.feeds.misp_enabled
    &&& c.feeds.json_enabled
    &&& c.feeds.update_interval == 300
    &&& c.logging.output_dir@ == "/var/log/routertrap/"@
    &&& c.logging.json_logs
    &&& !c.logging.syslog_enabled
    &&& c.logging.syslog_server is None
    &&& c.logging.database.enabled
    &&& c.logging.database.db_type@ == "sqlite"@
    &&& c.logging.database.connection_string@ == "/var/lib/routertrap/routertrap.db"@
}

impl Config {
    /// The configuration that is used where no file says otherwise.
    pub fn default_config() -> (c: Config)
        ensures
            is_default_config(c),
    {
        let mut communities: Vec<String> = Vec::new();
        communities.push("public".to_string());
        communities.push("private".to_string());
        Config {
            honeypot: HoneypotConfig {
                hostname: "router.example.com".to_string(),
                listen_ip: IpAddress::V4(0),
                session_timeout: 300,
                max_connections: 1000,
            },
            protocols: ProtocolsConfig {
                bgp: BgpConfig {
                    enabled: true,
                    port: 179,
                    asn: 65001,
                    router_id: "192.168.1.1".to_string(),
                    emulate_cisco: true,
                    emulate_juniper: true,
                },
                ssh: SshConfig {
                    enabled: true,
                    port: 22,
                    banner: "SSH-2.0-Cisco-1.25".to_string(),
                    version: "SSH-2.0".to_string(),
                    hostkey_path: "/var/lib/routertrap/ssh_host_rsa_key".to_string(),
                    max_auth_tries: 3,
                    default_router: "cisco".to_string(),
                },
                telnet: TelnetConfig {
                    enabled: true,
                    port: 23,
                    banner: "Cisco IOS Software, C3750 Software (C3750-IPSERVICESK9-M)".to_string(),
                    default_router: "cisco".to_string(),
                },
                snmp: SnmpConfig { enabled: true, port: 161, communities, v3_enabled: true },
                ntp: NtpConfig { enabled: true, port: 123, allow_monlist: true },
                dns: DnsConfig { enabled: true, port: 53, allow_recursion: true, zone_file: None },
                memcached: MemcachedConfig { enabled: true, port: 11211, udp_enabled: true },
                ssdp: SsdpConfig {
                    enabled: true,
                    port: 1900,
                    device_type: "urn:schemas-upnp-org:device:InternetGatewayDevice:1".to_string(),
                },
            },
            detection: DetectionConfig {
                enabled: true,
                scan_threshold: 100,
                amplification_ratio_threshold: Ratio { num: 2, den: 1 },
                auto_block: true,
                block_duration: 3600,
                botnet_signatures_path: "/var/lib/routertrap/signatures/".to_string(),
            },
            feeds: FeedsConfig {
                enabled: true,
                output_dir: "/var/lib/routertrap/feeds/".to_string(),
                stix_enabled: true,
                misp_enabled: true,
                json_enabled: true,
                update_interval: 300,
            },
            logging: LoggingConfig {
                output_dir: "/var/log/routertrap/".to_string(),
                json_logs: true,
                syslog_enabled: false,
                syslog_server: None,
                database: DatabaseConfig {
                    enabled: true,
                    db_type: "sqlite".to_string(),
                    connection_string: "/var/lib/routertrap/routertrap.db".to_string(),
                },
            },
        }
    }
}

} // verus!
