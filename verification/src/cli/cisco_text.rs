//! The canned texts of the Cisco IOS emulator.

use vstd::prelude::*;

verus! {

/// The error for a command that stops short.
pub const INCOMPLETE_COMMAND: &'static str =
    "% Incomplete command.\n";

/// The error for a command that is not understood.
pub const INVALID_INPUT: &'static str =
    "% Invalid input detected at '^' marker.\n";

/// The error for an interface that does not exist, with its marker line.
pub const INVALID_INPUT_AT_NAME: &'static str =
    "                      ^\n\
    % Invalid input detected at '^' marker.\n";

/// The error of `show ip interface` for an interface that does not exist.
pub const INVALID_INTERFACE: &'static str =
    "% Invalid interface\n";

/// `show version`, up to the hostname.
pub const SHOW_VERSION_HEAD: &'static str =
    "Cisco IOS Software, C3750 Software (C3750-IPSERVICESK9-M), Version 15.2(4)E8, RELEASE SOFTWARE (fc3)\n\
    Technical Support: http://www.cisco.com/techsupport\n\
    Copyright (c) 1986-2023 by Cisco Systems, Inc.\n\
    Compiled Fri 15-Sep-23 12:00 by prod_rel_team\n\n\
    ROM: Bootstrap program is C3750 boot loader\n\
    BOOTLDR: C3750 Boot Loader (C3750-HBOOT-M) Version 12.2(44)SE5, RELEASE SOFTWARE (fc1)\n\n";

/// `show version`, from the hostname on.
pub const SHOW_VERSION_TAIL: &'static str =
    " uptime is 42 weeks, 3 days, 12 hours, 34 minutes\n\
    System returned to ROM by power-on\n\
    System image file is \"flash:c3750-ipservicesk9-mz.152-4.E8.bin\"\n\n\
    cisco WS-C3750G-24TS (PowerPC405) processor (revision C0) with 131072K bytes of memory.\n\
    Processor board ID FOC1234X567\n\
    Last reset from power-on\n\
    24 Gigabit Ethernet interfaces\n\
    The password-recovery mechanism is enabled.\n\n\
    512K bytes of flash-simulated non-volatile configuration memory.\n\
    Base ethernet MAC Address       : 00:1A:2B:3C:4D:5E\n\
    Motherboard assembly number     : 73-10216-08\n\
    Power supply part number        : 341-0097-02\n\
    Motherboard serial number       : FOC12345678\n\
    Power supply serial number      : AZS12345678\n\
    Model revision number           : C0\n\
    Motherboard revision number     : A0\n\
    Model number                    : WS-C3750G-24TS-S\n\
    System serial number            : FOC1234X567\n\
    Top Assembly Part Number        : 800-26857-03\n\
    Top Assembly Revision Number    : A0\n\
    Version ID                      : V04\n\
    CLEI Code Number                : COM3K00BRA\n\n\
    Configuration register is 0x10F\n\n";

/// `show running-config`, up to the hostname.
pub const SHOW_RUNNING_CONFIG_HEAD: &'static str =
    "Building configuration...\n\n\
    Current configuration : 4532 bytes\n\
    !\n\
    version 15.2\n\
    service timestamps debug datetime msec\n\
    service timestamps log datetime msec\n\
    no service password-encryption\n\
    !\n\
    hostname ";

/// `show running-config`, from the hostname on.
pub const SHOW_RUNNING_CONFIG_TAIL: &'static str =
    "\n\
    !\n\
    boot-start-marker\n\
    boot-end-marker\n\
    !\n\
    enable secret 5 $1$mERr$hx5rVt7rPNoS4wqbXKX7m0\n\
    !\n\
    no aaa new-model\n\
    switch 1 provision ws-c3750g-24ts\n\
    !\n\
    ip routing\n\
    !\n\
    ip domain-name example.com\n\
    !\n\
    crypto pki trustpoint TP-self-signed-123456789\n\
    !\n\
    spanning-tree mode pvst\n\
    spanning-tree extend system-id\n\
    !\n\
    vlan internal allocation policy ascending\n\
    !\n\
    interface GigabitEthernet0/0\n\
    description WAN Interface\n\
    ip address 192.168.1.1 255.255.255.0\n\
    duplex auto\n\
    speed auto\n\
    !\n\
    interface GigabitEthernet0/1\n\
    shutdown\n\
    !\n\
    router bgp 65001\n\
    bgp log-neighbor-changes\n\
    network 192.168.1.0 mask 255.255.255.0\n\
    !\n\
    ip classless\n\
    ip route 0.0.0.0 0.0.0.0 192.168.1.254\n\
    !\n\
    ip http server\n\
    ip http secure-server\n\
    !\n\
    snmp-server community public RO\n\
    snmp-server community private RW\n\
    !\n\
    line con 0\n\
    line vty 0 4\n\
    login\n\
    transport input ssh\n\
    line vty 5 15\n\
    login\n\
    transport input ssh\n\
    !\n\
    ntp server 216.239.35.0\n\
    ntp server 216.239.35.4\n\
    end\n\n";

/// The line state and hardware lines of `show interfaces <name>`.
pub const INTERFACE_HARDWARE: &'static str =
    ", line protocol is up\n\
    Hardware is Gigabit Ethernet, address is 001a.2b3c.4d5e (bia 001a.2b3c.4d5e)\n";

/// The settings and counters of `show interfaces <name>`.
pub const INTERFACE_COUNTERS: &'static str =
    "MTU 1500 bytes, BW 1000000 Kbit/sec, DLY 10 usec,\n\
    reliability 255/255, txload 1/255, rxload 1/255\n\
    Encapsulation ARPA, loopback not set\n\
    Keepalive set (10 sec)\n\
    Full-duplex, 1000Mb/s, media type is 10/100/1000BaseTX\n\
    output flow-control is unsupported, input flow-control is unsupported\n\
    ARP type: ARPA, ARP Timeout 04:00:00\n\
    Last input 00:00:00, output 00:00:00, output hang never\n\
    Last clearing of \"show interface\" counters never\n\
    Input queue: 0/75/0/0 (size/max/drops/flushes); Total output drops: 0\n\
    Queueing strategy: fifo\n\
    Output queue: 0/40 (size/max)\n\
    5 minute input rate 1000 bits/sec, 2 packets/sec\n\
    5 minute output rate 2000 bits/sec, 3 packets/sec\n\
    123456 packets input, 12345678 bytes, 0 no buffer\n\
    Received 12345 broadcasts (0 IP multicasts)\n\
    0 runts, 0 giants, 0 throttles\n\
    0 input errors, 0 CRC, 0 frame, 0 overrun, 0 ignored\n\
    0 watchdog, 5678 multicast, 0 pause input\n\
    0 input packets with dribble condition detected\n\
    234567 packets output, 23456789 bytes, 0 underruns\n\
    0 output errors, 0 collisions, 1 interface resets\n\
    0 unknown protocol drops\n\
    0 babbles, 0 late collision, 0 deferred\n\
    0 lost carrier, 0 no carrier, 0 pause output\n\
    0 output buffer failures, 0 output buffers swapped out\n";

/// The line state of `show ip interface <name>`, up to the address.
pub const IP_INTERFACE_ADDRESS: &'static str =
    ", line protocol is up\n\
    Internet address is ";

/// The settings of `show ip interface <name>`.
pub const IP_INTERFACE_SETTINGS: &'static str =
    "\n\
    Broadcast address is 255.255.255.255\n\
    Address determined by setup command\n\
    MTU is 1500 bytes\n\
    Helper address is not set\n\
    Directed broadcast forwarding is disabled\n\
    Outgoing access list is not set\n\
    Inbound  access list is not set\n\
    Proxy ARP is enabled\n\
    Local Proxy ARP is disabled\n\
    Security level is default\n\
    Split horizon is enabled\n\
    ICMP redirects are always sent\n\
    ICMP unreachables are always sent\n\
    ICMP mask replies are never sent\n\
    IP fast switching is enabled\n\
    IP fast switching on the same interface is disabled\n\
    IP Flow switching is disabled\n\
    IP CEF switching is enabled\n";

/// `show ip route`.
pub const SHOW_IP_ROUTE: &'static str =
    "Codes: L - local, C - connected, S - static, R - RIP, M - mobile, B - BGP\n\
    Gateway of last resort is 192.168.1.254 to network 0.0.0.0\n\n\
    S*    0.0.0.0/0 [1/0] via 192.168.1.254\n\
    C     192.168.1.0/24 is directly connected, GigabitEthernet0/0\n\
    L     192.168.1.1/32 is directly connected, GigabitEthernet0/0\n";

/// `show ip bgp`.
pub const SHOW_IP_BGP: &'static str =
    "BGP table version is 1, local router ID is 192.168.1.1\n\
    Status codes: s suppressed, d damped, h history, * valid, > best, i - internal,\n\
    r RIB-failure, S Stale, m multipath, b backup-path, f RT-Filter,\n\
    x best-external, a additional-path, c RIB-compressed,\n\
    Origin codes: i - IGP, e - EGP, ? - incomplete\n\
    RPKI validation codes: V valid, I invalid, N Not found\n\n\
    Network          Next Hop            Metric LocPrf Weight Path\n\
    *> 192.168.1.0/24   0.0.0.0                  0         32768 i\n";

/// `show users`, up to the user name.
pub const SHOW_USERS_HEAD: &'static str =
    "    Line       User       Host(s)              Idle       Location\n\
    *  0 con 0     ";

/// `show users`, from the user name on.
pub const SHOW_USERS_TAIL: &'static str =
    "      idle                 00:00:00\n\n\
    Interface    User               Mode         Idle     Peer Address\n";

/// `show processes`.
pub const SHOW_PROCESSES: &'static str =
    "CPU utilization for five seconds: 5%/2%; one minute: 4%; five minutes: 3%\n\
    PID Runtime(ms)     Invoked      uSecs   5Sec   1Min   5Min TTY Process\n\
    1          12        1234         10  0.00%  0.00%  0.00%   0 Chunk Manager\n\
    2         456       23456         20  0.01%  0.00%  0.00%   0 Load Meter\n\
    3        1234       45678         27  0.00%  0.01%  0.00%   0 Check heaps\n\
    4        2345       67890         34  0.02%  0.01%  0.01%   0 Pool Manager\n\
    5        3456       89012         38  0.00%  0.00%  0.00%   0 Timers\n";

/// `show memory`.
pub const SHOW_MEMORY: &'static str =
    "                Head    Total(b)     Used(b)     Free(b)   Lowest(b)  Largest(b)\n\
    Processor    6F4A5C    134217728    45678900    88538828    87654320    85432100\n\
    I/O    1200000     33554432     8765432    24788000    24500000    22000000\n";

/// `show cdp neighbors`.
pub const SHOW_CDP_NEIGHBORS: &'static str =
    "Capability Codes: R - Router, T - Trans Bridge, B - Source Route Bridge\n\
    S - Switch, H - Host, I - IGMP, r - Repeater, P - Phone\n\n\
    Device ID        Local Intrfce     Holdtme    Capability  Platform  Port ID\n\
    Switch-Core      Gig 0/1           165          S I      WS-C3750  Gig 1/0/1\n";

/// `show cdp`.
pub const SHOW_CDP: &'static str =
    "Global CDP information:\n\
    Sending CDP packets every 60 seconds\n\
    Sending a holdtime value of 180 seconds\n\
    Sending CDPv2 advertisements is enabled\n";

/// `show arp`.
pub const SHOW_ARP: &'static str =
    "Protocol  Address          Age (min)  Hardware Addr   Type   Interface\n\
    Internet  192.168.1.1             -   001a.2b3c.4d5e  ARPA   GigabitEthernet0/0\n\
    Internet  192.168.1.254          42   00aa.bb11.cc22  ARPA   GigabitEthernet0/0\n\
    Internet  192.168.1.100          15   00bb.cc22.dd33  ARPA   GigabitEthernet0/0\n";

/// `show mac-address-table`.
pub const SHOW_MAC_ADDRESS_TABLE: &'static str =
    "          Mac Address Table\n\
    -------------------------------------------\n\n\
    Vlan    Mac Address       Type        Ports\n\
    ----    -----------       --------    -----\n\
    1    001a.2b3c.4d5e    DYNAMIC     Gi0/0\n\
    1    00aa.bb11.cc22    DYNAMIC     Gi0/0\n\
    Total Mac Addresses for this criterion: 2\n";

/// `show vlan`.
pub const SHOW_VLAN: &'static str =
    "VLAN Name                             Status    Ports\n\
    ---- -------------------------------- --------- -------------------------------\n\
    1    default                          active    Gi0/0, Gi0/1\n\n\
    VLAN Type  SAID       MTU   Parent RingNo BridgeNo Stp  BrdgMode Trans1 Trans2\n\
    ---- ----- ---------- ----- ------ ------ -------- ---- -------- ------ ------\n\
    1    enet  100001     1500  -      -      -        -    -        0      0\n";

/// The answer to `exit` in the exec modes.
pub const LOGOUT: &'static str =
    "Logout\n";

/// The answer to `configure terminal`.
pub const ENTER_CONFIG: &'static str =
    "Enter configuration commands, one per line.  End with CNTL/Z.\n";

/// The answer to `reload`.
pub const RELOAD_PROMPT: &'static str =
    "System configuration has been modified. Save? [yes/no]: ";

/// The answer to `write memory`.
pub const WRITE_MEMORY_OK: &'static str =
    "Building configuration...\n\
    [OK]\n";

/// The banner that precedes the login.
pub const BANNER: &'static str =
    "\n\
    **************************************************************************\n\
    * IOSv is strictly limited to use for evaluation, demonstration and IOS  *\n\
    * education. IOSv is provided as-is and is not supported by Cisco's      *\n\
    * Technical Advisory Center. Any use or disclosure, in whole or in part, *\n\
    * of the IOSv Software or Documentation to any third party for any       *\n\
    * purposes is expressly prohibited except as otherwise authorized by     *\n\
    * Cisco in writing.                                                      *\n\
    **************************************************************************\n\n\
    User Access Verification\n\n";

/// The help of the user exec mode.
pub const HELP_USER_EXEC: &'static str =
    "Exec commands:\n\
    enable      Turn on privileged commands\n\
    exit        Exit from the EXEC\n\
    logout      Exit from the EXEC\n\
    ping        Send echo messages\n\
    show        Show running system information\n\
    traceroute  Trace route to destination\n";

/// The help of the privileged exec mode.
pub const HELP_PRIVILEGED_EXEC: &'static str =
    "Exec commands:\n\
    configure   Enter configuration mode\n\
    copy        Copy from one file to another\n\
    debug       Debugging functions\n\
    disable     Turn off privileged commands\n\
    exit        Exit from the EXEC\n\
    logout      Exit from the EXEC\n\
    ping        Send echo messages\n\
    reload      Halt and perform a cold restart\n\
    show        Show running system information\n\
    traceroute  Trace route to destination\n\
    write       Write running configuration to memory or terminal\n";

/// The help of the global configuration mode.
pub const HELP_CONFIG: &'static str =
    "Configure commands:\n\
    access-list    Add an access list entry\n\
    banner         Define a login banner\n\
    crypto         Encryption module\n\
    enable         Modify enable password parameters\n\
    end            Exit from configure mode\n\
    exit           Exit from configure mode\n\
    hostname       Set system's network name\n\
    interface      Select an interface to configure\n\
    ip             Global IP configuration subcommands\n\
    line           Configure a terminal line\n\
    no             Negate a command or set its defaults\n\
    router         Enable a routing process\n\
    snmp-server    Modify SNMP engine parameters\n\
    username       Establish User Name Authentication\n";

} // verus!
