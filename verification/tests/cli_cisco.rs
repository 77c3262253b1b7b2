use routertrap::cli::cisco::{CiscoIos, CiscoMode};
use routertrap::cli::cisco_text;
use routertrap::cli::RouterCli;

const INVALID: &str = "% Invalid input detected at '^' marker.\n";

fn session() -> CiscoIos {
    CiscoIos::new("host".to_string())
}

fn privileged() -> CiscoIos {
    let mut cli = session();
    cli.handle_command("enable");
    cli
}

fn configuring() -> CiscoIos {
    let mut cli = privileged();
    cli.handle_command("configure terminal");
    cli
}

#[test]
fn cisco_cli_mode_walk() {
    let mut cli = session();
    assert_eq!(cli.get_prompt(), "host>");
    assert_eq!(cli.handle_command("en\n"), "");
    assert_eq!(cli.get_prompt(), "host#");
    assert_eq!(
        cli.handle_command("conf t\n"),
        "Enter configuration commands, one per line.  End with CNTL/Z.\n"
    );
    assert_eq!(cli.get_prompt(), "host(config)#");
    assert_eq!(cli.handle_command("interface Gi0/0\n"), "");
    assert_eq!(cli.get_prompt(), "host(config-if)#");
    assert_eq!(cli.handle_command("end\n"), "");
    assert_eq!(cli.get_prompt(), "host#");
}

#[test]
fn cisco_new_session_state() {
    let cli = CiscoIos::new("edge-1".to_string());
    assert_eq!(cli.mode(), CiscoMode::UserExec);
    assert_eq!(cli.hostname(), "edge-1");
    assert!(!cli.is_authenticated());
    assert_eq!(cli.username(), None);
    assert_eq!(cli.get_prompt(), "edge-1>");
}

#[test]
fn cisco_accepts_any_credentials() {
    let mut cli = session();
    assert!(cli.authenticate("root", ""));
    assert!(cli.is_authenticated());
    assert_eq!(cli.username(), Some("root".to_string()));
    assert!(cli.authenticate("", "x"));
    assert_eq!(cli.username(), Some("".to_string()));
    assert_eq!(cli.mode(), CiscoMode::UserExec);
}

#[test]
fn cisco_prompts_of_all_modes() {
    let mut cli = configuring();
    assert_eq!(cli.get_prompt(), "host(config)#");
    cli.handle_command("router bgp 65001");
    assert_eq!(cli.mode(), CiscoMode::RouterConfig);
    assert_eq!(cli.get_prompt(), "host(config-router)#");
    cli.handle_command("exit");
    assert_eq!(cli.mode(), CiscoMode::PrivilegedExec);
    cli.handle_command("disable");
    assert_eq!(cli.mode(), CiscoMode::UserExec);
    assert_eq!(cli.get_prompt(), "host>");
}

#[test]
fn cisco_empty_lines_do_nothing() {
    let mut cli = privileged();
    for line in ["", " ", "\r\n", "\t \n"] {
        assert_eq!(cli.handle_command(line), "");
        assert_eq!(cli.mode(), CiscoMode::PrivilegedExec);
    }
}

#[test]
fn cisco_unknown_commands() {
    let mut cli = session();
    assert_eq!(cli.handle_command("frobnicate"), INVALID);
    assert_eq!(cli.handle_command("conf t"), INVALID);
    assert_eq!(cli.handle_command("show"), INVALID);
    assert_eq!(cli.handle_command("show frob"), INVALID);
    assert_eq!(cli.mode(), CiscoMode::UserExec);
    let mut cli = privileged();
    assert_eq!(cli.handle_command("enable"), INVALID);
    assert_eq!(cli.handle_command("  nonsense  "), INVALID);
    let mut cli = configuring();
    assert_eq!(cli.handle_command("frobnicate"), "");
    assert_eq!(cli.handle_command("ip route 0.0.0.0 0.0.0.0 1.1.1.1"), "");
    assert_eq!(cli.mode(), CiscoMode::GlobalConfig);
    cli.handle_command("interface Gi0/1");
    assert_eq!(cli.handle_command("shutdown"), "");
    assert_eq!(cli.handle_command("?"), "");
    assert_eq!(cli.mode(), CiscoMode::InterfaceConfig);
}

#[test]
fn cisco_exec_commands() {
    let mut cli = session();
    assert_eq!(cli.handle_command("exit"), "Logout\n");
    assert_eq!(cli.handle_command("quit"), "Logout\n");
    assert_eq!(cli.mode(), CiscoMode::UserExec);
    let mut cli = privileged();
    assert_eq!(cli.handle_command("exit"), "Logout\n");
    assert_eq!(cli.mode(), CiscoMode::PrivilegedExec);
    assert_eq!(
        cli.handle_command("reload"),
        "System configuration has been modified. Save? [yes/no]: "
    );
    assert_eq!(cli.handle_command("write memory"), "Building configuration...\n[OK]\n");
    assert_eq!(cli.handle_command("wr"), "Building configuration...\n[OK]\n");
}

#[test]
fn cisco_hostname_can_be_changed() {
    let mut cli = configuring();
    assert_eq!(cli.handle_command("hostname  core-7  extra"), "");
    assert_eq!(cli.hostname(), "core-7");
    assert_eq!(cli.get_prompt(), "core-7(config)#");
    cli.handle_command("end");
    assert!(cli.handle_command("show version").contains("\ncore-7 uptime is 42 weeks"));
    // outside of configuration mode the command is not understood
    assert_eq!(cli.handle_command("hostname other"), INVALID);
    assert_eq!(cli.hostname(), "core-7");
}

#[test]
fn cisco_help() {
    let mut cli = session();
    assert_eq!(
        cli.handle_command("?"),
        "Exec commands:\n\
         enable      Turn on privileged commands\n\
         exit        Exit from the EXEC\n\
         logout      Exit from the EXEC\n\
         ping        Send echo messages\n\
         show        Show running system information\n\
         traceroute  Trace route to destination\n"
    );
    assert_eq!(cli.get_help(), cisco_text::HELP_USER_EXEC);
    cli.handle_command("en");
    let help = cli.handle_command("?");
    assert_eq!(help, cisco_text::HELP_PRIVILEGED_EXEC);
    assert_eq!(help.len(), 449);
    assert!(help.contains("write       Write running configuration to memory or terminal\n"));
    cli.handle_command("conf t");
    let help = cli.handle_command("?");
    assert_eq!(help, cli.get_config_help());
    assert_eq!(help.len(), 627);
    assert!(help.starts_with("Configure commands:\naccess-list    Add an access list entry\n"));
    assert_eq!(cli.get_help(), "");
}

#[test]
fn cisco_show_version_names_the_host() {
    let mut cli = CiscoIos::new("r1".to_string());
    let out = cli.handle_command("show version");
    assert_eq!(out.len(), 1422 + 2);
    assert!(out.starts_with(
        "Cisco IOS Software, C3750 Software (C3750-IPSERVICESK9-M), Version 15.2(4)E8, RELEASE SOFTWARE (fc3)\n\
         Technical Support: http://www.cisco.com/techsupport\n"
    ));
    assert!(out.contains("RELEASE SOFTWARE (fc1)\n\nr1 uptime is 42 weeks, 3 days, 12 hours, 34 minutes\n"));
    assert!(out.contains("System image file is \"flash:c3750-ipservicesk9-mz.152-4.E8.bin\"\n"));
    assert!(out.ends_with("CLEI Code Number                : COM3K00BRA\n\nConfiguration register is 0x10F\n\n"));
    assert_eq!(cli.handle_show_command("version"), out);
    assert_eq!(cli.handle_show_command("  version   ignored"), out);
}

#[test]
fn cisco_show_running_config() {
    let mut cli = privileged();
    let out = cli.handle_command("show running-config");
    assert_eq!(out.len(), 1073 + 4);
    assert_eq!(cli.handle_command("show run"), out);
    assert!(out.starts_with("Building configuration...\n\nCurrent configuration : 4532 bytes\n!\n"));
    assert!(out.contains("!\nhostname host\n!\n"));
    assert!(out.contains("interface GigabitEthernet0/0\ndescription WAN Interface\nip address 192.168.1.1 255.255.255.0\n"));
    assert!(out.ends_with("ntp server 216.239.35.4\nend\n\n"));
}

#[test]
fn cisco_show_ip_route_is_exact() {
    let mut cli = privileged();
    assert_eq!(
        cli.handle_command("show ip route"),
        "Codes: L - local, C - connected, S - static, R - RIP, M - mobile, B - BGP\n\
         Gateway of last resort is 192.168.1.254 to network 0.0.0.0\n\
         \n\
         S*    0.0.0.0/0 [1/0] via 192.168.1.254\n\
         C     192.168.1.0/24 is directly connected, GigabitEthernet0/0\n\
         L     192.168.1.1/32 is directly connected, GigabitEthernet0/0\n"
    );
    assert_eq!(cli.handle_command("show ip"), "% Incomplete command.\n");
    assert_eq!(cli.handle_command("show ip nonsense"), "% Incomplete command.\n");
    assert_eq!(cli.handle_command("show ip bgp").len(), 483);
}

#[test]
fn cisco_show_interfaces_brief() {
    let mut cli = session();
    let expected = "GigabitEthernet0/0 is up, line protocol is up\n\
                    GigabitEthernet0/1 is administratively down, line protocol is down\n";
    assert_eq!(cli.handle_command("show interfaces"), expected);
    assert_eq!(cli.handle_command("show interface"), expected);
    assert_eq!(
        cli.handle_command("show ip interface"),
        "GigabitEthernet0/0 is up, line protocol is up\n  \
         Internet address is 192.168.1.1/255.255.255.0\n\
         GigabitEthernet0/1 is administratively down, line protocol is down\n  \
         Internet address is unassigned/\n"
    );
}

#[test]
fn cisco_show_interface_detail() {
    let mut cli = session();
    let out = cli.handle_command("show interfaces GigabitEthernet0/0");
    assert_eq!(out.len(), 18 + 4 + 2 + 99 + 1182);
    assert!(out.starts_with(
        "GigabitEthernet0/0 is up, line protocol is up\n\
         Hardware is Gigabit Ethernet, address is 001a.2b3c.4d5e (bia 001a.2b3c.4d5e)\n\
         MTU 1500 bytes, BW 1000000 Kbit/sec, DLY 10 usec,\n\
         reliability 255/255, txload 1/255, rxload 1/255\n"
    ));
    assert!(out.ends_with("0 output buffer failures, 0 output buffers swapped out\n"));
    let down = cli.handle_command("show interface GigabitEthernet0/1");
    assert!(down.starts_with("GigabitEthernet0/1 is administratively down, line protocol is up\n"));
    assert_eq!(
        cli.handle_command("show interfaces Gi0/0"),
        "                      ^\n% Invalid input detected at '^' marker.\n"
    );
}

#[test]
fn cisco_show_ip_interface_detail() {
    let mut cli = session();
    let out = cli.handle_command("show ip interface GigabitEthernet0/0");
    assert!(out.starts_with(
        "GigabitEthernet0/0 is up, line protocol is up\n\
         Internet address is 192.168.1.1/255.255.255.0\n\
         Broadcast address is 255.255.255.255\n"
    ));
    assert!(out.ends_with("IP Flow switching is disabled\nIP CEF switching is enabled\n"));
    let out = cli.handle_command("show ip interface GigabitEthernet0/1");
    assert!(out.starts_with(
        "GigabitEthernet0/1 is administratively down, line protocol is up\n\
         Internet address is unassigned/\n"
    ));
    assert_eq!(cli.handle_command("show ip interface Serial0"), "% Invalid interface\n");
}

#[test]
fn cisco_show_users_names_the_login() {
    let mut cli = session();
    assert_eq!(
        cli.handle_command("show users"),
        "    Line       User       Host(s)              Idle       Location\n\
         *  0 con 0     admin      idle                 00:00:00\n\
         \n\
         Interface    User               Mode         Idle     Peer Address\n"
    );
    cli.authenticate("mallory", "hunter2");
    assert!(cli.handle_command("show users").contains("*  0 con 0     mallory      idle"));
}

#[test]
fn cisco_show_tables() {
    let mut cli = session();
    assert_eq!(cli.handle_command("show processes"), cisco_text::SHOW_PROCESSES);
    assert_eq!(cli.handle_command("show memory"), cisco_text::SHOW_MEMORY);
    assert_eq!(cli.handle_command("show cdp"), cisco_text::SHOW_CDP);
    assert_eq!(cli.handle_command("show cdp detail"), cisco_text::SHOW_CDP);
    assert_eq!(cli.handle_command("show cdp neighbors"), cisco_text::SHOW_CDP_NEIGHBORS);
    assert_eq!(cli.handle_command("show arp"), cisco_text::SHOW_ARP);
    assert_eq!(cli.handle_command("show mac-address-table"), cisco_text::SHOW_MAC_ADDRESS_TABLE);
    assert_eq!(cli.handle_command("show mac"), cisco_text::SHOW_MAC_ADDRESS_TABLE);
    assert_eq!(cli.handle_command("show vlan"), cisco_text::SHOW_VLAN);
    assert_eq!(
        cisco_text::SHOW_CDP,
        "Global CDP information:\n\
         Sending CDP packets every 60 seconds\n\
         Sending a holdtime value of 180 seconds\n\
         Sending CDPv2 advertisements is enabled\n"
    );
    assert_eq!(
        cisco_text::SHOW_MEMORY,
        "                Head    Total(b)     Used(b)     Free(b)   Lowest(b)  Largest(b)\n\
         Processor    6F4A5C    134217728    45678900    88538828    87654320    85432100\n\
         I/O    1200000     33554432     8765432    24788000    24500000    22000000\n"
    );
    let lengths = [
        (cisco_text::SHOW_PROCESSES, 513),
        (cisco_text::SHOW_CDP_NEIGHBORS, 282),
        (cisco_text::SHOW_ARP, 311),
        (cisco_text::SHOW_MAC_ADDRESS_TABLE, 285),
        (cisco_text::SHOW_VLAN, 428),
        (cisco_text::SHOW_IP_BGP, 483),
    ];
    for (text, len) in lengths {
        assert_eq!(text.len(), len);
    }
}

#[test]
fn cisco_show_is_not_available_while_configuring() {
    let mut cli = configuring();
    assert_eq!(cli.handle_command("show version"), "");
}

#[test]
fn cisco_banner() {
    let cli = session();
    let banner = cli.get_banner();
    assert_eq!(banner.len(), 628);
    assert!(banner.starts_with(
        "\n**************************************************************************\n\
         * IOSv is strictly limited to use for evaluation, demonstration and IOS  *\n"
    ));
    assert!(banner.ends_with("\n\nUser Access Verification\n\n"));
}
