use routertrap::cli::juniper::{JuniperJunos, JunosMode};
use routertrap::cli::juniper_text;
use routertrap::cli::RouterCli;
use routertrap::cli::{vendor_of, CliSession, Vendor};

const SYNTAX_ERROR: &str = "                     ^\nsyntax error.\n";
const EXPECTING: &str = "                     ^\nsyntax error, expecting <command>.\n";

fn session() -> JuniperJunos {
    JuniperJunos::new("srx".to_string())
}

fn configuring() -> JuniperJunos {
    let mut cli = session();
    cli.handle_command("configure");
    cli
}

#[test]
fn junos_new_session_state() {
    let cli = session();
    assert_eq!(cli.mode(), JunosMode::Operational);
    assert!(!cli.is_authenticated());
    assert_eq!(cli.depth(), 0);
    assert_eq!(cli.get_prompt(), "admin@srx> ");
    assert_eq!(cli.get_banner(), "\n--- JUNOS 20.4R3.8 built 2021-02-25 18:35:56 UTC\n\n");
}

#[test]
fn junos_prompt_names_the_user() {
    let mut cli = session();
    assert!(cli.authenticate("eve", "anything"));
    assert!(cli.is_authenticated());
    assert_eq!(cli.get_prompt(), "eve@srx> ");
    cli.handle_command("configure");
    assert_eq!(cli.get_prompt(), "eve@srx# ");
}

#[test]
fn junos_mode_walk() {
    let mut cli = session();
    assert_eq!(cli.handle_command("configure\n"), "Entering configuration mode\n\n[edit]\n");
    assert_eq!(cli.mode(), JunosMode::Configuration);
    assert_eq!(cli.handle_command("edit interfaces ge-0/0/0"), "\n[edit interfaces ge-0/0/0]\n");
    assert_eq!(cli.handle_command("edit   unit 0  "), "\n[edit interfaces ge-0/0/0 unit 0]\n");
    assert_eq!(cli.depth(), 2);
    assert_eq!(cli.get_config_path_str(), " interfaces ge-0/0/0 unit 0");
    assert_eq!(cli.handle_command("exit"), "\n[edit interfaces ge-0/0/0]\n");
    assert_eq!(cli.handle_command("quit"), "\n[edit]\n");
    assert_eq!(cli.mode(), JunosMode::Configuration);
    assert_eq!(cli.get_config_path_str(), "");
    assert_eq!(cli.handle_command("exit"), "Exiting configuration mode\n\n");
    assert_eq!(cli.mode(), JunosMode::Operational);
    assert_eq!(cli.handle_command("exit"), "\n");
    assert_eq!(cli.mode(), JunosMode::Operational);
}

#[test]
fn junos_top_returns_to_the_top() {
    let mut cli = session();
    assert_eq!(cli.handle_command("edit"), "Entering configuration mode\n\n[edit]\n");
    cli.handle_command("edit protocols");
    cli.handle_command("edit bgp");
    cli.handle_command("edit group ebgp");
    assert_eq!(cli.depth(), 3);
    assert_eq!(cli.handle_command("top"), "\n[edit]\n");
    assert_eq!(cli.depth(), 0);
    assert_eq!(cli.mode(), JunosMode::Configuration);
    assert_eq!(cli.handle_command("top"), "\n[edit]\n");
}

#[test]
fn junos_configuration_commands() {
    let mut cli = configuring();
    assert_eq!(cli.handle_command("set system host-name x"), "");
    assert_eq!(cli.handle_command("delete system services telnet"), "");
    assert_eq!(cli.handle_command("commit"), "commit complete\n");
    assert_eq!(cli.handle_command("commit check"), "configuration check succeeds\n");
    assert_eq!(cli.handle_command("rollback"), "load complete\n");
    assert_eq!(cli.handle_command("anything else"), "");
    assert_eq!(cli.handle_command("edit"), "");
    assert_eq!(cli.handle_command("up"), "");
    assert_eq!(cli.handle_command(""), "");
    assert_eq!(cli.handle_command("show version"), "");
    assert_eq!(cli.mode(), JunosMode::Configuration);
    assert_eq!(cli.depth(), 0);
    let help = cli.handle_command("help");
    assert_eq!(help, cli.handle_command("?"));
    assert_eq!(help, cli.get_config_help());
    assert_eq!(help.len(), 1157);
    assert!(help.starts_with(
        "Configuration mode commands:\nactivate             Remove the inactive tag from a statement\n"
    ));
}

#[test]
fn junos_operational_commands() {
    let mut cli = session();
    assert_eq!(cli.handle_command("frobnicate"), SYNTAX_ERROR);
    assert_eq!(cli.handle_command("show"), SYNTAX_ERROR);
    assert_eq!(cli.handle_command("show nonsense"), SYNTAX_ERROR);
    assert_eq!(cli.handle_command("commit"), SYNTAX_ERROR);
    assert_eq!(cli.handle_command("ping"), SYNTAX_ERROR);
    assert_eq!(cli.handle_command("  "), "");
    let ping = cli.handle_command("ping 8.8.8.8");
    assert_eq!(ping.len(), 303);
    assert!(ping.starts_with("PING 8.8.8.8 (8.8.8.8): 56 data bytes\n"));
    assert_eq!(
        cli.handle_command("traceroute 1.1.1.1"),
        "traceroute to 8.8.8.8 (8.8.8.8), 30 hops max, 40 byte packets\n\
         1  192.168.1.254 (192.168.1.254)  1.234 ms  1.123 ms  1.056 ms\n\
         2  10.0.0.1 (10.0.0.1)  5.678 ms  5.567 ms  5.456 ms\n\
         3  8.8.8.8 (8.8.8.8)  10.123 ms  10.234 ms  10.345 ms\n"
    );
    let help = cli.handle_command("?");
    assert_eq!(help, cli.handle_command("help"));
    assert_eq!(help, cli.get_help());
    assert_eq!(help.len(), 864);
    assert_eq!(cli.mode(), JunosMode::Operational);
}

#[test]
fn junos_show_version_names_the_host_three_times() {
    let mut cli = JuniperJunos::new("edge".to_string());
    let out = cli.handle_command("show version");
    assert_eq!(out.len(), 815 + 3 * 4);
    assert!(out.starts_with(
        "Hostname: edge\nModel: srx300\nJunos: 20.4R3.8\nJUNOS Software Release [20.4R3.8]\n\nedge re0:\n"
    ));
    assert_eq!(out.matches("Hostname: edge\n").count(), 2);
    assert!(out.ends_with("JUNOS Routing Software Suite [20.4R3.8]\n\n"));
    assert_eq!(cli.handle_show_command("version"), out);
}

#[test]
fn junos_show_configuration() {
    let mut cli = session();
    cli.authenticate("ops", "");
    let out = cli.handle_command("show configuration");
    assert_eq!(out.len(), 1540 + 3 + 3);
    assert!(out.starts_with(
        "## Last commit: 2024-01-15 10:30:00 UTC by ops\nversion 20.4R3.8;\nsystem {\nhost-name srx;\n"
    ));
    assert!(out.contains("root-authentication {\nencrypted-password \"$1$mERr$hx5rVt7rPNoS4wqbXKX7m0\";\n}\n"));
    assert!(out.ends_with("neighbor 192.168.1.254 {\npeer-as 65000;\n}\n}\n}\n}\n\n"));
    cli.handle_command("configure");
    assert_eq!(cli.handle_command("show"), out);
    assert_eq!(cli.handle_command("show configuration"), out);
}

#[test]
fn junos_show_subcommands() {
    let mut cli = session();
    let cases = [
        ("show interfaces", juniper_text::SHOW_INTERFACES, 1104),
        ("show interfaces terse", juniper_text::SHOW_INTERFACES_TERSE, 313),
        ("show interfaces ge-0/0/0", juniper_text::SHOW_INTERFACES, 1104),
        ("show route", juniper_text::SHOW_ROUTE, 322),
        ("show route summary", juniper_text::SHOW_ROUTE_SUMMARY, 232),
        ("show bgp", juniper_text::SHOW_BGP, 239),
        ("show bgp summary", juniper_text::SHOW_BGP_SUMMARY, 399),
        ("show bgp neighbor", juniper_text::SHOW_BGP_NEIGHBOR, 1217),
        ("show chassis hardware", juniper_text::SHOW_CHASSIS_HARDWARE, 474),
        ("show chassis alarms", juniper_text::SHOW_CHASSIS_ALARMS, 27),
        ("show chassis environment", juniper_text::SHOW_CHASSIS_ENVIRONMENT, 253),
        ("show system uptime", juniper_text::SHOW_SYSTEM_UPTIME, 316),
        ("show system processes", juniper_text::SHOW_SYSTEM_PROCESSES, 463),
        ("show system storage", juniper_text::SHOW_SYSTEM_STORAGE, 348),
        ("show arp", juniper_text::SHOW_ARP, 358),
        ("show ethernet-switching", juniper_text::SHOW_ETHERNET_SWITCHING, 293),
        ("show log", juniper_text::SHOW_LOG, 451),
        ("show log messages", juniper_text::SHOW_LOG, 451),
        ("show security zones", juniper_text::SHOW_SECURITY_ZONES, 276),
        ("show security policies", juniper_text::SHOW_SECURITY_POLICIES, 188),
        ("show security flow", juniper_text::SHOW_SECURITY_FLOW, 292),
    ];
    for (command, text, len) in cases {
        let out = cli.handle_command(command);
        assert_eq!(out, text, "{}", command);
        assert_eq!(out.len(), len, "{}", command);
    }
    for command in ["show chassis", "show chassis x", "show system", "show security", "show security nat"] {
        assert_eq!(cli.handle_command(command), EXPECTING, "{}", command);
    }
}

#[test]
fn junos_show_route_summary_is_exact() {
    let mut cli = session();
    assert_eq!(
        cli.handle_command("show route summary"),
        "Autonomous system number: 65001\n\
         Router ID: 192.168.1.1\n\
         \n\
         inet.0: 3 destinations, 3 routes (3 active, 0 holddown, 0 hidden)\n\
         Direct:      1 routes,      1 active\n\
         Local:      1 routes,      1 active\n\
         Static:      1 routes,      1 active\n"
    );
    assert_eq!(cli.handle_command("show chassis alarms"), "No alarms currently active\n");
}

#[test]
fn junos_show_system_users_names_the_login() {
    let mut cli = session();
    assert_eq!(
        cli.handle_command("show system users"),
        " 5:30PM  up 297 days,  5:30, 1 user, load averages: 0.12, 0.15, 0.18\n\
         USER     TTY      FROM                              LOGIN@  IDLE WHAT\n\
         admin      pts/0    192.168.1.100                     3:30PM     0 cli\n"
    );
    cli.authenticate("trent", "pw");
    assert!(cli.handle_command("show system users").contains("\ntrent      pts/0    192.168.1.100"));
}

#[test]
fn cli_session_follows_the_configured_vendor() {
    assert_eq!(vendor_of("cisco"), Some(Vendor::Cisco));
    assert_eq!(vendor_of("juniper"), Some(Vendor::Juniper));
    assert_eq!(vendor_of("Cisco"), None);
    assert_eq!(vendor_of(""), None);
    assert_eq!(vendor_of("cisco "), None);

    let mut cisco = CliSession::new(Vendor::Cisco, "gw".to_string());
    assert_eq!(cisco.get_prompt(), "gw>");
    assert!(cisco.authenticate("a", "b"));
    assert_eq!(cisco.handle_command("enable"), "");
    assert_eq!(cisco.get_prompt(), "gw#");
    assert_eq!(cisco.get_banner().len(), 628);

    let mut junos = CliSession::new(Vendor::Juniper, "gw".to_string());
    assert_eq!(junos.get_prompt(), "admin@gw> ");
    assert!(junos.authenticate("a", "b"));
    assert_eq!(junos.handle_command("configure"), "Entering configuration mode\n\n[edit]\n");
    assert_eq!(junos.get_prompt(), "a@gw# ");
    assert_eq!(junos.get_banner().len(), 51);
}
