//! The Cisco IOS command-line emulator.

use crate::cli::cisco_text;
use crate::cli::{ConfigLine, RouterCli};
use crate::text::{
    chars_eq, copy_range, eq_str, has_prefix, split_words, text_of, text_or, to_chars, to_string,
    trim, trimmed, views, word_at, words,
};
use vstd::prelude::*;
use vstd::string::*;

verus! {

/// The modes of an IOS session, each with its own prompt.
#[derive(Debug, Clone, Copy, PartialEq, Eq, Structural)]
pub enum CiscoMode {
    /// `>`
    UserExec,
    /// `#`
    PrivilegedExec,
    /// `(config)#`
    GlobalConfig,
    /// `(config-if)#`
    InterfaceConfig,
    /// `(config-router)#`
    RouterConfig,
    /// `(config-line)#`
    LineConfig,
}

/// One interface of the emulated router.
#[derive(Debug)]
pub struct InterfaceConfig {
    pub name: String,
    pub ip_address: Option<String>,
    pub subnet_mask: Option<String>,
    pub status: String,
    pub description: Option<String>,
}

/// The mathematical content of an interface.
pub struct InterfaceView {
    pub name: Seq<char>,
    pub ip_address: Option<Seq<char>>,
    pub subnet_mask: Option<Seq<char>>,
    pub status: Seq<char>,
    pub description: Option<Seq<char>>,
}

/// An IOS session.
pub struct CiscoIos {
    hostname: String,
    mode: CiscoMode,
    running_config: Vec<ConfigLine>,
    interfaces: Vec<InterfaceConfig>,
    authenticated: bool,
    username: Option<String>,
}

/// The mathematical content of a session.
pub struct CiscoView {
    pub hostname: Seq<char>,
    pub mode: CiscoMode,
    pub running_config: Seq<(Seq<char>, Seq<char>)>,
    pub interfaces: Seq<InterfaceView>,
    pub authenticated: bool,
    pub username: Option<Seq<char>>,
}

impl View for InterfaceConfig {
    type V = InterfaceView;

    open spec fn view(&self) -> InterfaceView {
        InterfaceView {
            name: self.name@,
            ip_address: text_of(self.ip_address),
            subnet_mask: text_of(self.subnet_mask),
            status: self.status@,
            description: text_of(self.description),
        }
    }
}

impl View for CiscoIos {
    type V = CiscoView;

    closed spec fn view(&self) -> CiscoView {
        CiscoView {
            hostname: self.hostname@,
            mode: self.mode,
            running_config: self.running_config@.map_values(|l: ConfigLine| l@),
            interfaces: self.interfaces@.map_values(|i: InterfaceConfig| i@),
            authenticated: self.authenticated,
            username: text_of(self.username),
        }
    }
}

/// The interfaces of a new session.
pub open spec fn default_interfaces() -> Seq<InterfaceView> {
    seq![
        InterfaceView {
            name: "GigabitEthernet0/0"@,
            ip_address: Some("192.168.1.1"@),
            subnet_mask: Some("255.255.255.0"@),
            status: "up"@,
            description: None,
        },
        InterfaceView {
            name: "GigabitEthernet0/1"@,
            ip_address: None,
            subnet_mask: None,
            status: "administratively down"@,
            description: None,
        },
    ]
}

/// The remembered configuration of a new session.
pub open spec fn default_running_config() -> Seq<(Seq<char>, Seq<char>)> {
    seq![("version"@, "15.2"@), ("service"@, "timestamps debug datetime msec"@)]
}

/// The prompt of a mode on a router with the given hostname.
pub open spec fn prompt_text(hostname: Seq<char>, mode: CiscoMode) -> Seq<char> {
    hostname + match mode {
        CiscoMode::UserExec => ">"@,
        CiscoMode::PrivilegedExec => "#"@,
        CiscoMode::GlobalConfig => "(config)#"@,
        CiscoMode::InterfaceConfig => "(config-if)#"@,
        CiscoMode::RouterConfig => "(config-router)#"@,
        CiscoMode::LineConfig => "(config-line)#"@,
    }
}

/// The mode after a command, given without surrounding white space.
pub open spec fn next_mode(mode: CiscoMode, cmd: Seq<char>) -> CiscoMode {
    if cmd.len() == 0 {
        mode
    } else {
        match mode {
            CiscoMode::UserExec => if cmd == "enable"@ || cmd == "en"@ {
                CiscoMode::PrivilegedExec
            } else {
                mode
            },
            CiscoMode::PrivilegedExec => if cmd == "configure terminal"@ || cmd == "conf t"@ {
                CiscoMode::GlobalConfig
            } else if cmd == "disable"@ {
                CiscoMode::UserExec
            } else {
                mode
            },
            CiscoMode::GlobalConfig => if cmd == "exit"@ || cmd == "end"@ {
                CiscoMode::PrivilegedExec
            } else if "interface "@.is_prefix_of(cmd) {
                CiscoMode::InterfaceConfig
            } else if "router bgp"@.is_prefix_of(cmd) {
                CiscoMode::RouterConfig
            } else {
                mode
            },
            _ => if cmd == "exit"@ || cmd == "end"@ {
                CiscoMode::PrivilegedExec
            } else {
                mode
            },
        }
    }
}

/// The command sets the hostname: `hostname <name>` in global
/// configuration mode.
pub open spec fn sets_hostname(mode: CiscoMode, cmd: Seq<char>) -> bool {
    &&& mode == CiscoMode::GlobalConfig
    &&& cmd != "exit"@
    &&& cmd != "end"@
    &&& !"interface "@.is_prefix_of(cmd)
    &&& !"router bgp"@.is_prefix_of(cmd)
    &&& "hostname "@.is_prefix_of(cmd)
    &&& words(cmd).len() >= 2
}

/// The hostname after a command, given without surrounding white space.
pub open spec fn next_hostname(hostname: Seq<char>, mode: CiscoMode, cmd: Seq<char>) -> Seq<char> {
    if sets_hostname(mode, cmd) {
        words(cmd)[1]
    } else {
        hostname
    }
}

/// The session after a command, given without surrounding white space.
pub open spec fn session_after(s: CiscoView, cmd: Seq<char>) -> CiscoView {
    CiscoView {
        hostname: next_hostname(s.hostname, s.mode, cmd),
        mode: next_mode(s.mode, cmd),
        running_config: s.running_config,
        interfaces: s.interfaces,
        authenticated: s.authenticated,
        username: s.username,
    }
}

/// The session after a login under the given name.
pub open spec fn logged_in(s: CiscoView, username: Seq<char>) -> CiscoView {
    CiscoView {
        hostname: s.hostname,
        mode: s.mode,
        running_config: s.running_config,
        interfaces: s.interfaces,
        authenticated: true,
        username: Some(username),
    }
}

/// Index of the first interface called `name` at or after `from`; the
/// number of interfaces if there is none.
pub open spec fn interface_position(ifs: Seq<InterfaceView>, name: Seq<char>, from: int) -> int
    decreases ifs.len() - from,
{
    if from < 0 || from >= ifs.len() {
        ifs.len() as int
    } else if ifs[from].name == name {
        from
    } else {
        interface_position(ifs, name, from + 1)
    }
}

/// The state of the line protocol that a brief listing shows.
pub open spec fn line_protocol(status: Seq<char>) -> Seq<char> {
    if status == "up"@ {
        "up"@
    } else {
        "down"@
    }
}

pub open spec fn description_line(description: Option<Seq<char>>) -> Seq<char> {
    match description {
        Some(d) => "  Description: "@ + d + "\n"@,
        None => Seq::empty(),
    }
}

/// `show interfaces <name>` for an interface that exists.
pub open spec fn interface_detail(i: InterfaceView) -> Seq<char> {
    i.name + " is "@ + i.status + cisco_text::INTERFACE_HARDWARE@ + description_line(
        i.description,
    ) + cisco_text::INTERFACE_COUNTERS@
}

/// One line of `show interfaces`.
pub open spec fn interface_brief(i: InterfaceView) -> Seq<char> {
    i.name + " is "@ + i.status + ", line protocol is "@ + line_protocol(i.status) + "\n"@
}

/// `show interfaces`: one line for each interface.
pub open spec fn interfaces_brief(ifs: Seq<InterfaceView>) -> Seq<char>
    decreases ifs.len(),
{
    if ifs.len() == 0 {
        Seq::empty()
    } else {
        interfaces_brief(ifs.drop_last()) + interface_brief(ifs.last())
    }
}

pub open spec fn show_interfaces_text(ifs: Seq<InterfaceView>, name: Option<Seq<char>>) -> Seq<
    char,
> {
    match name {
        Some(n) => {
            let at = interface_position(ifs, n, 0);
            if 0 <= at < ifs.len() {
                interface_detail(ifs[at])
            } else {
                cisco_text::INVALID_INPUT_AT_NAME@
            }
        },
        None => interfaces_brief(ifs),
    }
}

/// The address and mask of an interface as a listing shows them.
pub open spec fn address_text(i: InterfaceView) -> Seq<char> {
    text_or(i.ip_address, "unassigned"@) + "/"@ + text_or(i.subnet_mask, Seq::empty())
}

/// `show ip interface <name>` for an interface that exists.
pub open spec fn ip_interface_detail(i: InterfaceView) -> Seq<char> {
    i.name + " is "@ + i.status + cisco_text::IP_INTERFACE_ADDRESS@ + address_text(i)
        + cisco_text::IP_INTERFACE_SETTINGS@
}

/// The two lines of an interface in `show ip interface`.
pub open spec fn ip_interface_brief(i: InterfaceView) -> Seq<char> {
    interface_brief(i) + "  Internet address is "@ + address_text(i) + "\n"@
}

pub open spec fn ip_interfaces_brief(ifs: Seq<InterfaceView>) -> Seq<char>
    decreases ifs.len(),
{
    if ifs.len() == 0 {
        Seq::empty()
    } else {
        ip_interfaces_brief(ifs.drop_last()) + ip_interface_brief(ifs.last())
    }
}

pub open spec fn show_ip_interface_text(ifs: Seq<InterfaceView>, name: Option<Seq<char>>) -> Seq<
    char,
> {
    match name {
        Some(n) => {
            let at = interface_position(ifs, n, 0);
            if 0 <= at < ifs.len() {
                ip_interface_detail(ifs[at])
            } else {
                cisco_text::INVALID_INTERFACE@
            }
        },
        None => ip_interfaces_brief(ifs),
    }
}

pub open spec fn show_version_text(hostname: Seq<char>) -> Seq<char> {
    cisco_text::SHOW_VERSION_HEAD@ + hostname + cisco_text::SHOW_VERSION_TAIL@
}

pub open spec fn show_running_config_text(hostname: Seq<char>) -> Seq<char> {
    cisco_text::SHOW_RUNNING_CONFIG_HEAD@ + hostname + cisco_text::SHOW_RUNNING_CONFIG_TAIL@
}

/// `show users`: the name given at login, or `admin` before any.
pub open spec fn show_users_text(username: Option<Seq<char>>) -> Seq<char> {
    cisco_text::SHOW_USERS_HEAD@ + text_or(username, "admin"@) + cisco_text::SHOW_USERS_TAIL@
}

/// The output of `show ip ...`, by the word that follows `ip`.
pub open spec fn show_ip_text(s: CiscoView, ws: Seq<Seq<char>>) -> Seq<char> {
    let sub = word_at(ws, 1);
    if sub == Some("interface"@) {
        show_ip_interface_text(s.interfaces, word_at(ws, 2))
    } else if sub == Some("route"@) {
        cisco_text::SHOW_IP_ROUTE@
    } else if sub == Some("bgp"@) {
        cisco_text::SHOW_IP_BGP@
    } else {
        cisco_text::INCOMPLETE_COMMAND@
    }
}

/// The output of `show` followed by the given arguments.
pub open spec fn show_text(s: CiscoView, args: Seq<char>) -> Seq<char> {
    let ws = words(args);
    let first = word_at(ws, 0);
    if first == Some("version"@) {
        show_version_text(s.hostname)
    } else if first == Some("running-config"@) || first == Some("run"@) {
        show_running_config_text(s.hostname)
    } else if first == Some("ip"@) {
        show_ip_text(s, ws)
    } else if first == Some("interface"@) || first == Some("interfaces"@) {
        show_interfaces_text(s.interfaces, word_at(ws, 1))
    } else if first == Some("users"@) {
        show_users_text(s.username)
    } else if first == Some("processes"@) {
        cisco_text::SHOW_PROCESSES@
    } else if first == Some("memory"@) {
        cisco_text::SHOW_MEMORY@
    } else if first == Some("cdp"@) {
        if word_at(ws, 1) == Some("neighbors"@) {
            cisco_text::SHOW_CDP_NEIGHBORS@
        } else {
            cisco_text::SHOW_CDP@
        }
    } else if first == Some("arp"@) {
        cisco_text::SHOW_ARP@
    } else if first == Some("mac-address-table"@) || first == Some("mac"@) {
        cisco_text::SHOW_MAC_ADDRESS_TABLE@
    } else if first == Some("vlan"@) {
        cisco_text::SHOW_VLAN@
    } else {
        cisco_text::INVALID_INPUT@
    }
}

/// The help of a mode.
pub open spec fn help_text(mode: CiscoMode) -> Seq<char> {
    match mode {
        CiscoMode::UserExec => cisco_text::HELP_USER_EXEC@,
        CiscoMode::PrivilegedExec => cisco_text::HELP_PRIVILEGED_EXEC@,
        _ => Seq::empty(),
    }
}

/// The output of a command in user exec mode.
pub open spec fn user_exec_reply(s: CiscoView, cmd: Seq<char>) -> Seq<char> {
    if cmd == "enable"@ || cmd == "en"@ {
        Seq::empty()
    } else if "show "@.is_prefix_of(cmd) {
        show_text(s, cmd.skip(5))
    } else if cmd == "exit"@ || cmd == "quit"@ {
        cisco_text::LOGOUT@
    } else if cmd == "?"@ {
        help_text(s.mode)
    } else {
        cisco_text::INVALID_INPUT@
    }
}

/// The output of a command in privileged exec mode.
pub open spec fn privileged_exec_reply(s: CiscoView, cmd: Seq<char>) -> Seq<char> {
    if cmd == "configure terminal"@ || cmd == "conf t"@ {
        cisco_text::ENTER_CONFIG@
    } else if cmd == "disable"@ {
        Seq::empty()
    } else if "show "@.is_prefix_of(cmd) {
        show_text(s, cmd.skip(5))
    } else if cmd == "reload"@ {
        cisco_text::RELOAD_PROMPT@
    } else if cmd == "write memory"@ || cmd == "wr"@ {
        cisco_text::WRITE_MEMORY_OK@
    } else if cmd == "exit"@ || cmd == "quit"@ {
        cisco_text::LOGOUT@
    } else if cmd == "?"@ {
        help_text(s.mode)
    } else {
        cisco_text::INVALID_INPUT@
    }
}

/// The output of a command in global configuration mode: the help for
/// `?`, and nothing for anything else.
pub open spec fn global_config_reply(cmd: Seq<char>) -> Seq<char> {
    if cmd == "exit"@ || cmd == "end"@ || "interface "@.is_prefix_of(cmd) || "router bgp"@.is_prefix_of(
        cmd,
    ) || "hostname "@.is_prefix_of(cmd) {
        Seq::empty()
    } else if cmd == "?"@ {
        cisco_text::HELP_CONFIG@
    } else {
        Seq::empty()
    }
}

/// The output of a command, given without surrounding white space.
pub open spec fn reply_text(s: CiscoView, cmd: Seq<char>) -> Seq<char> {
    if cmd.len() == 0 {
        Seq::empty()
    } else {
        match s.mode {
            CiscoMode::UserExec => user_exec_reply(s, cmd),
            CiscoMode::PrivilegedExec => privileged_exec_reply(s, cmd),
            CiscoMode::GlobalConfig => global_config_reply(cmd),
            _ => Seq::empty(),
        }
    }
}

fn text(s: &str) -> (out: String)
    ensures
        out@ == s@,
{
    s.to_string()
}

/// A copy of an optional string.
fn copy_optional(s: &Option<String>) -> (out: Option<String>)
    ensures
        text_of(out) == text_of(*s),
{
    match s {
        Some(t) => Some(t.clone()),
        None => None,
    }
}

impl InterfaceConfig {
    fn append_line_protocol(&self, out: &mut String)
        ensures
            final(out)@ == old(out)@ + line_protocol(self.status@),
    {
        let status = to_chars(self.status.as_str());
        if eq_str(&status, "up") {
            out.append("up");
        } else {
            out.append("down");
        }
    }

    fn append_brief(&self, out: &mut String)
        ensures
            final(out)@ == old(out)@ + interface_brief(self@),
    {
        out.append(self.name.as_str());
        out.append(" is ");
        out.append(self.status.as_str());
        out.append(", line protocol is ");
        self.append_line_protocol(out);
        out.append("\n");
        assert(out@ =~= old(out)@ + interface_brief(self@));
    }

    fn append_address(&self, out: &mut String)
        ensures
            final(out)@ == old(out)@ + address_text(self@),
    {
        match &self.ip_address {
            Some(a) => out.append(a.as_str()),
            None => out.append("unassigned"),
        }
        out.append("/");
        match &self.subnet_mask {
            Some(m) => out.append(m.as_str()),
            None => {},
        }
        assert(out@ =~= old(out)@ + address_text(self@));
    }

    fn detail(&self) -> (out: String)
        ensures
            out@ == interface_detail(self@),
    {
        let mut out = self.name.clone();
        out.append(" is ");
        out.append(self.status.as_str());
        out.append(cisco_text::INTERFACE_HARDWARE);
        match &self.description {
            Some(d) => {
                out.append("  Description: ");
                out.append(d.as_str());
                out.append("\n");
            },
            None => {},
        }
        out.append(cisco_text::INTERFACE_COUNTERS);
        assert(out@ =~= interface_detail(self@));
        out
    }

    fn ip_detail(&self) -> (out: String)
        ensures
            out@ == ip_interface_detail(self@),
    {
        let mut out = self.name.clone();
        out.append(" is ");
        out.append(self.status.as_str());
        out.append(cisco_text::IP_INTERFACE_ADDRESS);
        self.append_address(&mut out);
        out.append(cisco_text::IP_INTERFACE_SETTINGS);
        assert(out@ =~= ip_interface_detail(self@));
        out
    }
}

impl CiscoIos {
    /// A new session on a router with the given hostname: not logged in,
    /// in user exec mode, with two interfaces.
    pub open spec fn new_session(hostname: Seq<char>) -> CiscoView {
        CiscoView {
            hostname,
            mode: CiscoMode::UserExec,
            running_config: default_running_config(),
            interfaces: default_interfaces(),
            authenticated: false,
            username: None,
        }
    }

    /// A session on a router with the given hostname.
    pub fn new(hostname: String) -> (cli: CiscoIos)
        ensures
            cli@ == CiscoIos::new_session(hostname@),
    {
        let mut running_config: Vec<ConfigLine> = Vec::new();
        running_config.push(ConfigLine { key: text("version"), value: text("15.2") });
        running_config.push(
            ConfigLine { key: text("service"), value: text("timestamps debug datetime msec") },
        );
        let mut interfaces: Vec<InterfaceConfig> = Vec::new();
        interfaces.push(
            InterfaceConfig {
                name: text("GigabitEthernet0/0"),
                ip_address: Some(text("192.168.1.1")),
                subnet_mask: Some(text("255.255.255.0")),
                status: text("up"),
                description: None,
            },
        );
        interfaces.push(
            InterfaceConfig {
                name: text("GigabitEthernet0/1"),
                ip_address: None,
                subnet_mask: None,
                status: text("administratively down"),
                description: None,
            },
        );
        let cli = CiscoIos {
            hostname,
            mode: CiscoMode::UserExec,
            running_config,
            interfaces,
            authenticated: false,
            username: None,
        };
        assert(cli@.running_config =~= default_running_config());
        assert(cli@.interfaces =~= default_interfaces());
        cli
    }

    /// Logs in. Every pair of user name and password is accepted; the name
    /// is remembered.
    pub fn authenticate(&mut self, username: &str, password: &str) -> (accepted: bool)
        ensures
            accepted,
            final(self)@ == logged_in(old(self)@, username@),
    {
        self.authenticated = true;
        self.username = Some(text(username));
        true
    }

    /// The current mode.
    pub fn mode(&self) -> (mode: CiscoMode)
        ensures
            mode == self@.mode,
    {
        self.mode
    }

    /// The current hostname.
    pub fn hostname(&self) -> (name: String)
        ensures
            name@ == self@.hostname,
    {
        self.hostname.clone()
    }

    /// Whether a login took place.
    pub fn is_authenticated(&self) -> (yes: bool)
        ensures
            yes == self@.authenticated,
    {
        self.authenticated
    }

    /// The name given at login.
    pub fn username(&self) -> (name: Option<String>)
        ensures
            text_of(name) == self@.username,
    {
        copy_optional(&self.username)
    }

    fn find_interface(&self, name: &Vec<char>) -> (at: usize)
        ensures
            at == interface_position(self@.interfaces, name@, 0),
            at <= self.interfaces@.len(),
    {
        let mut i: usize = 0;
        while i < self.interfaces.len()
            invariant
                i <= self.interfaces@.len(),
                interface_position(self@.interfaces, name@, 0) == interface_position(
                    self@.interfaces,
                    name@,
                    i as int,
                ),
            decreases self.interfaces@.len() - i,
        {
            assert(self@.interfaces[i as int] == self.interfaces@[i as int]@);
            let this = to_chars(self.interfaces[i].name.as_str());
            if chars_eq(&this, name) {
                return i;
            }
            i += 1;
        }
        i
    }

    fn show_version(&self) -> (out: String)
        ensures
            out@ == show_version_text(self@.hostname),
    {
        let mut out = text(cisco_text::SHOW_VERSION_HEAD);
        out.append(self.hostname.as_str());
        out.append(cisco_text::SHOW_VERSION_TAIL);
        out
    }

    fn show_running_config(&self) -> (out: String)
        ensures
            out@ == show_running_config_text(self@.hostname),
    {
        let mut out = text(cisco_text::SHOW_RUNNING_CONFIG_HEAD);
        out.append(self.hostname.as_str());
        out.append(cisco_text::SHOW_RUNNING_CONFIG_TAIL);
        out
    }

    fn show_interfaces(&self, interface: Option<&Vec<char>>) -> (out: String)
        ensures
            out@ == show_interfaces_text(
                self@.interfaces,
                match interface {
                    Some(n) => Some(n@),
                    None => None,
                },
            ),
    {
        match interface {
            Some(name) => {
                let at = self.find_interface(name);
                if at < self.interfaces.len() {
                    assert(self@.interfaces[at as int] == self.interfaces@[at as int]@);
                    self.interfaces[at].detail()
                } else {
                    text(cisco_text::INVALID_INPUT_AT_NAME)
                }
            },
            None => {
                let ghost ifs = self@.interfaces;
                let mut out = String::new();
                let mut i: usize = 0;
                assert(ifs.take(0) =~= Seq::<InterfaceView>::empty());
                while i < self.interfaces.len()
                    invariant
                        i <= self.interfaces@.len(),
                        ifs == self@.interfaces,
                        out@ == interfaces_brief(ifs.take(i as int)),
                    decreases self.interfaces@.len() - i,
                {
                    proof {
                        assert(ifs[i as int] == self.interfaces@[i as int]@);
                        assert(ifs.take(i + 1).drop_last() =~= ifs.take(i as int));
                        assert(ifs.take(i + 1).last() == ifs[i as int]);
                    }
                    self.interfaces[i].append_brief(&mut out);
                    i += 1;
                }
                assert(ifs.take(ifs.len() as int) =~= ifs);
                out
            },
        }
    }

    fn show_ip_interface(&self, interface: Option<&Vec<char>>) -> (out: String)
        ensures
            out@ == show_ip_interface_text(
                self@.interfaces,
                match interface {
                    Some(n) => Some(n@),
                    None => None,
                },
            ),
    {
        match interface {
            Some(name) => {
                let at = self.find_interface(name);
                if at < self.interfaces.len() {
                    assert(self@.interfaces[at as int] == self.interfaces@[at as int]@);
                    self.interfaces[at].ip_detail()
                } else {
                    text(cisco_text::INVALID_INTERFACE)
                }
            },
            None => {
                let ghost ifs = self@.interfaces;
                let mut out = String::new();
                let mut i: usize = 0;
                assert(ifs.take(0) =~= Seq::<InterfaceView>::empty());
                while i < self.interfaces.len()
                    invariant
                        i <= self.interfaces@.len(),
                        ifs == self@.interfaces,
                        out@ == ip_interfaces_brief(ifs.take(i as int)),
                    decreases self.interfaces@.len() - i,
                {
                    proof {
                        assert(ifs[i as int] == self.interfaces@[i as int]@);
                        assert(ifs.take(i + 1).drop_last() =~= ifs.take(i as int));
                        assert(ifs.take(i + 1).last() == ifs[i as int]);
                    }
                    let ghost before = out@;
                    self.interfaces[i].append_brief(&mut out);
                    out.append("  Internet address is ");
                    self.interfaces[i].append_address(&mut out);
                    out.append("\n");
                    assert(out@ =~= before + ip_interface_brief(ifs[i as int]));
                    i += 1;
                }
                assert(ifs.take(ifs.len() as int) =~= ifs);
                out
            },
        }
    }

    fn show_ip_route(&self) -> (out: String)
        ensures
            out@ == cisco_text::SHOW_IP_ROUTE@,
    {
        text(cisco_text::SHOW_IP_ROUTE)
    }

    fn show_ip_bgp(&self) -> (out: String)
        ensures
            out@ == cisco_text::SHOW_IP_BGP@,
    {
        text(cisco_text::SHOW_IP_BGP)
    }

    fn show_users(&self) -> (out: String)
        ensures
            out@ == show_users_text(self@.username),
    {
        let mut out = text(cisco_text::SHOW_USERS_HEAD);
        match &self.username {
            Some(name) => out.append(name.as_str()),
            None => out.append("admin"),
        }
        out.append(cisco_text::SHOW_USERS_TAIL);
        out
    }

    fn show_processes(&self) -> (out: String)
        ensures
            out@ == cisco_text::SHOW_PROCESSES@,
    {
        text(cisco_text::SHOW_PROCESSES)
    }

    fn show_memory(&self) -> (out: String)
        ensures
            out@ == cisco_text::SHOW_MEMORY@,
    {
        text(cisco_text::SHOW_MEMORY)
    }

    fn show_cdp_neighbors(&self) -> (out: String)
        ensures
            out@ == cisco_text::SHOW_CDP_NEIGHBORS@,
    {
        text(cisco_text::SHOW_CDP_NEIGHBORS)
    }

    fn show_cdp(&self) -> (out: String)
        ensures
            out@ == cisco_text::SHOW_CDP@,
    {
        text(cisco_text::SHOW_CDP)
    }

    fn show_arp(&self) -> (out: String)
        ensures
            out@ == cisco_text::SHOW_ARP@,
    {
        text(cisco_text::SHOW_ARP)
    }

    fn show_mac_address_table(&self) -> (out: String)
        ensures
            out@ == cisco_text::SHOW_MAC_ADDRESS_TABLE@,
    {
        text(cisco_text::SHOW_MAC_ADDRESS_TABLE)
    }

    fn show_vlan(&self) -> (out: String)
        ensures
            out@ == cisco_text::SHOW_VLAN@,
    {
        text(cisco_text::SHOW_VLAN)
    }

    /// The output of `show` followed by the given arguments.
    pub fn handle_show_command(&self, args: &str) -> (out: String)
        ensures
            out@ == show_text(self@, args@),
    {
        let chars = to_chars(args);
        self.show(&chars)
    }

    fn show(&self, args: &Vec<char>) -> (out: String)
        ensures
            out@ == show_text(self@, args@),
    {
        let parts = split_words(args);
        let ghost ws = words(args@);
        assert(views(parts@).len() == parts@.len());
        if parts.len() == 0 {
            return text(cisco_text::INVALID_INPUT);
        }
        assert(ws[0] == parts@[0]@);
        assert(parts@.len() > 1 ==> ws[1] == parts@[1]@) by {
            if parts@.len() > 1 {
                assert(views(parts@)[1] == parts@[1]@);
            }
        }
        assert(parts@.len() > 2 ==> ws[2] == parts@[2]@) by {
            if parts@.len() > 2 {
                assert(views(parts@)[2] == parts@[2]@);
            }
        }
        let first = &parts[0];
        if eq_str(first, "version") {
            self.show_version()
        } else if eq_str(first, "running-config") || eq_str(first, "run") {
            self.show_running_config()
        } else if eq_str(first, "ip") {
            if parts.len() > 1 && eq_str(&parts[1], "interface") {
                if parts.len() > 2 {
                    self.show_ip_interface(Some(&parts[2]))
                } else {
                    self.show_ip_interface(None)
                }
            } else if parts.len() > 1 && eq_str(&parts[1], "route") {
                self.show_ip_route()
            } else if parts.len() > 1 && eq_str(&parts[1], "bgp") {
                self.show_ip_bgp()
            } else {
                text(cisco_text::INCOMPLETE_COMMAND)
            }
        } else if eq_str(first, "interface") || eq_str(first, "interfaces") {
            if parts.len() > 1 {
                self.show_interfaces(Some(&parts[1]))
            } else {
                self.show_interfaces(None)
            }
        } else if eq_str(first, "users") {
            self.show_users()
        } else if eq_str(first, "processes") {
            self.show_processes()
        } else if eq_str(first, "memory") {
            self.show_memory()
        } else if eq_str(first, "cdp") {
            if parts.len() > 1 && eq_str(&parts[1], "neighbors") {
                self.show_cdp_neighbors()
            } else {
                self.show_cdp()
            }
        } else if eq_str(first, "arp") {
            self.show_arp()
        } else if eq_str(first, "mac-address-table") || eq_str(first, "mac") {
            self.show_mac_address_table()
        } else if eq_str(first, "vlan") {
            self.show_vlan()
        } else {
            text(cisco_text::INVALID_INPUT)
        }
    }

    /// The help of the current mode; there is none in the configuration
    /// modes.
    pub fn get_help(&self) -> (out: String)
        ensures
            out@ == help_text(self@.mode),
    {
        match self.mode {
            CiscoMode::UserExec => text(cisco_text::HELP_USER_EXEC),
            CiscoMode::PrivilegedExec => text(cisco_text::HELP_PRIVILEGED_EXEC),
            _ => String::new(),
        }
    }

    /// The help of the global configuration mode.
    pub fn get_config_help(&self) -> (out: String)
        ensures
            out@ == cisco_text::HELP_CONFIG@,
    {
        text(cisco_text::HELP_CONFIG)
    }

    fn show_arguments(&self, cmd: &Vec<char>) -> (out: String)
        requires
            "show "@.is_prefix_of(cmd@),
        ensures
            out@ == show_text(self@, cmd@.skip(5)),
    {
        proof {
            reveal_strlit("show ");
        }
        let args = copy_range(cmd, 5, cmd.len());
        assert(cmd@.subrange(5, cmd@.len() as int) =~= cmd@.skip(5));
        self.show(&args)
    }
}

impl RouterCli for CiscoIos {
    open spec fn prompt(&self) -> Seq<char> {
        prompt_text(self@.hostname, self@.mode)
    }

    open spec fn banner(&self) -> Seq<char> {
        cisco_text::BANNER@
    }

    open spec fn reply(&self, command: Seq<char>) -> Seq<char> {
        reply_text(self@, trim(command))
    }

    /// Runs one line of input: white space around it is dropped, the mode
    /// and the hostname change as the command says, and its output comes
    /// back.
    fn handle_command(&mut self, command: &str) -> (out: String)
        ensures
            out@ == reply_text(old(self)@, trim(command@)),
            final(self)@ == session_after(old(self)@, trim(command@)),
    {
        let chars = to_chars(command);
        let cmd = trimmed(&chars);
        if cmd.len() == 0 {
            return String::new();
        }
        match self.mode {
            CiscoMode::UserExec => {
                if eq_str(&cmd, "enable") || eq_str(&cmd, "en") {
                    self.mode = CiscoMode::PrivilegedExec;
                    String::new()
                } else if has_prefix(&cmd, "show ") {
                    self.show_arguments(&cmd)
                } else if eq_str(&cmd, "exit") || eq_str(&cmd, "quit") {
                    text(cisco_text::LOGOUT)
                } else if eq_str(&cmd, "?") {
                    self.get_help()
                } else {
                    text(cisco_text::INVALID_INPUT)
                }
            },
            CiscoMode::PrivilegedExec => {
                if eq_str(&cmd, "configure terminal") || eq_str(&cmd, "conf t") {
                    self.mode = CiscoMode::GlobalConfig;
                    text(cisco_text::ENTER_CONFIG)
                } else if eq_str(&cmd, "disable") {
                    self.mode = CiscoMode::UserExec;
                    String::new()
                } else if has_prefix(&cmd, "show ") {
                    self.show_arguments(&cmd)
                } else if eq_str(&cmd, "reload") {
                    text(cisco_text::RELOAD_PROMPT)
                } else if eq_str(&cmd, "write memory") || eq_str(&cmd, "wr") {
                    text(cisco_text::WRITE_MEMORY_OK)
                } else if eq_str(&cmd, "exit") || eq_str(&cmd, "quit") {
                    text(cisco_text::LOGOUT)
                } else if eq_str(&cmd, "?") {
                    self.get_help()
                } else {
                    text(cisco_text::INVALID_INPUT)
                }
            },
            CiscoMode::GlobalConfig => {
                if eq_str(&cmd, "exit") || eq_str(&cmd, "end") {
                    self.mode = CiscoMode::PrivilegedExec;
                    String::new()
                } else if has_prefix(&cmd, "interface ") {
                    self.mode = CiscoMode::InterfaceConfig;
                    String::new()
                } else if has_prefix(&cmd, "router bgp") {
                    self.mode = CiscoMode::RouterConfig;
                    String::new()
                } else if has_prefix(&cmd, "hostname ") {
                    let parts = split_words(&cmd);
                    assert(views(parts@).len() == parts@.len());
                    if parts.len() >= 2 {
                        assert(views(parts@)[1] == parts@[1]@);
                        self.hostname = to_string(&parts[1]);
                    }
                    String::new()
                } else if eq_str(&cmd, "?") {
                    self.get_config_help()
                } else {
                    String::new()
                }
            },
            _ => {
                if eq_str(&cmd, "exit") || eq_str(&cmd, "end") {
                    self.mode = CiscoMode::PrivilegedExec;
                    String::new()
                } else {
                    String::new()
                }
            },
        }
    }

    fn get_prompt(&self) -> (p: String)
        ensures
            p@ == prompt_text(self@.hostname, self@.mode),
    {
        let mut p = self.hostname.clone();
        match self.mode {
            CiscoMode::UserExec => p.append(">"),
            CiscoMode::PrivilegedExec => p.append("#"),
            CiscoMode::GlobalConfig => p.append("(config)#"),
            CiscoMode::InterfaceConfig => p.append("(config-if)#"),
            CiscoMode::RouterConfig => p.append("(config-router)#"),
            CiscoMode::LineConfig => p.append("(config-line)#"),
        }
        p
    }

    fn get_banner(&self) -> (b: String)
        ensures
            b@ == cisco_text::BANNER@,
    {
        text(cisco_text::BANNER)
    }
}

} // verus!
