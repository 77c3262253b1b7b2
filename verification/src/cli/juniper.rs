//! The Junos command-line emulator.

use crate::cli::juniper_text;
use crate::cli::{ConfigLine, RouterCli};
use crate::text::{
    copy_range, eq_str, has_prefix, split_words, text_of, text_or, to_chars, to_string, trim,
    trimmed, views, word_at, words,
};
use vstd::prelude::*;
use vstd::string::*;

verus! {

/// The modes of a Junos session.
#[derive(Debug, Clone, Copy, PartialEq, Eq, Structural)]
pub enum JunosMode {
    /// `>`
    Operational,
    /// `#`
    Configuration,
}

/// A Junos session.
pub struct JuniperJunos {
    hostname: String,
    mode: JunosMode,
    config_path: Vec<String>,
    running_config: Vec<ConfigLine>,
    authenticated: bool,
    username: Option<String>,
}

/// The mathematical content of a session.
pub struct JunosView {
    pub hostname: Seq<char>,
    pub mode: JunosMode,
    /// The levels of the configuration that were entered with `edit`,
    /// outermost first.
    pub config_path: Seq<Seq<char>>,
    pub running_config: Seq<(Seq<char>, Seq<char>)>,
    pub authenticated: bool,
    pub username: Option<Seq<char>>,
}

impl View for JuniperJunos {
    type V = JunosView;

    closed spec fn view(&self) -> JunosView {
        JunosView {
            hostname: self.hostname@,
            mode: self.mode,
            config_path: self.config_path@.map_values(|l: String| l@),
            running_config: self.running_config@.map_values(|l: ConfigLine| l@),
            authenticated: self.authenticated,
            username: text_of(self.username),
        }
    }
}

/// The prompt: user, host, and `> ` or `# ` by the mode. Before a login
/// the user is `admin`.
pub open spec fn prompt_text(s: JunosView) -> Seq<char> {
    text_or(s.username, "admin"@) + "@"@ + s.hostname + match s.mode {
        JunosMode::Operational => "> "@,
        JunosMode::Configuration => "# "@,
    }
}

/// The levels of a path with a blank between each two.
pub open spec fn joined(path: Seq<Seq<char>>) -> Seq<char>
    decreases path.len(),
{
    if path.len() == 0 {
        Seq::empty()
    } else if path.len() == 1 {
        path[0]
    } else {
        joined(path.drop_last()) + " "@ + path.last()
    }
}

/// The path as the `[edit ...]` banner shows it: nothing at the top, a
/// blank and the levels below it.
pub open spec fn config_path_text(path: Seq<Seq<char>>) -> Seq<char> {
    if path.len() == 0 {
        Seq::empty()
    } else {
        " "@ + joined(path)
    }
}

/// The banner block that names the current level.
pub open spec fn edit_banner(path: Seq<Seq<char>>) -> Seq<char> {
    "\n[edit"@ + config_path_text(path) + "]\n"@
}

/// The level that `edit <path>` enters.
pub open spec fn edit_target(cmd: Seq<char>) -> Seq<char> {
    trim(cmd.skip(5))
}

/// The command is `edit <path>`, given in configuration mode.
pub open spec fn enters_level(cmd: Seq<char>) -> bool {
    cmd != "exit"@ && cmd != "quit"@ && cmd != "top"@ && "edit "@.is_prefix_of(cmd)
}

/// The mode after a command, given without surrounding white space.
pub open spec fn next_mode(s: JunosView, cmd: Seq<char>) -> JunosMode {
    if cmd.len() == 0 {
        s.mode
    } else {
        match s.mode {
            JunosMode::Operational => if cmd == "configure"@ || cmd == "edit"@ {
                JunosMode::Configuration
            } else {
                s.mode
            },
            JunosMode::Configuration => if (cmd == "exit"@ || cmd == "quit"@)
                && s.config_path.len() == 0 {
                JunosMode::Operational
            } else {
                s.mode
            },
        }
    }
}

/// The edit path after a command, given without surrounding white space.
pub open spec fn next_path(s: JunosView, cmd: Seq<char>) -> Seq<Seq<char>> {
    if cmd.len() == 0 || s.mode != JunosMode::Configuration {
        s.config_path
    } else if cmd == "exit"@ || cmd == "quit"@ {
        if s.config_path.len() == 0 {
            s.config_path
        } else {
            s.config_path.drop_last()
        }
    } else if cmd == "top"@ {
        Seq::empty()
    } else if enters_level(cmd) {
        s.config_path.push(edit_target(cmd))
    } else {
        s.config_path
    }
}

/// The session after a command, given without surrounding white space.
pub open spec fn session_after(s: JunosView, cmd: Seq<char>) -> JunosView {
    JunosView {
        hostname: s.hostname,
        mode: next_mode(s, cmd),
        config_path: next_path(s, cmd),
        running_config: s.running_config,
        authenticated: s.authenticated,
        username: s.username,
    }
}

/// The session after a login under the given name.
pub open spec fn logged_in(s: JunosView, username: Seq<char>) -> JunosView {
    JunosView {
        hostname: s.hostname,
        mode: s.mode,
        config_path: s.config_path,
        running_config: s.running_config,
        authenticated: true,
        username: Some(username),
    }
}

pub open spec fn show_version_text(hostname: Seq<char>) -> Seq<char> {
    juniper_text::SHOW_VERSION_1@ + hostname + juniper_text::SHOW_VERSION_2@ + hostname
        + juniper_text::SHOW_VERSION_3@ + hostname + juniper_text::SHOW_VERSION_4@
}

pub open spec fn show_configuration_text(s: JunosView) -> Seq<char> {
    juniper_text::SHOW_CONFIGURATION_1@ + text_or(s.username, "admin"@)
        + juniper_text::SHOW_CONFIGURATION_2@ + s.hostname + juniper_text::SHOW_CONFIGURATION_3@
}

pub open spec fn show_interfaces_text(detail: Option<Seq<char>>) -> Seq<char> {
    if detail == Some("terse"@) {
        juniper_text::SHOW_INTERFACES_TERSE@
    } else {
        juniper_text::SHOW_INTERFACES@
    }
}

pub open spec fn show_route_text(detail: Option<Seq<char>>) -> Seq<char> {
    if detail == Some("summary"@) {
        juniper_text::SHOW_ROUTE_SUMMARY@
    } else {
        juniper_text::SHOW_ROUTE@
    }
}

pub open spec fn show_bgp_text(sub: Option<Seq<char>>) -> Seq<char> {
    if sub == Some("summary"@) {
        juniper_text::SHOW_BGP_SUMMARY@
    } else if sub == Some("neighbor"@) {
        juniper_text::SHOW_BGP_NEIGHBOR@
    } else {
        juniper_text::SHOW_BGP@
    }
}

pub open spec fn show_chassis_text(sub: Option<Seq<char>>) -> Seq<char> {
    if sub == Some("hardware"@) {
        juniper_text::SHOW_CHASSIS_HARDWARE@
    } else if sub == Some("alarms"@) {
        juniper_text::SHOW_CHASSIS_ALARMS@
    } else if sub == Some("environment"@) {
        juniper_text::SHOW_CHASSIS_ENVIRONMENT@
    } else {
        juniper_text::SYNTAX_ERROR_EXPECTING_COMMAND@
    }
}

pub open spec fn show_system_users_text(username: Option<Seq<char>>) -> Seq<char> {
    juniper_text::SHOW_SYSTEM_USERS_HEAD@ + text_or(username, "admin"@)
        + juniper_text::SHOW_SYSTEM_USERS_TAIL@
}

pub open spec fn show_system_text(s: JunosView, sub: Option<Seq<char>>) -> Seq<char> {
    if sub == Some("uptime"@) {
        juniper_text::SHOW_SYSTEM_UPTIME@
    } else if sub == Some("users"@) {
        show_system_users_text(s.username)
    } else if sub == Some("processes"@) {
        juniper_text::SHOW_SYSTEM_PROCESSES@
    } else if sub == Some("storage"@) {
        juniper_text::SHOW_SYSTEM_STORAGE@
    } else {
        juniper_text::SYNTAX_ERROR_EXPECTING_COMMAND@
    }
}

pub open spec fn show_security_text(sub: Option<Seq<char>>) -> Seq<char> {
    if sub == Some("zones"@) {
        juniper_text::SHOW_SECURITY_ZONES@
    } else if sub == Some("policies"@) {
        juniper_text::SHOW_SECURITY_POLICIES@
    } else if sub == Some("flow"@) {
        juniper_text::SHOW_SECURITY_FLOW@
    } else {
        juniper_text::SYNTAX_ERROR_EXPECTING_COMMAND@
    }
}

/// The output of `show` followed by the given arguments.
pub open spec fn show_text(s: JunosView, args: Seq<char>) -> Seq<char> {
    let ws = words(args);
    let first = word_at(ws, 0);
    let second = word_at(ws, 1);
    if first == Some("version"@) {
        show_version_text(s.hostname)
    } else if first == Some("configuration"@) {
        show_configuration_text(s)
    } else if first == Some("interfaces"@) {
        show_interfaces_text(second)
    } else if first == Some("route"@) {
        show_route_text(second)
    } else if first == Some("bgp"@) {
        show_bgp_text(second)
    } else if first == Some("chassis"@) {
        show_chassis_text(second)
    } else if first == Some("system"@) {
        show_system_text(s, second)
    } else if first == Some("arp"@) {
        juniper_text::SHOW_ARP@
    } else if first == Some("ethernet-switching"@) {
        juniper_text::SHOW_ETHERNET_SWITCHING@
    } else if first == Some("log"@) {
        juniper_text::SHOW_LOG@
    } else if first == Some("security"@) {
        show_security_text(second)
    } else {
        juniper_text::SYNTAX_ERROR@
    }
}

/// The output of a command in operational mode.
pub open spec fn operational_reply(s: JunosView, cmd: Seq<char>) -> Seq<char> {
    if cmd == "configure"@ || cmd == "edit"@ {
        juniper_text::ENTER_CONFIGURATION@
    } else if "show "@.is_prefix_of(cmd) {
        show_text(s, cmd.skip(5))
    } else if cmd == "exit"@ || cmd == "quit"@ {
        "\n"@
    } else if "ping "@.is_prefix_of(cmd) {
        juniper_text::PING_OUTPUT@
    } else if "traceroute "@.is_prefix_of(cmd) {
        juniper_text::TRACEROUTE_OUTPUT@
    } else if cmd == "?"@ || cmd == "help"@ {
        juniper_text::HELP_OPERATIONAL@
    } else {
        juniper_text::SYNTAX_ERROR@
    }
}

/// The output of a command in configuration mode.
pub open spec fn configuration_reply(s: JunosView, cmd: Seq<char>) -> Seq<char> {
    if cmd == "exit"@ || cmd == "quit"@ {
        if s.config_path.len() == 0 {
            juniper_text::EXIT_CONFIGURATION@
        } else {
            edit_banner(s.config_path.drop_last())
        }
    } else if cmd == "top"@ {
        edit_banner(Seq::empty())
    } else if "edit "@.is_prefix_of(cmd) {
        edit_banner(s.config_path.push(edit_target(cmd)))
    } else if cmd == "show"@ || cmd == "show configuration"@ {
        show_configuration_text(s)
    } else if "set "@.is_prefix_of(cmd) || "delete "@.is_prefix_of(cmd) {
        Seq::empty()
    } else if cmd == "commit"@ {
        juniper_text::COMMIT_COMPLETE@
    } else if cmd == "commit check"@ {
        juniper_text::COMMIT_CHECK@
    } else if cmd == "rollback"@ {
        juniper_text::ROLLBACK@
    } else if cmd == "?"@ || cmd == "help"@ {
        juniper_text::HELP_CONFIGURATION@
    } else {
        Seq::empty()
    }
}

/// The output of a command, given without surrounding white space.
pub open spec fn reply_text(s: JunosView, cmd: Seq<char>) -> Seq<char> {
    if cmd.len() == 0 {
        Seq::empty()
    } else {
        match s.mode {
            JunosMode::Operational => operational_reply(s, cmd),
            JunosMode::Configuration => configuration_reply(s, cmd),
        }
    }
}

fn text(s: &str) -> (out: String)
    ensures
        out@ == s@,
{
    s.to_string()
}

fn is_word(parts: &Vec<Vec<char>>, n: usize, lit: &str) -> (r: bool)
    ensures
        r == (word_at(views(parts@), n as int) == Some(lit@)),
{
    if n < parts.len() {
        assert(views(parts@)[n as int] == parts@[n as int]@);
        eq_str(&parts[n], lit)
    } else {
        false
    }
}

impl JuniperJunos {
    /// A new session on a router with the given hostname: not logged in,
    /// in operational mode, at the top of the configuration.
    pub open spec fn new_session(hostname: Seq<char>) -> JunosView {
        JunosView {
            hostname,
            mode: JunosMode::Operational,
            config_path: Seq::empty(),
            running_config: seq![("version"@, "20.4R3.8"@)],
            authenticated: false,
            username: None,
        }
    }

    /// A session on a router with the given hostname.
    pub fn new(hostname: String) -> (cli: JuniperJunos)
        ensures
            cli@ == JuniperJunos::new_session(hostname@),
    {
        let mut running_config: Vec<ConfigLine> = Vec::new();
        running_config.push(ConfigLine { key: text("version"), value: text("20.4R3.8") });
        let cli = JuniperJunos {
            hostname,
            mode: JunosMode::Operational,
            config_path: Vec::new(),
            running_config,
            authenticated: false,
            username: None,
        };
        assert(cli@.config_path =~= Seq::<Seq<char>>::empty());
        assert(cli@.running_config =~= seq![("version"@, "20.4R3.8"@)]);
        cli
    }

    /// Logs in. Every pair of user name and password is accepted; the name
    /// is remembered.
    pub fn authenticate(&mut self, username: &str, password: &str) -> (accepted: bool)
        ensures
            accepted,
            final(self)@ == logged_in(old(self)@, username@),
    {
        self.authenticated = true;
        self.username = Some(text(username));
        true
    }

    /// The current mode.
    pub fn mode(&self) -> (mode: JunosMode)
        ensures
            mode == self@.mode,
    {
        self.mode
    }

    /// Whether a login took place.
    pub fn is_authenticated(&self) -> (yes: bool)
        ensures
            yes == self@.authenticated,
    {
        self.authenticated
    }

    /// Number of levels that were entered with `edit`.
    pub fn depth(&self) -> (n: usize)
        ensures
            n == self@.config_path.len(),
    {
        self.config_path.len()
    }

    fn append_user(&self, out: &mut String)
        ensures
            final(out)@ == old(out)@ + text_or(self@.username, "admin"@),
    {
        match &self.username {
            Some(name) => out.append(name.as_str()),
            None => out.append("admin"),
        }
    }

    fn show_version(&self) -> (out: String)
        ensures
            out@ == show_version_text(self@.hostname),
    {
        let mut out = text(juniper_text::SHOW_VERSION_1);
        out.append(self.hostname.as_str());
        out.append(juniper_text::SHOW_VERSION_2);
        out.append(self.hostname.as_str());
        out.append(juniper_text::SHOW_VERSION_3);
        out.append(self.hostname.as_str());
        out.append(juniper_text::SHOW_VERSION_4);
        out
    }

    fn show_configuration(&self) -> (out: String)
        ensures
            out@ == show_configuration_text(self@),
    {
        let mut out = text(juniper_text::SHOW_CONFIGURATION_1);
        self.append_user(&mut out);
        out.append(juniper_text::SHOW_CONFIGURATION_2);
        out.append(self.hostname.as_str());
        out.append(juniper_text::SHOW_CONFIGURATION_3);
        out
    }

    fn show_interfaces(&self, terse: bool) -> (out: String)
        ensures
            out@ == (if terse {
                juniper_text::SHOW_INTERFACES_TERSE@
            } else {
                juniper_text::SHOW_INTERFACES@
            }),
    {
        if terse {
            text(juniper_text::SHOW_INTERFACES_TERSE)
        } else {
            text(juniper_text::SHOW_INTERFACES)
        }
    }

    fn show_route(&self, summary: bool) -> (out: String)
        ensures
            out@ == (if summary {
                juniper_text::SHOW_ROUTE_SUMMARY@
            } else {
                juniper_text::SHOW_ROUTE@
            }),
    {
        if summary {
            text(juniper_text::SHOW_ROUTE_SUMMARY)
        } else {
            text(juniper_text::SHOW_ROUTE)
        }
    }

    fn show_bgp(&self, parts: &Vec<Vec<char>>) -> (out: String)
        ensures
            out@ == show_bgp_text(word_at(views(parts@), 1)),
    {
        if is_word(parts, 1, "summary") {
            text(juniper_text::SHOW_BGP_SUMMARY)
        } else if is_word(parts, 1, "neighbor") {
            text(juniper_text::SHOW_BGP_NEIGHBOR)
        } else {
            text(juniper_text::SHOW_BGP)
        }
    }

    fn show_chassis(&self, parts: &Vec<Vec<char>>) -> (out: String)
        ensures
            out@ == show_chassis_text(word_at(views(parts@), 1)),
    {
        if is_word(parts, 1, "hardware") {
            text(juniper_text::SHOW_CHASSIS_HARDWARE)
        } else if is_word(parts, 1, "alarms") {
            text(juniper_text::SHOW_CHASSIS_ALARMS)
        } else if is_word(parts, 1, "environment") {
            text(juniper_text::SHOW_CHASSIS_ENVIRONMENT)
        } else {
            text(juniper_text::SYNTAX_ERROR_EXPECTING_COMMAND)
        }
    }

    fn show_system(&self, parts: &Vec<Vec<char>>) -> (out: String)
        ensures
            out@ == show_system_text(self@, word_at(views(parts@), 1)),
    {
        if is_word(parts, 1, "uptime") {
            text(juniper_text::SHOW_SYSTEM_UPTIME)
        } else if is_word(parts, 1, "users") {
            let mut out = text(juniper_text::SHOW_SYSTEM_USERS_HEAD);
            self.append_user(&mut out);
            out.append(juniper_text::SHOW_SYSTEM_USERS_TAIL);
            out
        } else if is_word(parts, 1, "processes") {
            text(juniper_text::SHOW_SYSTEM_PROCESSES)
        } else if is_word(parts, 1, "storage") {
            text(juniper_text::SHOW_SYSTEM_STORAGE)
        } else {
            text(juniper_text::SYNTAX_ERROR_EXPECTING_COMMAND)
        }
    }

    fn show_arp(&self) -> (out: String)
        ensures
            out@ == juniper_text::SHOW_ARP@,
    {
        text(juniper_text::SHOW_ARP)
    }

    fn show_ethernet_switching(&self) -> (out: String)
        ensures
            out@ == juniper_text::SHOW_ETHERNET_SWITCHING@,
    {
        text(juniper_text::SHOW_ETHERNET_SWITCHING)
    }

    fn show_log(&self) -> (out: String)
        ensures
            out@ == juniper_text::SHOW_LOG@,
    {
        text(juniper_text::SHOW_LOG)
    }

    fn show_security(&self, parts: &Vec<Vec<char>>) -> (out: String)
        ensures
            out@ == show_security_text(word_at(views(parts@), 1)),
    {
        if is_word(parts, 1, "zones") {
            text(juniper_text::SHOW_SECURITY_ZONES)
        } else if is_word(parts, 1, "policies") {
            text(juniper_text::SHOW_SECURITY_POLICIES)
        } else if is_word(parts, 1, "flow") {
            text(juniper_text::SHOW_SECURITY_FLOW)
        } else {
            text(juniper_text::SYNTAX_ERROR_EXPECTING_COMMAND)
        }
    }

    /// The output of `show` followed by the given arguments.
    pub fn handle_show_command(&self, args: &str) -> (out: String)
        ensures
            out@ == show_text(self@, args@),
    {
        let chars = to_chars(args);
        self.show(&chars)
    }

    fn show(&self, args: &Vec<char>) -> (out: String)
        ensures
            out@ == show_text(self@, args@),
    {
        let parts = split_words(args);
        if is_word(&parts, 0, "version") {
            self.show_version()
        } else if is_word(&parts, 0, "configuration") {
            self.show_configuration()
        } else if is_word(&parts, 0, "interfaces") {
            self.show_interfaces(is_word(&parts, 1, "terse"))
        } else if is_word(&parts, 0, "route") {
            self.show_route(is_word(&parts, 1, "summary"))
        } else if is_word(&parts, 0, "bgp") {
            self.show_bgp(&parts)
        } else if is_word(&parts, 0, "chassis") {
            self.show_chassis(&parts)
        } else if is_word(&parts, 0, "system") {
            self.show_system(&parts)
        } else if is_word(&parts, 0, "arp") {
            self.show_arp()
        } else if is_word(&parts, 0, "ethernet-switching") {
            self.show_ethernet_switching()
        } else if is_word(&parts, 0, "log") {
            self.show_log()
        } else if is_word(&parts, 0, "security") {
            self.show_security(&parts)
        } else {
            text(juniper_text::SYNTAX_ERROR)
        }
    }

    /// The current edit path as the `[edit ...]` banner shows it.
    pub fn get_config_path_str(&self) -> (out: String)
        ensures
            out@ == config_path_text(self@.config_path),
    {
        let ghost path = self@.config_path;
        let mut out = String::new();
        if self.config_path.len() == 0 {
            return out;
        }
        out.append(" ");
        out.append(self.config_path[0].as_str());
        assert(path[0] == self.config_path@[0]@);
        assert(path.take(1) =~= seq![path[0]]);
        let mut i: usize = 1;
        while i < self.config_path.len()
            invariant
                1 <= i <= self.config_path@.len(),
                path == self@.config_path,
                out@ == " "@ + joined(path.take(i as int)),
            decreases self.config_path@.len() - i,
        {
            proof {
                assert(path[i as int] == self.config_path@[i as int]@);
                assert(path.take(i + 1).drop_last() =~= path.take(i as int));
                assert(path.take(i + 1).last() == path[i as int]);
            }
            let ghost before = out@;
            out.append(" ");
            out.append(self.config_path[i].as_str());
            assert(out@ =~= " "@ + (joined(path.take(i as int)) + " "@ + path[i as int]));
            i += 1;
        }
        assert(path.take(path.len() as int) =~= path);
        out
    }

    fn get_edit_banner(&self) -> (out: String)
        ensures
            out@ == edit_banner(self@.config_path),
    {
        let mut out = text("\n[edit");
        let path = self.get_config_path_str();
        out.append(path.as_str());
        out.append("]\n");
        out
    }

    /// The help of the operational mode.
    pub fn get_help(&self) -> (out: String)
        ensures
            out@ == juniper_text::HELP_OPERATIONAL@,
    {
        text(juniper_text::HELP_OPERATIONAL)
    }

    /// The help of the configuration mode.
    pub fn get_config_help(&self) -> (out: String)
        ensures
            out@ == juniper_text::HELP_CONFIGURATION@,
    {
        text(juniper_text::HELP_CONFIGURATION)
    }
}

impl RouterCli for JuniperJunos {
    open spec fn prompt(&self) -> Seq<char> {
        prompt_text(self@)
    }

    open spec fn banner(&self) -> Seq<char> {
        juniper_text::BANNER@
    }

    open spec fn reply(&self, command: Seq<char>) -> Seq<char> {
        reply_text(self@, trim(command))
    }

    /// Runs one line of input: white space around it is dropped, the mode
    /// and the edit path change as the command says, and its output comes
    /// back.
    fn handle_command(&mut self, command: &str) -> (out: String)
        ensures
            out@ == reply_text(old(self)@, trim(command@)),
            final(self)@ == session_after(old(self)@, trim(command@)),
    {
        let chars = to_chars(command);
        let cmd = trimmed(&chars);
        if cmd.len() == 0 {
            return String::new();
        }
        let ghost before = self@;
        match self.mode {
            JunosMode::Operational => {
                if eq_str(&cmd, "configure") || eq_str(&cmd, "edit") {
                    self.mode = JunosMode::Configuration;
                    text(juniper_text::ENTER_CONFIGURATION)
                } else if has_prefix(&cmd, "show ") {
                    proof {
                        reveal_strlit("show ");
                    }
                    let args = copy_range(&cmd, 5, cmd.len());
                    assert(cmd@.subrange(5, cmd@.len() as int) =~= cmd@.skip(5));
                    self.show(&args)
                } else if eq_str(&cmd, "exit") || eq_str(&cmd, "quit") {
                    text("\n")
                } else if has_prefix(&cmd, "ping ") {
                    text(juniper_text::PING_OUTPUT)
                } else if has_prefix(&cmd, "traceroute ") {
                    text(juniper_text::TRACEROUTE_OUTPUT)
                } else if eq_str(&cmd, "?") || eq_str(&cmd, "help") {
                    self.get_help()
                } else {
                    text(juniper_text::SYNTAX_ERROR)
                }
            },
            JunosMode::Configuration => {
                if eq_str(&cmd, "exit") || eq_str(&cmd, "quit") {
                    if self.config_path.len() == 0 {
                        self.mode = JunosMode::Operational;
                        text(juniper_text::EXIT_CONFIGURATION)
                    } else {
                        self.config_path.pop();
                        assert(self@.config_path =~= before.config_path.drop_last());
                        self.get_edit_banner()
                    }
                } else if eq_str(&cmd, "top") {
                    self.config_path.clear();
                    assert(self@.config_path =~= Seq::<Seq<char>>::empty());
                    self.get_edit_banner()
                } else if has_prefix(&cmd, "edit ") {
                    proof {
                        reveal_strlit("edit ");
                    }
                    let rest = copy_range(&cmd, 5, cmd.len());
                    assert(cmd@.subrange(5, cmd@.len() as int) =~= cmd@.skip(5));
                    let path = trimmed(&rest);
                    self.config_path.push(to_string(&path));
                    assert(self@.config_path =~= before.config_path.push(edit_target(cmd@)));
                    self.get_edit_banner()
                } else if eq_str(&cmd, "show") || eq_str(&cmd, "show configuration") {
                    self.show_configuration()
                } else if has_prefix(&cmd, "set ") {
                    String::new()
                } else if has_prefix(&cmd, "delete ") {
                    String::new()
                } else if eq_str(&cmd, "commit") {
                    text(juniper_text::COMMIT_COMPLETE)
                } else if eq_str(&cmd, "commit check") {
                    text(juniper_text::COMMIT_CHECK)
                } else if eq_str(&cmd, "rollback") {
                    text(juniper_text::ROLLBACK)
                } else if eq_str(&cmd, "?") || eq_str(&cmd, "help") {
                    self.get_config_help()
                } else {
                    String::new()
                }
            },
        }
    }

    fn get_prompt(&self) -> (p: String)
        ensures
            p@ == prompt_text(self@),
    {
        let mut p = String::new();
        self.append_user(&mut p);
        p.append("@");
        p.append(self.hostname.as_str());
        match self.mode {
            JunosMode::Operational => p.append("> "),
            JunosMode::Configuration => p.append("# "),
        }
        assert(p@ =~= prompt_text(self@));
        p
    }

    fn get_banner(&self) -> (b: String)
        ensures
            b@ == juniper_text::BANNER@,
    {
        text(juniper_text::BANNER)
    }
}

/// A session that has entered configuration mode leaves it only by `exit`
/// or `quit` at the top of the configuration.
pub proof fn lemma_configuration_left_at_top(s: JunosView, cmd: Seq<char>)
    requires
        s.mode == JunosMode::Configuration,
        next_mode(s, cmd) == JunosMode::Operational,
    ensures
        cmd == "exit"@ || cmd == "quit"@,
        s.config_path.len() == 0,
{
}

} // verus!
