//! Router command-line emulators. A session takes one line at a time and
//! answers as the emulated system would.

pub mod cisco;
pub mod cisco_text;
pub mod juniper;
pub mod juniper_text;

use crate::cli::cisco::CiscoIos;
use crate::cli::juniper::JuniperJunos;
use crate::text::{eq_str, to_chars, trim};
use vstd::prelude::*;

verus! {

/// One line of the remembered configuration.
#[derive(Debug)]
pub struct ConfigLine {
    pub key: String,
    pub value: String,
}

impl View for ConfigLine {
    type V = (Seq<char>, Seq<char>);

    open spec fn view(&self) -> (Seq<char>, Seq<char>) {
        (self.key@, self.value@)
    }
}

/// The systems that can be emulated.
#[derive(Debug, Clone, Copy, PartialEq, Eq, Structural)]
pub enum Vendor {
    Cisco,
    Juniper,
}

/// The vendor that a configured default router names.
pub open spec fn vendor_named(name: Seq<char>) -> Option<Vendor> {
    if name == "cisco"@ {
        Some(Vendor::Cisco)
    } else if name == "juniper"@ {
        Some(Vendor::Juniper)
    } else {
        None
    }
}

/// Reads the name of a vendor: `cisco` or `juniper`.
pub fn vendor_of(name: &str) -> (vendor: Option<Vendor>)
    ensures
        vendor == vendor_named(name@),
{
    let chars = to_chars(name);
    if eq_str(&chars, "cisco") {
        Some(Vendor::Cisco)
    } else if eq_str(&chars, "juniper") {
        Some(Vendor::Juniper)
    } else {
        None
    }
}

/// The command line of one SSH or Telnet connection.
pub enum CliSession {
    Cisco(CiscoIos),
    Juniper(JuniperJunos),
}

impl CliSession {
    /// The vendor of the emulated system.
    pub open spec fn vendor(&self) -> Vendor {
        match self {
            CliSession::Cisco(_) => Vendor::Cisco,
            CliSession::Juniper(_) => Vendor::Juniper,
        }
    }

    /// The prompt in the current state.
    pub open spec fn prompt(&self) -> Seq<char> {
        match self {
            CliSession::Cisco(cli) => cli.prompt(),
            CliSession::Juniper(cli) => cli.prompt(),
        }
    }

    /// The banner that precedes the login.
    pub open spec fn banner(&self) -> Seq<char> {
        match self {
            CliSession::Cisco(cli) => cli.banner(),
            CliSession::Juniper(cli) => cli.banner(),
        }
    }

    /// The output of a command in the current state.
    pub open spec fn reply(&self, command: Seq<char>) -> Seq<char> {
        match self {
            CliSession::Cisco(cli) => cli.reply(command),
            CliSession::Juniper(cli) => cli.reply(command),
        }
    }

    /// A new session of the given vendor on a router with the given
    /// hostname.
    pub fn new(vendor: Vendor, hostname: String) -> (session: CliSession)
        ensures
            session.vendor() == vendor,
            match session {
                CliSession::Cisco(cli) => cli@ == CiscoIos::new_session(hostname@),
                CliSession::Juniper(cli) => cli@ == JuniperJunos::new_session(hostname@),
            },
    {
        match vendor {
            Vendor::Cisco => CliSession::Cisco(CiscoIos::new(hostname)),
            Vendor::Juniper => CliSession::Juniper(JuniperJunos::new(hostname)),
        }
    }

    /// The two sessions are of one vendor, and the second is what the
    /// first becomes by a login under the given name.
    pub open spec fn login_step(before: CliSession, after: CliSession, username: Seq<char>) -> bool {
        match (before, after) {
            (CliSession::Cisco(a), CliSession::Cisco(b)) => b@ == crate::cli::cisco::logged_in(
                a@,
                username,
            ),
            (CliSession::Juniper(a), CliSession::Juniper(b)) => b@
                == crate::cli::juniper::logged_in(a@, username),
            _ => false,
        }
    }

    /// The two sessions are of one vendor, and the second is what the
    /// first becomes by the given line of input.
    pub open spec fn command_step(before: CliSession, after: CliSession, command: Seq<char>)
        -> bool {
        match (before, after) {
            (CliSession::Cisco(a), CliSession::Cisco(b)) => b@
                == crate::cli::cisco::session_after(a@, trim(command)),
            (CliSession::Juniper(a), CliSession::Juniper(b)) => b@
                == crate::cli::juniper::session_after(a@, trim(command)),
            _ => false,
        }
    }

    /// Logs in; every pair of user name and password is accepted.
    pub fn authenticate(&mut self, username: &str, password: &str) -> (accepted: bool)
        ensures
            accepted,
            CliSession::login_step(*old(self), *final(self), username@),
    {
        match self {
            CliSession::Cisco(cli) => cli.authenticate(username, password),
            CliSession::Juniper(cli) => cli.authenticate(username, password),
        }
    }

    /// Runs one line of input and returns its output.
    pub fn handle_command(&mut self, command: &str) -> (out: String)
        ensures
            out@ == old(self).reply(command@),
            CliSession::command_step(*old(self), *final(self), command@),
    {
        match self {
            CliSession::Cisco(cli) => cli.handle_command(command),
            CliSession::Juniper(cli) => cli.handle_command(command),
        }
    }

    pub fn get_prompt(&self) -> (p: String)
        ensures
            p@ == self.prompt(),
    {
        match self {
            CliSession::Cisco(cli) => cli.get_prompt(),
            CliSession::Juniper(cli) => cli.get_prompt(),
        }
    }

    pub fn get_banner(&self) -> (b: String)
        ensures
            b@ == self.banner(),
    {
        match self {
            CliSession::Cisco(cli) => cli.get_banner(),
            CliSession::Juniper(cli) => cli.get_banner(),
        }
    }
}

/// What every emulated command line offers to the session that drives it.
pub trait RouterCli {
    /// The prompt in the current state.
    spec fn prompt(&self) -> Seq<char>;

    /// The banner that precedes the login.
    spec fn banner(&self) -> Seq<char>;

    /// The output of a command in the current state.
    spec fn reply(&self, command: Seq<char>) -> Seq<char>;

    /// Runs one line of input and returns its output.
    fn handle_command(&mut self, command: &str) -> (out: String)
        ensures
            out@ == old(self).reply(command@),
    ;

    fn get_prompt(&self) -> (p: String)
        ensures
            p@ == self.prompt(),
    ;

    fn get_banner(&self) -> (b: String)
        ensures
            b@ == self.banner(),
    ;
}

} // verus!
