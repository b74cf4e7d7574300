//! What a service plan is made of: files to write, services to start or stop, and where.

use vstd::prelude::*;

use crate::text::{concat, spec_digits, u64_to_digits, views};
use crate::adapters::key_value::lemma_views_push;

verus! {

/// A configuration file to put in place.
#[derive(Debug, PartialEq)]
pub struct FileArtifact {
    pub path: String,
    pub content: String,
    pub permissions: u32,
    pub requires_root: bool,
}

/// The wanted state of a system service, with the commands that bring it there.
#[derive(Debug, PartialEq)]
pub struct ServiceState {
    pub name: String,
    pub enabled: Option<bool>,
    pub running: Option<bool>,
    pub reload_cmd: String,
    pub start_cmd: String,
    pub enable_cmd: String,
    pub stop_cmd: String,
    pub disable_cmd: String,
    pub requires_sudo: bool,
}

/// Whether a service should be enabled and running; either may be left as it is.
#[derive(Debug, PartialEq, Eq, Structural, Clone, Copy)]
pub struct ServiceConfig {
    pub enabled: Option<bool>,
    pub running: Option<bool>,
}

/// What a service asks for: files, and the state of its system services.
#[derive(Debug, PartialEq)]
pub struct Plan {
    pub files: Vec<FileArtifact>,
    pub service_state: Option<ServiceState>,
    pub addl_service_states: Option<Vec<ServiceState>>,
}

/// The directories the configuration goes to.
#[derive(Debug, PartialEq)]
pub struct Paths {
    pub spec_config: String,
    pub spec_state: String,
    pub user_home: String,
    pub user_config: String,
    pub system_config: String,
}

/// `systemctl <verb> <name>`.
pub open spec fn systemctl_cmd(verb: Seq<char>, name: Seq<char>) -> Seq<char> {
    "systemctl "@ + verb + " "@ + name
}

impl ServiceState {
    /// The state `new(name, enabled, running)` gives: systemctl commands, run with sudo.
    pub open spec fn is_new(self, name: Seq<char>, enabled: Option<bool>, running: Option<bool>) -> bool {
        &&& self.is_new_but_reload(name, enabled, running)
        &&& self.reload_cmd@ == systemctl_cmd("reload"@, name)
    }

    /// The state `new(name, enabled, running)` gives, whatever its reload command.
    pub open spec fn is_new_but_reload(self, name: Seq<char>, enabled: Option<bool>, running: Option<bool>) -> bool {
        &&& self.name@ == name
        &&& self.enabled == enabled
        &&& self.running == running
        &&& self.start_cmd@ == systemctl_cmd("start"@, name)
        &&& self.enable_cmd@ == systemctl_cmd("enable"@, name)
        &&& self.stop_cmd@ == systemctl_cmd("stop"@, name)
        &&& self.disable_cmd@ == systemctl_cmd("disable"@, name)
        &&& self.requires_sudo
    }

    /// `name` to be enabled and running as given, through `systemctl`, with sudo.
    pub fn new(name: &str, enabled: Option<bool>, running: Option<bool>) -> (r: Self)
        ensures
            r.is_new(name@, enabled, running),
    {
        proof {
            reveal_strlit("systemctl ");
            reveal_strlit(" ");
            reveal_strlit("systemctl reload ");
            reveal_strlit("reload");
            reveal_strlit("systemctl start ");
            reveal_strlit("start");
            reveal_strlit("systemctl enable ");
            reveal_strlit("enable");
            reveal_strlit("systemctl stop ");
            reveal_strlit("stop");
            reveal_strlit("systemctl disable ");
            reveal_strlit("disable");
            assert("systemctl reload "@ + name@ =~= systemctl_cmd("reload"@, name@));
            assert("systemctl start "@ + name@ =~= systemctl_cmd("start"@, name@));
            assert("systemctl enable "@ + name@ =~= systemctl_cmd("enable"@, name@));
            assert("systemctl stop "@ + name@ =~= systemctl_cmd("stop"@, name@));
            assert("systemctl disable "@ + name@ =~= systemctl_cmd("disable"@, name@));
        }
        ServiceState {
            name: name.to_string(),
            enabled,
            running,
            reload_cmd: command("systemctl reload ", name),
            start_cmd: command("systemctl start ", name),
            enable_cmd: command("systemctl enable ", name),
            stop_cmd: command("systemctl stop ", name),
            disable_cmd: command("systemctl disable ", name),
            requires_sudo: true,
        }
    }

    /// `name`, with neither its enabled nor its running state managed.
    pub fn builder(name: &str) -> (r: Self)
        ensures
            r.is_new(name@, None, None),
    {
        Self::new(name, None, None)
    }

    /// The same state with another enabled flag.
    pub fn enabled(self, enabled: Option<bool>) -> (r: Self)
        ensures
            r == (ServiceState { enabled, ..self }),
    {
        let mut s = self;
        s.enabled = enabled;
        s
    }

    /// The same state with another running flag.
    pub fn running(self, running: Option<bool>) -> (r: Self)
        ensures
            r == (ServiceState { running, ..self }),
    {
        let mut s = self;
        s.running = running;
        s
    }

    /// The same state with another reload command.
    pub fn reload_cmd(self, reload_cmd: &str) -> (r: Self)
        ensures
            r.reload_cmd@ == reload_cmd@,
            r == (ServiceState { reload_cmd: r.reload_cmd, ..self }),
    {
        let mut s = self;
        s.reload_cmd = reload_cmd.to_string();
        s
    }

    /// The same state with another start command.
    pub fn start_cmd(self, start_cmd: &str) -> (r: Self)
        ensures
            r.start_cmd@ == start_cmd@,
            r == (ServiceState { start_cmd: r.start_cmd, ..self }),
    {
        let mut s = self;
        s.start_cmd = start_cmd.to_string();
        s
    }

    /// The same state with another enable command.
    pub fn enable_cmd(self, enable_cmd: &str) -> (r: Self)
        ensures
            r.enable_cmd@ == enable_cmd@,
            r == (ServiceState { enable_cmd: r.enable_cmd, ..self }),
    {
        let mut s = self;
        s.enable_cmd = enable_cmd.to_string();
        s
    }

    /// The same state with another stop command.
    pub fn stop_cmd(self, stop_cmd: &str) -> (r: Self)
        ensures
            r.stop_cmd@ == stop_cmd@,
            r == (ServiceState { stop_cmd: r.stop_cmd, ..self }),
    {
        let mut s = self;
        s.stop_cmd = stop_cmd.to_string();
        s
    }

    /// The same state with another disable command.
    pub fn disable_cmd(self, disable_cmd: &str) -> (r: Self)
        ensures
            r.disable_cmd@ == disable_cmd@,
            r == (ServiceState { disable_cmd: r.disable_cmd, ..self }),
    {
        let mut s = self;
        s.disable_cmd = disable_cmd.to_string();
        s
    }

    /// The same state, with its commands run through sudo or not.
    pub fn requires_sudo(self, requires_sudo: bool) -> (r: Self)
        ensures
            r == (ServiceState { requires_sudo, ..self }),
    {
        let mut s = self;
        s.requires_sudo = requires_sudo;
        s
    }
}

/// `prefix` followed by `name`.
fn command(prefix: &str, name: &str) -> (r: String)
    ensures
        r@ == prefix@ + name@,
{
    concat(prefix, name)
}

impl Default for ServiceConfig {
    fn default() -> (r: Self)
        ensures
            r.enabled is None && r.running is None,
    {
        ServiceConfig { enabled: None, running: None }
    }
}

impl Default for Paths {
    fn default() -> (r: Self)
        ensures
            r.spec_config@.len() == 0,
            r.spec_state@.len() == 0,
            r.user_home@.len() == 0,
            r.user_config@.len() == 0,
            r.system_config@.len() == 0,
    {
        Paths {
            spec_config: String::new(),
            spec_state: String::new(),
            user_home: String::new(),
            user_config: String::new(),
            system_config: String::new(),
        }
    }
}

impl Default for Plan {
    fn default() -> (r: Self)
        ensures
            r.files@.len() == 0,
            r.service_state is None,
            r.addl_service_states is None,
    {
        Plan { files: Vec::new(), service_state: None, addl_service_states: None }
    }
}

/// The arguments of `install` that put `temp_path` in place as the file `f`.
pub open spec fn spec_install_args(f: FileArtifact, temp_path: Seq<char>) -> Seq<Seq<char>> {
    seq!["install"@, "-D"@] + (if f.requires_root {
        seq!["-o"@, "root"@, "-g"@, "root"@]
    } else {
        Seq::empty()
    }) + seq!["-m"@, spec_digits(f.permissions as nat, 8), temp_path, f.path@]
}

impl FileArtifact {
    /// The arguments of `install` that put `temp_path` in place as this file: parent
    /// directories created, owned by root when the file belongs to root, with the file's
    /// permissions in octal.
    pub fn install_args(&self, temp_path: &str) -> (r: Vec<String>)
        ensures
            views(r@) == spec_install_args(*self, temp_path@),
    {
        let mut r: Vec<String> = Vec::new();
        r.push("install".to_string());
        r.push("-D".to_string());
        if self.requires_root {
            r.push("-o".to_string());
            r.push("root".to_string());
            r.push("-g".to_string());
            r.push("root".to_string());
        }
        r.push("-m".to_string());
        r.push(u64_to_digits(self.permissions as u64, 8));
        r.push(temp_path.to_string());
        r.push(self.path.clone());
        assert(views(r@) =~= spec_install_args(*self, temp_path@));
        r
    }
}

} // verus!
