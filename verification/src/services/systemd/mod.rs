//! systemd units and timers: one unit file each, and the state of each unit.

use vstd::prelude::*;

use crate::text::{kebab_case, kebab_rest, str_equal};

use crate::adapters::key_value::{multi_marker, table_lines, BoolStyle, KeyValueAdapter, KvFormat};
use crate::adapters::AdapterError;
use crate::services::types::{systemctl_cmd, FileArtifact, Paths, Plan, ServiceState};
use crate::text::{concat, path_join, spec_join, spec_path_join};
use crate::toml_value::TomlTable;

pub mod systemd_system;
pub mod systemd_user;
pub mod sections;

pub use systemd_system::SystemdSystemService;
pub use systemd_user::SystemdUserService;

verus! {

/// A service unit: its `[Unit]`, `[Service]` and optional `[Install]` settings, and its state.
#[derive(Debug, PartialEq)]
pub struct SystemdUnit {
    pub name: String,
    pub unit: TomlTable,
    pub service: TomlTable,
    pub install: Option<TomlTable>,
    pub enabled: Option<bool>,
    pub running: Option<bool>,
}

/// A timer unit: its `[Unit]`, `[Timer]` and optional `[Install]` settings, and its state.
#[derive(Debug, PartialEq)]
pub struct SystemdTimer {
    pub name: String,
    pub unit: TomlTable,
    pub timer: TomlTable,
    pub install: Option<TomlTable>,
    pub enabled: Option<bool>,
    pub running: Option<bool>,
}

/// The units and timers to manage.
#[derive(Debug, PartialEq)]
pub struct SystemdConfig {
    pub services: Option<Vec<SystemdUnit>>,
    pub timers: Option<Vec<SystemdTimer>>,
}

/// Where unit files go and whether they belong to root; the system and the user instance differ.
pub trait SystemdService {
    /// The directory of the unit files.
    spec fn spec_config_path(paths: Paths) -> Seq<char>;

    /// Whether the files and units belong to root.
    spec fn spec_requires_root() -> bool;

    /// The directory of the unit files.
    fn config_path(paths: &Paths) -> (r: String)
        ensures
            r@ == Self::spec_config_path(*paths),
    ;

    /// Whether the files and units belong to root.
    fn requires_root() -> (b: bool)
        ensures
            b == Self::spec_requires_root(),
    ;
}

/// How unit settings are written: `Key=value`, booleans as `true`/`false`, each array item
/// on a line of its own.
pub open spec fn unit_format() -> KvFormat {
    KvFormat { separator: seq!['='], bool_style: BoolStyle::TrueFalse, indent: 0, sequence_separator: multi_marker() }
}

/// The lines of a unit file whose second section is `heading` with `body`.
pub open spec fn unit_file_lines(unit: TomlTable, heading: Seq<char>, body: TomlTable, install: Option<TomlTable>) -> Seq<Seq<char>> {
    seq!["# Managed by spec"@, "[Unit]"@] + table_lines(unit_format(), unit@) + seq![Seq::<char>::empty(), heading]
        + table_lines(unit_format(), body@) + seq![Seq::<char>::empty()] + match install {
            Some(i) => seq!["[Install]"@] + table_lines(unit_format(), i@),
            None => Seq::empty(),
        }
}

/// Whether a unit file can be written: no section that is there is empty.
pub open spec fn sections_written(unit: TomlTable, body: TomlTable, install: Option<TomlTable>) -> bool {
    &&& unit@.len() > 0
    &&& body@.len() > 0
    &&& install matches Some(i) ==> i@.len() > 0
}

/// The text of a unit file.
pub open spec fn unit_file_text(unit: TomlTable, heading: Seq<char>, body: TomlTable, install: Option<TomlTable>) -> Seq<char> {
    spec_join(unit_file_lines(unit, heading, body, install), seq!['\n'])
}

impl SystemdUnit {
    /// The text of the service's unit file; an empty section that is there is refused.
    pub open spec fn spec_text(self) -> Seq<char> {
        unit_file_text(self.unit, "[Service]"@, self.service, self.install)
    }

    /// Whether the unit file can be written.
    pub open spec fn writable(self) -> bool {
        sections_written(self.unit, self.service, self.install)
    }

    /// The text of the unit file.
    pub fn render(&self) -> (r: Result<String, AdapterError>)
        ensures
            r is Ok <==> self.writable(),
            r matches Ok(s) ==> s@ == self.spec_text(),
            r matches Err(e) ==> e == AdapterError::EmptyTable,
    {
        render_unit_file(&self.unit, "[Service]", &self.service, &self.install)
    }
}

impl SystemdTimer {
    /// The text of the timer's unit file.
    pub open spec fn spec_text(self) -> Seq<char> {
        unit_file_text(self.unit, "[Timer]"@, self.timer, self.install)
    }

    /// Whether the unit file can be written.
    pub open spec fn writable(self) -> bool {
        sections_written(self.unit, self.timer, self.install)
    }

    /// The text of the unit file.
    pub fn render(&self) -> (r: Result<String, AdapterError>)
        ensures
            r is Ok <==> self.writable(),
            r matches Ok(s) ==> s@ == self.spec_text(),
            r matches Err(e) ==> e == AdapterError::EmptyTable,
    {
        render_unit_file(&self.unit, "[Timer]", &self.timer, &self.install)
    }
}

/// Writes `# Managed by spec`, the `[Unit]` section, the section `heading`, and `[Install]`
/// when there is one.
fn render_unit_file(unit: &TomlTable, heading: &str, body: &TomlTable, install: &Option<TomlTable>) -> (r: Result<String, AdapterError>)
    ensures
        r is Ok <==> sections_written(*unit, *body, *install),
        r matches Ok(s) ==> s@ == unit_file_text(*unit, heading@, *body, *install),
        r matches Err(e) ==> e == AdapterError::EmptyTable,
{
    proof {
        reveal_strlit("=");
        reveal_strlit("#");
        reveal_strlit(" ");
        reveal_strlit("Managed by spec");
        reveal_strlit("# Managed by spec");
        assert("="@ =~= seq!['=']);
        assert("#"@ + seq![' '] + "Managed by spec"@ =~= "# Managed by spec"@);
    }
    let mut adapter = KeyValueAdapter::new("=", "#");
    assert(adapter@.indent_level * adapter@.indent_width == 0) by (nonlinear_arith)
        requires
            adapter@.indent_level == 0,
    ;
    assert(adapter@.format() =~= unit_format());
    adapter.comment("Managed by spec");
    adapter.push_line("[Unit]");
    match adapter.parse_struct(unit) {
        Ok(_) => {},
        Err(e) => {
            return Err(e);
        },
    }
    adapter.empty_line();
    adapter.push_line(heading);
    match adapter.parse_struct(body) {
        Ok(_) => {},
        Err(e) => {
            return Err(e);
        },
    }
    adapter.empty_line();
    if let Some(i) = install {
        adapter.push_line("[Install]");
        match adapter.parse_struct(i) {
            Ok(_) => {},
            Err(e) => {
                return Err(e);
            },
        }
    }
    assert(adapter@.lines =~= unit_file_lines(*unit, heading@, *body, *install));
    Ok(adapter.build())
}

/// A unit file of `S`.
pub open spec fn is_unit_file<S: SystemdService>(f: FileArtifact, paths: Paths, unit_name: Seq<char>, text: Seq<char>) -> bool {
    &&& f.path@ == spec_path_join(S::spec_config_path(paths), unit_name)
    &&& f.content@ == text
    &&& f.permissions == 0o644
    &&& f.requires_root == S::spec_requires_root()
}

/// `systemctl --user <verb> <name>`.
pub open spec fn user_systemctl_cmd(verb: Seq<char>, name: Seq<char>) -> Seq<char> {
    "systemctl --user "@ + verb + " "@ + name
}

/// The state of a unit of `S`: through sudo and `systemctl` for root, `systemctl --user` otherwise.
pub open spec fn is_unit_state<S: SystemdService>(s: ServiceState, unit_name: Seq<char>, enabled: Option<bool>, running: Option<bool>) -> bool {
    if S::spec_requires_root() {
        s.is_new(unit_name, enabled, running)
    } else {
        &&& s.name@ == unit_name
        &&& s.enabled == enabled
        &&& s.running == running
        &&& s.reload_cmd@ == user_systemctl_cmd("reload"@, unit_name)
        &&& s.start_cmd@ == user_systemctl_cmd("start"@, unit_name)
        &&& s.enable_cmd@ == user_systemctl_cmd("enable"@, unit_name)
        &&& s.stop_cmd@ == user_systemctl_cmd("stop"@, unit_name)
        &&& s.disable_cmd@ == user_systemctl_cmd("disable"@, unit_name)
        &&& !s.requires_sudo
    }
}

/// The file and state of one unit named `unit_name` (`<name>.service` or `<name>.timer`).
fn create_files_and_states<S: SystemdService>(
    paths: &Paths,
    unit_name: &str,
    file_content: String,
    running: Option<bool>,
    enabled: Option<bool>,
) -> (r: (FileArtifact, ServiceState))
    ensures
        is_unit_file::<S>(r.0, *paths, unit_name@, file_content@),
        is_unit_state::<S>(r.1, unit_name@, enabled, running),
{
    let dir = S::config_path(paths);
    let file = FileArtifact {
        path: path_join(dir.as_str(), unit_name),
        content: file_content,
        permissions: 0o644,
        requires_root: S::requires_root(),
    };
    let state = if S::requires_root() {
        ServiceState::new(unit_name, enabled, running).requires_sudo(true)
    } else {
        proof {
            reveal_strlit("systemctl --user reload ");
            reveal_strlit("systemctl --user start ");
            reveal_strlit("systemctl --user enable ");
            reveal_strlit("systemctl --user stop ");
            reveal_strlit("systemctl --user disable ");
            reveal_strlit("systemctl --user ");
            reveal_strlit("reload");
            reveal_strlit("start");
            reveal_strlit("enable");
            reveal_strlit("stop");
            reveal_strlit("disable");
            reveal_strlit(" ");
            assert("systemctl --user reload "@ + unit_name@ =~= user_systemctl_cmd("reload"@, unit_name@));
            assert("systemctl --user start "@ + unit_name@ =~= user_systemctl_cmd("start"@, unit_name@));
            assert("systemctl --user enable "@ + unit_name@ =~= user_systemctl_cmd("enable"@, unit_name@));
            assert("systemctl --user stop "@ + unit_name@ =~= user_systemctl_cmd("stop"@, unit_name@));
            assert("systemctl --user disable "@ + unit_name@ =~= user_systemctl_cmd("disable"@, unit_name@));
        }
        ServiceState::builder(unit_name)
            .requires_sudo(false)
            .running(running)
            .enabled(enabled)
            .reload_cmd(concat("systemctl --user reload ", unit_name).as_str())
            .start_cmd(concat("systemctl --user start ", unit_name).as_str())
            .enable_cmd(concat("systemctl --user enable ", unit_name).as_str())
            .stop_cmd(concat("systemctl --user stop ", unit_name).as_str())
            .disable_cmd(concat("systemctl --user disable ", unit_name).as_str())
    };
    (file, state)
}

/// The units of a configuration, or none.
pub open spec fn units_of(c: SystemdConfig) -> Seq<SystemdUnit> {
    match c.services {
        Some(v) => v@,
        None => Seq::empty(),
    }
}

/// The timers of a configuration, or none.
pub open spec fn timers_of(c: SystemdConfig) -> Seq<SystemdTimer> {
    match c.timers {
        Some(v) => v@,
        None => Seq::empty(),
    }
}

/// Whether every unit and timer file can be written.
pub open spec fn all_writable(c: SystemdConfig) -> bool {
    &&& forall|i: int| 0 <= i < units_of(c).len() ==> (#[trigger] units_of(c)[i]).writable()
    &&& forall|i: int| 0 <= i < timers_of(c).len() ==> (#[trigger] timers_of(c)[i]).writable()
}

/// What the plan of a systemd instance `S` is: a file and a state for each unit
/// (`<name>.service`), then for each timer (`<name>.timer`), in order; refused when a file
/// cannot be written.
pub open spec fn is_plan_of<S: SystemdService>(config: SystemdConfig, paths: Paths, r: Result<Plan, AdapterError>) -> bool {
    &&& r is Ok <==> all_writable(config)
    &&& r matches Err(e) ==> e == AdapterError::EmptyTable
    &&& r matches Ok(p) ==> {
        let us = units_of(config);
        let ts = timers_of(config);
        &&& p.service_state is None
        &&& p.addl_service_states is Some
        &&& p.files@.len() == us.len() + ts.len()
        &&& p.addl_service_states->0@.len() == us.len() + ts.len()
        &&& forall|i: int| 0 <= i < us.len() ==> is_unit_file::<S>(#[trigger] p.files@[i], paths,
            us[i].name@ + ".service"@, us[i].spec_text())
        &&& forall|i: int| 0 <= i < us.len() ==> is_unit_state::<S>(#[trigger] p.addl_service_states->0@[i],
            us[i].name@ + ".service"@, us[i].enabled, us[i].running)
        &&& forall|j: int| 0 <= j < ts.len() ==> is_unit_file::<S>(#[trigger] p.files@.skip(us.len() as int)[j], paths,
            ts[j].name@ + ".timer"@, ts[j].spec_text())
        &&& forall|j: int| 0 <= j < ts.len() ==> is_unit_state::<S>(
            #[trigger] p.addl_service_states->0@.skip(us.len() as int)[j],
            ts[j].name@ + ".timer"@,
            ts[j].enabled,
            ts[j].running,
        )
    }
}

/// The plan of a systemd instance `S`.
pub fn plan<S: SystemdService>(config: &SystemdConfig, paths: &Paths) -> (r: Result<Plan, AdapterError>)
    ensures
        is_plan_of::<S>(*config, *paths, r),
{
    let mut files: Vec<FileArtifact> = Vec::new();
    let mut states: Vec<ServiceState> = Vec::new();
    let ghost us = units_of(*config);
    let ghost ts = timers_of(*config);
    if let Some(units) = &config.services {
        let mut i: usize = 0;
        while i < units.len()
            invariant
                i <= units@.len(),
                us == units@,
                us == units_of(*config),
                files@.len() == i,
                states@.len() == i,
                forall|k: int| 0 <= k < i ==> (#[trigger] us[k]).writable(),
                forall|k: int| 0 <= k < i ==> is_unit_file::<S>(#[trigger] files@[k], *paths,
                    us[k].name@ + ".service"@, us[k].spec_text()),
                forall|k: int| 0 <= k < i ==> is_unit_state::<S>(#[trigger] states@[k],
                    us[k].name@ + ".service"@, us[k].enabled, us[k].running),
            decreases units.len() - i,
        {
            let unit = &units[i];
            let service_name = concat(unit.name.as_str(), ".service");
            let text = match unit.render() {
                Ok(t) => t,
                Err(e) => {
                    assert(!units_of(*config)[i as int].writable());
                    return Err(e);
                },
            };
            let (file, state) = create_files_and_states::<S>(paths, service_name.as_str(), text, unit.running, unit.enabled);
            files.push(file);
            states.push(state);
            i = i + 1;
        }
    }
    let n = files.len();
    if let Some(timers) = &config.timers {
        let mut j: usize = 0;
        while j < timers.len()
            invariant
                j <= timers@.len(),
                ts == timers@,
                ts == timers_of(*config),
                us == units_of(*config),
                forall|k: int| 0 <= k < n ==> (#[trigger] us[k]).writable(),
                n == us.len(),
                files@.len() == n + j,
                states@.len() == n + j,
                forall|k: int| 0 <= k < n ==> is_unit_file::<S>(#[trigger] files@[k], *paths,
                    us[k].name@ + ".service"@, us[k].spec_text()),
                forall|k: int| 0 <= k < n ==> is_unit_state::<S>(#[trigger] states@[k],
                    us[k].name@ + ".service"@, us[k].enabled, us[k].running),
                forall|k: int| 0 <= k < j ==> (#[trigger] ts[k]).writable(),
                forall|k: int| 0 <= k < j ==> is_unit_file::<S>(#[trigger] files@.skip(n as int)[k], *paths,
                    ts[k].name@ + ".timer"@, ts[k].spec_text()),
                forall|k: int| 0 <= k < j ==> is_unit_state::<S>(#[trigger] states@.skip(n as int)[k],
                    ts[k].name@ + ".timer"@, ts[k].enabled, ts[k].running),
            decreases timers.len() - j,
        {
            let timer = &timers[j];
            let timer_name = concat(timer.name.as_str(), ".timer");
            let text = match timer.render() {
                Ok(t) => t,
                Err(e) => {
                    assert(!timers_of(*config)[j as int].writable());
                    return Err(e);
                },
            };
            let (file, state) = create_files_and_states::<S>(paths, timer_name.as_str(), text, timer.running, timer.enabled);
            let ghost fb = files@;
            let ghost sb = states@;
            files.push(file);
            states.push(state);
            proof {
                assert forall|k: int| 0 <= k <= j implies is_unit_file::<S>(#[trigger] files@.skip(n as int)[k], *paths,
                    ts[k].name@ + ".timer"@, ts[k].spec_text()) by {
                    if k < j {
                        assert(files@.skip(n as int)[k] == fb.skip(n as int)[k]);
                    } else {
                        assert(files@.skip(n as int)[k] == files@[n + j]);
                    }
                }
                assert forall|k: int| 0 <= k <= j implies is_unit_state::<S>(#[trigger] states@.skip(n as int)[k],
                    ts[k].name@ + ".timer"@, ts[k].enabled, ts[k].running) by {
                    if k < j {
                        assert(states@.skip(n as int)[k] == sb.skip(n as int)[k]);
                    } else {
                        assert(states@.skip(n as int)[k] == states@[n + j]);
                    }
                }
            }
            j = j + 1;
        }
    }
    Ok(Plan { files, service_state: None, addl_service_states: Some(states) })
}

/// How systemd decides a service has started.
#[derive(Debug, PartialEq, Eq, Structural, Clone, Copy)]
pub enum ServiceType {
    Simple,
    Exec,
    Forking,
    Oneshot,
    Dbus,
    Notify,
    NotifyReload,
    Idle,
}

impl ServiceType {
    /// The text the value is written as in a configuration file.
    pub open spec fn spec_text(self) -> Seq<char> {
        match self {
            ServiceType::Simple => "simple"@,
            ServiceType::Exec => "exec"@,
            ServiceType::Forking => "forking"@,
            ServiceType::Oneshot => "oneshot"@,
            ServiceType::Dbus => "dbus"@,
            ServiceType::Notify => "notify"@,
            ServiceType::NotifyReload => "notify-reload"@,
            ServiceType::Idle => "idle"@,
        }
    }

    /// The name of the value: its variant's name, which is also what it is read from in the services' configuration.
    pub open spec fn spec_name(self) -> Seq<char> {
        match self {
            ServiceType::Simple => "Simple"@,
            ServiceType::Exec => "Exec"@,
            ServiceType::Forking => "Forking"@,
            ServiceType::Oneshot => "Oneshot"@,
            ServiceType::Dbus => "Dbus"@,
            ServiceType::Notify => "Notify"@,
            ServiceType::NotifyReload => "NotifyReload"@,
            ServiceType::Idle => "Idle"@,
        }
    }

    /// A value is written as its name in kebab case.
    pub proof fn lemma_text_is_renamed_name(self)
        ensures
            self.spec_text() == kebab_case(self.spec_name()),
    {
        reveal_strlit("Dbus");
        reveal_strlit("Exec");
        reveal_strlit("Forking");
        reveal_strlit("Idle");
        reveal_strlit("Notify");
        reveal_strlit("NotifyReload");
        reveal_strlit("Oneshot");
        reveal_strlit("Simple");
        reveal_strlit("dbus");
        reveal_strlit("exec");
        reveal_strlit("forking");
        reveal_strlit("idle");
        reveal_strlit("notify");
        reveal_strlit("notify-reload");
        reveal_strlit("oneshot");
        reveal_strlit("simple");
        assert("Dbus"@ =~= seq!['D', 'b', 'u', 's']);
        assert("Exec"@ =~= seq!['E', 'x', 'e', 'c']);
        assert("Forking"@ =~= seq!['F', 'o', 'r', 'k', 'i', 'n', 'g']);
        assert("Idle"@ =~= seq!['I', 'd', 'l', 'e']);
        assert("Notify"@ =~= seq!['N', 'o', 't', 'i', 'f', 'y']);
        assert("NotifyReload"@ =~= seq!['N', 'o', 't', 'i', 'f', 'y', 'R', 'e', 'l', 'o', 'a', 'd']);
        assert("Oneshot"@ =~= seq!['O', 'n', 'e', 's', 'h', 'o', 't']);
        assert("Simple"@ =~= seq!['S', 'i', 'm', 'p', 'l', 'e']);
        assert("dbus"@ =~= seq!['d', 'b', 'u', 's']);
        assert("exec"@ =~= seq!['e', 'x', 'e', 'c']);
        assert("forking"@ =~= seq!['f', 'o', 'r', 'k', 'i', 'n', 'g']);
        assert("idle"@ =~= seq!['i', 'd', 'l', 'e']);
        assert("notify"@ =~= seq!['n', 'o', 't', 'i', 'f', 'y']);
        assert("notify-reload"@ =~= seq!['n', 'o', 't', 'i', 'f', 'y', '-', 'r', 'e', 'l', 'o', 'a', 'd']);
        assert("oneshot"@ =~= seq!['o', 'n', 'e', 's', 'h', 'o', 't']);
        assert("simple"@ =~= seq!['s', 'i', 'm', 'p', 'l', 'e']);
        reveal_with_fuel(kebab_rest, 14);
    }

    /// The text the value is written as.
    pub fn text(&self) -> (r: &str)
        ensures
            r@ == self.spec_text(),
    {
        match self {
            ServiceType::Simple => "simple",
            ServiceType::Exec => "exec",
            ServiceType::Forking => "forking",
            ServiceType::Oneshot => "oneshot",
            ServiceType::Dbus => "dbus",
            ServiceType::Notify => "notify",
            ServiceType::NotifyReload => "notify-reload",
            ServiceType::Idle => "idle",
        }
    }

    /// The value a text names, if any.
    pub fn from_text(s: &str) -> (r: Option<Self>)
        ensures
            r matches Some(v) ==> v.spec_name() == s@,
            r is None ==> forall|v: Self| #[trigger] v.spec_name() != s@,
            forall|v: Self| #[trigger] v.spec_name() == s@ ==> r == Some(v),
    {
        proof {
            reveal_strlit("Simple");
            reveal_strlit("Exec");
            reveal_strlit("Forking");
            reveal_strlit("Oneshot");
            reveal_strlit("Dbus");
            reveal_strlit("Notify");
            reveal_strlit("NotifyReload");
            reveal_strlit("Idle");
            assert("Simple"@ =~= seq!['S', 'i', 'm', 'p', 'l', 'e']);
            assert("Exec"@ =~= seq!['E', 'x', 'e', 'c']);
            assert("Forking"@ =~= seq!['F', 'o', 'r', 'k', 'i', 'n', 'g']);
            assert("Oneshot"@ =~= seq!['O', 'n', 'e', 's', 'h', 'o', 't']);
            assert("Dbus"@ =~= seq!['D', 'b', 'u', 's']);
            assert("Notify"@ =~= seq!['N', 'o', 't', 'i', 'f', 'y']);
            assert("NotifyReload"@ =~= seq!['N', 'o', 't', 'i', 'f', 'y', 'R', 'e', 'l', 'o', 'a', 'd']);
            assert("Idle"@ =~= seq!['I', 'd', 'l', 'e']);
        }
        if str_equal(s, "Simple") {
            Some(ServiceType::Simple)
        } else if str_equal(s, "Exec") {
            Some(ServiceType::Exec)
        } else if str_equal(s, "Forking") {
            Some(ServiceType::Forking)
        } else if str_equal(s, "Oneshot") {
            Some(ServiceType::Oneshot)
        } else if str_equal(s, "Dbus") {
            Some(ServiceType::Dbus)
        } else if str_equal(s, "Notify") {
            Some(ServiceType::Notify)
        } else if str_equal(s, "NotifyReload") {
            Some(ServiceType::NotifyReload)
        } else if str_equal(s, "Idle") {
            Some(ServiceType::Idle)
        } else {
            None
        }
    }
}

/// System units go to `systemd/system` in the system configuration directory and belong to
/// root; user units go to `systemd/user` in the user's configuration directory and do not.
pub proof fn lemma_unit_directories(paths: Paths)
    ensures
        <SystemdSystemService as SystemdService>::spec_config_path(paths) == spec_path_join(paths.system_config@, "systemd/system"@),
        <SystemdSystemService as SystemdService>::spec_requires_root(),
        <SystemdUserService as SystemdService>::spec_config_path(paths) == spec_path_join(paths.user_config@, "systemd/user"@),
        !<SystemdUserService as SystemdService>::spec_requires_root(),
{
}

} // verus!
