//! udev: `udev/udev.conf` with `key=value` lines, and verbatim rule files.

use vstd::prelude::*;

use crate::text::{lower_case, str_equal};

use crate::adapters::key_value::{multi_marker, table_lines, BoolStyle, KeyValueAdapter, KvFormat};
use crate::services::types::{FileArtifact, Paths, Plan, ServiceConfig, ServiceState};
use crate::services::{are_dropin_files, push_dropins, ManagedService};
use crate::services::sddm::dropins_of;
use crate::text::{path_join, spec_join, spec_path_join};
use crate::toml_value::TomlTable;

verus! {

/// The udev device manager.
pub struct UdevService;

/// The daemon settings, rule files by name, and the wanted state of `systemd-udevd`.
#[derive(Debug, PartialEq)]
pub struct UdevConfig {
    pub settings: TomlTable,
    pub rules: Option<Vec<(String, String)>>,
    pub service: Option<ServiceConfig>,
}

/// How udev settings are written: `key=value`.
pub open spec fn udev_format() -> KvFormat {
    KvFormat { separator: seq!['='], bool_style: BoolStyle::TrueFalse, indent: 0, sequence_separator: multi_marker() }
}

/// The text of `udev.conf`.
pub open spec fn udev_text(settings: TomlTable) -> Seq<char> {
    spec_join(seq!["# Managed by spec"@] + table_lines(udev_format(), settings@), seq!['\n'])
}

/// The state of `systemd-udevd`, reloaded through `udevadm`.
pub open spec fn is_udev_state(r: Option<ServiceState>, service: Option<ServiceConfig>) -> bool {
    match service {
        None => r is None,
        Some(s) => r matches Some(st) && st.is_new_but_reload("systemd-udevd"@, s.enabled, s.running)
            && st.reload_cmd@ == "udevadm control --reload"@,
    }
}

impl ManagedService for UdevService {
    fn name(&self) -> (r: &'static str)
        ensures
            r@ == "udev"@,
    {
        "udev"
    }
}

impl UdevService {
    /// `udev/udev.conf` under the system configuration directory when there is a setting, then
    /// the rule files under `udev/rules.d/`, and the state of `systemd-udevd`.
    pub fn plan(&self, config: &UdevConfig, paths: &Paths) -> (r: Plan)
        ensures
            config.settings@.len() > 0 ==> {
                &&& r.files@.len() == 1 + dropins_of(config.rules).len()
                &&& r.files@[0].path@ == spec_path_join(paths.system_config@, "udev/udev.conf"@)
                &&& r.files@[0].content@ == udev_text(config.settings)
                &&& r.files@[0].permissions == 0o644
                &&& r.files@[0].requires_root
                &&& are_dropin_files(r.files@.skip(1), *paths, "udev/rules.d/"@, dropins_of(config.rules))
            },
            config.settings@.len() == 0 ==> are_dropin_files(r.files@, *paths, "udev/rules.d/"@, dropins_of(config.rules)),
            is_udev_state(r.service_state, config.service),
            r.addl_service_states is None,
    {
        proof {
            reveal_strlit("=");
            reveal_strlit("#");
            reveal_strlit(" ");
            reveal_strlit("Managed by spec");
            reveal_strlit("# Managed by spec");
            assert("="@ =~= seq!['=']);
            assert("#"@ + seq![' '] + "Managed by spec"@ =~= "# Managed by spec"@);
        }
        let mut files: Vec<FileArtifact> = Vec::new();
        let mut adapter = KeyValueAdapter::new("=", "#");
        adapter.comment("Managed by spec");
        assert(adapter@.indent_level * adapter@.indent_width == 0) by (nonlinear_arith)
            requires
                adapter@.indent_level == 0,
        ;
        assert(adapter@.format() =~= udev_format());
        if adapter.parse_struct(&config.settings).is_ok() {
            assert(adapter@.lines =~= seq!["# Managed by spec"@] + table_lines(udev_format(), config.settings@));
            files.push(FileArtifact {
                path: path_join(paths.system_config.as_str(), "udev/udev.conf"),
                content: adapter.build(),
                permissions: 0o644,
                requires_root: true,
            });
        }
        let ghost n = files@.len();
        if let Some(rules) = &config.rules {
            push_dropins(&mut files, paths, "udev/rules.d/", rules);
            proof {
                if n == 1 {
                    assert(files@[0] == files@.take(1)[0]);
                } else {
                    assert(files@.skip(0) =~= files@);
                }
            }
        } else {
            assert(files@.skip(n as int) =~= Seq::<FileArtifact>::empty());
        }
        let service_state = match config.service {
            Some(s) => Some(ServiceState::new("systemd-udevd", s.enabled, s.running).reload_cmd("udevadm control --reload")),
            None => None,
        };
        Plan { files, service_state, addl_service_states: None }
    }
}

/// How much udev logs.
#[derive(Debug, PartialEq, Eq, Structural, Clone, Copy)]
pub enum LogLevel {
    Error,
    Info,
    Debug,
}

impl LogLevel {
    /// The text the value is written as in a configuration file.
    pub open spec fn spec_text(self) -> Seq<char> {
        match self {
            LogLevel::Error => "err"@,
            LogLevel::Info => "info"@,
            LogLevel::Debug => "debug"@,
        }
    }

    /// The name of the value: its variant's name.
    pub open spec fn spec_name(self) -> Seq<char> {
        match self {
            LogLevel::Error => "Err"@,
            LogLevel::Info => "Info"@,
            LogLevel::Debug => "Debug"@,
        }
    }

    /// A value is written as its name in lower case.
    pub proof fn lemma_text_is_renamed_name(self)
        ensures
            self.spec_text() == lower_case(self.spec_name()),
    {
        reveal_strlit("Debug");
        reveal_strlit("Err");
        reveal_strlit("Info");
        reveal_strlit("debug");
        reveal_strlit("err");
        reveal_strlit("info");
        assert("Debug"@ =~= seq!['D', 'e', 'b', 'u', 'g']);
        assert("Err"@ =~= seq!['E', 'r', 'r']);
        assert("Info"@ =~= seq!['I', 'n', 'f', 'o']);
        assert("debug"@ =~= seq!['d', 'e', 'b', 'u', 'g']);
        assert("err"@ =~= seq!['e', 'r', 'r']);
        assert("info"@ =~= seq!['i', 'n', 'f', 'o']);
    }

    /// The text the value is written as.
    pub fn text(&self) -> (r: &str)
        ensures
            r@ == self.spec_text(),
    {
        match self {
            LogLevel::Error => "err",
            LogLevel::Info => "info",
            LogLevel::Debug => "debug",
        }
    }

    /// The value a text names, if any.
    pub fn from_text(s: &str) -> (r: Option<Self>)
        ensures
            r matches Some(v) ==> v.spec_text() == s@,
            r is None ==> forall|v: Self| #[trigger] v.spec_text() != s@,
            forall|v: Self| #[trigger] v.spec_text() == s@ ==> r == Some(v),
    {
        proof {
            reveal_strlit("err");
            reveal_strlit("info");
            reveal_strlit("debug");
            assert("err"@ =~= seq!['e', 'r', 'r']);
            assert("info"@ =~= seq!['i', 'n', 'f', 'o']);
            assert("debug"@ =~= seq!['d', 'e', 'b', 'u', 'g']);
        }
        if str_equal(s, "err") {
            Some(LogLevel::Error)
        } else if str_equal(s, "info") {
            Some(LogLevel::Info)
        } else if str_equal(s, "debug") {
            Some(LogLevel::Debug)
        } else {
            None
        }
    }
}

impl Default for LogLevel {
    fn default() -> (r: Self)
        ensures
            r == LogLevel::Error,
    {
        LogLevel::Error
    }
}

/// When udev resolves user and group names.
#[derive(Debug, PartialEq, Eq, Structural, Clone, Copy)]
pub enum ResolveNames {
    Early,
    Late,
    Never,
}

impl ResolveNames {
    /// The text the value is written as in a configuration file.
    pub open spec fn spec_text(self) -> Seq<char> {
        match self {
            ResolveNames::Early => "early"@,
            ResolveNames::Late => "late"@,
            ResolveNames::Never => "never"@,
        }
    }

    /// The name of the value: its variant's name.
    pub open spec fn spec_name(self) -> Seq<char> {
        match self {
            ResolveNames::Early => "Early"@,
            ResolveNames::Late => "Late"@,
            ResolveNames::Never => "Never"@,
        }
    }

    /// A value is written as its name in lower case.
    pub proof fn lemma_text_is_renamed_name(self)
        ensures
            self.spec_text() == lower_case(self.spec_name()),
    {
        reveal_strlit("Early");
        reveal_strlit("Late");
        reveal_strlit("Never");
        reveal_strlit("early");
        reveal_strlit("late");
        reveal_strlit("never");
        assert("Early"@ =~= seq!['E', 'a', 'r', 'l', 'y']);
        assert("Late"@ =~= seq!['L', 'a', 't', 'e']);
        assert("Never"@ =~= seq!['N', 'e', 'v', 'e', 'r']);
        assert("early"@ =~= seq!['e', 'a', 'r', 'l', 'y']);
        assert("late"@ =~= seq!['l', 'a', 't', 'e']);
        assert("never"@ =~= seq!['n', 'e', 'v', 'e', 'r']);
    }

    /// The text the value is written as.
    pub fn text(&self) -> (r: &str)
        ensures
            r@ == self.spec_text(),
    {
        match self {
            ResolveNames::Early => "early",
            ResolveNames::Late => "late",
            ResolveNames::Never => "never",
        }
    }

    /// The value a text names, if any.
    pub fn from_text(s: &str) -> (r: Option<Self>)
        ensures
            r matches Some(v) ==> v.spec_text() == s@,
            r is None ==> forall|v: Self| #[trigger] v.spec_text() != s@,
            forall|v: Self| #[trigger] v.spec_text() == s@ ==> r == Some(v),
    {
        proof {
            reveal_strlit("early");
            reveal_strlit("late");
            reveal_strlit("never");
            assert("early"@ =~= seq!['e', 'a', 'r', 'l', 'y']);
            assert("late"@ =~= seq!['l', 'a', 't', 'e']);
            assert("never"@ =~= seq!['n', 'e', 'v', 'e', 'r']);
        }
        if str_equal(s, "early") {
            Some(ResolveNames::Early)
        } else if str_equal(s, "late") {
            Some(ResolveNames::Late)
        } else if str_equal(s, "never") {
            Some(ResolveNames::Never)
        } else {
            None
        }
    }
}

impl Default for ResolveNames {
    fn default() -> (r: Self)
        ensures
            r == ResolveNames::Early,
    {
        ResolveNames::Early
    }
}

} // verus!
