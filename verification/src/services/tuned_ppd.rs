//! The TuneD power-profiles daemon: the INI file `tuned/ppd.conf`.

use vstd::prelude::*;

use crate::adapters::ini::{section_lines, IniAdapter};
use crate::services::types::{FileArtifact, Paths, Plan, ServiceConfig};
use crate::services::{is_state_for, state_for, ManagedService};
use crate::text::{path_join, spec_join, spec_path_join};
use crate::toml_value::TomlTable;

verus! {

/// The TuneD power-profiles daemon.
pub struct TuneDPPDService;

/// The sections of `ppd.conf` and the wanted state of the daemon. A section that could not be
/// made a table is `None`.
#[derive(Debug, PartialEq)]
pub struct TuneDPPDConfig {
    pub main: Option<TomlTable>,
    pub profiles: Option<TomlTable>,
    pub battery: Option<TomlTable>,
    pub service: Option<ServiceConfig>,
}

/// The text of `ppd.conf`.
pub open spec fn ppd_text(c: TuneDPPDConfig) -> Seq<char> {
    spec_join(
        seq!["# Managed by spec"@] + section_lines(false, "main"@, c.main) + section_lines(false, "profiles"@, c.profiles)
            + section_lines(false, "battery"@, c.battery),
        seq!['\n'],
    )
}

impl ManagedService for TuneDPPDService {
    fn name(&self) -> (r: &'static str)
        ensures
            r@ == "tuned"@,
    {
        "tuned"
    }
}

impl TuneDPPDService {
    /// `tuned/ppd.conf` under the system configuration directory, and the state of `tuned`.
    pub fn plan(&self, config: &TuneDPPDConfig, paths: &Paths) -> (r: Plan)
        ensures
            r.files@.len() == 1,
            r.files@[0].path@ == spec_path_join(paths.system_config@, "tuned/ppd.conf"@),
            r.files@[0].content@ == ppd_text(*config),
            r.files@[0].permissions == 0o644,
            r.files@[0].requires_root,
            is_state_for(r.service_state, "tuned"@, config.service),
            r.addl_service_states is None,
    {
        let mut adapter = IniAdapter::new();
        adapter.push_line("# Managed by spec");
        let _ = adapter.section("main", config.main.as_ref());
        let _ = adapter.section("profiles", config.profiles.as_ref());
        let _ = adapter.section("battery", config.battery.as_ref());
        assert(adapter@.lines =~= seq!["# Managed by spec"@] + section_lines(false, "main"@, config.main)
            + section_lines(false, "profiles"@, config.profiles) + section_lines(false, "battery"@, config.battery));
        let file = FileArtifact {
            path: path_join(paths.system_config.as_str(), "tuned/ppd.conf"),
            content: adapter.build(),
            permissions: 0o644,
            requires_root: true,
        };
        let mut files = Vec::new();
        files.push(file);
        Plan { files, service_state: state_for(self.name(), config.service), addl_service_states: None }
    }
}

} // verus!
