//! auto-cpufreq: the INI file `auto-cpufreq.conf`, written `key = value`.

use vstd::prelude::*;

use crate::adapters::ini::{section_lines, IniAdapter};
use crate::services::types::{FileArtifact, Paths, Plan, ServiceConfig};
use crate::services::{is_state_for, state_for, ManagedService};
use crate::text::{path_join, spec_join, spec_path_join};
use crate::toml_value::TomlTable;

verus! {

/// The auto-cpufreq daemon.
pub struct AutoCpuFreqService;

/// The settings on charger and on battery, and the wanted state of the daemon. A section that
/// could not be made a table is `None`.
#[derive(Debug, PartialEq)]
pub struct AutoCpuFreqConfig {
    pub charger: Option<TomlTable>,
    pub battery: Option<TomlTable>,
    pub service: Option<ServiceConfig>,
}

/// The text of `auto-cpufreq.conf`.
pub open spec fn auto_cpufreq_text(c: AutoCpuFreqConfig) -> Seq<char> {
    spec_join(
        seq!["# Managed by spec"@] + section_lines(true, "charger"@, c.charger) + section_lines(true, "battery"@, c.battery),
        seq!['\n'],
    )
}

impl ManagedService for AutoCpuFreqService {
    fn name(&self) -> (r: &'static str)
        ensures
            r@ == "auto-cpufreq"@,
    {
        "auto-cpufreq"
    }
}

impl AutoCpuFreqService {
    /// `auto-cpufreq.conf` under the system configuration directory, and the state of the daemon.
    pub fn plan(&self, config: &AutoCpuFreqConfig, paths: &Paths) -> (r: Plan)
        ensures
            r.files@.len() == 1,
            r.files@[0].path@ == spec_path_join(paths.system_config@, "auto-cpufreq.conf"@),
            r.files@[0].content@ == auto_cpufreq_text(*config),
            r.files@[0].permissions == 0o644,
            r.files@[0].requires_root,
            is_state_for(r.service_state, "auto-cpufreq"@, config.service),
            r.addl_service_states is None,
    {
        let mut adapter = IniAdapter::new();
        adapter.spaces_around_equals(true);
        adapter.push_line("# Managed by spec");
        let _ = adapter.section("charger", config.charger.as_ref());
        let _ = adapter.section("battery", config.battery.as_ref());
        assert(adapter@.lines =~= seq!["# Managed by spec"@] + section_lines(true, "charger"@, config.charger)
            + section_lines(true, "battery"@, config.battery));
        let file = FileArtifact {
            path: path_join(paths.system_config.as_str(), "auto-cpufreq.conf"),
            content: adapter.build(),
            permissions: 0o644,
            requires_root: true,
        };
        let mut files = Vec::new();
        files.push(file);
        Plan { files, service_state: state_for(self.name(), config.service), addl_service_states: None }
    }
}

} // verus!
