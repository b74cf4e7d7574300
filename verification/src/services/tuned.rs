//! The TuneD daemon: `tuned/tuned-main.conf` with `key = value` lines, booleans as `1`/`0`.

use vstd::prelude::*;

use crate::adapters::key_value::{multi_marker, table_lines, BoolStyle, KeyValueAdapter, KvFormat};
use crate::services::types::{FileArtifact, Paths, Plan, ServiceConfig};
use crate::services::{is_state_for, state_for, ManagedService};
use crate::text::{path_join, spec_join, spec_path_join};
use crate::toml_value::TomlTable;

verus! {

/// The TuneD daemon.
pub struct TuneDService;

/// The daemon settings, and the wanted state of the daemon.
#[derive(Debug, PartialEq)]
pub struct TuneDConfig {
    pub settings: TomlTable,
    pub service: Option<ServiceConfig>,
}

/// How TuneD settings are written: `key = value`, booleans as `1`/`0`.
pub open spec fn tuned_format() -> KvFormat {
    KvFormat { separator: seq![' ', '=', ' '], bool_style: BoolStyle::OneZero, indent: 0, sequence_separator: multi_marker() }
}

/// The text of `tuned-main.conf`.
pub open spec fn tuned_text(settings: TomlTable) -> Seq<char> {
    spec_join(seq!["# Managed by spec"@] + table_lines(tuned_format(), settings@), seq!['\n'])
}

impl ManagedService for TuneDService {
    fn name(&self) -> (r: &'static str)
        ensures
            r@ == "tuned"@,
    {
        "tuned"
    }
}

impl TuneDService {
    /// `tuned/tuned-main.conf` under the system configuration directory, when there is a
    /// setting, and the state of `tuned`.
    pub fn plan(&self, config: &TuneDConfig, paths: &Paths) -> (r: Plan)
        ensures
            r.files@.len() == if config.settings@.len() > 0 { 1int } else { 0int },
            config.settings@.len() > 0 ==> {
                &&& r.files@[0].path@ == spec_path_join(paths.system_config@, "tuned/tuned-main.conf"@)
                &&& r.files@[0].content@ == tuned_text(config.settings)
                &&& r.files@[0].permissions == 0o644
                &&& r.files@[0].requires_root
            },
            is_state_for(r.service_state, "tuned"@, config.service),
            r.addl_service_states is None,
    {
        proof {
            reveal_strlit(" = ");
            reveal_strlit("#");
            reveal_strlit(" ");
            reveal_strlit("Managed by spec");
            reveal_strlit("# Managed by spec");
            assert(" = "@ =~= seq![' ', '=', ' ']);
            assert("#"@ + seq![' '] + "Managed by spec"@ =~= "# Managed by spec"@);
        }
        let mut files = Vec::new();
        let mut adapter = KeyValueAdapter::new(" = ", "#").bool_style(BoolStyle::OneZero);
        adapter.comment("Managed by spec");
        assert(adapter@.indent_level * adapter@.indent_width == 0) by (nonlinear_arith)
            requires
                adapter@.indent_level == 0,
        ;
        assert(adapter@.format() =~= tuned_format());
        let ghost before = adapter@;
        if adapter.parse_struct(&config.settings).is_ok() {
            assert(adapter@.lines =~= seq!["# Managed by spec"@] + table_lines(tuned_format(), config.settings@));
            files.push(FileArtifact {
                path: path_join(paths.system_config.as_str(), "tuned/tuned-main.conf"),
                content: adapter.build(),
                permissions: 0o644,
                requires_root: true,
            });
        }
        Plan { files, service_state: state_for(self.name(), config.service), addl_service_states: None }
    }
}

} // verus!
