//! The ssh daemon: `ssh/sshd_config` with one `Key value` line per setting.

use vstd::prelude::*;

use crate::adapters::key_value::{multi_marker, table_lines, BoolStyle, KeyValueAdapter, KvFormat};
use crate::adapters::AdapterError;
use crate::services::types::{FileArtifact, Paths, Plan, ServiceConfig, ServiceState};
use crate::services::{is_state_for, state_for, ManagedService};
use crate::text::{path_join, spec_join, spec_path_join};
use crate::toml_value::TomlTable;

verus! {

/// The ssh daemon.
pub struct SshdService;

/// The daemon settings, and the wanted state of the daemon.
#[derive(Debug, PartialEq)]
pub struct SshdConfig {
    pub settings: TomlTable,
    pub service: Option<ServiceConfig>,
}

/// How daemon settings are written: `Key value`, booleans as `yes`/`no`, each array item on a
/// line of its own.
pub open spec fn sshd_format() -> KvFormat {
    KvFormat { separator: seq![' '], bool_style: BoolStyle::YesNo, indent: 0, sequence_separator: multi_marker() }
}

/// The text of `sshd_config`.
pub open spec fn sshd_text(settings: TomlTable) -> Seq<char> {
    spec_join(seq!["# Managed by tenant"@] + table_lines(sshd_format(), settings@), seq!['\n'])
}

impl ManagedService for SshdService {
    fn name(&self) -> (r: &'static str)
        ensures
            r@ == "sshd"@,
    {
        "sshd"
    }
}

impl SshdService {
    /// `ssh/sshd_config` under the system configuration directory, and the state of `sshd`;
    /// refused when there is no setting.
    pub fn plan(&self, config: &SshdConfig, paths: &Paths) -> (r: Result<Plan, AdapterError>)
        ensures
            r is Ok <==> config.settings@.len() > 0,
            r matches Err(e) ==> e == AdapterError::EmptyTable,
            r matches Ok(p) ==> {
                &&& p.files@.len() == 1
                &&& p.files@[0].path@ == spec_path_join(paths.system_config@, "ssh/sshd_config"@)
                &&& p.files@[0].content@ == sshd_text(config.settings)
                &&& p.files@[0].permissions == 0o644
                &&& p.files@[0].requires_root
                &&& is_state_for(p.service_state, "sshd"@, config.service)
                &&& p.addl_service_states is None
            },
    {
        proof {
            reveal_strlit(" ");
            reveal_strlit("#");
            reveal_strlit("Managed by tenant");
            reveal_strlit("# Managed by tenant");
            assert(" "@ =~= seq![' ']);
            assert("#"@ + seq![' '] + "Managed by tenant"@ =~= "# Managed by tenant"@);
        }
        let mut adapter = KeyValueAdapter::new(" ", "#").bool_style(BoolStyle::YesNo);
        adapter.comment("Managed by tenant");
        assert(adapter@.indent_level * adapter@.indent_width == 0) by (nonlinear_arith)
            requires
                adapter@.indent_level == 0,
        ;
        assert(adapter@.format() =~= sshd_format());
        match adapter.parse_struct(&config.settings) {
            Ok(_) => {},
            Err(e) => {
                return Err(e);
            },
        }
        assert(adapter@.lines =~= seq!["# Managed by tenant"@] + table_lines(sshd_format(), config.settings@));
        let file = FileArtifact {
            path: path_join(paths.system_config.as_str(), "ssh/sshd_config"),
            content: adapter.build(),
            permissions: 0o644,
            requires_root: true,
        };
        let mut files = Vec::new();
        files.push(file);
        Ok(Plan { files, service_state: state_for(self.name(), config.service), addl_service_states: None })
    }
}

} // verus!
