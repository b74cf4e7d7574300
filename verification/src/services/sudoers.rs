//! sudo rules: one `user host=(runas) command` line per rule in `sudoers.d/99_spec`.

use vstd::prelude::*;

use crate::services::types::{FileArtifact, Paths, Plan};
use crate::services::ManagedService;
use crate::text::path_join;
use crate::text::spec_path_join;

verus! {

/// Writes the sudo rules.
pub struct SudoersService;

/// Who a command may be run as: a user, and optionally a group.
#[derive(Debug, PartialEq)]
pub struct RunAsSpec {
    pub user: String,
    pub group: Option<String>,
}

/// One rule: `user` on `host` may run `command` as `run_as`.
#[derive(Debug, PartialEq)]
pub struct UserSpec {
    pub user: String,
    pub host: String,
    pub run_as: RunAsSpec,
    pub command: String,
}

/// The sudo rules to write.
#[derive(Debug, PartialEq)]
pub struct SudoersConfig {
    pub user_specs: Vec<UserSpec>,
}

/// `user` or `user:group`.
pub open spec fn run_as_text(r: RunAsSpec) -> Seq<char> {
    match r.group {
        Some(g) => r.user@ + ":"@ + g@,
        None => r.user@,
    }
}

/// The line of one rule.
pub open spec fn rule_line(s: UserSpec) -> Seq<char> {
    s.user@ + " "@ + s.host@ + "=("@ + run_as_text(s.run_as) + ") "@ + s.command@ + "\n"@
}

/// The file: a header line, then one line per rule.
pub open spec fn sudoers_text(specs: Seq<UserSpec>) -> Seq<char>
    decreases specs.len(),
{
    if specs.len() == 0 {
        "# Managed by spec\n"@
    } else {
        sudoers_text(specs.drop_last()) + rule_line(specs.last())
    }
}

impl ManagedService for SudoersService {
    fn name(&self) -> (r: &'static str)
        ensures
            r@ == "sudoers"@,
    {
        "sudoers"
    }
}

impl SudoersService {
    /// The file `sudoers.d/99_spec` under the system configuration directory, readable by
    /// root only.
    pub fn plan(&self, config: &SudoersConfig, paths: &Paths) -> (r: Plan)
        ensures
            r.files@.len() == 1,
            r.files@[0].path@ == spec_path_join(paths.system_config@, "sudoers.d/99_spec"@),
            r.files@[0].content@ == sudoers_text(config.user_specs@),
            r.files@[0].permissions == 0o440,
            r.files@[0].requires_root,
            r.service_state is None,
            r.addl_service_states is None,
    {
        let path = path_join(paths.system_config.as_str(), "sudoers.d/99_spec");
        let mut content = "# Managed by spec\n".to_string();
        let mut i: usize = 0;
        while i < config.user_specs.len()
            invariant
                i <= config.user_specs@.len(),
                content@ == sudoers_text(config.user_specs@.take(i as int)),
            decreases config.user_specs.len() - i,
        {
            let s = &config.user_specs[i];
            let mut run_as = s.run_as.user.clone();
            if let Some(group) = &s.run_as.group {
                run_as.append(":");
                run_as.append(group.as_str());
            }
            content.append(s.user.as_str());
            content.append(" ");
            content.append(s.host.as_str());
            content.append("=(");
            content.append(run_as.as_str());
            content.append(") ");
            content.append(s.command.as_str());
            content.append("\n");
            assert(config.user_specs@.take(i + 1).drop_last() =~= config.user_specs@.take(i as int));
            assert(config.user_specs@.take(i + 1).last() == *s);
            assert(content@ =~= sudoers_text(config.user_specs@.take(i + 1)));
            i = i + 1;
        }
        assert(config.user_specs@.take(config.user_specs@.len() as int) =~= config.user_specs@);
        let file = FileArtifact { path, content, permissions: 0o440, requires_root: true };
        let mut files = Vec::new();
        files.push(file);
        Plan { files, service_state: None, addl_service_states: None }
    }
}

} // verus!
