//! The system-wide ssh client configuration, `ssh/ssh_config`, owned by root.

use vstd::prelude::*;

use crate::adapters::AdapterError;
use crate::services::ssh::{SshConfig, SshService};
use crate::services::types::{Paths, Plan};
use crate::services::ManagedService;
use crate::text::{path_join, spec_path_join};

verus! {

/// The system-wide ssh client configuration.
pub struct SshSystemService;

impl ManagedService for SshSystemService {
    fn name(&self) -> (r: &'static str)
        ensures
            r@ == "ssh_system"@,
    {
        "ssh_system"
    }
}

impl SshService for SshSystemService {
    open spec fn spec_config_path(paths: Paths) -> Seq<char> {
        spec_path_join(paths.system_config@, "ssh/ssh_config"@)
    }

    open spec fn spec_requires_root() -> bool {
        true
    }

    fn config_path(paths: &Paths) -> (r: String) {
        path_join(paths.system_config.as_str(), "ssh/ssh_config")
    }

    fn requires_root() -> (b: bool) {
        true
    }
}

impl SshSystemService {
    /// The system-wide configuration file.
    pub fn plan(&self, config: &SshConfig, paths: &Paths) -> (r: Result<Plan, AdapterError>)
        ensures
            super::is_ssh_plan::<SshSystemService>(*config, *paths, r),
            r matches Ok(p) ==> p.files@[0].path@ == spec_path_join(paths.system_config@, "ssh/ssh_config"@),
    {
        super::plan::<SshSystemService>(config, paths)
    }
}

} // verus!
