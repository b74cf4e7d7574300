//! The user's ssh client configuration, `.ssh/config` in the home directory.

use vstd::prelude::*;

use crate::adapters::AdapterError;
use crate::services::ssh::{SshConfig, SshService};
use crate::services::types::{Paths, Plan};
use crate::services::ManagedService;
use crate::text::{path_join, spec_path_join};

verus! {

/// The user's ssh client configuration.
pub struct SshUserService;

impl ManagedService for SshUserService {
    fn name(&self) -> (r: &'static str)
        ensures
            r@ == "ssh_user"@,
    {
        "ssh_user"
    }
}

impl SshService for SshUserService {
    open spec fn spec_config_path(paths: Paths) -> Seq<char> {
        spec_path_join(paths.user_home@, ".ssh/config"@)
    }

    open spec fn spec_requires_root() -> bool {
        false
    }

    fn config_path(paths: &Paths) -> (r: String) {
        path_join(paths.user_home.as_str(), ".ssh/config")
    }

    fn requires_root() -> (b: bool) {
        false
    }
}

impl SshUserService {
    /// The user's configuration file.
    pub fn plan(&self, config: &SshConfig, paths: &Paths) -> (r: Result<Plan, AdapterError>)
        ensures
            super::is_ssh_plan::<SshUserService>(*config, *paths, r),
            r matches Ok(p) ==> p.files@[0].path@ == spec_path_join(paths.user_home@, ".ssh/config"@),
    {
        super::plan::<SshUserService>(config, paths)
    }
}

} // verus!
