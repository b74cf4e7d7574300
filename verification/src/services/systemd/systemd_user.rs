//! User units, under `systemd/user` of the user configuration directory, run with `systemctl --user`.

use vstd::prelude::*;

use crate::adapters::AdapterError;
use crate::services::systemd::{SystemdConfig, SystemdService};
use crate::services::types::{Paths, Plan};
use crate::services::ManagedService;
use crate::text::{path_join, spec_path_join};

verus! {

/// The units of the user instance of systemd.
pub struct SystemdUserService;

impl ManagedService for SystemdUserService {
    fn name(&self) -> (r: &'static str)
        ensures
            r@ == "systemd_user"@,
    {
        "systemd_user"
    }
}

impl SystemdService for SystemdUserService {
    open spec fn spec_config_path(paths: Paths) -> Seq<char> {
        spec_path_join(paths.user_config@, "systemd/user"@)
    }

    open spec fn spec_requires_root() -> bool {
        false
    }

    fn config_path(paths: &Paths) -> (r: String) {
        path_join(paths.user_config.as_str(), "systemd/user")
    }

    fn requires_root() -> (b: bool) {
        false
    }
}

impl SystemdUserService {
    /// The unit files and unit states of the user instance.
    pub fn plan(&self, config: &SystemdConfig, paths: &Paths) -> (r: Result<Plan, AdapterError>)
        ensures
            super::is_plan_of::<SystemdUserService>(*config, *paths, r),
            r matches Ok(p) ==> forall|i: int|
                0 <= i < super::units_of(*config).len() ==> (#[trigger] p.files@[i]).path@ == spec_path_join(
                    spec_path_join(paths.user_config@, "systemd/user"@),
                    super::units_of(*config)[i].name@ + ".service"@,
                ) && p.files@[i].requires_root == false,
    {
        super::plan::<SystemdUserService>(config, paths)
    }
}

} // verus!
