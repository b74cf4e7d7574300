//! System units, under `systemd/system` of the system configuration directory, owned by root.

use vstd::prelude::*;

use crate::adapters::AdapterError;
use crate::services::systemd::{SystemdConfig, SystemdService};
use crate::services::types::{Paths, Plan};
use crate::services::ManagedService;
use crate::text::{path_join, spec_path_join};

verus! {

/// The units of the system instance of systemd.
pub struct SystemdSystemService;

impl ManagedService for SystemdSystemService {
    fn name(&self) -> (r: &'static str)
        ensures
            r@ == "systemd_system"@,
    {
        "systemd_system"
    }
}

impl SystemdService for SystemdSystemService {
    open spec fn spec_config_path(paths: Paths) -> Seq<char> {
        spec_path_join(paths.system_config@, "systemd/system"@)
    }

    open spec fn spec_requires_root() -> bool {
        true
    }

    fn config_path(paths: &Paths) -> (r: String) {
        path_join(paths.system_config.as_str(), "systemd/system")
    }

    fn requires_root() -> (b: bool) {
        true
    }
}

impl SystemdSystemService {
    /// The unit files and unit states of the system instance.
    pub fn plan(&self, config: &SystemdConfig, paths: &Paths) -> (r: Result<Plan, AdapterError>)
        ensures
            super::is_plan_of::<SystemdSystemService>(*config, *paths, r),
            r matches Ok(p) ==> forall|i: int|
                0 <= i < super::units_of(*config).len() ==> (#[trigger] p.files@[i]).path@ == spec_path_join(
                    spec_path_join(paths.system_config@, "systemd/system"@),
                    super::units_of(*config)[i].name@ + ".service"@,
                ) && p.files@[i].requires_root == true,
    {
        super::plan::<SystemdSystemService>(config, paths)
    }
}

} // verus!
