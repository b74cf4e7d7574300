//! The services whose configuration can be managed, and how each is planned.

pub mod autocpu_freq;
pub mod fw_fanctrl;
pub mod sddm;
pub mod ssh;
pub mod sshd;
pub mod sshd_enums;
pub mod sudoers;
pub mod systemd;
pub mod tuned;
pub mod tuned_ppd;
pub mod types;
pub mod udev;

pub use types::{FileArtifact, Paths, Plan, ServiceConfig, ServiceState};

use vstd::prelude::*;

use crate::text::{concat, path_join, spec_path_join};

verus! {

/// A service whose configuration is managed.
pub trait ManagedService {
    /// The name of its section in the configuration.
    fn name(&self) -> &'static str;
}

/// The state a service section asks for: none without a `service` table, else the systemctl
/// state of `name`.
pub open spec fn is_state_for(r: Option<ServiceState>, name: Seq<char>, service: Option<ServiceConfig>) -> bool {
    match service {
        None => r is None,
        Some(s) => r matches Some(st) && st.is_new(name, s.enabled, s.running),
    }
}

/// The state a service section asks for.
pub fn state_for(name: &str, service: Option<ServiceConfig>) -> (r: Option<ServiceState>)
    ensures
        is_state_for(r, name@, service),
{
    match service {
        Some(s) => Some(ServiceState::new(name, s.enabled, s.running)),
        None => None,
    }
}

/// A file put in place verbatim under `dir` of the system configuration directory, after
/// the header line.
pub open spec fn is_dropin_file(f: FileArtifact, paths: Paths, dir: Seq<char>, name: Seq<char>, content: Seq<char>) -> bool {
    &&& f.path@ == spec_path_join(paths.system_config@, dir + name)
    &&& f.content@ == "# Managed by spec\n"@ + content
    &&& f.permissions == 0o644
    &&& f.requires_root
}

/// The files, in order, are the drop-ins asked for.
pub open spec fn are_dropin_files(fs: Seq<FileArtifact>, paths: Paths, dir: Seq<char>, dropins: Seq<(String, String)>) -> bool {
    &&& fs.len() == dropins.len()
    &&& forall|i: int| 0 <= i < dropins.len() ==> is_dropin_file(#[trigger] fs[i], paths, dir, dropins[i].0@, dropins[i].1@)
}

/// Adds one verbatim file for each `(file name, content)`, in order.
pub fn push_dropins(files: &mut Vec<FileArtifact>, paths: &Paths, dir: &str, dropins: &Vec<(String, String)>)
    ensures
        final(files)@.len() == old(files)@.len() + dropins@.len(),
        final(files)@.take(old(files)@.len() as int) == old(files)@,
        are_dropin_files(final(files)@.skip(old(files)@.len() as int), *paths, dir@, dropins@),
{
    let ghost n = old(files)@.len();
    let mut i: usize = 0;
    while i < dropins.len()
        invariant
            i <= dropins@.len(),
            n == old(files)@.len(),
            files@.len() == n + i,
            files@.take(n as int) == old(files)@,
            forall|k: int| 0 <= k < i ==> is_dropin_file(#[trigger] files@.skip(n as int)[k], *paths, dir@,
                dropins@[k].0@, dropins@[k].1@),
        decreases dropins.len() - i,
    {
        let rel = concat(dir, dropins[i].0.as_str());
        let file = FileArtifact {
            path: path_join(paths.system_config.as_str(), rel.as_str()),
            content: concat("# Managed by spec\n", dropins[i].1.as_str()),
            permissions: 0o644,
            requires_root: true,
        };
        let ghost before = files@;
        files.push(file);
        proof {
            assert(files@.take(n as int) =~= before.take(n as int));
            assert forall|k: int| 0 <= k <= i implies is_dropin_file(#[trigger] files@.skip(n as int)[k], *paths, dir@,
                dropins@[k].0@, dropins@[k].1@) by {
                if k < i {
                    assert(files@.skip(n as int)[k] == before.skip(n as int)[k]);
                }
            }
        }
        i = i + 1;
    }
}

/// The services that can be named in the configuration.
#[derive(Debug, PartialEq, Eq, Structural, Clone, Copy)]
pub enum ServiceKind {
    AutoCpuFreq,
    Sddm,
    SshUser,
    SshSystem,
    Sshd,
    SystemdUser,
    SystemdSystem,
    TuneD,
    TuneDPPD,
    Udev,
}

/// The service a configuration section names, if any.
pub open spec fn service_named(name: Seq<char>) -> Option<ServiceKind> {
    if name == "auto-cpufreq"@ {
        Some(ServiceKind::AutoCpuFreq)
    } else if name == "sddm"@ {
        Some(ServiceKind::Sddm)
    } else if name == "ssh_user"@ {
        Some(ServiceKind::SshUser)
    } else if name == "ssh_system"@ {
        Some(ServiceKind::SshSystem)
    } else if name == "sshd"@ {
        Some(ServiceKind::Sshd)
    } else if name == "systemd_user"@ {
        Some(ServiceKind::SystemdUser)
    } else if name == "systemd_system"@ {
        Some(ServiceKind::SystemdSystem)
    } else if name == "tuned"@ {
        Some(ServiceKind::TuneD)
    } else if name == "tuned-ppd"@ {
        Some(ServiceKind::TuneDPPD)
    } else if name == "udev"@ {
        Some(ServiceKind::Udev)
    } else {
        None
    }
}

/// The name of the configuration section of each service.
pub open spec fn section_name(k: ServiceKind) -> Seq<char> {
    match k {
        ServiceKind::AutoCpuFreq => "auto-cpufreq"@,
        ServiceKind::Sddm => "sddm"@,
        ServiceKind::SshUser => "ssh_user"@,
        ServiceKind::SshSystem => "ssh_system"@,
        ServiceKind::Sshd => "sshd"@,
        ServiceKind::SystemdUser => "systemd_user"@,
        ServiceKind::SystemdSystem => "systemd_system"@,
        ServiceKind::TuneD => "tuned"@,
        ServiceKind::TuneDPPD => "tuned-ppd"@,
        ServiceKind::Udev => "udev"@,
    }
}

impl ServiceKind {
    /// The name of the service's configuration section: the service's own name, except for
    /// tuned's power profiles, whose section is `tuned-ppd` (the service itself is `tuned`).
    pub fn section(&self) -> (r: &'static str)
        ensures
            r@ == section_name(*self),
    {
        match self {
            ServiceKind::AutoCpuFreq => autocpu_freq::AutoCpuFreqService.name(),
            ServiceKind::Sddm => sddm::SddmService.name(),
            ServiceKind::SshUser => ssh::SshUserService.name(),
            ServiceKind::SshSystem => ssh::SshSystemService.name(),
            ServiceKind::Sshd => sshd::SshdService.name(),
            ServiceKind::SystemdUser => systemd::SystemdUserService.name(),
            ServiceKind::SystemdSystem => systemd::SystemdSystemService.name(),
            ServiceKind::TuneD => tuned::TuneDService.name(),
            ServiceKind::TuneDPPD => "tuned-ppd",
            ServiceKind::Udev => udev::UdevService.name(),
        }
    }
}

/// Each service is picked by its own section name, and a name picks a service only when it is
/// that service's section name: the names and the services correspond one to one.
pub proof fn lemma_sections_pick_their_service()
    ensures
        forall|k: ServiceKind| #[trigger] service_named(section_name(k)) == Some(k),
        forall|name: Seq<char>| (#[trigger] service_named(name)) is Some ==> name == section_name(service_named(name)->0),
{
    reveal_strlit("auto-cpufreq");
    reveal_strlit("sddm");
    reveal_strlit("ssh_user");
    reveal_strlit("ssh_system");
    reveal_strlit("sshd");
    reveal_strlit("systemd_user");
    reveal_strlit("systemd_system");
    reveal_strlit("tuned");
    reveal_strlit("tuned-ppd");
    reveal_strlit("udev");
    assert("auto-cpufreq"@ =~= seq!['a', 'u', 't', 'o', '-', 'c', 'p', 'u', 'f', 'r', 'e', 'q']);
    assert("sddm"@ =~= seq!['s', 'd', 'd', 'm']);
    assert("ssh_user"@ =~= seq!['s', 's', 'h', '_', 'u', 's', 'e', 'r']);
    assert("ssh_system"@ =~= seq!['s', 's', 'h', '_', 's', 'y', 's', 't', 'e', 'm']);
    assert("sshd"@ =~= seq!['s', 's', 'h', 'd']);
    assert("systemd_user"@ =~= seq!['s', 'y', 's', 't', 'e', 'm', 'd', '_', 'u', 's', 'e', 'r']);
    assert("systemd_system"@ =~= seq!['s', 'y', 's', 't', 'e', 'm', 'd', '_', 's', 'y', 's', 't', 'e', 'm']);
    assert("tuned"@ =~= seq!['t', 'u', 'n', 'e', 'd']);
    assert("tuned-ppd"@ =~= seq!['t', 'u', 'n', 'e', 'd', '-', 'p', 'p', 'd']);
    assert("udev"@ =~= seq!['u', 'd', 'e', 'v']);
}

/// The service a configuration section names, if any.
pub fn get_service_by_name(name: &str) -> (r: Option<ServiceKind>)
    ensures
        r == service_named(name@),
{
    if crate::text::str_equal(name, "auto-cpufreq") {
        Some(ServiceKind::AutoCpuFreq)
    } else if crate::text::str_equal(name, "sddm") {
        Some(ServiceKind::Sddm)
    } else if crate::text::str_equal(name, "ssh_user") {
        Some(ServiceKind::SshUser)
    } else if crate::text::str_equal(name, "ssh_system") {
        Some(ServiceKind::SshSystem)
    } else if crate::text::str_equal(name, "sshd") {
        Some(ServiceKind::Sshd)
    } else if crate::text::str_equal(name, "systemd_user") {
        Some(ServiceKind::SystemdUser)
    } else if crate::text::str_equal(name, "systemd_system") {
        Some(ServiceKind::SystemdSystem)
    } else if crate::text::str_equal(name, "tuned") {
        Some(ServiceKind::TuneD)
    } else if crate::text::str_equal(name, "tuned-ppd") {
        Some(ServiceKind::TuneDPPD)
    } else if crate::text::str_equal(name, "udev") {
        Some(ServiceKind::Udev)
    } else {
        None
    }
}

} // verus!
