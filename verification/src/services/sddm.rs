//! The SDDM display manager: an INI file, plus verbatim drop-in files.

use vstd::prelude::*;

use crate::text::{kebab_case, kebab_rest, lower_case, str_equal};

use crate::adapters::ini::{section_lines, IniAdapter};
use crate::services::types::{FileArtifact, Paths, Plan, ServiceConfig};
use crate::services::{are_dropin_files, is_state_for, push_dropins, state_for, ManagedService};
use crate::text::{path_join, spec_join, spec_path_join};
use crate::toml_value::TomlTable;

verus! {

/// The SDDM display manager.
pub struct SddmService;

/// The sections of `sddm.conf`, where the file goes, drop-in files, and the wanted state of
/// `sddm`. A section that could not be made a table is `None`.
#[derive(Debug, PartialEq)]
pub struct SddmConfig {
    pub general: Option<TomlTable>,
    pub theme: Option<TomlTable>,
    pub x11: Option<TomlTable>,
    pub wayland: Option<TomlTable>,
    pub users: Option<TomlTable>,
    pub autologin: Option<TomlTable>,
    pub as_dropin: Option<bool>,
    pub dropins: Option<Vec<(String, String)>>,
    pub service: Option<ServiceConfig>,
}

/// The text of the SDDM configuration file.
pub open spec fn sddm_text(c: SddmConfig) -> Seq<char> {
    spec_join(
        seq!["# Managed by spec"@] + section_lines(false, "General"@, c.general) + section_lines(false, "Theme"@, c.theme)
            + section_lines(false, "X11"@, c.x11) + section_lines(false, "Wayland"@, c.wayland)
            + section_lines(false, "Users"@, c.users) + section_lines(false, "Autologin"@, c.autologin),
        seq!['\n'],
    )
}

/// Where the SDDM configuration file goes: a drop-in when asked for, else `sddm.conf`.
pub open spec fn sddm_path(c: SddmConfig) -> Seq<char> {
    if c.as_dropin == Some(true) {
        "sddm.conf.d/10-spec.conf"@
    } else {
        "sddm.conf"@
    }
}

/// Asked for as a drop-in, the configuration goes to `sddm.conf.d/10-spec.conf`, else to
/// `sddm.conf`: the two are different files, so a drop-in never overwrites the main file.
pub proof fn lemma_dropin_path(a: SddmConfig, b: SddmConfig)
    requires
        a.as_dropin == Some(true),
        b.as_dropin != Some(true),
    ensures
        sddm_path(a) == "sddm.conf.d/10-spec.conf"@,
        sddm_path(b) == "sddm.conf"@,
        sddm_path(a) != sddm_path(b),
{
    reveal_strlit("sddm.conf.d/10-spec.conf");
    reveal_strlit("sddm.conf");
    assert(sddm_path(a).len() != sddm_path(b).len());
}

/// The drop-in files asked for, or none.
pub open spec fn dropins_of(d: Option<Vec<(String, String)>>) -> Seq<(String, String)> {
    match d {
        Some(v) => v@,
        None => Seq::empty(),
    }
}

impl ManagedService for SddmService {
    fn name(&self) -> (r: &'static str)
        ensures
            r@ == "sddm"@,
    {
        "sddm"
    }
}

impl SddmService {
    /// The SDDM configuration file, then the drop-ins under `sddm.conf.d/`, and the state of
    /// `sddm`.
    pub fn plan(&self, config: &SddmConfig, paths: &Paths) -> (r: Plan)
        ensures
            r.files@.len() == 1 + dropins_of(config.dropins).len(),
            r.files@[0].path@ == spec_path_join(paths.system_config@, sddm_path(*config)),
            config.as_dropin == Some(true) ==> r.files@[0].path@ == spec_path_join(
                paths.system_config@,
                "sddm.conf.d/10-spec.conf"@,
            ),
            config.as_dropin != Some(true) ==> r.files@[0].path@ == spec_path_join(paths.system_config@, "sddm.conf"@),
            r.files@[0].content@ == sddm_text(*config),
            r.files@[0].permissions == 0o644,
            r.files@[0].requires_root,
            are_dropin_files(r.files@.skip(1), *paths, "sddm.conf.d/"@, dropins_of(config.dropins)),
            is_state_for(r.service_state, "sddm"@, config.service),
            r.addl_service_states is None,
    {
        let mut adapter = IniAdapter::new();
        adapter.push_line("# Managed by spec");
        let _ = adapter.section("General", config.general.as_ref());
        let _ = adapter.section("Theme", config.theme.as_ref());
        let _ = adapter.section("X11", config.x11.as_ref());
        let _ = adapter.section("Wayland", config.wayland.as_ref());
        let _ = adapter.section("Users", config.users.as_ref());
        let _ = adapter.section("Autologin", config.autologin.as_ref());
        assert(adapter@.lines =~= seq!["# Managed by spec"@] + section_lines(false, "General"@, config.general)
            + section_lines(false, "Theme"@, config.theme) + section_lines(false, "X11"@, config.x11)
            + section_lines(false, "Wayland"@, config.wayland) + section_lines(false, "Users"@, config.users)
            + section_lines(false, "Autologin"@, config.autologin));
        let content = adapter.build();
        let path = if config.as_dropin == Some(true) {
            path_join(paths.system_config.as_str(), "sddm.conf.d/10-spec.conf")
        } else {
            path_join(paths.system_config.as_str(), "sddm.conf")
        };
        let mut files: Vec<FileArtifact> = Vec::new();
        files.push(FileArtifact { path, content, permissions: 0o644, requires_root: true });
        let ghost first = files@;
        if let Some(dropins) = &config.dropins {
            push_dropins(&mut files, paths, "sddm.conf.d/", dropins);
            assert(files@[0] == files@.take(1)[0]);
        } else {
            assert(files@.skip(1) =~= Seq::<FileArtifact>::empty());
        }
        Plan { files, service_state: state_for(self.name(), config.service), addl_service_states: None }
    }
}

/// The display server the greeter runs on.
#[derive(Debug, PartialEq, Eq, Structural, Clone, Copy)]
pub enum DisplayServer {
    X11,
    X11User,
    Wayland,
}

impl DisplayServer {
    /// The text the value is written as in a configuration file.
    pub open spec fn spec_text(self) -> Seq<char> {
        match self {
            DisplayServer::X11 => "x11"@,
            DisplayServer::X11User => "x11-user"@,
            DisplayServer::Wayland => "wayland"@,
        }
    }

    /// The name of the value: its variant's name.
    pub open spec fn spec_name(self) -> Seq<char> {
        match self {
            DisplayServer::X11 => "X11"@,
            DisplayServer::X11User => "X11User"@,
            DisplayServer::Wayland => "Wayland"@,
        }
    }

    /// A value is written as its name in kebab case.
    pub proof fn lemma_text_is_renamed_name(self)
        ensures
            self.spec_text() == kebab_case(self.spec_name()),
    {
        reveal_strlit("Wayland");
        reveal_strlit("X11");
        reveal_strlit("X11User");
        reveal_strlit("wayland");
        reveal_strlit("x11");
        reveal_strlit("x11-user");
        assert("Wayland"@ =~= seq!['W', 'a', 'y', 'l', 'a', 'n', 'd']);
        assert("X11"@ =~= seq!['X', '1', '1']);
        assert("X11User"@ =~= seq!['X', '1', '1', 'U', 's', 'e', 'r']);
        assert("wayland"@ =~= seq!['w', 'a', 'y', 'l', 'a', 'n', 'd']);
        assert("x11"@ =~= seq!['x', '1', '1']);
        assert("x11-user"@ =~= seq!['x', '1', '1', '-', 'u', 's', 'e', 'r']);
        reveal_with_fuel(kebab_rest, 9);
    }

    /// The text the value is written as.
    pub fn text(&self) -> (r: &str)
        ensures
            r@ == self.spec_text(),
    {
        match self {
            DisplayServer::X11 => "x11",
            DisplayServer::X11User => "x11-user",
            DisplayServer::Wayland => "wayland",
        }
    }

    /// The value a text names, if any.
    pub fn from_text(s: &str) -> (r: Option<Self>)
        ensures
            r matches Some(v) ==> v.spec_text() == s@,
            r is None ==> forall|v: Self| #[trigger] v.spec_text() != s@,
            forall|v: Self| #[trigger] v.spec_text() == s@ ==> r == Some(v),
    {
        proof {
            reveal_strlit("x11");
            reveal_strlit("x11-user");
            reveal_strlit("wayland");
            assert("x11"@ =~= seq!['x', '1', '1']);
            assert("x11-user"@ =~= seq!['x', '1', '1', '-', 'u', 's', 'e', 'r']);
            assert("wayland"@ =~= seq!['w', 'a', 'y', 'l', 'a', 'n', 'd']);
        }
        if str_equal(s, "x11") {
            Some(DisplayServer::X11)
        } else if str_equal(s, "x11-user") {
            Some(DisplayServer::X11User)
        } else if str_equal(s, "wayland") {
            Some(DisplayServer::Wayland)
        } else {
            None
        }
    }
}

impl Default for DisplayServer {
    fn default() -> (r: Self)
        ensures
            r == DisplayServer::X11,
    {
        DisplayServer::X11
    }
}

/// The state of NumLock at the greeter.
#[derive(Debug, PartialEq, Eq, Structural, Clone, Copy)]
pub enum Numlock {
    On,
    Off,
    NoneValue,
}

impl Numlock {
    /// The text the value is written as in a configuration file.
    pub open spec fn spec_text(self) -> Seq<char> {
        match self {
            Numlock::On => "on"@,
            Numlock::Off => "off"@,
            Numlock::NoneValue => "none"@,
        }
    }

    /// The name of the value: its variant's name.
    pub open spec fn spec_name(self) -> Seq<char> {
        match self {
            Numlock::On => "On"@,
            Numlock::Off => "Off"@,
            Numlock::NoneValue => "None"@,
        }
    }

    /// A value is written as its name in lower case.
    pub proof fn lemma_text_is_renamed_name(self)
        ensures
            self.spec_text() == lower_case(self.spec_name()),
    {
        reveal_strlit("None");
        reveal_strlit("Off");
        reveal_strlit("On");
        reveal_strlit("none");
        reveal_strlit("off");
        reveal_strlit("on");
        assert("None"@ =~= seq!['N', 'o', 'n', 'e']);
        assert("Off"@ =~= seq!['O', 'f', 'f']);
        assert("On"@ =~= seq!['O', 'n']);
        assert("none"@ =~= seq!['n', 'o', 'n', 'e']);
        assert("off"@ =~= seq!['o', 'f', 'f']);
        assert("on"@ =~= seq!['o', 'n']);
    }

    /// The text the value is written as.
    pub fn text(&self) -> (r: &str)
        ensures
            r@ == self.spec_text(),
    {
        match self {
            Numlock::On => "on",
            Numlock::Off => "off",
            Numlock::NoneValue => "none",
        }
    }

    /// The value a text names, if any.
    pub fn from_text(s: &str) -> (r: Option<Self>)
        ensures
            r matches Some(v) ==> v.spec_text() == s@,
            r is None ==> forall|v: Self| #[trigger] v.spec_text() != s@,
            forall|v: Self| #[trigger] v.spec_text() == s@ ==> r == Some(v),
    {
        proof {
            reveal_strlit("on");
            reveal_strlit("off");
            reveal_strlit("none");
            assert("on"@ =~= seq!['o', 'n']);
            assert("off"@ =~= seq!['o', 'f', 'f']);
            assert("none"@ =~= seq!['n', 'o', 'n', 'e']);
        }
        if str_equal(s, "on") {
            Some(Numlock::On)
        } else if str_equal(s, "off") {
            Some(Numlock::Off)
        } else if str_equal(s, "none") {
            Some(Numlock::NoneValue)
        } else {
            None
        }
    }
}

impl Default for Numlock {
    fn default() -> (r: Self)
        ensures
            r == Numlock::NoneValue,
    {
        Numlock::NoneValue
    }
}

} // verus!
