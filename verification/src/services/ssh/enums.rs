//! The values some SSH client options take, and the text each is written as.

use vstd::prelude::*;

use crate::text::{kebab_case, kebab_rest, str_equal, upper_case};

verus! {

/// Whether keys are added to the agent: a choice, or a lifetime.
#[derive(Debug, PartialEq)]
pub enum AddKeysToAgent {
    Yes,
    No,
    Ask,
    Confirm,
    Time(String),
}

impl AddKeysToAgent {
    /// The text the value is written as in a configuration file.
    pub open spec fn spec_text(self) -> Seq<char> {
        match self {
            AddKeysToAgent::Yes => "yes"@,
            AddKeysToAgent::No => "no"@,
            AddKeysToAgent::Ask => "ask"@,
            AddKeysToAgent::Confirm => "confirm"@,
            AddKeysToAgent::Time(s) => s@,
        }
    }

    /// The name of the value: its variant's name.
    pub open spec fn spec_name(self) -> Seq<char> {
        match self {
            AddKeysToAgent::Yes => "Yes"@,
            AddKeysToAgent::No => "No"@,
            AddKeysToAgent::Ask => "Ask"@,
            AddKeysToAgent::Confirm => "Confirm"@,
            AddKeysToAgent::Time(s) => s@,
        }
    }

    /// A value is written as its name in kebab case.
    pub proof fn lemma_text_is_renamed_name(self)
        ensures
            !(self is Time) ==> self.spec_text() == kebab_case(self.spec_name()),
    {
        reveal_strlit("Ask");
        reveal_strlit("Confirm");
        reveal_strlit("No");
        reveal_strlit("Yes");
        reveal_strlit("ask");
        reveal_strlit("confirm");
        reveal_strlit("no");
        reveal_strlit("yes");
        assert("Ask"@ =~= seq!['A', 's', 'k']);
        assert("Confirm"@ =~= seq!['C', 'o', 'n', 'f', 'i', 'r', 'm']);
        assert("No"@ =~= seq!['N', 'o']);
        assert("Yes"@ =~= seq!['Y', 'e', 's']);
        assert("ask"@ =~= seq!['a', 's', 'k']);
        assert("confirm"@ =~= seq!['c', 'o', 'n', 'f', 'i', 'r', 'm']);
        assert("no"@ =~= seq!['n', 'o']);
        assert("yes"@ =~= seq!['y', 'e', 's']);
        reveal_with_fuel(kebab_rest, 8);
    }

    /// The text the value is written as.
    pub fn text(&self) -> (r: &str)
        ensures
            r@ == self.spec_text(),
    {
        match self {
            AddKeysToAgent::Yes => "yes",
            AddKeysToAgent::No => "no",
            AddKeysToAgent::Ask => "ask",
            AddKeysToAgent::Confirm => "confirm",
            AddKeysToAgent::Time(s) => s.as_str(),
        }
    }

    /// The value a text names; a text naming no other value is a `Time`.
    pub fn from_text(s: &str) -> (r: Option<Self>)
        ensures
            r matches Some(v) ==> v.spec_text() == s@,
            r matches Some(AddKeysToAgent::Time(_)) ==> s@ != "yes"@ && s@ != "no"@ && s@ != "ask"@ && s@ != "confirm"@,
            r is Some,
    {
        if str_equal(s, "yes") {
            Some(AddKeysToAgent::Yes)
        } else if str_equal(s, "no") {
            Some(AddKeysToAgent::No)
        } else if str_equal(s, "ask") {
            Some(AddKeysToAgent::Ask)
        } else if str_equal(s, "confirm") {
            Some(AddKeysToAgent::Confirm)
        } else {
            Some(AddKeysToAgent::Time(s.to_string()))
        }
    }
}

/// How unknown or changed host keys are handled.
#[derive(Debug, PartialEq, Eq, Structural, Clone, Copy)]
pub enum StrictHostKeyChecking {
    Yes,
    No,
    Ask,
    AcceptNew,
    Off,
}

impl StrictHostKeyChecking {
    /// The text the value is written as in a configuration file.
    pub open spec fn spec_text(self) -> Seq<char> {
        match self {
            StrictHostKeyChecking::Yes => "yes"@,
            StrictHostKeyChecking::No => "no"@,
            StrictHostKeyChecking::Ask => "ask"@,
            StrictHostKeyChecking::AcceptNew => "accept-new"@,
            StrictHostKeyChecking::Off => "off"@,
        }
    }

    /// The name of the value: its variant's name.
    pub open spec fn spec_name(self) -> Seq<char> {
        match self {
            StrictHostKeyChecking::Yes => "Yes"@,
            StrictHostKeyChecking::No => "No"@,
            StrictHostKeyChecking::Ask => "Ask"@,
            StrictHostKeyChecking::AcceptNew => "AcceptNew"@,
            StrictHostKeyChecking::Off => "Off"@,
        }
    }

    /// A value is written as its name in kebab case.
    pub proof fn lemma_text_is_renamed_name(self)
        ensures
            self.spec_text() == kebab_case(self.spec_name()),
    {
        reveal_strlit("AcceptNew");
        reveal_strlit("Ask");
        reveal_strlit("No");
        reveal_strlit("Off");
        reveal_strlit("Yes");
        reveal_strlit("accept-new");
        reveal_strlit("ask");
        reveal_strlit("no");
        reveal_strlit("off");
        reveal_strlit("yes");
        assert("AcceptNew"@ =~= seq!['A', 'c', 'c', 'e', 'p', 't', 'N', 'e', 'w']);
        assert("Ask"@ =~= seq!['A', 's', 'k']);
        assert("No"@ =~= seq!['N', 'o']);
        assert("Off"@ =~= seq!['O', 'f', 'f']);
        assert("Yes"@ =~= seq!['Y', 'e', 's']);
        assert("accept-new"@ =~= seq!['a', 'c', 'c', 'e', 'p', 't', '-', 'n', 'e', 'w']);
        assert("ask"@ =~= seq!['a', 's', 'k']);
        assert("no"@ =~= seq!['n', 'o']);
        assert("off"@ =~= seq!['o', 'f', 'f']);
        assert("yes"@ =~= seq!['y', 'e', 's']);
        reveal_with_fuel(kebab_rest, 11);
    }

    /// The text the value is written as.
    pub fn text(&self) -> (r: &str)
        ensures
            r@ == self.spec_text(),
    {
        match self {
            StrictHostKeyChecking::Yes => "yes",
            StrictHostKeyChecking::No => "no",
            StrictHostKeyChecking::Ask => "ask",
            StrictHostKeyChecking::AcceptNew => "accept-new",
            StrictHostKeyChecking::Off => "off",
        }
    }

    /// The value a text names, if any.
    pub fn from_text(s: &str) -> (r: Option<Self>)
        ensures
            r matches Some(v) ==> v.spec_text() == s@,
            r is None ==> forall|v: Self| #[trigger] v.spec_text() != s@,
            forall|v: Self| #[trigger] v.spec_text() == s@ ==> r == Some(v),
    {
        proof {
            reveal_strlit("yes");
            reveal_strlit("no");
            reveal_strlit("ask");
            reveal_strlit("accept-new");
            reveal_strlit("off");
            assert("yes"@ =~= seq!['y', 'e', 's']);
            assert("no"@ =~= seq!['n', 'o']);
            assert("ask"@ =~= seq!['a', 's', 'k']);
            assert("accept-new"@ =~= seq!['a', 'c', 'c', 'e', 'p', 't', '-', 'n', 'e', 'w']);
            assert("off"@ =~= seq!['o', 'f', 'f']);
        }
        if str_equal(s, "yes") {
            Some(StrictHostKeyChecking::Yes)
        } else if str_equal(s, "no") {
            Some(StrictHostKeyChecking::No)
        } else if str_equal(s, "ask") {
            Some(StrictHostKeyChecking::Ask)
        } else if str_equal(s, "accept-new") {
            Some(StrictHostKeyChecking::AcceptNew)
        } else if str_equal(s, "off") {
            Some(StrictHostKeyChecking::Off)
        } else {
            None
        }
    }
}

/// Which address family connections use.
#[derive(Debug, PartialEq, Eq, Structural, Clone, Copy)]
pub enum AddressFamily {
    Any,
    Inet,
    Inet6,
}

impl AddressFamily {
    /// The text the value is written as in a configuration file.
    pub open spec fn spec_text(self) -> Seq<char> {
        match self {
            AddressFamily::Any => "any"@,
            AddressFamily::Inet => "inet"@,
            AddressFamily::Inet6 => "inet6"@,
        }
    }

    /// The name of the value: its variant's name.
    pub open spec fn spec_name(self) -> Seq<char> {
        match self {
            AddressFamily::Any => "Any"@,
            AddressFamily::Inet => "Inet"@,
            AddressFamily::Inet6 => "Inet6"@,
        }
    }

    /// A value is written as its name in kebab case.
    pub proof fn lemma_text_is_renamed_name(self)
        ensures
            self.spec_text() == kebab_case(self.spec_name()),
    {
        reveal_strlit("Any");
        reveal_strlit("Inet");
        reveal_strlit("Inet6");
        reveal_strlit("any");
        reveal_strlit("inet");
        reveal_strlit("inet6");
        assert("Any"@ =~= seq!['A', 'n', 'y']);
        assert("Inet"@ =~= seq!['I', 'n', 'e', 't']);
        assert("Inet6"@ =~= seq!['I', 'n', 'e', 't', '6']);
        assert("any"@ =~= seq!['a', 'n', 'y']);
        assert("inet"@ =~= seq!['i', 'n', 'e', 't']);
        assert("inet6"@ =~= seq!['i', 'n', 'e', 't', '6']);
        reveal_with_fuel(kebab_rest, 6);
    }

    /// The text the value is written as.
    pub fn text(&self) -> (r: &str)
        ensures
            r@ == self.spec_text(),
    {
        match self {
            AddressFamily::Any => "any",
            AddressFamily::Inet => "inet",
            AddressFamily::Inet6 => "inet6",
        }
    }

    /// The value a text names, if any.
    pub fn from_text(s: &str) -> (r: Option<Self>)
        ensures
            r matches Some(v) ==> v.spec_text() == s@,
            r is None ==> forall|v: Self| #[trigger] v.spec_text() != s@,
            forall|v: Self| #[trigger] v.spec_text() == s@ ==> r == Some(v),
    {
        proof {
            reveal_strlit("any");
            reveal_strlit("inet");
            reveal_strlit("inet6");
            assert("any"@ =~= seq!['a', 'n', 'y']);
            assert("inet"@ =~= seq!['i', 'n', 'e', 't']);
            assert("inet6"@ =~= seq!['i', 'n', 'e', 't', '6']);
        }
        if str_equal(s, "any") {
            Some(AddressFamily::Any)
        } else if str_equal(s, "inet") {
            Some(AddressFamily::Inet)
        } else if str_equal(s, "inet6") {
            Some(AddressFamily::Inet6)
        } else {
            None
        }
    }
}

/// Whether host names are canonicalized.
#[derive(Debug, PartialEq, Eq, Structural, Clone, Copy)]
pub enum CanonicalizeHostname {
    Yes,
    No,
    Always,
    NoneValue,
}

impl CanonicalizeHostname {
    /// The text the value is written as in a configuration file.
    pub open spec fn spec_text(self) -> Seq<char> {
        match self {
            CanonicalizeHostname::Yes => "yes"@,
            CanonicalizeHostname::No => "no"@,
            CanonicalizeHostname::Always => "always"@,
            CanonicalizeHostname::NoneValue => "none"@,
        }
    }

    /// The name of the value: its variant's name.
    pub open spec fn spec_name(self) -> Seq<char> {
        match self {
            CanonicalizeHostname::Yes => "Yes"@,
            CanonicalizeHostname::No => "No"@,
            CanonicalizeHostname::Always => "Always"@,
            CanonicalizeHostname::NoneValue => "None"@,
        }
    }

    /// A value is written as its name in kebab case.
    pub proof fn lemma_text_is_renamed_name(self)
        ensures
            self.spec_text() == kebab_case(self.spec_name()),
    {
        reveal_strlit("Always");
        reveal_strlit("No");
        reveal_strlit("None");
        reveal_strlit("Yes");
        reveal_strlit("always");
        reveal_strlit("no");
        reveal_strlit("none");
        reveal_strlit("yes");
        assert("Always"@ =~= seq!['A', 'l', 'w', 'a', 'y', 's']);
        assert("No"@ =~= seq!['N', 'o']);
        assert("None"@ =~= seq!['N', 'o', 'n', 'e']);
        assert("Yes"@ =~= seq!['Y', 'e', 's']);
        assert("always"@ =~= seq!['a', 'l', 'w', 'a', 'y', 's']);
        assert("no"@ =~= seq!['n', 'o']);
        assert("none"@ =~= seq!['n', 'o', 'n', 'e']);
        assert("yes"@ =~= seq!['y', 'e', 's']);
        reveal_with_fuel(kebab_rest, 7);
    }

    /// The text the value is written as.
    pub fn text(&self) -> (r: &str)
        ensures
            r@ == self.spec_text(),
    {
        match self {
            CanonicalizeHostname::Yes => "yes",
            CanonicalizeHostname::No => "no",
            CanonicalizeHostname::Always => "always",
            CanonicalizeHostname::NoneValue => "none",
        }
    }

    /// The value a text names, if any.
    pub fn from_text(s: &str) -> (r: Option<Self>)
        ensures
            r matches Some(v) ==> v.spec_text() == s@,
            r is None ==> forall|v: Self| #[trigger] v.spec_text() != s@,
            forall|v: Self| #[trigger] v.spec_text() == s@ ==> r == Some(v),
    {
        proof {
            reveal_strlit("yes");
            reveal_strlit("no");
            reveal_strlit("always");
            reveal_strlit("none");
            assert("yes"@ =~= seq!['y', 'e', 's']);
            assert("no"@ =~= seq!['n', 'o']);
            assert("always"@ =~= seq!['a', 'l', 'w', 'a', 'y', 's']);
            assert("none"@ =~= seq!['n', 'o', 'n', 'e']);
        }
        if str_equal(s, "yes") {
            Some(CanonicalizeHostname::Yes)
        } else if str_equal(s, "no") {
            Some(CanonicalizeHostname::No)
        } else if str_equal(s, "always") {
            Some(CanonicalizeHostname::Always)
        } else if str_equal(s, "none") {
            Some(CanonicalizeHostname::NoneValue)
        } else {
            None
        }
    }
}

/// Whether a terminal is requested.
#[derive(Debug, PartialEq, Eq, Structural, Clone, Copy)]
pub enum RequestTty {
    Yes,
    No,
    Force,
    Auto,
}

impl RequestTty {
    /// The text the value is written as in a configuration file.
    pub open spec fn spec_text(self) -> Seq<char> {
        match self {
            RequestTty::Yes => "yes"@,
            RequestTty::No => "no"@,
            RequestTty::Force => "force"@,
            RequestTty::Auto => "auto"@,
        }
    }

    /// The name of the value: its variant's name.
    pub open spec fn spec_name(self) -> Seq<char> {
        match self {
            RequestTty::Yes => "Yes"@,
            RequestTty::No => "No"@,
            RequestTty::Force => "Force"@,
            RequestTty::Auto => "Auto"@,
        }
    }

    /// A value is written as its name in kebab case.
    pub proof fn lemma_text_is_renamed_name(self)
        ensures
            self.spec_text() == kebab_case(self.spec_name()),
    {
        reveal_strlit("Auto");
        reveal_strlit("Force");
        reveal_strlit("No");
        reveal_strlit("Yes");
        reveal_strlit("auto");
        reveal_strlit("force");
        reveal_strlit("no");
        reveal_strlit("yes");
        assert("Auto"@ =~= seq!['A', 'u', 't', 'o']);
        assert("Force"@ =~= seq!['F', 'o', 'r', 'c', 'e']);
        assert("No"@ =~= seq!['N', 'o']);
        assert("Yes"@ =~= seq!['Y', 'e', 's']);
        assert("auto"@ =~= seq!['a', 'u', 't', 'o']);
        assert("force"@ =~= seq!['f', 'o', 'r', 'c', 'e']);
        assert("no"@ =~= seq!['n', 'o']);
        assert("yes"@ =~= seq!['y', 'e', 's']);
        reveal_with_fuel(kebab_rest, 6);
    }

    /// The text the value is written as.
    pub fn text(&self) -> (r: &str)
        ensures
            r@ == self.spec_text(),
    {
        match self {
            RequestTty::Yes => "yes",
            RequestTty::No => "no",
            RequestTty::Force => "force",
            RequestTty::Auto => "auto",
        }
    }

    /// The value a text names, if any.
    pub fn from_text(s: &str) -> (r: Option<Self>)
        ensures
            r matches Some(v) ==> v.spec_text() == s@,
            r is None ==> forall|v: Self| #[trigger] v.spec_text() != s@,
            forall|v: Self| #[trigger] v.spec_text() == s@ ==> r == Some(v),
    {
        proof {
            reveal_strlit("yes");
            reveal_strlit("no");
            reveal_strlit("force");
            reveal_strlit("auto");
            assert("yes"@ =~= seq!['y', 'e', 's']);
            assert("no"@ =~= seq!['n', 'o']);
            assert("force"@ =~= seq!['f', 'o', 'r', 'c', 'e']);
            assert("auto"@ =~= seq!['a', 'u', 't', 'o']);
        }
        if str_equal(s, "yes") {
            Some(RequestTty::Yes)
        } else if str_equal(s, "no") {
            Some(RequestTty::No)
        } else if str_equal(s, "force") {
            Some(RequestTty::Force)
        } else if str_equal(s, "auto") {
            Some(RequestTty::Auto)
        } else {
            None
        }
    }
}

/// Whether a tunnel device is forwarded, and at which layer.
#[derive(Debug, PartialEq, Eq, Structural, Clone, Copy)]
pub enum Tunnel {
    Yes,
    PointToPoint,
    Ethernet,
    No,
}

impl Tunnel {
    /// The text the value is written as in a configuration file.
    pub open spec fn spec_text(self) -> Seq<char> {
        match self {
            Tunnel::Yes => "yes"@,
            Tunnel::PointToPoint => "point-to-point"@,
            Tunnel::Ethernet => "ethernet"@,
            Tunnel::No => "no"@,
        }
    }

    /// The name of the value: its variant's name.
    pub open spec fn spec_name(self) -> Seq<char> {
        match self {
            Tunnel::Yes => "Yes"@,
            Tunnel::PointToPoint => "PointToPoint"@,
            Tunnel::Ethernet => "Ethernet"@,
            Tunnel::No => "No"@,
        }
    }

    /// A value is written as its name in kebab case.
    pub proof fn lemma_text_is_renamed_name(self)
        ensures
            self.spec_text() == kebab_case(self.spec_name()),
    {
        reveal_strlit("Ethernet");
        reveal_strlit("No");
        reveal_strlit("PointToPoint");
        reveal_strlit("Yes");
        reveal_strlit("ethernet");
        reveal_strlit("no");
        reveal_strlit("point-to-point");
        reveal_strlit("yes");
        assert("Ethernet"@ =~= seq!['E', 't', 'h', 'e', 'r', 'n', 'e', 't']);
        assert("No"@ =~= seq!['N', 'o']);
        assert("PointToPoint"@ =~= seq!['P', 'o', 'i', 'n', 't', 'T', 'o', 'P', 'o', 'i', 'n', 't']);
        assert("Yes"@ =~= seq!['Y', 'e', 's']);
        assert("ethernet"@ =~= seq!['e', 't', 'h', 'e', 'r', 'n', 'e', 't']);
        assert("no"@ =~= seq!['n', 'o']);
        assert("point-to-point"@ =~= seq!['p', 'o', 'i', 'n', 't', '-', 't', 'o', '-', 'p', 'o', 'i', 'n', 't']);
        assert("yes"@ =~= seq!['y', 'e', 's']);
        reveal_with_fuel(kebab_rest, 15);
    }

    /// The text the value is written as.
    pub fn text(&self) -> (r: &str)
        ensures
            r@ == self.spec_text(),
    {
        match self {
            Tunnel::Yes => "yes",
            Tunnel::PointToPoint => "point-to-point",
            Tunnel::Ethernet => "ethernet",
            Tunnel::No => "no",
        }
    }

    /// The value a text names, if any.
    pub fn from_text(s: &str) -> (r: Option<Self>)
        ensures
            r matches Some(v) ==> v.spec_text() == s@,
            r is None ==> forall|v: Self| #[trigger] v.spec_text() != s@,
            forall|v: Self| #[trigger] v.spec_text() == s@ ==> r == Some(v),
    {
        proof {
            reveal_strlit("yes");
            reveal_strlit("point-to-point");
            reveal_strlit("ethernet");
            reveal_strlit("no");
            assert("yes"@ =~= seq!['y', 'e', 's']);
            assert("point-to-point"@ =~= seq!['p', 'o', 'i', 'n', 't', '-', 't', 'o', '-', 'p', 'o', 'i', 'n', 't']);
            assert("ethernet"@ =~= seq!['e', 't', 'h', 'e', 'r', 'n', 'e', 't']);
            assert("no"@ =~= seq!['n', 'o']);
        }
        if str_equal(s, "yes") {
            Some(Tunnel::Yes)
        } else if str_equal(s, "point-to-point") {
            Some(Tunnel::PointToPoint)
        } else if str_equal(s, "ethernet") {
            Some(Tunnel::Ethernet)
        } else if str_equal(s, "no") {
            Some(Tunnel::No)
        } else {
            None
        }
    }
}

/// Whether public key authentication is tried.
#[derive(Debug, PartialEq, Eq, Structural, Clone, Copy)]
pub enum PubkeyAuthentication {
    Yes,
    No,
    Unbound,
    HostBound,
}

impl PubkeyAuthentication {
    /// The text the value is written as in a configuration file.
    pub open spec fn spec_text(self) -> Seq<char> {
        match self {
            PubkeyAuthentication::Yes => "yes"@,
            PubkeyAuthentication::No => "no"@,
            PubkeyAuthentication::Unbound => "unbound"@,
            PubkeyAuthentication::HostBound => "host-bound"@,
        }
    }

    /// The name of the value: its variant's name.
    pub open spec fn spec_name(self) -> Seq<char> {
        match self {
            PubkeyAuthentication::Yes => "Yes"@,
            PubkeyAuthentication::No => "No"@,
            PubkeyAuthentication::Unbound => "Unbound"@,
            PubkeyAuthentication::HostBound => "HostBound"@,
        }
    }

    /// A value is written as its name in kebab case.
    pub proof fn lemma_text_is_renamed_name(self)
        ensures
            self.spec_text() == kebab_case(self.spec_name()),
    {
        reveal_strlit("HostBound");
        reveal_strlit("No");
        reveal_strlit("Unbound");
        reveal_strlit("Yes");
        reveal_strlit("host-bound");
        reveal_strlit("no");
        reveal_strlit("unbound");
        reveal_strlit("yes");
        assert("HostBound"@ =~= seq!['H', 'o', 's', 't', 'B', 'o', 'u', 'n', 'd']);
        assert("No"@ =~= seq!['N', 'o']);
        assert("Unbound"@ =~= seq!['U', 'n', 'b', 'o', 'u', 'n', 'd']);
        assert("Yes"@ =~= seq!['Y', 'e', 's']);
        assert("host-bound"@ =~= seq!['h', 'o', 's', 't', '-', 'b', 'o', 'u', 'n', 'd']);
        assert("no"@ =~= seq!['n', 'o']);
        assert("unbound"@ =~= seq!['u', 'n', 'b', 'o', 'u', 'n', 'd']);
        assert("yes"@ =~= seq!['y', 'e', 's']);
        reveal_with_fuel(kebab_rest, 11);
    }

    /// The text the value is written as.
    pub fn text(&self) -> (r: &str)
        ensures
            r@ == self.spec_text(),
    {
        match self {
            PubkeyAuthentication::Yes => "yes",
            PubkeyAuthentication::No => "no",
            PubkeyAuthentication::Unbound => "unbound",
            PubkeyAuthentication::HostBound => "host-bound",
        }
    }

    /// The value a text names, if any.
    pub fn from_text(s: &str) -> (r: Option<Self>)
        ensures
            r matches Some(v) ==> v.spec_text() == s@,
            r is None ==> forall|v: Self| #[trigger] v.spec_text() != s@,
            forall|v: Self| #[trigger] v.spec_text() == s@ ==> r == Some(v),
    {
        proof {
            reveal_strlit("yes");
            reveal_strlit("no");
            reveal_strlit("unbound");
            reveal_strlit("host-bound");
            assert("yes"@ =~= seq!['y', 'e', 's']);
            assert("no"@ =~= seq!['n', 'o']);
            assert("unbound"@ =~= seq!['u', 'n', 'b', 'o', 'u', 'n', 'd']);
            assert("host-bound"@ =~= seq!['h', 'o', 's', 't', '-', 'b', 'o', 'u', 'n', 'd']);
        }
        if str_equal(s, "yes") {
            Some(PubkeyAuthentication::Yes)
        } else if str_equal(s, "no") {
            Some(PubkeyAuthentication::No)
        } else if str_equal(s, "unbound") {
            Some(PubkeyAuthentication::Unbound)
        } else if str_equal(s, "host-bound") {
            Some(PubkeyAuthentication::HostBound)
        } else {
            None
        }
    }
}

/// Yes, no, or ask.
#[derive(Debug, PartialEq, Eq, Structural, Clone, Copy)]
pub enum YesNoAsk {
    Yes,
    No,
    Ask,
}

impl YesNoAsk {
    /// The text the value is written as in a configuration file.
    pub open spec fn spec_text(self) -> Seq<char> {
        match self {
            YesNoAsk::Yes => "yes"@,
            YesNoAsk::No => "no"@,
            YesNoAsk::Ask => "ask"@,
        }
    }

    /// The name of the value: its variant's name.
    pub open spec fn spec_name(self) -> Seq<char> {
        match self {
            YesNoAsk::Yes => "Yes"@,
            YesNoAsk::No => "No"@,
            YesNoAsk::Ask => "Ask"@,
        }
    }

    /// A value is written as its name in kebab case.
    pub proof fn lemma_text_is_renamed_name(self)
        ensures
            self.spec_text() == kebab_case(self.spec_name()),
    {
        reveal_strlit("Ask");
        reveal_strlit("No");
        reveal_strlit("Yes");
        reveal_strlit("ask");
        reveal_strlit("no");
        reveal_strlit("yes");
        assert("Ask"@ =~= seq!['A', 's', 'k']);
        assert("No"@ =~= seq!['N', 'o']);
        assert("Yes"@ =~= seq!['Y', 'e', 's']);
        assert("ask"@ =~= seq!['a', 's', 'k']);
        assert("no"@ =~= seq!['n', 'o']);
        assert("yes"@ =~= seq!['y', 'e', 's']);
        reveal_with_fuel(kebab_rest, 4);
    }

    /// The text the value is written as.
    pub fn text(&self) -> (r: &str)
        ensures
            r@ == self.spec_text(),
    {
        match self {
            YesNoAsk::Yes => "yes",
            YesNoAsk::No => "no",
            YesNoAsk::Ask => "ask",
        }
    }

    /// The value a text names, if any.
    pub fn from_text(s: &str) -> (r: Option<Self>)
        ensures
            r matches Some(v) ==> v.spec_text() == s@,
            r is None ==> forall|v: Self| #[trigger] v.spec_text() != s@,
            forall|v: Self| #[trigger] v.spec_text() == s@ ==> r == Some(v),
    {
        proof {
            reveal_strlit("yes");
            reveal_strlit("no");
            reveal_strlit("ask");
            assert("yes"@ =~= seq!['y', 'e', 's']);
            assert("no"@ =~= seq!['n', 'o']);
            assert("ask"@ =~= seq!['a', 's', 'k']);
        }
        if str_equal(s, "yes") {
            Some(YesNoAsk::Yes)
        } else if str_equal(s, "no") {
            Some(YesNoAsk::No)
        } else if str_equal(s, "ask") {
            Some(YesNoAsk::Ask)
        } else {
            None
        }
    }
}

/// Yes, no, ask, or decide automatically.
#[derive(Debug, PartialEq, Eq, Structural, Clone, Copy)]
pub enum YesNoAskAuto {
    Yes,
    No,
    Ask,
    Auto,
    AutoAsk,
}

impl YesNoAskAuto {
    /// The text the value is written as in a configuration file.
    pub open spec fn spec_text(self) -> Seq<char> {
        match self {
            YesNoAskAuto::Yes => "yes"@,
            YesNoAskAuto::No => "no"@,
            YesNoAskAuto::Ask => "ask"@,
            YesNoAskAuto::Auto => "auto"@,
            YesNoAskAuto::AutoAsk => "auto-ask"@,
        }
    }

    /// The name of the value: its variant's name.
    pub open spec fn spec_name(self) -> Seq<char> {
        match self {
            YesNoAskAuto::Yes => "Yes"@,
            YesNoAskAuto::No => "No"@,
            YesNoAskAuto::Ask => "Ask"@,
            YesNoAskAuto::Auto => "Auto"@,
            YesNoAskAuto::AutoAsk => "AutoAsk"@,
        }
    }

    /// A value is written as its name in kebab case.
    pub proof fn lemma_text_is_renamed_name(self)
        ensures
            self.spec_text() == kebab_case(self.spec_name()),
    {
        reveal_strlit("Ask");
        reveal_strlit("Auto");
        reveal_strlit("AutoAsk");
        reveal_strlit("No");
        reveal_strlit("Yes");
        reveal_strlit("ask");
        reveal_strlit("auto");
        reveal_strlit("auto-ask");
        reveal_strlit("no");
        reveal_strlit("yes");
        assert("Ask"@ =~= seq!['A', 's', 'k']);
        assert("Auto"@ =~= seq!['A', 'u', 't', 'o']);
        assert("AutoAsk"@ =~= seq!['A', 'u', 't', 'o', 'A', 's', 'k']);
        assert("No"@ =~= seq!['N', 'o']);
        assert("Yes"@ =~= seq!['Y', 'e', 's']);
        assert("ask"@ =~= seq!['a', 's', 'k']);
        assert("auto"@ =~= seq!['a', 'u', 't', 'o']);
        assert("auto-ask"@ =~= seq!['a', 'u', 't', 'o', '-', 'a', 's', 'k']);
        assert("no"@ =~= seq!['n', 'o']);
        assert("yes"@ =~= seq!['y', 'e', 's']);
        reveal_with_fuel(kebab_rest, 9);
    }

    /// The text the value is written as.
    pub fn text(&self) -> (r: &str)
        ensures
            r@ == self.spec_text(),
    {
        match self {
            YesNoAskAuto::Yes => "yes",
            YesNoAskAuto::No => "no",
            YesNoAskAuto::Ask => "ask",
            YesNoAskAuto::Auto => "auto",
            YesNoAskAuto::AutoAsk => "auto-ask",
        }
    }

    /// The value a text names, if any.
    pub fn from_text(s: &str) -> (r: Option<Self>)
        ensures
            r matches Some(v) ==> v.spec_text() == s@,
            r is None ==> forall|v: Self| #[trigger] v.spec_text() != s@,
            forall|v: Self| #[trigger] v.spec_text() == s@ ==> r == Some(v),
    {
        proof {
            reveal_strlit("yes");
            reveal_strlit("no");
            reveal_strlit("ask");
            reveal_strlit("auto");
            reveal_strlit("auto-ask");
            assert("yes"@ =~= seq!['y', 'e', 's']);
            assert("no"@ =~= seq!['n', 'o']);
            assert("ask"@ =~= seq!['a', 's', 'k']);
            assert("auto"@ =~= seq!['a', 'u', 't', 'o']);
            assert("auto-ask"@ =~= seq!['a', 'u', 't', 'o', '-', 'a', 's', 'k']);
        }
        if str_equal(s, "yes") {
            Some(YesNoAskAuto::Yes)
        } else if str_equal(s, "no") {
            Some(YesNoAskAuto::No)
        } else if str_equal(s, "ask") {
            Some(YesNoAskAuto::Ask)
        } else if str_equal(s, "auto") {
            Some(YesNoAskAuto::Auto)
        } else if str_equal(s, "auto-ask") {
            Some(YesNoAskAuto::AutoAsk)
        } else {
            None
        }
    }
}

/// Yes, no, or a path.
#[derive(Debug, PartialEq, Eq, Structural, Clone, Copy)]
pub enum YesNoPath {
    Yes,
    No,
    Path,
}

impl YesNoPath {
    /// The text the value is written as in a configuration file.
    pub open spec fn spec_text(self) -> Seq<char> {
        match self {
            YesNoPath::Yes => "yes"@,
            YesNoPath::No => "no"@,
            YesNoPath::Path => "path"@,
        }
    }

    /// The name of the value: its variant's name.
    pub open spec fn spec_name(self) -> Seq<char> {
        match self {
            YesNoPath::Yes => "Yes"@,
            YesNoPath::No => "No"@,
            YesNoPath::Path => "Path"@,
        }
    }

    /// A value is written as its name in kebab case.
    pub proof fn lemma_text_is_renamed_name(self)
        ensures
            self.spec_text() == kebab_case(self.spec_name()),
    {
        reveal_strlit("No");
        reveal_strlit("Path");
        reveal_strlit("Yes");
        reveal_strlit("no");
        reveal_strlit("path");
        reveal_strlit("yes");
        assert("No"@ =~= seq!['N', 'o']);
        assert("Path"@ =~= seq!['P', 'a', 't', 'h']);
        assert("Yes"@ =~= seq!['Y', 'e', 's']);
        assert("no"@ =~= seq!['n', 'o']);
        assert("path"@ =~= seq!['p', 'a', 't', 'h']);
        assert("yes"@ =~= seq!['y', 'e', 's']);
        reveal_with_fuel(kebab_rest, 5);
    }

    /// The text the value is written as.
    pub fn text(&self) -> (r: &str)
        ensures
            r@ == self.spec_text(),
    {
        match self {
            YesNoPath::Yes => "yes",
            YesNoPath::No => "no",
            YesNoPath::Path => "path",
        }
    }

    /// The value a text names, if any.
    pub fn from_text(s: &str) -> (r: Option<Self>)
        ensures
            r matches Some(v) ==> v.spec_text() == s@,
            r is None ==> forall|v: Self| #[trigger] v.spec_text() != s@,
            forall|v: Self| #[trigger] v.spec_text() == s@ ==> r == Some(v),
    {
        proof {
            reveal_strlit("yes");
            reveal_strlit("no");
            reveal_strlit("path");
            assert("yes"@ =~= seq!['y', 'e', 's']);
            assert("no"@ =~= seq!['n', 'o']);
            assert("path"@ =~= seq!['p', 'a', 't', 'h']);
        }
        if str_equal(s, "yes") {
            Some(YesNoPath::Yes)
        } else if str_equal(s, "no") {
            Some(YesNoPath::No)
        } else if str_equal(s, "path") {
            Some(YesNoPath::Path)
        } else {
            None
        }
    }
}

/// Whether a master connection stays open: a choice, or a time.
#[derive(Debug, PartialEq)]
pub enum ControlPersist {
    Yes,
    No,
    Time(String),
}

impl ControlPersist {
    /// The text the value is written as in a configuration file.
    pub open spec fn spec_text(self) -> Seq<char> {
        match self {
            ControlPersist::Yes => "yes"@,
            ControlPersist::No => "no"@,
            ControlPersist::Time(s) => s@,
        }
    }

    /// The name of the value: its variant's name.
    pub open spec fn spec_name(self) -> Seq<char> {
        match self {
            ControlPersist::Yes => "Yes"@,
            ControlPersist::No => "No"@,
            ControlPersist::Time(s) => s@,
        }
    }

    /// A value is written as its name in kebab case.
    pub proof fn lemma_text_is_renamed_name(self)
        ensures
            !(self is Time) ==> self.spec_text() == kebab_case(self.spec_name()),
    {
        reveal_strlit("No");
        reveal_strlit("Yes");
        reveal_strlit("no");
        reveal_strlit("yes");
        assert("No"@ =~= seq!['N', 'o']);
        assert("Yes"@ =~= seq!['Y', 'e', 's']);
        assert("no"@ =~= seq!['n', 'o']);
        assert("yes"@ =~= seq!['y', 'e', 's']);
        reveal_with_fuel(kebab_rest, 4);
    }

    /// The text the value is written as.
    pub fn text(&self) -> (r: &str)
        ensures
            r@ == self.spec_text(),
    {
        match self {
            ControlPersist::Yes => "yes",
            ControlPersist::No => "no",
            ControlPersist::Time(s) => s.as_str(),
        }
    }

    /// The value a text names; a text naming no other value is a `Time`.
    pub fn from_text(s: &str) -> (r: Option<Self>)
        ensures
            r matches Some(v) ==> v.spec_text() == s@,
            r matches Some(ControlPersist::Time(_)) ==> s@ != "yes"@ && s@ != "no"@,
            r is Some,
    {
        if str_equal(s, "yes") {
            Some(ControlPersist::Yes)
        } else if str_equal(s, "no") {
            Some(ControlPersist::No)
        } else {
            Some(ControlPersist::Time(s.to_string()))
        }
    }
}

/// How much the client logs.
#[derive(Debug, PartialEq, Eq, Structural, Clone, Copy)]
pub enum LogLevel {
    Quiet,
    Fatal,
    Error,
    Info,
    Verbose,
    Debug,
    Debug1,
    Debug2,
    Debug3,
}

impl LogLevel {
    /// The text the value is written as in a configuration file.
    pub open spec fn spec_text(self) -> Seq<char> {
        match self {
            LogLevel::Quiet => "QUIET"@,
            LogLevel::Fatal => "FATAL"@,
            LogLevel::Error => "ERROR"@,
            LogLevel::Info => "INFO"@,
            LogLevel::Verbose => "VERBOSE"@,
            LogLevel::Debug => "DEBUG"@,
            LogLevel::Debug1 => "DEBUG1"@,
            LogLevel::Debug2 => "DEBUG2"@,
            LogLevel::Debug3 => "DEBUG3"@,
        }
    }

    /// The name of the value: its variant's name.
    pub open spec fn spec_name(self) -> Seq<char> {
        match self {
            LogLevel::Quiet => "Quiet"@,
            LogLevel::Fatal => "Fatal"@,
            LogLevel::Error => "Error"@,
            LogLevel::Info => "Info"@,
            LogLevel::Verbose => "Verbose"@,
            LogLevel::Debug => "Debug"@,
            LogLevel::Debug1 => "Debug1"@,
            LogLevel::Debug2 => "Debug2"@,
            LogLevel::Debug3 => "Debug3"@,
        }
    }

    /// A value is written as its name in upper case.
    pub proof fn lemma_text_is_renamed_name(self)
        ensures
            self.spec_text() == upper_case(self.spec_name()),
    {
        reveal_strlit("DEBUG");
        reveal_strlit("DEBUG1");
        reveal_strlit("DEBUG2");
        reveal_strlit("DEBUG3");
        reveal_strlit("Debug");
        reveal_strlit("Debug1");
        reveal_strlit("Debug2");
        reveal_strlit("Debug3");
        reveal_strlit("ERROR");
        reveal_strlit("Error");
        reveal_strlit("FATAL");
        reveal_strlit("Fatal");
        reveal_strlit("INFO");
        reveal_strlit("Info");
        reveal_strlit("QUIET");
        reveal_strlit("Quiet");
        reveal_strlit("VERBOSE");
        reveal_strlit("Verbose");
        assert("DEBUG"@ =~= seq!['D', 'E', 'B', 'U', 'G']);
        assert("DEBUG1"@ =~= seq!['D', 'E', 'B', 'U', 'G', '1']);
        assert("DEBUG2"@ =~= seq!['D', 'E', 'B', 'U', 'G', '2']);
        assert("DEBUG3"@ =~= seq!['D', 'E', 'B', 'U', 'G', '3']);
        assert("Debug"@ =~= seq!['D', 'e', 'b', 'u', 'g']);
        assert("Debug1"@ =~= seq!['D', 'e', 'b', 'u', 'g', '1']);
        assert("Debug2"@ =~= seq!['D', 'e', 'b', 'u', 'g', '2']);
        assert("Debug3"@ =~= seq!['D', 'e', 'b', 'u', 'g', '3']);
        assert("ERROR"@ =~= seq!['E', 'R', 'R', 'O', 'R']);
        assert("Error"@ =~= seq!['E', 'r', 'r', 'o', 'r']);
        assert("FATAL"@ =~= seq!['F', 'A', 'T', 'A', 'L']);
        assert("Fatal"@ =~= seq!['F', 'a', 't', 'a', 'l']);
        assert("INFO"@ =~= seq!['I', 'N', 'F', 'O']);
        assert("Info"@ =~= seq!['I', 'n', 'f', 'o']);
        assert("QUIET"@ =~= seq!['Q', 'U', 'I', 'E', 'T']);
        assert("Quiet"@ =~= seq!['Q', 'u', 'i', 'e', 't']);
        assert("VERBOSE"@ =~= seq!['V', 'E', 'R', 'B', 'O', 'S', 'E']);
        assert("Verbose"@ =~= seq!['V', 'e', 'r', 'b', 'o', 's', 'e']);
    }

    /// The text the value is written as.
    pub fn text(&self) -> (r: &str)
        ensures
            r@ == self.spec_text(),
    {
        match self {
            LogLevel::Quiet => "QUIET",
            LogLevel::Fatal => "FATAL",
            LogLevel::Error => "ERROR",
            LogLevel::Info => "INFO",
            LogLevel::Verbose => "VERBOSE",
            LogLevel::Debug => "DEBUG",
            LogLevel::Debug1 => "DEBUG1",
            LogLevel::Debug2 => "DEBUG2",
            LogLevel::Debug3 => "DEBUG3",
        }
    }

    /// The value a text names, if any.
    pub fn from_text(s: &str) -> (r: Option<Self>)
        ensures
            r matches Some(v) ==> v.spec_text() == s@,
            r is None ==> forall|v: Self| #[trigger] v.spec_text() != s@,
            forall|v: Self| #[trigger] v.spec_text() == s@ ==> r == Some(v),
    {
        proof {
            reveal_strlit("QUIET");
            reveal_strlit("FATAL");
            reveal_strlit("ERROR");
            reveal_strlit("INFO");
            reveal_strlit("VERBOSE");
            reveal_strlit("DEBUG");
            reveal_strlit("DEBUG1");
            reveal_strlit("DEBUG2");
            reveal_strlit("DEBUG3");
            assert("QUIET"@ =~= seq!['Q', 'U', 'I', 'E', 'T']);
            assert("FATAL"@ =~= seq!['F', 'A', 'T', 'A', 'L']);
            assert("ERROR"@ =~= seq!['E', 'R', 'R', 'O', 'R']);
            assert("INFO"@ =~= seq!['I', 'N', 'F', 'O']);
            assert("VERBOSE"@ =~= seq!['V', 'E', 'R', 'B', 'O', 'S', 'E']);
            assert("DEBUG"@ =~= seq!['D', 'E', 'B', 'U', 'G']);
            assert("DEBUG1"@ =~= seq!['D', 'E', 'B', 'U', 'G', '1']);
            assert("DEBUG2"@ =~= seq!['D', 'E', 'B', 'U', 'G', '2']);
            assert("DEBUG3"@ =~= seq!['D', 'E', 'B', 'U', 'G', '3']);
        }
        if str_equal(s, "QUIET") {
            Some(LogLevel::Quiet)
        } else if str_equal(s, "FATAL") {
            Some(LogLevel::Fatal)
        } else if str_equal(s, "ERROR") {
            Some(LogLevel::Error)
        } else if str_equal(s, "INFO") {
            Some(LogLevel::Info)
        } else if str_equal(s, "VERBOSE") {
            Some(LogLevel::Verbose)
        } else if str_equal(s, "DEBUG") {
            Some(LogLevel::Debug)
        } else if str_equal(s, "DEBUG1") {
            Some(LogLevel::Debug1)
        } else if str_equal(s, "DEBUG2") {
            Some(LogLevel::Debug2)
        } else if str_equal(s, "DEBUG3") {
            Some(LogLevel::Debug3)
        } else {
            None
        }
    }
}

impl Default for LogLevel {
    fn default() -> (r: Self)
        ensures
            r == LogLevel::Info,
    {
        LogLevel::Info
    }
}
} // verus!
