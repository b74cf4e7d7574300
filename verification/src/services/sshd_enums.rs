//! The values some SSH server options take, and the text each is written as.

use vstd::prelude::*;

use crate::text::{kebab_case, kebab_rest, lower_case, str_equal, upper_case};

verus! {

/// Which address family the server listens on.
#[derive(Debug, PartialEq, Eq, Structural, Clone, Copy)]
pub enum AddressFamily {
    Any,
    Inet,
    Inet6,
}

impl AddressFamily {
    /// The text the value is written as in a configuration file.
    pub open spec fn spec_text(self) -> Seq<char> {
        match self {
            AddressFamily::Any => "any"@,
            AddressFamily::Inet => "inet"@,
            AddressFamily::Inet6 => "inet6"@,
        }
    }

    /// The name of the value: its variant's name.
    pub open spec fn spec_name(self) -> Seq<char> {
        match self {
            AddressFamily::Any => "Any"@,
            AddressFamily::Inet => "Inet"@,
            AddressFamily::Inet6 => "Inet6"@,
        }
    }

    /// A value is written as its name in lower case.
    pub proof fn lemma_text_is_renamed_name(self)
        ensures
            self.spec_text() == lower_case(self.spec_name()),
    {
        reveal_strlit("Any");
        reveal_strlit("Inet");
        reveal_strlit("Inet6");
        reveal_strlit("any");
        reveal_strlit("inet");
        reveal_strlit("inet6");
        assert("Any"@ =~= seq!['A', 'n', 'y']);
        assert("Inet"@ =~= seq!['I', 'n', 'e', 't']);
        assert("Inet6"@ =~= seq!['I', 'n', 'e', 't', '6']);
        assert("any"@ =~= seq!['a', 'n', 'y']);
        assert("inet"@ =~= seq!['i', 'n', 'e', 't']);
        assert("inet6"@ =~= seq!['i', 'n', 'e', 't', '6']);
    }

    /// The text the value is written as.
    pub fn text(&self) -> (r: &str)
        ensures
            r@ == self.spec_text(),
    {
        match self {
            AddressFamily::Any => "any",
            AddressFamily::Inet => "inet",
            AddressFamily::Inet6 => "inet6",
        }
    }

    /// The value a text names, if any.
    pub fn from_text(s: &str) -> (r: Option<Self>)
        ensures
            r matches Some(v) ==> v.spec_text() == s@,
            r is None ==> forall|v: Self| #[trigger] v.spec_text() != s@,
            forall|v: Self| #[trigger] v.spec_text() == s@ ==> r == Some(v),
    {
        proof {
            reveal_strlit("any");
            reveal_strlit("inet");
            reveal_strlit("inet6");
            assert("any"@ =~= seq!['a', 'n', 'y']);
            assert("inet"@ =~= seq!['i', 'n', 'e', 't']);
            assert("inet6"@ =~= seq!['i', 'n', 'e', 't', '6']);
        }
        if str_equal(s, "any") {
            Some(AddressFamily::Any)
        } else if str_equal(s, "inet") {
            Some(AddressFamily::Inet)
        } else if str_equal(s, "inet6") {
            Some(AddressFamily::Inet6)
        } else {
            None
        }
    }
}

/// Which TCP forwardings are allowed.
#[derive(Debug, PartialEq, Eq, Structural, Clone, Copy)]
pub enum AllowForwarding {
    Yes,
    All,
    No,
    Local,
    Remote,
}

impl AllowForwarding {
    /// The text the value is written as in a configuration file.
    pub open spec fn spec_text(self) -> Seq<char> {
        match self {
            AllowForwarding::Yes => "yes"@,
            AllowForwarding::All => "all"@,
            AllowForwarding::No => "no"@,
            AllowForwarding::Local => "local"@,
            AllowForwarding::Remote => "remote"@,
        }
    }

    /// The name of the value: its variant's name.
    pub open spec fn spec_name(self) -> Seq<char> {
        match self {
            AllowForwarding::Yes => "Yes"@,
            AllowForwarding::All => "All"@,
            AllowForwarding::No => "No"@,
            AllowForwarding::Local => "Local"@,
            AllowForwarding::Remote => "Remote"@,
        }
    }

    /// A value is written as its name in lower case.
    pub proof fn lemma_text_is_renamed_name(self)
        ensures
            self.spec_text() == lower_case(self.spec_name()),
    {
        reveal_strlit("All");
        reveal_strlit("Local");
        reveal_strlit("No");
        reveal_strlit("Remote");
        reveal_strlit("Yes");
        reveal_strlit("all");
        reveal_strlit("local");
        reveal_strlit("no");
        reveal_strlit("remote");
        reveal_strlit("yes");
        assert("All"@ =~= seq!['A', 'l', 'l']);
        assert("Local"@ =~= seq!['L', 'o', 'c', 'a', 'l']);
        assert("No"@ =~= seq!['N', 'o']);
        assert("Remote"@ =~= seq!['R', 'e', 'm', 'o', 't', 'e']);
        assert("Yes"@ =~= seq!['Y', 'e', 's']);
        assert("all"@ =~= seq!['a', 'l', 'l']);
        assert("local"@ =~= seq!['l', 'o', 'c', 'a', 'l']);
        assert("no"@ =~= seq!['n', 'o']);
        assert("remote"@ =~= seq!['r', 'e', 'm', 'o', 't', 'e']);
        assert("yes"@ =~= seq!['y', 'e', 's']);
    }

    /// The text the value is written as.
    pub fn text(&self) -> (r: &str)
        ensures
            r@ == self.spec_text(),
    {
        match self {
            AllowForwarding::Yes => "yes",
            AllowForwarding::All => "all",
            AllowForwarding::No => "no",
            AllowForwarding::Local => "local",
            AllowForwarding::Remote => "remote",
        }
    }

    /// The value a text names, if any.
    pub fn from_text(s: &str) -> (r: Option<Self>)
        ensures
            r matches Some(v) ==> v.spec_text() == s@,
            r is None ==> forall|v: Self| #[trigger] v.spec_text() != s@,
            forall|v: Self| #[trigger] v.spec_text() == s@ ==> r == Some(v),
    {
        proof {
            reveal_strlit("yes");
            reveal_strlit("all");
            reveal_strlit("no");
            reveal_strlit("local");
            reveal_strlit("remote");
            assert("yes"@ =~= seq!['y', 'e', 's']);
            assert("all"@ =~= seq!['a', 'l', 'l']);
            assert("no"@ =~= seq!['n', 'o']);
            assert("local"@ =~= seq!['l', 'o', 'c', 'a', 'l']);
            assert("remote"@ =~= seq!['r', 'e', 'm', 'o', 't', 'e']);
        }
        if str_equal(s, "yes") {
            Some(AllowForwarding::Yes)
        } else if str_equal(s, "all") {
            Some(AllowForwarding::All)
        } else if str_equal(s, "no") {
            Some(AllowForwarding::No)
        } else if str_equal(s, "local") {
            Some(AllowForwarding::Local)
        } else if str_equal(s, "remote") {
            Some(AllowForwarding::Remote)
        } else {
            None
        }
    }
}

/// Whether compression is allowed.
#[derive(Debug, PartialEq, Eq, Structural, Clone, Copy)]
pub enum Compression {
    Yes,
    Delayed,
    No,
}

impl Compression {
    /// The text the value is written as in a configuration file.
    pub open spec fn spec_text(self) -> Seq<char> {
        match self {
            Compression::Yes => "yes"@,
            Compression::Delayed => "delayed"@,
            Compression::No => "no"@,
        }
    }

    /// The name of the value: its variant's name.
    pub open spec fn spec_name(self) -> Seq<char> {
        match self {
            Compression::Yes => "Yes"@,
            Compression::Delayed => "Delayed"@,
            Compression::No => "No"@,
        }
    }

    /// A value is written as its name in lower case.
    pub proof fn lemma_text_is_renamed_name(self)
        ensures
            self.spec_text() == lower_case(self.spec_name()),
    {
        reveal_strlit("Delayed");
        reveal_strlit("No");
        reveal_strlit("Yes");
        reveal_strlit("delayed");
        reveal_strlit("no");
        reveal_strlit("yes");
        assert("Delayed"@ =~= seq!['D', 'e', 'l', 'a', 'y', 'e', 'd']);
        assert("No"@ =~= seq!['N', 'o']);
        assert("Yes"@ =~= seq!['Y', 'e', 's']);
        assert("delayed"@ =~= seq!['d', 'e', 'l', 'a', 'y', 'e', 'd']);
        assert("no"@ =~= seq!['n', 'o']);
        assert("yes"@ =~= seq!['y', 'e', 's']);
    }

    /// The text the value is written as.
    pub fn text(&self) -> (r: &str)
        ensures
            r@ == self.spec_text(),
    {
        match self {
            Compression::Yes => "yes",
            Compression::Delayed => "delayed",
            Compression::No => "no",
        }
    }

    /// The value a text names, if any.
    pub fn from_text(s: &str) -> (r: Option<Self>)
        ensures
            r matches Some(v) ==> v.spec_text() == s@,
            r is None ==> forall|v: Self| #[trigger] v.spec_text() != s@,
            forall|v: Self| #[trigger] v.spec_text() == s@ ==> r == Some(v),
    {
        proof {
            reveal_strlit("yes");
            reveal_strlit("delayed");
            reveal_strlit("no");
            assert("yes"@ =~= seq!['y', 'e', 's']);
            assert("delayed"@ =~= seq!['d', 'e', 'l', 'a', 'y', 'e', 'd']);
            assert("no"@ =~= seq!['n', 'o']);
        }
        if str_equal(s, "yes") {
            Some(Compression::Yes)
        } else if str_equal(s, "delayed") {
            Some(Compression::Delayed)
        } else if str_equal(s, "no") {
            Some(Compression::No)
        } else {
            None
        }
    }
}

/// The hash key fingerprints are logged with.
#[derive(Debug, PartialEq, Eq, Structural, Clone, Copy)]
pub enum FingerprintHash {
    Md5,
    Sha256,
}

impl FingerprintHash {
    /// The text the value is written as in a configuration file.
    pub open spec fn spec_text(self) -> Seq<char> {
        match self {
            FingerprintHash::Md5 => "md5"@,
            FingerprintHash::Sha256 => "sha256"@,
        }
    }

    /// The name of the value: its variant's name.
    pub open spec fn spec_name(self) -> Seq<char> {
        match self {
            FingerprintHash::Md5 => "Md5"@,
            FingerprintHash::Sha256 => "Sha256"@,
        }
    }

    /// A value is written as its name in lower case.
    pub proof fn lemma_text_is_renamed_name(self)
        ensures
            self.spec_text() == lower_case(self.spec_name()),
    {
        reveal_strlit("Md5");
        reveal_strlit("Sha256");
        reveal_strlit("md5");
        reveal_strlit("sha256");
        assert("Md5"@ =~= seq!['M', 'd', '5']);
        assert("Sha256"@ =~= seq!['S', 'h', 'a', '2', '5', '6']);
        assert("md5"@ =~= seq!['m', 'd', '5']);
        assert("sha256"@ =~= seq!['s', 'h', 'a', '2', '5', '6']);
    }

    /// The text the value is written as.
    pub fn text(&self) -> (r: &str)
        ensures
            r@ == self.spec_text(),
    {
        match self {
            FingerprintHash::Md5 => "md5",
            FingerprintHash::Sha256 => "sha256",
        }
    }

    /// The value a text names, if any.
    pub fn from_text(s: &str) -> (r: Option<Self>)
        ensures
            r matches Some(v) ==> v.spec_text() == s@,
            r is None ==> forall|v: Self| #[trigger] v.spec_text() != s@,
            forall|v: Self| #[trigger] v.spec_text() == s@ ==> r == Some(v),
    {
        proof {
            reveal_strlit("md5");
            reveal_strlit("sha256");
            assert("md5"@ =~= seq!['m', 'd', '5']);
            assert("sha256"@ =~= seq!['s', 'h', 'a', '2', '5', '6']);
        }
        if str_equal(s, "md5") {
            Some(FingerprintHash::Md5)
        } else if str_equal(s, "sha256") {
            Some(FingerprintHash::Sha256)
        } else {
            None
        }
    }
}

/// Whether remote forwardings may bind other addresses.
#[derive(Debug, PartialEq, Eq, Structural, Clone, Copy)]
pub enum GatewayPorts {
    Yes,
    No,
    Clientspecified,
}

impl GatewayPorts {
    /// The text the value is written as in a configuration file.
    pub open spec fn spec_text(self) -> Seq<char> {
        match self {
            GatewayPorts::Yes => "yes"@,
            GatewayPorts::No => "no"@,
            GatewayPorts::Clientspecified => "clientspecified"@,
        }
    }

    /// The name of the value: its variant's name.
    pub open spec fn spec_name(self) -> Seq<char> {
        match self {
            GatewayPorts::Yes => "Yes"@,
            GatewayPorts::No => "No"@,
            GatewayPorts::Clientspecified => "Clientspecified"@,
        }
    }

    /// A value is written as its name in lower case.
    pub proof fn lemma_text_is_renamed_name(self)
        ensures
            self.spec_text() == lower_case(self.spec_name()),
    {
        reveal_strlit("Clientspecified");
        reveal_strlit("No");
        reveal_strlit("Yes");
        reveal_strlit("clientspecified");
        reveal_strlit("no");
        reveal_strlit("yes");
        assert("Clientspecified"@ =~= seq!['C', 'l', 'i', 'e', 'n', 't', 's', 'p', 'e', 'c', 'i', 'f', 'i', 'e', 'd']);
        assert("No"@ =~= seq!['N', 'o']);
        assert("Yes"@ =~= seq!['Y', 'e', 's']);
        assert("clientspecified"@ =~= seq!['c', 'l', 'i', 'e', 'n', 't', 's', 'p', 'e', 'c', 'i', 'f', 'i', 'e', 'd']);
        assert("no"@ =~= seq!['n', 'o']);
        assert("yes"@ =~= seq!['y', 'e', 's']);
    }

    /// The text the value is written as.
    pub fn text(&self) -> (r: &str)
        ensures
            r@ == self.spec_text(),
    {
        match self {
            GatewayPorts::Yes => "yes",
            GatewayPorts::No => "no",
            GatewayPorts::Clientspecified => "clientspecified",
        }
    }

    /// The value a text names, if any.
    pub fn from_text(s: &str) -> (r: Option<Self>)
        ensures
            r matches Some(v) ==> v.spec_text() == s@,
            r is None ==> forall|v: Self| #[trigger] v.spec_text() != s@,
            forall|v: Self| #[trigger] v.spec_text() == s@ ==> r == Some(v),
    {
        proof {
            reveal_strlit("yes");
            reveal_strlit("no");
            reveal_strlit("clientspecified");
            assert("yes"@ =~= seq!['y', 'e', 's']);
            assert("no"@ =~= seq!['n', 'o']);
            assert("clientspecified"@ =~= seq!['c', 'l', 'i', 'e', 'n', 't', 's', 'p', 'e', 'c', 'i', 'f', 'i', 'e', 'd']);
        }
        if str_equal(s, "yes") {
            Some(GatewayPorts::Yes)
        } else if str_equal(s, "no") {
            Some(GatewayPorts::No)
        } else if str_equal(s, "clientspecified") {
            Some(GatewayPorts::Clientspecified)
        } else {
            None
        }
    }
}

/// Whether rhosts files are ignored.
#[derive(Debug, PartialEq, Eq, Structural, Clone, Copy)]
pub enum IgnoreRhosts {
    Yes,
    ShostsOnly,
    No,
}

impl IgnoreRhosts {
    /// The text the value is written as in a configuration file.
    pub open spec fn spec_text(self) -> Seq<char> {
        match self {
            IgnoreRhosts::Yes => "yes"@,
            IgnoreRhosts::ShostsOnly => "shosts-only"@,
            IgnoreRhosts::No => "no"@,
        }
    }

    /// The name of the value: its variant's name.
    pub open spec fn spec_name(self) -> Seq<char> {
        match self {
            IgnoreRhosts::Yes => "Yes"@,
            IgnoreRhosts::ShostsOnly => "ShostsOnly"@,
            IgnoreRhosts::No => "No"@,
        }
    }

    /// A value is written as its name in kebab case.
    pub proof fn lemma_text_is_renamed_name(self)
        ensures
            self.spec_text() == kebab_case(self.spec_name()),
    {
        reveal_strlit("No");
        reveal_strlit("ShostsOnly");
        reveal_strlit("Yes");
        reveal_strlit("no");
        reveal_strlit("shosts-only");
        reveal_strlit("yes");
        assert("No"@ =~= seq!['N', 'o']);
        assert("ShostsOnly"@ =~= seq!['S', 'h', 'o', 's', 't', 's', 'O', 'n', 'l', 'y']);
        assert("Yes"@ =~= seq!['Y', 'e', 's']);
        assert("no"@ =~= seq!['n', 'o']);
        assert("shosts-only"@ =~= seq!['s', 'h', 'o', 's', 't', 's', '-', 'o', 'n', 'l', 'y']);
        assert("yes"@ =~= seq!['y', 'e', 's']);
        reveal_with_fuel(kebab_rest, 12);
    }

    /// The text the value is written as.
    pub fn text(&self) -> (r: &str)
        ensures
            r@ == self.spec_text(),
    {
        match self {
            IgnoreRhosts::Yes => "yes",
            IgnoreRhosts::ShostsOnly => "shosts-only",
            IgnoreRhosts::No => "no",
        }
    }

    /// The value a text names, if any.
    pub fn from_text(s: &str) -> (r: Option<Self>)
        ensures
            r matches Some(v) ==> v.spec_text() == s@,
            r is None ==> forall|v: Self| #[trigger] v.spec_text() != s@,
            forall|v: Self| #[trigger] v.spec_text() == s@ ==> r == Some(v),
    {
        proof {
            reveal_strlit("yes");
            reveal_strlit("shosts-only");
            reveal_strlit("no");
            assert("yes"@ =~= seq!['y', 'e', 's']);
            assert("shosts-only"@ =~= seq!['s', 'h', 'o', 's', 't', 's', '-', 'o', 'n', 'l', 'y']);
            assert("no"@ =~= seq!['n', 'o']);
        }
        if str_equal(s, "yes") {
            Some(IgnoreRhosts::Yes)
        } else if str_equal(s, "shosts-only") {
            Some(IgnoreRhosts::ShostsOnly)
        } else if str_equal(s, "no") {
            Some(IgnoreRhosts::No)
        } else {
            None
        }
    }
}

/// How much the server logs.
#[derive(Debug, PartialEq, Eq, Structural, Clone, Copy)]
pub enum LogLevel {
    Quiet,
    Fatal,
    Error,
    Info,
    Verbose,
    Debug,
    Debug1,
    Debug2,
    Debug3,
}

impl LogLevel {
    /// The text the value is written as in a configuration file.
    pub open spec fn spec_text(self) -> Seq<char> {
        match self {
            LogLevel::Quiet => "QUIET"@,
            LogLevel::Fatal => "FATAL"@,
            LogLevel::Error => "ERROR"@,
            LogLevel::Info => "INFO"@,
            LogLevel::Verbose => "VERBOSE"@,
            LogLevel::Debug => "DEBUG"@,
            LogLevel::Debug1 => "DEBUG1"@,
            LogLevel::Debug2 => "DEBUG2"@,
            LogLevel::Debug3 => "DEBUG3"@,
        }
    }

    /// The name of the value: its variant's name.
    pub open spec fn spec_name(self) -> Seq<char> {
        match self {
            LogLevel::Quiet => "Quiet"@,
            LogLevel::Fatal => "Fatal"@,
            LogLevel::Error => "Error"@,
            LogLevel::Info => "Info"@,
            LogLevel::Verbose => "Verbose"@,
            LogLevel::Debug => "Debug"@,
            LogLevel::Debug1 => "Debug1"@,
            LogLevel::Debug2 => "Debug2"@,
            LogLevel::Debug3 => "Debug3"@,
        }
    }

    /// A value is written as its name in upper case.
    pub proof fn lemma_text_is_renamed_name(self)
        ensures
            self.spec_text() == upper_case(self.spec_name()),
    {
        reveal_strlit("DEBUG");
        reveal_strlit("DEBUG1");
        reveal_strlit("DEBUG2");
        reveal_strlit("DEBUG3");
        reveal_strlit("Debug");
        reveal_strlit("Debug1");
        reveal_strlit("Debug2");
        reveal_strlit("Debug3");
        reveal_strlit("ERROR");
        reveal_strlit("Error");
        reveal_strlit("FATAL");
        reveal_strlit("Fatal");
        reveal_strlit("INFO");
        reveal_strlit("Info");
        reveal_strlit("QUIET");
        reveal_strlit("Quiet");
        reveal_strlit("VERBOSE");
        reveal_strlit("Verbose");
        assert("DEBUG"@ =~= seq!['D', 'E', 'B', 'U', 'G']);
        assert("DEBUG1"@ =~= seq!['D', 'E', 'B', 'U', 'G', '1']);
        assert("DEBUG2"@ =~= seq!['D', 'E', 'B', 'U', 'G', '2']);
        assert("DEBUG3"@ =~= seq!['D', 'E', 'B', 'U', 'G', '3']);
        assert("Debug"@ =~= seq!['D', 'e', 'b', 'u', 'g']);
        assert("Debug1"@ =~= seq!['D', 'e', 'b', 'u', 'g', '1']);
        assert("Debug2"@ =~= seq!['D', 'e', 'b', 'u', 'g', '2']);
        assert("Debug3"@ =~= seq!['D', 'e', 'b', 'u', 'g', '3']);
        assert("ERROR"@ =~= seq!['E', 'R', 'R', 'O', 'R']);
        assert("Error"@ =~= seq!['E', 'r', 'r', 'o', 'r']);
        assert("FATAL"@ =~= seq!['F', 'A', 'T', 'A', 'L']);
        assert("Fatal"@ =~= seq!['F', 'a', 't', 'a', 'l']);
        assert("INFO"@ =~= seq!['I', 'N', 'F', 'O']);
        assert("Info"@ =~= seq!['I', 'n', 'f', 'o']);
        assert("QUIET"@ =~= seq!['Q', 'U', 'I', 'E', 'T']);
        assert("Quiet"@ =~= seq!['Q', 'u', 'i', 'e', 't']);
        assert("VERBOSE"@ =~= seq!['V', 'E', 'R', 'B', 'O', 'S', 'E']);
        assert("Verbose"@ =~= seq!['V', 'e', 'r', 'b', 'o', 's', 'e']);
    }

    /// The text the value is written as.
    pub fn text(&self) -> (r: &str)
        ensures
            r@ == self.spec_text(),
    {
        match self {
            LogLevel::Quiet => "QUIET",
            LogLevel::Fatal => "FATAL",
            LogLevel::Error => "ERROR",
            LogLevel::Info => "INFO",
            LogLevel::Verbose => "VERBOSE",
            LogLevel::Debug => "DEBUG",
            LogLevel::Debug1 => "DEBUG1",
            LogLevel::Debug2 => "DEBUG2",
            LogLevel::Debug3 => "DEBUG3",
        }
    }

    /// The value a text names, if any.
    pub fn from_text(s: &str) -> (r: Option<Self>)
        ensures
            r matches Some(v) ==> v.spec_text() == s@,
            r is None ==> forall|v: Self| #[trigger] v.spec_text() != s@,
            forall|v: Self| #[trigger] v.spec_text() == s@ ==> r == Some(v),
    {
        proof {
            reveal_strlit("QUIET");
            reveal_strlit("FATAL");
            reveal_strlit("ERROR");
            reveal_strlit("INFO");
            reveal_strlit("VERBOSE");
            reveal_strlit("DEBUG");
            reveal_strlit("DEBUG1");
            reveal_strlit("DEBUG2");
            reveal_strlit("DEBUG3");
            assert("QUIET"@ =~= seq!['Q', 'U', 'I', 'E', 'T']);
            assert("FATAL"@ =~= seq!['F', 'A', 'T', 'A', 'L']);
            assert("ERROR"@ =~= seq!['E', 'R', 'R', 'O', 'R']);
            assert("INFO"@ =~= seq!['I', 'N', 'F', 'O']);
            assert("VERBOSE"@ =~= seq!['V', 'E', 'R', 'B', 'O', 'S', 'E']);
            assert("DEBUG"@ =~= seq!['D', 'E', 'B', 'U', 'G']);
            assert("DEBUG1"@ =~= seq!['D', 'E', 'B', 'U', 'G', '1']);
            assert("DEBUG2"@ =~= seq!['D', 'E', 'B', 'U', 'G', '2']);
            assert("DEBUG3"@ =~= seq!['D', 'E', 'B', 'U', 'G', '3']);
        }
        if str_equal(s, "QUIET") {
            Some(LogLevel::Quiet)
        } else if str_equal(s, "FATAL") {
            Some(LogLevel::Fatal)
        } else if str_equal(s, "ERROR") {
            Some(LogLevel::Error)
        } else if str_equal(s, "INFO") {
            Some(LogLevel::Info)
        } else if str_equal(s, "VERBOSE") {
            Some(LogLevel::Verbose)
        } else if str_equal(s, "DEBUG") {
            Some(LogLevel::Debug)
        } else if str_equal(s, "DEBUG1") {
            Some(LogLevel::Debug1)
        } else if str_equal(s, "DEBUG2") {
            Some(LogLevel::Debug2)
        } else if str_equal(s, "DEBUG3") {
            Some(LogLevel::Debug3)
        } else {
            None
        }
    }
}

/// Whether and how root may log in.
#[derive(Debug, PartialEq, Eq, Structural, Clone, Copy)]
pub enum PermitRootLogin {
    Yes,
    ProhibitPassword,
    ForcedCommandsOnly,
    No,
}

impl PermitRootLogin {
    /// The text the value is written as in a configuration file.
    pub open spec fn spec_text(self) -> Seq<char> {
        match self {
            PermitRootLogin::Yes => "yes"@,
            PermitRootLogin::ProhibitPassword => "prohibit-password"@,
            PermitRootLogin::ForcedCommandsOnly => "forced-commands-only"@,
            PermitRootLogin::No => "no"@,
        }
    }

    /// The name of the value: its variant's name.
    pub open spec fn spec_name(self) -> Seq<char> {
        match self {
            PermitRootLogin::Yes => "Yes"@,
            PermitRootLogin::ProhibitPassword => "ProhibitPassword"@,
            PermitRootLogin::ForcedCommandsOnly => "ForcedCommandsOnly"@,
            PermitRootLogin::No => "No"@,
        }
    }

    /// A value is written as its name in kebab case.
    pub proof fn lemma_text_is_renamed_name(self)
        ensures
            self.spec_text() == kebab_case(self.spec_name()),
    {
        reveal_strlit("ForcedCommandsOnly");
        reveal_strlit("No");
        reveal_strlit("ProhibitPassword");
        reveal_strlit("Yes");
        reveal_strlit("forced-commands-only");
        reveal_strlit("no");
        reveal_strlit("prohibit-password");
        reveal_strlit("yes");
        assert("ForcedCommandsOnly"@ =~= seq!['F', 'o', 'r', 'c', 'e', 'd', 'C', 'o', 'm', 'm', 'a', 'n', 'd', 's', 'O', 'n', 'l', 'y']);
        assert("No"@ =~= seq!['N', 'o']);
        assert("ProhibitPassword"@ =~= seq!['P', 'r', 'o', 'h', 'i', 'b', 'i', 't', 'P', 'a', 's', 's', 'w', 'o', 'r', 'd']);
        assert("Yes"@ =~= seq!['Y', 'e', 's']);
        assert("forced-commands-only"@ =~= seq!['f', 'o', 'r', 'c', 'e', 'd', '-', 'c', 'o', 'm', 'm', 'a', 'n', 'd', 's', '-', 'o', 'n', 'l', 'y']);
        assert("no"@ =~= seq!['n', 'o']);
        assert("prohibit-password"@ =~= seq!['p', 'r', 'o', 'h', 'i', 'b', 'i', 't', '-', 'p', 'a', 's', 's', 'w', 'o', 'r', 'd']);
        assert("yes"@ =~= seq!['y', 'e', 's']);
        reveal_with_fuel(kebab_rest, 21);
    }

    /// The text the value is written as.
    pub fn text(&self) -> (r: &str)
        ensures
            r@ == self.spec_text(),
    {
        match self {
            PermitRootLogin::Yes => "yes",
            PermitRootLogin::ProhibitPassword => "prohibit-password",
            PermitRootLogin::ForcedCommandsOnly => "forced-commands-only",
            PermitRootLogin::No => "no",
        }
    }

    /// The value a text names, if any.
    pub fn from_text(s: &str) -> (r: Option<Self>)
        ensures
            r matches Some(v) ==> v.spec_text() == s@,
            r is None ==> forall|v: Self| #[trigger] v.spec_text() != s@,
            forall|v: Self| #[trigger] v.spec_text() == s@ ==> r == Some(v),
    {
        proof {
            reveal_strlit("yes");
            reveal_strlit("prohibit-password");
            reveal_strlit("forced-commands-only");
            reveal_strlit("no");
            assert("yes"@ =~= seq!['y', 'e', 's']);
            assert("prohibit-password"@ =~= seq!['p', 'r', 'o', 'h', 'i', 'b', 'i', 't', '-', 'p', 'a', 's', 's', 'w', 'o', 'r', 'd']);
            assert("forced-commands-only"@ =~= seq!['f', 'o', 'r', 'c', 'e', 'd', '-', 'c', 'o', 'm', 'm', 'a', 'n', 'd', 's', '-', 'o', 'n', 'l', 'y']);
            assert("no"@ =~= seq!['n', 'o']);
        }
        if str_equal(s, "yes") {
            Some(PermitRootLogin::Yes)
        } else if str_equal(s, "prohibit-password") {
            Some(PermitRootLogin::ProhibitPassword)
        } else if str_equal(s, "forced-commands-only") {
            Some(PermitRootLogin::ForcedCommandsOnly)
        } else if str_equal(s, "no") {
            Some(PermitRootLogin::No)
        } else {
            None
        }
    }
}

/// Whether tunnel devices may be forwarded, and at which layer.
#[derive(Debug, PartialEq, Eq, Structural, Clone, Copy)]
pub enum PermitTunnel {
    Yes,
    PointToPoint,
    Ethernet,
    No,
}

impl PermitTunnel {
    /// The text the value is written as in a configuration file.
    pub open spec fn spec_text(self) -> Seq<char> {
        match self {
            PermitTunnel::Yes => "yes"@,
            PermitTunnel::PointToPoint => "point-to-point"@,
            PermitTunnel::Ethernet => "ethernet"@,
            PermitTunnel::No => "no"@,
        }
    }

    /// The name of the value: its variant's name.
    pub open spec fn spec_name(self) -> Seq<char> {
        match self {
            PermitTunnel::Yes => "Yes"@,
            PermitTunnel::PointToPoint => "PointToPoint"@,
            PermitTunnel::Ethernet => "Ethernet"@,
            PermitTunnel::No => "No"@,
        }
    }

    /// A value is written as its name in kebab case.
    pub proof fn lemma_text_is_renamed_name(self)
        ensures
            self.spec_text() == kebab_case(self.spec_name()),
    {
        reveal_strlit("Ethernet");
        reveal_strlit("No");
        reveal_strlit("PointToPoint");
        reveal_strlit("Yes");
        reveal_strlit("ethernet");
        reveal_strlit("no");
        reveal_strlit("point-to-point");
        reveal_strlit("yes");
        assert("Ethernet"@ =~= seq!['E', 't', 'h', 'e', 'r', 'n', 'e', 't']);
        assert("No"@ =~= seq!['N', 'o']);
        assert("PointToPoint"@ =~= seq!['P', 'o', 'i', 'n', 't', 'T', 'o', 'P', 'o', 'i', 'n', 't']);
        assert("Yes"@ =~= seq!['Y', 'e', 's']);
        assert("ethernet"@ =~= seq!['e', 't', 'h', 'e', 'r', 'n', 'e', 't']);
        assert("no"@ =~= seq!['n', 'o']);
        assert("point-to-point"@ =~= seq!['p', 'o', 'i', 'n', 't', '-', 't', 'o', '-', 'p', 'o', 'i', 'n', 't']);
        assert("yes"@ =~= seq!['y', 'e', 's']);
        reveal_with_fuel(kebab_rest, 15);
    }

    /// The text the value is written as.
    pub fn text(&self) -> (r: &str)
        ensures
            r@ == self.spec_text(),
    {
        match self {
            PermitTunnel::Yes => "yes",
            PermitTunnel::PointToPoint => "point-to-point",
            PermitTunnel::Ethernet => "ethernet",
            PermitTunnel::No => "no",
        }
    }

    /// The value a text names, if any.
    pub fn from_text(s: &str) -> (r: Option<Self>)
        ensures
            r matches Some(v) ==> v.spec_text() == s@,
            r is None ==> forall|v: Self| #[trigger] v.spec_text() != s@,
            forall|v: Self| #[trigger] v.spec_text() == s@ ==> r == Some(v),
    {
        proof {
            reveal_strlit("yes");
            reveal_strlit("point-to-point");
            reveal_strlit("ethernet");
            reveal_strlit("no");
            assert("yes"@ =~= seq!['y', 'e', 's']);
            assert("point-to-point"@ =~= seq!['p', 'o', 'i', 'n', 't', '-', 't', 'o', '-', 'p', 'o', 'i', 'n', 't']);
            assert("ethernet"@ =~= seq!['e', 't', 'h', 'e', 'r', 'n', 'e', 't']);
            assert("no"@ =~= seq!['n', 'o']);
        }
        if str_equal(s, "yes") {
            Some(PermitTunnel::Yes)
        } else if str_equal(s, "point-to-point") {
            Some(PermitTunnel::PointToPoint)
        } else if str_equal(s, "ethernet") {
            Some(PermitTunnel::Ethernet)
        } else if str_equal(s, "no") {
            Some(PermitTunnel::No)
        } else {
            None
        }
    }
}

/// The syslog facility messages are logged under.
#[derive(Debug, PartialEq, Eq, Structural, Clone, Copy)]
pub enum SyslogFacility {
    Daemon,
    User,
    Auth,
    Local0,
    Local1,
    Local2,
    Local3,
    Local4,
    Local5,
    Local6,
    Local7,
}

impl SyslogFacility {
    /// The text the value is written as in a configuration file.
    pub open spec fn spec_text(self) -> Seq<char> {
        match self {
            SyslogFacility::Daemon => "DAEMON"@,
            SyslogFacility::User => "USER"@,
            SyslogFacility::Auth => "AUTH"@,
            SyslogFacility::Local0 => "LOCAL0"@,
            SyslogFacility::Local1 => "LOCAL1"@,
            SyslogFacility::Local2 => "LOCAL2"@,
            SyslogFacility::Local3 => "LOCAL3"@,
            SyslogFacility::Local4 => "LOCAL4"@,
            SyslogFacility::Local5 => "LOCAL5"@,
            SyslogFacility::Local6 => "LOCAL6"@,
            SyslogFacility::Local7 => "LOCAL7"@,
        }
    }

    /// The name of the value: its variant's name.
    pub open spec fn spec_name(self) -> Seq<char> {
        match self {
            SyslogFacility::Daemon => "Daemon"@,
            SyslogFacility::User => "User"@,
            SyslogFacility::Auth => "Auth"@,
            SyslogFacility::Local0 => "Local0"@,
            SyslogFacility::Local1 => "Local1"@,
            SyslogFacility::Local2 => "Local2"@,
            SyslogFacility::Local3 => "Local3"@,
            SyslogFacility::Local4 => "Local4"@,
            SyslogFacility::Local5 => "Local5"@,
            SyslogFacility::Local6 => "Local6"@,
            SyslogFacility::Local7 => "Local7"@,
        }
    }

    /// A value is written as its name in upper case.
    pub proof fn lemma_text_is_renamed_name(self)
        ensures
            self.spec_text() == upper_case(self.spec_name()),
    {
        reveal_strlit("AUTH");
        reveal_strlit("Auth");
        reveal_strlit("DAEMON");
        reveal_strlit("Daemon");
        reveal_strlit("LOCAL0");
        reveal_strlit("LOCAL1");
        reveal_strlit("LOCAL2");
        reveal_strlit("LOCAL3");
        reveal_strlit("LOCAL4");
        reveal_strlit("LOCAL5");
        reveal_strlit("LOCAL6");
        reveal_strlit("LOCAL7");
        reveal_strlit("Local0");
        reveal_strlit("Local1");
        reveal_strlit("Local2");
        reveal_strlit("Local3");
        reveal_strlit("Local4");
        reveal_strlit("Local5");
        reveal_strlit("Local6");
        reveal_strlit("Local7");
        reveal_strlit("USER");
        reveal_strlit("User");
        assert("AUTH"@ =~= seq!['A', 'U', 'T', 'H']);
        assert("Auth"@ =~= seq!['A', 'u', 't', 'h']);
        assert("DAEMON"@ =~= seq!['D', 'A', 'E', 'M', 'O', 'N']);
        assert("Daemon"@ =~= seq!['D', 'a', 'e', 'm', 'o', 'n']);
        assert("LOCAL0"@ =~= seq!['L', 'O', 'C', 'A', 'L', '0']);
        assert("LOCAL1"@ =~= seq!['L', 'O', 'C', 'A', 'L', '1']);
        assert("LOCAL2"@ =~= seq!['L', 'O', 'C', 'A', 'L', '2']);
        assert("LOCAL3"@ =~= seq!['L', 'O', 'C', 'A', 'L', '3']);
        assert("LOCAL4"@ =~= seq!['L', 'O', 'C', 'A', 'L', '4']);
        assert("LOCAL5"@ =~= seq!['L', 'O', 'C', 'A', 'L', '5']);
        assert("LOCAL6"@ =~= seq!['L', 'O', 'C', 'A', 'L', '6']);
        assert("LOCAL7"@ =~= seq!['L', 'O', 'C', 'A', 'L', '7']);
        assert("Local0"@ =~= seq!['L', 'o', 'c', 'a', 'l', '0']);
        assert("Local1"@ =~= seq!['L', 'o', 'c', 'a', 'l', '1']);
        assert("Local2"@ =~= seq!['L', 'o', 'c', 'a', 'l', '2']);
        assert("Local3"@ =~= seq!['L', 'o', 'c', 'a', 'l', '3']);
        assert("Local4"@ =~= seq!['L', 'o', 'c', 'a', 'l', '4']);
        assert("Local5"@ =~= seq!['L', 'o', 'c', 'a', 'l', '5']);
        assert("Local6"@ =~= seq!['L', 'o', 'c', 'a', 'l', '6']);
        assert("Local7"@ =~= seq!['L', 'o', 'c', 'a', 'l', '7']);
        assert("USER"@ =~= seq!['U', 'S', 'E', 'R']);
        assert("User"@ =~= seq!['U', 's', 'e', 'r']);
    }

    /// The text the value is written as.
    pub fn text(&self) -> (r: &str)
        ensures
            r@ == self.spec_text(),
    {
        match self {
            SyslogFacility::Daemon => "DAEMON",
            SyslogFacility::User => "USER",
            SyslogFacility::Auth => "AUTH",
            SyslogFacility::Local0 => "LOCAL0",
            SyslogFacility::Local1 => "LOCAL1",
            SyslogFacility::Local2 => "LOCAL2",
            SyslogFacility::Local3 => "LOCAL3",
            SyslogFacility::Local4 => "LOCAL4",
            SyslogFacility::Local5 => "LOCAL5",
            SyslogFacility::Local6 => "LOCAL6",
            SyslogFacility::Local7 => "LOCAL7",
        }
    }

    /// The value a text names, if any.
    pub fn from_text(s: &str) -> (r: Option<Self>)
        ensures
            r matches Some(v) ==> v.spec_text() == s@,
            r is None ==> forall|v: Self| #[trigger] v.spec_text() != s@,
            forall|v: Self| #[trigger] v.spec_text() == s@ ==> r == Some(v),
    {
        proof {
            reveal_strlit("DAEMON");
            reveal_strlit("USER");
            reveal_strlit("AUTH");
            reveal_strlit("LOCAL0");
            reveal_strlit("LOCAL1");
            reveal_strlit("LOCAL2");
            reveal_strlit("LOCAL3");
            reveal_strlit("LOCAL4");
            reveal_strlit("LOCAL5");
            reveal_strlit("LOCAL6");
            reveal_strlit("LOCAL7");
            assert("DAEMON"@ =~= seq!['D', 'A', 'E', 'M', 'O', 'N']);
            assert("USER"@ =~= seq!['U', 'S', 'E', 'R']);
            assert("AUTH"@ =~= seq!['A', 'U', 'T', 'H']);
            assert("LOCAL0"@ =~= seq!['L', 'O', 'C', 'A', 'L', '0']);
            assert("LOCAL1"@ =~= seq!['L', 'O', 'C', 'A', 'L', '1']);
            assert("LOCAL2"@ =~= seq!['L', 'O', 'C', 'A', 'L', '2']);
            assert("LOCAL3"@ =~= seq!['L', 'O', 'C', 'A', 'L', '3']);
            assert("LOCAL4"@ =~= seq!['L', 'O', 'C', 'A', 'L', '4']);
            assert("LOCAL5"@ =~= seq!['L', 'O', 'C', 'A', 'L', '5']);
            assert("LOCAL6"@ =~= seq!['L', 'O', 'C', 'A', 'L', '6']);
            assert("LOCAL7"@ =~= seq!['L', 'O', 'C', 'A', 'L', '7']);
        }
        if str_equal(s, "DAEMON") {
            Some(SyslogFacility::Daemon)
        } else if str_equal(s, "USER") {
            Some(SyslogFacility::User)
        } else if str_equal(s, "AUTH") {
            Some(SyslogFacility::Auth)
        } else if str_equal(s, "LOCAL0") {
            Some(SyslogFacility::Local0)
        } else if str_equal(s, "LOCAL1") {
            Some(SyslogFacility::Local1)
        } else if str_equal(s, "LOCAL2") {
            Some(SyslogFacility::Local2)
        } else if str_equal(s, "LOCAL3") {
            Some(SyslogFacility::Local3)
        } else if str_equal(s, "LOCAL4") {
            Some(SyslogFacility::Local4)
        } else if str_equal(s, "LOCAL5") {
            Some(SyslogFacility::Local5)
        } else if str_equal(s, "LOCAL6") {
            Some(SyslogFacility::Local6)
        } else if str_equal(s, "LOCAL7") {
            Some(SyslogFacility::Local7)
        } else {
            None
        }
    }
}
} // verus!
