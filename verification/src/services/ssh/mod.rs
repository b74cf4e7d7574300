//! ssh client configuration: a `Host` block per host, its settings indented below it.

use vstd::prelude::*;

use crate::adapters::key_value::{multi_marker, table_lines, BoolStyle, KeyValueAdapter, KvFormat};
use crate::adapters::AdapterError;
use crate::services::types::{FileArtifact, Paths, Plan};
use crate::text::{spaces, spec_join, spec_path_join};
use crate::toml_value::TomlTable;

pub mod ssh_system;
pub mod ssh_user;
pub mod enums;

pub use ssh_system::SshSystemService;
pub use ssh_user::SshUserService;

verus! {

/// The hosts to configure, in order, each with its settings.
#[derive(Debug, PartialEq)]
pub struct SshConfig {
    pub hosts: Vec<(String, TomlTable)>,
}

/// Where the ssh configuration goes and whether it belongs to root.
pub trait SshService {
    /// The configuration file.
    spec fn spec_config_path(paths: Paths) -> Seq<char>;

    /// Whether the file belongs to root.
    spec fn spec_requires_root() -> bool;

    /// The configuration file.
    fn config_path(paths: &Paths) -> (r: String)
        ensures
            r@ == Self::spec_config_path(*paths),
    ;

    /// Whether the file belongs to root.
    fn requires_root() -> (b: bool)
        ensures
            b == Self::spec_requires_root(),
    ;
}

/// How host settings are written: `Key value` indented by four spaces, booleans as `yes`/`no`,
/// each array item on a line of its own.
pub open spec fn host_format() -> KvFormat {
    KvFormat { separator: seq![' '], bool_style: BoolStyle::YesNo, indent: 4, sequence_separator: multi_marker() }
}

/// The lines of one host block.
pub open spec fn host_lines(name: Seq<char>, settings: TomlTable) -> Seq<Seq<char>> {
    seq!["Host "@ + name] + table_lines(host_format(), settings@) + seq![Seq::<char>::empty()]
}

/// The lines of all host blocks.
pub open spec fn hosts_lines(hosts: Seq<(String, TomlTable)>) -> Seq<Seq<char>>
    decreases hosts.len(),
{
    if hosts.len() == 0 {
        Seq::empty()
    } else {
        hosts_lines(hosts.drop_last()) + host_lines(hosts.last().0@, hosts.last().1)
    }
}

/// The text of the configuration file.
pub open spec fn ssh_text(hosts: Seq<(String, TomlTable)>) -> Seq<char> {
    spec_join(seq!["# Managed by spec"@] + hosts_lines(hosts), seq!['\n'])
}

/// What the plan of `S` is: its configuration file with a block per host; refused when a
/// host has no setting.
pub open spec fn is_ssh_plan<S: SshService>(config: SshConfig, paths: Paths, r: Result<Plan, AdapterError>) -> bool {
    &&& r is Ok <==> (forall|i: int| 0 <= i < config.hosts@.len() ==> (#[trigger] config.hosts@[i]).1@.len() > 0)
    &&& r matches Err(e) ==> e == AdapterError::EmptyTable
    &&& r matches Ok(p) ==> {
        &&& p.files@.len() == 1
        &&& p.files@[0].path@ == S::spec_config_path(paths)
        &&& p.files@[0].content@ == ssh_text(config.hosts@)
        &&& p.files@[0].permissions == 0o644
        &&& p.files@[0].requires_root == S::spec_requires_root()
        &&& p.service_state is None
        &&& p.addl_service_states is None
    }
}

/// The plan of `S`.
pub fn plan<S: SshService>(config: &SshConfig, paths: &Paths) -> (r: Result<Plan, AdapterError>)
    ensures
        is_ssh_plan::<S>(*config, *paths, r),
{
    proof {
        reveal_strlit(" ");
        reveal_strlit("#");
        reveal_strlit("Host");
        reveal_strlit("Host ");
        reveal_strlit("Managed by spec");
        reveal_strlit("# Managed by spec");
        assert(" "@ =~= seq![' ']);
        assert("#"@ + seq![' '] + "Managed by spec"@ =~= "# Managed by spec"@);
    }
    let mut adapter = KeyValueAdapter::new(" ", "#").bool_style(BoolStyle::YesNo);
    adapter.comment("Managed by spec");
    let hosts = &config.hosts;
    let mut i: usize = 0;
    while i < hosts.len()
        invariant
            i <= hosts@.len(),
            *hosts == config.hosts,
            adapter@.indent_level == 0,
            adapter@.indent_width == 4,
            adapter@.separator == seq![' '],
            adapter@.bool_style == BoolStyle::YesNo,
            adapter@.sequence_separator == multi_marker(),
            adapter@.lines == seq!["# Managed by spec"@] + hosts_lines(hosts@.take(i as int)),
            forall|k: int| 0 <= k < i ==> (#[trigger] hosts@[k]).1@.len() > 0,
        decreases hosts.len() - i,
    {
        let ghost before = adapter@;
        proof {
            reveal_strlit(" ");
            reveal_strlit("Host");
            reveal_strlit("Host ");
            assert(" "@ =~= seq![' ']);
            assert(spaces(0) + "Host"@ + seq![' '] + hosts@[i as int].0@ =~= "Host "@ + hosts@[i as int].0@);
        }
        assert(adapter@.indent_level * adapter@.indent_width == 0) by (nonlinear_arith)
            requires
                adapter@.indent_level == 0,
        ;
        adapter.set("Host", hosts[i].0.as_str());
        adapter.indent();
        assert(adapter@.indent_level * adapter@.indent_width == 4) by (nonlinear_arith)
            requires
                adapter@.indent_level == 1,
                adapter@.indent_width == 4,
        ;
        assert(adapter@.format() =~= host_format());
        let ghost mid = adapter@.lines;
        match adapter.parse_struct(&hosts[i].1) {
            Ok(_) => {},
            Err(e) => {
                return Err(e);
            },
        }
        adapter.outdent();
        adapter.empty_line();
        assert(hosts@.take(i + 1).drop_last() =~= hosts@.take(i as int));
        assert(hosts@.take(i + 1).last() == hosts@[i as int]);
        assert(adapter@.lines =~= seq!["# Managed by spec"@] + hosts_lines(hosts@.take(i + 1)));
        i = i + 1;
    }
    assert(hosts@.take(hosts@.len() as int) =~= hosts@);
    let file = FileArtifact {
        path: S::config_path(paths),
        content: adapter.build(),
        permissions: 0o644,
        requires_root: S::requires_root(),
    };
    let mut files = Vec::new();
    files.push(file);
    Ok(Plan { files, service_state: None, addl_service_states: None })
}

/// The user's ssh configuration is `.ssh/config` in the home directory and belongs to the user;
/// the system's is `ssh/ssh_config` in the system configuration directory and belongs to root.
pub proof fn lemma_ssh_config_files(paths: Paths)
    ensures
        <SshUserService as SshService>::spec_config_path(paths) == spec_path_join(paths.user_home@, ".ssh/config"@),
        !<SshUserService as SshService>::spec_requires_root(),
        <SshSystemService as SshService>::spec_config_path(paths) == spec_path_join(paths.system_config@, "ssh/ssh_config"@),
        <SshSystemService as SshService>::spec_requires_root(),
{
}

} // verus!
