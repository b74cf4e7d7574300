//! What applying a plan does: which files count as changed, which commands run, in which order,
//! and which files of the previous run are left over.

use vstd::prelude::*;

use crate::services::types::ServiceState;
use crate::services::{get_service_by_name, service_named, ServiceKind};
use crate::text::{
    chars_of, concat, find_space, first_space, lemma_split_join, spec_digits, spec_join, split_on_spaces,
    split_spaces, string_of, str_equal, u64_to_digits, views,
};
use crate::toml_value::{Entry, TomlTable, TomlValue};
use crate::utils::{hash_bytes, sha256_digest, spec_hex_lower};
use vstd::string::StringSliceAdditionalSpecFns;

verus! {

/// How a wanted flag is shown: `true`, `false`, or `ignored` when it is not managed.
pub open spec fn system_state_text(val: Option<bool>) -> Seq<char> {
    match val {
        Some(true) => "true"@,
        Some(false) => "false"@,
        None => "ignored"@,
    }
}

/// How a wanted flag is shown.
pub fn render_system_state(val: Option<bool>) -> (r: String)
    ensures
        r@ == system_state_text(val),
{
    match val {
        Some(true) => "true",
        Some(false) => "false",
        None => "ignored",
    }.to_string()
}

/// The program and arguments a command line runs: split at its first space into the program
/// and the rest, the rest split at every space; behind `sudo` when asked.
pub open spec fn spec_command_line(cmd: Seq<char>, requires_sudo: bool) -> (Seq<char>, Seq<Seq<char>>) {
    match first_space(cmd) {
        Some(i) => {
            let program = cmd.subrange(0, i);
            let args = split_spaces(cmd.subrange(i + 1, cmd.len() as int));
            if requires_sudo {
                ("sudo"@, seq![program] + args)
            } else {
                (program, args)
            }
        },
        None => if requires_sudo {
            ("sudo"@, seq![cmd])
        } else {
            (cmd, Seq::empty())
        },
    }
}

/// The program and arguments a command line runs.
pub fn command_line(cmd: &str, requires_sudo: bool) -> (r: (String, Vec<String>))
    ensures
        r.0@ == spec_command_line(cmd@, requires_sudo).0,
        views(r.1@) == spec_command_line(cmd@, requires_sudo).1,
{
    let cs = chars_of(cmd);
    match find_space(&cs) {
        Some(i) => {
            assert(i < cs.len());
            let program = string_of(&cs, 0, i);
            let rest = string_of(&cs, i + 1, cs.len());
            let args = split_on_spaces(rest.as_str());
            if requires_sudo {
                let mut all: Vec<String> = Vec::new();
                all.push(program);
                let mut tail = args;
                let ghost t = tail@;
                all.append(&mut tail);
                assert(views(all@) =~= seq![cs@.subrange(0, i as int)] + views(t));
                ("sudo".to_string(), all)
            } else {
                (program, args)
            }
        },
        None => {
            if requires_sudo {
                let mut all: Vec<String> = Vec::new();
                all.push(cmd.to_string());
                assert(views(all@) =~= seq![cmd@]);
                ("sudo".to_string(), all)
            } else {
                let v: Vec<String> = Vec::new();
                assert(views(v@) =~= Seq::<Seq<char>>::empty());
                (cmd.to_string(), v)
            }
        },
    }
}

/// Program and arguments, joined by spaces, give the command line back, behind `sudo ` when
/// asked.
pub proof fn lemma_command_line_roundtrip(cmd: Seq<char>, requires_sudo: bool)
    ensures
        ({
            let (program, args) = spec_command_line(cmd, requires_sudo);
            spec_join(seq![program] + args, seq![' ']) == if requires_sudo { "sudo "@ + cmd } else { cmd }
        }),
{
    reveal_strlit("sudo");
    reveal_strlit("sudo ");
    assert("sudo "@ =~= "sudo"@ + seq![' ']);
    let (program, args) = spec_command_line(cmd, requires_sudo);
    match first_space(cmd) {
        Some(i) => {
            let p = cmd.subrange(0, i);
            let rest = cmd.subrange(i + 1, cmd.len() as int);
            crate::text::lemma_first_space(cmd);
            let pieces = split_spaces(rest);
            lemma_split_join(rest);
            crate::text::lemma_split_nonempty(rest);
            crate::text::lemma_join_cons(p, pieces, seq![' ']);
            assert(cmd =~= p + seq![' '] + rest);
            if requires_sudo {
                crate::text::lemma_join_cons("sudo"@, seq![p] + pieces, seq![' ']);
                assert(seq![program] + args =~= seq!["sudo"@] + (seq![p] + pieces));
            }
        },
        None => {
            crate::text::lemma_join_cons(cmd, Seq::empty(), seq![' ']);
            if requires_sudo {
                crate::text::lemma_join_cons("sudo"@, seq![cmd], seq![' ']);
                crate::text::lemma_join_cons(cmd, Seq::empty(), seq![' ']);
                assert(seq![cmd] + Seq::<Seq<char>>::empty() =~= seq![cmd]);
            } else {
                assert(seq![program] + args =~= seq![cmd] + Seq::<Seq<char>>::empty());
            }
        },
    }
}

/// One step of bringing a service to its wanted state.
#[derive(Debug, PartialEq)]
pub enum ServiceAction {
    /// A step shown to the user.
    Step(String),
    /// A reload command, whose failure is reported with its output.
    Reload { cmd: String, requires_sudo: bool },
    /// A command whose outcome is not looked at.
    Run { cmd: String, requires_sudo: bool },
    /// A note shown to the user.
    Info(String),
}

/// A step, by the texts it holds.
pub enum ActionModel {
    Step(Seq<char>),
    Reload(Seq<char>, bool),
    Run(Seq<char>, bool),
    Info(Seq<char>),
}

/// The texts an action holds.
pub open spec fn action_model(a: ServiceAction) -> ActionModel {
    match a {
        ServiceAction::Step(s) => ActionModel::Step(s@),
        ServiceAction::Reload { cmd, requires_sudo } => ActionModel::Reload(cmd@, requires_sudo),
        ServiceAction::Run { cmd, requires_sudo } => ActionModel::Run(cmd@, requires_sudo),
        ServiceAction::Info(s) => ActionModel::Info(s@),
    }
}

/// The steps for a service: a reload when its files changed, then start or stop and enable or
/// disable as wanted, none of these commands in a dry run, and a closing note.
pub open spec fn spec_service_actions(state: ServiceState, needs_reload: bool, dry_run: bool) -> Seq<ActionModel> {
    let reload = if needs_reload {
        seq![ActionModel::Step("Reload service: "@ + state.name@)] + if !dry_run {
            seq![ActionModel::Reload(state.reload_cmd@, state.requires_sudo)]
        } else {
            Seq::empty()
        }
    } else {
        Seq::empty()
    };
    let running = match state.running {
        Some(true) if !dry_run => seq![ActionModel::Run(state.start_cmd@, state.requires_sudo)],
        Some(false) if !dry_run => seq![ActionModel::Run(state.stop_cmd@, state.requires_sudo)],
        _ => Seq::empty(),
    };
    let enabled = match state.enabled {
        Some(true) if !dry_run => seq![ActionModel::Run(state.enable_cmd@, state.requires_sudo)],
        Some(false) if !dry_run => seq![ActionModel::Run(state.disable_cmd@, state.requires_sudo)],
        _ => Seq::empty(),
    };
    reload + running + enabled + seq![
        ActionModel::Info(
            "[Service] Ensure "@ + state.name@ + " is enabled="@ + system_state_text(state.enabled) + " active="@
                + system_state_text(state.running),
        ),
    ]
}

/// Whether the steps run `cmd`.
pub open spec fn runs_command(acts: Seq<ActionModel>, cmd: Seq<char>, sudo: bool) -> bool {
    acts.contains(ActionModel::Run(cmd, sudo))
}

/// The steps `acts` bring the service to its wanted state: a service that should run is
/// started and not stopped, one that should not run is stopped and not started, likewise it is
/// enabled or disabled as wanted, and a reload is asked for exactly when its files changed. (A
/// command counts as not run where it differs from the service's other commands.)
pub open spec fn brings_to_wanted_state(acts: Seq<ActionModel>, state: ServiceState, needs_reload: bool) -> bool {
    let sudo = state.requires_sudo;
    &&& state.running == Some(true) ==> runs_command(acts, state.start_cmd@, sudo)
    &&& state.running == Some(false) ==> runs_command(acts, state.stop_cmd@, sudo)
    &&& state.enabled == Some(true) ==> runs_command(acts, state.enable_cmd@, sudo)
    &&& state.enabled == Some(false) ==> runs_command(acts, state.disable_cmd@, sudo)
    &&& state.running == Some(true) && state.stop_cmd@ != state.start_cmd@ && state.stop_cmd@
        != state.enable_cmd@ && state.stop_cmd@ != state.disable_cmd@ ==> !runs_command(acts, state.stop_cmd@, sudo)
    &&& state.running == Some(false) && state.start_cmd@ != state.stop_cmd@ && state.start_cmd@
        != state.enable_cmd@ && state.start_cmd@ != state.disable_cmd@ ==> !runs_command(acts, state.start_cmd@, sudo)
    &&& state.enabled == Some(true) && state.disable_cmd@ != state.enable_cmd@ && state.disable_cmd@
        != state.start_cmd@ && state.disable_cmd@ != state.stop_cmd@ ==> !runs_command(acts, state.disable_cmd@, sudo)
    &&& state.enabled == Some(false) && state.enable_cmd@ != state.disable_cmd@ && state.enable_cmd@
        != state.start_cmd@ && state.enable_cmd@ != state.stop_cmd@ ==> !runs_command(acts, state.enable_cmd@, sudo)
    &&& acts.contains(ActionModel::Reload(state.reload_cmd@, sudo)) <==> needs_reload
}

/// Outside a dry run the steps bring the service to its wanted state.
pub proof fn lemma_wanted_state_commands(state: ServiceState, needs_reload: bool)
    ensures
        brings_to_wanted_state(spec_service_actions(state, needs_reload, false), state, needs_reload),
{
    let acts = spec_service_actions(state, needs_reload, false);
    let sudo = state.requires_sudo;
    let reload = if needs_reload {
        seq![ActionModel::Step("Reload service: "@ + state.name@), ActionModel::Reload(state.reload_cmd@, sudo)]
    } else {
        Seq::<ActionModel>::empty()
    };
    let running = match state.running {
        Some(true) => seq![ActionModel::Run(state.start_cmd@, sudo)],
        Some(false) => seq![ActionModel::Run(state.stop_cmd@, sudo)],
        None => Seq::<ActionModel>::empty(),
    };
    let enabled = match state.enabled {
        Some(true) => seq![ActionModel::Run(state.enable_cmd@, sudo)],
        Some(false) => seq![ActionModel::Run(state.disable_cmd@, sudo)],
        None => Seq::<ActionModel>::empty(),
    };
    let info = ActionModel::Info(
        "[Service] Ensure "@ + state.name@ + " is enabled="@ + system_state_text(state.enabled) + " active="@
            + system_state_text(state.running),
    );
    assert(acts =~= reload + running + enabled + seq![info]);
    let rl = reload.len() as int;
    let nl = running.len() as int;
    if state.running is Some {
        assert(acts[rl] == running[0]);
    }
    if state.enabled is Some {
        assert(acts[rl + nl] == enabled[0]);
    }
    if needs_reload {
        assert(acts[1] == ActionModel::Reload(state.reload_cmd@, sudo));
    }
    assert forall|i: int| 0 <= i < acts.len() implies {
        ||| acts[i] is Step
        ||| acts[i] is Info
        ||| (acts[i] is Reload && needs_reload && acts[i] == ActionModel::Reload(state.reload_cmd@, sudo))
        ||| (acts[i] is Run && i == rl && nl == 1 && acts[i] == running[0])
        ||| (acts[i] is Run && i == rl + nl && acts[i] == enabled[0])
    } by {
        if i < rl {
        } else if i < rl + nl {
        } else if i < rl + nl + enabled.len() {
        } else {
        }
    }
}

/// A dry run only tells: none of its steps runs a command.
pub proof fn lemma_dry_run_runs_no_command(state: ServiceState, needs_reload: bool)
    ensures
        forall|i: int|
            0 <= i < spec_service_actions(state, needs_reload, true).len() ==> {
                let a = #[trigger] spec_service_actions(state, needs_reload, true)[i];
                a is Step || a is Info
            },
{
    let acts = spec_service_actions(state, needs_reload, true);
    let info = ActionModel::Info(
        "[Service] Ensure "@ + state.name@ + " is enabled="@ + system_state_text(state.enabled) + " active="@
            + system_state_text(state.running),
    );
    if needs_reload {
        assert(acts =~= seq![ActionModel::Step("Reload service: "@ + state.name@), info]);
    } else {
        assert(acts =~= seq![info]);
    }
}

/// The steps for a service.
pub fn service_actions(state: &ServiceState, needs_reload: bool, dry_run: bool) -> (r: Vec<ServiceAction>)
    ensures
        r@.map_values(|a: ServiceAction| action_model(a)) == spec_service_actions(*state, needs_reload, dry_run),
        !dry_run ==> brings_to_wanted_state(r@.map_values(|a: ServiceAction| action_model(a)), *state, needs_reload),
{
    proof {
        lemma_wanted_state_commands(*state, needs_reload);
    }
    let mut r: Vec<ServiceAction> = Vec::new();
    if needs_reload {
        r.push(ServiceAction::Step(concat("Reload service: ", state.name.as_str())));
        if !dry_run {
            r.push(ServiceAction::Reload { cmd: state.reload_cmd.clone(), requires_sudo: state.requires_sudo });
        }
    }
    if !dry_run {
        if let Some(running) = state.running {
            let cmd = if running { state.start_cmd.clone() } else { state.stop_cmd.clone() };
            r.push(ServiceAction::Run { cmd, requires_sudo: state.requires_sudo });
        }
        if let Some(enabled) = state.enabled {
            let cmd = if enabled { state.enable_cmd.clone() } else { state.disable_cmd.clone() };
            r.push(ServiceAction::Run { cmd, requires_sudo: state.requires_sudo });
        }
    }
    let mut note = concat("[Service] Ensure ", state.name.as_str());
    note.append(" is enabled=");
    note.append(render_system_state(state.enabled).as_str());
    note.append(" active=");
    note.append(render_system_state(state.running).as_str());
    r.push(ServiceAction::Info(note));
    assert(r@.map_values(|a: ServiceAction| action_model(a)) =~= spec_service_actions(*state, needs_reload, dry_run));
    r
}

/// The files of `prev` that are not among `new`, in order.
pub open spec fn spec_orphans(new: Seq<Seq<char>>, prev: Seq<Seq<char>>) -> Seq<Seq<char>>
    decreases prev.len(),
{
    if prev.len() == 0 {
        Seq::empty()
    } else if new.contains(prev.last()) {
        spec_orphans(new, prev.drop_last())
    } else {
        spec_orphans(new, prev.drop_last()).push(prev.last())
    }
}

/// A file is left over exactly when the previous run managed it and this run does not.
pub proof fn lemma_orphans(new: Seq<Seq<char>>, prev: Seq<Seq<char>>, f: Seq<char>)
    ensures
        spec_orphans(new, prev).contains(f) <==> prev.contains(f) && !new.contains(f),
    decreases prev.len(),
{
    if prev.len() > 0 {
        lemma_orphans(new, prev.drop_last(), f);
        assert(prev =~= prev.drop_last().push(prev.last()));
        if prev.drop_last().contains(f) {
            let k = choose|k: int| 0 <= k < prev.drop_last().len() && prev.drop_last()[k] == f;
            assert(prev[k] == f);
        }
        if prev.contains(f) && !prev.drop_last().contains(f) {
            let k = choose|k: int| 0 <= k < prev.len() && prev[k] == f;
            if k < prev.len() - 1 {
                assert(prev.drop_last()[k] == f);
            }
        }
        if !new.contains(prev.last()) {
            let o = spec_orphans(new, prev.drop_last());
            if o.contains(f) {
                let k = choose|k: int| 0 <= k < o.len() && o[k] == f;
                assert(o.push(prev.last())[k] == f);
            }
            if o.push(prev.last()).contains(f) && !o.contains(f) {
                let k = choose|k: int| 0 <= k < o.len() + 1 && o.push(prev.last())[k] == f;
                if k < o.len() {
                    assert(o[k] == f);
                }
            }
            if f == prev.last() {
                assert(o.push(prev.last())[o.len() as int] == f);
            }
        }
    }
}

/// Whether `files` holds `f`.
fn holds(files: &Vec<String>, f: &String) -> (r: bool)
    ensures
        r == views(files@).contains(f@),
{
    let mut i: usize = 0;
    while i < files.len()
        invariant
            i <= files@.len(),
            forall|k: int| 0 <= k < i ==> files@[k]@ != f@,
        decreases files.len() - i,
    {
        if files[i] == *f {
            assert(views(files@)[i as int] == f@);
            return true;
        }
        i = i + 1;
    }
    proof {
        if views(files@).contains(f@) {
            let k = choose|k: int| 0 <= k < views(files@).len() && views(files@)[k] == f@;
            assert(files@[k]@ == f@);
        }
    }
    false
}

/// The files the previous run managed and this run does not, in order: to be removed.
pub fn orphaned_files(new_run_files: &Vec<String>, prev_run_files: &Vec<String>) -> (r: Vec<String>)
    ensures
        views(r@) == spec_orphans(views(new_run_files@), views(prev_run_files@)),
        forall|f: Seq<char>| #[trigger] views(r@).contains(f) <==> views(prev_run_files@).contains(f)
            && !views(new_run_files@).contains(f),
{
    let mut r: Vec<String> = Vec::new();
    let ghost new = views(new_run_files@);
    let ghost prev = views(prev_run_files@);
    let mut i: usize = 0;
    while i < prev_run_files.len()
        invariant
            i <= prev_run_files@.len(),
            new == views(new_run_files@),
            prev == views(prev_run_files@),
            views(r@) == spec_orphans(new, prev.take(i as int)),
        decreases prev_run_files.len() - i,
    {
        assert(prev.take(i + 1).drop_last() =~= prev.take(i as int));
        assert(prev.take(i + 1).last() == prev[i as int]);
        if !holds(new_run_files, &prev_run_files[i]) {
            let f = prev_run_files[i].clone();
            proof {
                crate::text::lemma_views_push_text(r@, f);
            }
            r.push(f);
        }
        i = i + 1;
    }
    assert(prev.take(prev.len() as int) =~= prev);
    proof {
        assert forall|f: Seq<char>| #[trigger] views(r@).contains(f) <==> prev.contains(f) && !new.contains(f) by {
            lemma_orphans(new, prev, f);
        }
    }
    r
}

/// The sections of the configuration that are tables, each with the service its name names.
pub open spec fn spec_sections(es: Seq<Entry>) -> Seq<(Seq<char>, Option<ServiceKind>)>
    decreases es.len(),
{
    if es.len() == 0 {
        Seq::empty()
    } else if es.last().1 is Table {
        spec_sections(es.drop_last()).push((es.last().0@, service_named(es.last().0@)))
    } else {
        spec_sections(es.drop_last())
    }
}

/// The sections of the configuration to apply, in order: the tables among its entries, each
/// with the service its name names (`None` for an unknown name, which is reported).
pub fn service_sections(data: &TomlTable) -> (r: Vec<(String, Option<ServiceKind>)>)
    ensures
        r@.map_values(|p: (String, Option<ServiceKind>)| (p.0@, p.1)) == spec_sections(data@),
{
    let es = data.entries();
    let mut r: Vec<(String, Option<ServiceKind>)> = Vec::new();
    let mut i: usize = 0;
    while i < es.len()
        invariant
            i <= es@.len(),
            es@ == data@,
            r@.map_values(|p: (String, Option<ServiceKind>)| (p.0@, p.1)) == spec_sections(es@.take(i as int)),
        decreases es.len() - i,
    {
        assert(es@.take(i + 1).drop_last() =~= es@.take(i as int));
        assert(es@.take(i + 1).last() == es@[i as int]);
        if let TomlValue::Table(_) = &es[i].1 {
            let kind = get_service_by_name(es[i].0.as_str());
            r.push((es[i].0.clone(), kind));
            assert(r@.map_values(|p: (String, Option<ServiceKind>)| (p.0@, p.1)) =~= spec_sections(es@.take(i + 1)));
        }
        i = i + 1;
    }
    assert(es@.take(es@.len() as int) =~= es@);
    r
}

/// Whether a new or changed file is written: when it was confirmed, and never in a dry run.
pub fn should_write(confirmed: bool, dry_run: bool) -> (r: bool)
    ensures
        r == (confirmed && !dry_run),
        dry_run ==> !r,
{
    confirmed && !dry_run
}

/// Whether wrong permissions are corrected: when it was confirmed, and never in a dry run.
pub fn should_fix_permissions(confirmed: bool, dry_run: bool) -> (r: bool)
    ensures
        r == (confirmed && !dry_run),
        dry_run ==> !r,
{
    confirmed && !dry_run
}

/// The permission bits of a file mode, in octal.
pub open spec fn mode_text(mode: u32) -> Seq<char> {
    spec_digits((mode & 0o777) as nat, 8)
}

/// Whether a file's permission bits differ from the wanted ones.
pub fn permissions_differ(existing_mode: u32, target: u32) -> (r: bool)
    ensures
        r == ((existing_mode & 0o777) != target),
{
    (existing_mode & 0o777) != target
}

/// The question asked before permissions are corrected.
pub fn permissions_prompt(path: &str, existing_mode: u32, target: u32) -> (r: String)
    ensures
        r@ == "Permissions are incorrect for "@ + path@ + ". (Are "@ + mode_text(existing_mode) + " should be "@
            + spec_digits(target as nat, 8) + ").\nCorrect them?"@,
{
    let mut r = concat("Permissions are incorrect for ", path);
    r.append(". (Are ");
    r.append(u64_to_digits((existing_mode & 0o777) as u64, 8).as_str());
    r.append(" should be ");
    r.append(u64_to_digits(target as u64, 8).as_str());
    r.append(").\nCorrect them?");
    r
}

/// Whether a file has to be written: it is missing, or its content hashes differently from
/// the wanted content.
pub fn file_changed(new_content: &str, current: Option<&[u8]>) -> (r: bool)
    ensures
        r == match current {
            None => true,
            Some(c) => spec_hex_lower(sha256_digest(new_content.spec_bytes())) != spec_hex_lower(sha256_digest(c@)),
        },
        current matches Some(c) && c@ == new_content.spec_bytes() ==> !r,
{
    let new_hash = hash_bytes(new_content.as_bytes());
    match current {
        None => true,
        Some(bytes) => {
            let current_hash = hash_bytes(bytes);
            !(new_hash == current_hash)
        },
    }
}

} // verus!
