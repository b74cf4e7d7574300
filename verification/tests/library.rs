use spec_manager::adapters::ini::IniAdapter;
use spec_manager::adapters::key_value::{BoolStyle, KeyValueAdapter};
use spec_manager::adapters::kv_serializer::KeyValueSerializer;
use spec_manager::adapters::parsers::{bool_from_lowercase, parse_bool, serialize_bool, BoolParseError};
use spec_manager::adapters::AdapterError;
use spec_manager::cli::RunArgs;
use spec_manager::commands::run::{
    command_line, file_changed, orphaned_files, permissions_differ, permissions_prompt, render_system_state,
    service_actions, service_sections, should_fix_permissions, should_write, ServiceAction,
};
use spec_manager::commands::verify::{compare_file, show_changes};
use spec_manager::managed_config::ManagedServicesConfig;
use spec_manager::runs::{Run, RunDB, RunError};
use spec_manager::services::sddm::{DisplayServer, Numlock};
use spec_manager::services::ssh::enums::{AddKeysToAgent, CanonicalizeHostname, LogLevel, StrictHostKeyChecking};
use spec_manager::services::sshd::{SshdConfig, SshdService};
use spec_manager::services::sshd_enums::{IgnoreRhosts, PermitRootLogin, SyslogFacility};
use spec_manager::services::systemd::ServiceType;
use spec_manager::services::types::{FileArtifact, Paths, ServiceConfig, ServiceState};
use spec_manager::services::udev::{ResolveNames, UdevConfig, UdevService};
use spec_manager::services::{get_service_by_name, ServiceKind};
use spec_manager::text::{i64_to_decimal, join, parse_octal, path_join, split_on_spaces, u64_to_digits};
use spec_manager::toml_value::{TomlTable, TomlValue};
use spec_manager::utils::{bytes_to_string, hash_bytes, TextError};

fn s(x: &str) -> TomlValue {
    TomlValue::String(x.to_string())
}

fn table(pairs: Vec<(&str, TomlValue)>) -> TomlTable {
    let mut t = TomlTable::new();
    for (k, v) in pairs {
        t.insert(k.to_string(), v);
    }
    t
}

fn strings(v: &[&str]) -> Vec<String> {
    v.iter().map(|x| x.to_string()).collect()
}

#[test]
fn hash_of_abc() {
    assert_eq!(
        hash_bytes(b"abc"),
        "ba7816bf8f01cfea414140de5dae2223b00361a396177a9cb410ff61f20015ad"
    );
    assert_eq!(hash_bytes(b"").len(), 64);
}

#[test]
fn bytes_to_text() {
    assert_eq!(bytes_to_string("héllo".as_bytes()), Ok("héllo".to_string()));
    assert_eq!(bytes_to_string(&[0xff, 0xfe]), Err(TextError::InvalidUtf8));
}

#[test]
fn booleans_as_text() {
    assert_eq!(parse_bool(Some("TRUE")), Ok(Some(true)));
    assert_eq!(parse_bool(Some("False")), Ok(Some(false)));
    assert_eq!(parse_bool(None), Ok(None));
    assert_eq!(parse_bool(Some("yes")), Err(BoolParseError::Invalid));
    assert_eq!(bool_from_lowercase("TRUE"), Err(BoolParseError::Invalid));
    assert_eq!(serialize_bool(Some(true)), Some("true".to_string()));
    assert_eq!(serialize_bool(Some(false)), Some("false".to_string()));
    assert_eq!(serialize_bool(None), None);
}

#[test]
fn option_values_round_trip() {
    assert_eq!(StrictHostKeyChecking::AcceptNew.text(), "accept-new");
    assert_eq!(StrictHostKeyChecking::from_text("accept-new"), Some(StrictHostKeyChecking::AcceptNew));
    assert_eq!(StrictHostKeyChecking::from_text("Accept-New"), None);
    assert_eq!(AddKeysToAgent::from_text("confirm"), Some(AddKeysToAgent::Confirm));
    assert_eq!(AddKeysToAgent::from_text("1h"), Some(AddKeysToAgent::Time("1h".to_string())));
    assert_eq!(AddKeysToAgent::Time("30m".to_string()).text(), "30m");
    assert_eq!(CanonicalizeHostname::NoneValue.text(), "none");
    assert_eq!(LogLevel::default(), LogLevel::Info);
    assert_eq!(LogLevel::Debug3.text(), "DEBUG3");
    assert_eq!(PermitRootLogin::ProhibitPassword.text(), "prohibit-password");
    assert_eq!(IgnoreRhosts::from_text("shosts-only"), Some(IgnoreRhosts::ShostsOnly));
    assert_eq!(SyslogFacility::Local7.text(), "LOCAL7");
    assert_eq!(DisplayServer::X11User.text(), "x11-user");
    assert_eq!(DisplayServer::default(), DisplayServer::X11);
    assert_eq!(DisplayServer::from_text("x11-user"), Some(DisplayServer::X11User));
    assert_eq!(Numlock::from_text("none"), Some(Numlock::NoneValue));
    assert_eq!(Numlock::default(), Numlock::NoneValue);
    assert_eq!(ServiceType::NotifyReload.text(), "notify-reload");
    assert_eq!(ServiceType::from_text("NotifyReload"), Some(ServiceType::NotifyReload));
    assert_eq!(ServiceType::from_text("notify-reload"), None);
    assert_eq!(ResolveNames::default(), ResolveNames::Early);
    assert_eq!(spec_manager::services::udev::LogLevel::default().text(), "err");
}

#[test]
fn text_helpers() {
    assert_eq!(join(&strings(&["a", "b", "c"]), ", "), "a, b, c");
    assert_eq!(join(&strings(&[]), ", "), "");
    assert_eq!(split_on_spaces("a  b"), strings(&["a", "", "b"]));
    assert_eq!(join(&split_on_spaces(" x y "), " "), " x y ");
    assert_eq!(u64_to_digits(0o644, 8), "644");
    assert_eq!(u64_to_digits(0, 10), "0");
    assert_eq!(i64_to_decimal(-42), "-42");
    assert_eq!(i64_to_decimal(i64::MIN), "-9223372036854775808");
    assert_eq!(parse_octal("755"), Some(0o755));
    assert_eq!(parse_octal("8"), None);
    assert_eq!(parse_octal(&u64_to_digits(0o1777, 8)), Some(0o1777));
    assert_eq!(path_join("/etc", "ssh/sshd_config"), "/etc/ssh/sshd_config");
    assert_eq!(path_join("/etc/", "x"), "/etc/x");
    assert_eq!(path_join("/etc", "/abs"), "/abs");
    assert_eq!(path_join("", "rel"), "rel");
}

#[test]
fn command_lines() {
    assert_eq!(
        command_line("systemctl start foo.service", true),
        ("sudo".to_string(), strings(&["systemctl", "start", "foo.service"]))
    );
    assert_eq!(
        command_line("systemctl start foo.service", false),
        ("systemctl".to_string(), strings(&["start", "foo.service"]))
    );
    assert_eq!(command_line("ls", false), ("ls".to_string(), vec![]));
    assert_eq!(command_line("ls", true), ("sudo".to_string(), strings(&["ls"])));
    assert_eq!(command_line("a  b", false), ("a".to_string(), strings(&["", "b"])));
    let (program, args) = command_line("udevadm control --reload", false);
    assert_eq!(format!("{} {}", program, join(&args, " ")), "udevadm control --reload");
}

#[test]
fn service_steps() {
    let state = ServiceState::new("sshd", Some(true), Some(false));
    assert_eq!(
        service_actions(&state, true, false),
        vec![
            ServiceAction::Step("Reload service: sshd".to_string()),
            ServiceAction::Reload {
                cmd: "systemctl reload sshd".to_string(),
                requires_sudo: true
            },
            ServiceAction::Run {
                cmd: "systemctl stop sshd".to_string(),
                requires_sudo: true
            },
            ServiceAction::Run {
                cmd: "systemctl enable sshd".to_string(),
                requires_sudo: true
            },
            ServiceAction::Info("[Service] Ensure sshd is enabled=true active=false".to_string()),
        ]
    );
    assert_eq!(
        service_actions(&ServiceState::new("x", None, None), true, true),
        vec![
            ServiceAction::Step("Reload service: x".to_string()),
            ServiceAction::Info("[Service] Ensure x is enabled=ignored active=ignored".to_string()),
        ]
    );
    assert_eq!(render_system_state(None), "ignored");
}

#[test]
fn orphans_are_old_files_only() {
    let new = strings(&["a", "b"]);
    let prev = strings(&["b", "c", "a", "d"]);
    assert_eq!(orphaned_files(&new, &prev), strings(&["c", "d"]));
    assert_eq!(orphaned_files(&prev, &prev), Vec::<String>::new());
}

#[test]
fn service_names() {
    assert_eq!(get_service_by_name("sshd"), Some(ServiceKind::Sshd));
    assert_eq!(get_service_by_name("tuned-ppd"), Some(ServiceKind::TuneDPPD));
    assert_eq!(get_service_by_name("fw-fanctrl"), None);
    let data = table(vec![
        ("sshd", TomlValue::Table(TomlTable::new())),
        ("unknown", TomlValue::Table(TomlTable::new())),
        ("scalar", TomlValue::Integer(1)),
    ]);
    assert_eq!(
        service_sections(&data),
        vec![("sshd".to_string(), Some(ServiceKind::Sshd)), ("unknown".to_string(), None)]
    );
}

#[test]
fn permissions_and_changes() {
    assert!(!permissions_differ(0o100644, 0o644));
    assert!(permissions_differ(0o100600, 0o644));
    assert_eq!(
        permissions_prompt("/etc/x", 0o100644, 0o600),
        "Permissions are incorrect for /etc/x. (Are 644 should be 600).\nCorrect them?"
    );
    assert!(file_changed("a", None));
    assert!(!file_changed("a", Some(b"a")));
    assert!(file_changed("a", Some(b"b")));
}

#[test]
fn install_arguments() {
    let f = FileArtifact {
        path: "/etc/a".to_string(),
        content: String::new(),
        permissions: 0o644,
        requires_root: true,
    };
    assert_eq!(
        f.install_args("/tmp/t"),
        strings(&["install", "-D", "-o", "root", "-g", "root", "-m", "644", "/tmp/t", "/etc/a"])
    );
    let g = FileArtifact {
        requires_root: false,
        permissions: 0o440,
        ..f
    };
    assert_eq!(g.install_args("/tmp/t"), strings(&["install", "-D", "-m", "440", "/tmp/t", "/etc/a"]));
}

#[test]
fn key_value_writer() {
    let mut a = KeyValueAdapter::new("=", "#");
    a.comment("hi").set("a", "1");
    assert_eq!(a.build(), "# hi\na=1");
    let mut empty = KeyValueAdapter::new(" ", "#").bool_style(BoolStyle::YesNo);
    assert_eq!(empty.parse_struct(&TomlTable::new()).err(), Some(AdapterError::EmptyTable));
    let mut b = KeyValueAdapter::new(" ", "#").bool_style(BoolStyle::YesNo);
    assert!(b
        .parse_struct(&table(vec![
            ("PasswordAuthentication", TomlValue::Boolean(false)),
            ("Port", TomlValue::Integer(22)),
            ("AcceptEnv", TomlValue::Array(vec![s("LANG"), s("LC_*")])),
        ]))
        .is_ok());
    assert_eq!(
        b.build(),
        "AcceptEnv LANG\nAcceptEnv LC_*\nPasswordAuthentication no\nPort 22"
    );
}

#[test]
fn ini_writer_skips_empty_sections() {
    let mut ini = IniAdapter::new();
    let empty = TomlTable::new();
    let one = table(vec![("k", TomlValue::Boolean(true))]);
    ini.push_line("# top");
    assert!(ini.section("empty", Some(&empty)).is_ok());
    assert!(ini.section("none", None).is_ok());
    assert!(ini.section("one", Some(&one)).is_ok());
    assert_eq!(ini.build(), "# top\n[one]\nk=true\n");
}

#[test]
fn record_serializer() {
    let mut ser = KeyValueSerializer::new("=");
    ser.comment("# c\n");
    ser.begin_field("n");
    ser.serialize_i64(-3);
    ser.end_field();
    ser.begin_field("b");
    ser.serialize_bool(true);
    ser.end_field();
    ser.begin_field("u");
    ser.serialize_u64(7);
    ser.end_element();
    ser.serialize_str("x");
    ser.end_field();
    assert_eq!(ser.output(), "# c\nn=-3\nb=true\nu=7, x\n");
    ser.clear();
    assert_eq!(ser.output(), "");
}

#[test]
fn sshd_plan() {
    let paths = Paths {
        system_config: "/etc".to_string(),
        ..Default::default()
    };
    let config = SshdConfig {
        settings: table(vec![("PermitRootLogin", s("no")), ("Port", TomlValue::Integer(2222))]),
        service: Some(ServiceConfig {
            enabled: Some(true),
            running: Some(true),
        }),
    };
    let plan = SshdService.plan(&config, &paths).unwrap();
    assert_eq!(plan.files.len(), 1);
    assert_eq!(plan.files[0].path, "/etc/ssh/sshd_config");
    assert_eq!(plan.files[0].content, "# Managed by tenant\nPermitRootLogin no\nPort 2222");
    assert_eq!(plan.service_state, Some(ServiceState::new("sshd", Some(true), Some(true))));
    let empty = SshdConfig {
        settings: TomlTable::new(),
        service: None,
    };
    assert_eq!(SshdService.plan(&empty, &paths), Err(AdapterError::EmptyTable));
}

#[test]
fn udev_plan() {
    let paths = Paths {
        system_config: "/etc".to_string(),
        ..Default::default()
    };
    let config = UdevConfig {
        settings: table(vec![("udev_log", s("info"))]),
        rules: Some(vec![("50-kb.rules".to_string(), "KERNEL==\"hidraw*\"".to_string())]),
        service: Some(ServiceConfig {
            enabled: None,
            running: Some(true),
        }),
    };
    let plan = UdevService.plan(&config, &paths);
    assert_eq!(plan.files.len(), 2);
    assert_eq!(plan.files[0].path, "/etc/udev/udev.conf");
    assert_eq!(plan.files[0].content, "# Managed by spec\nudev_log=info");
    assert_eq!(plan.files[1].path, "/etc/udev/rules.d/50-kb.rules");
    assert_eq!(plan.files[1].content, "# Managed by spec\nKERNEL==\"hidraw*\"");
    let state = plan.service_state.unwrap();
    assert_eq!(state.name, "systemd-udevd");
    assert_eq!(state.reload_cmd, "udevadm control --reload");
}

#[test]
fn run_columns_round_trip() {
    let mut run = Run::new(ManagedServicesConfig::load(vec![]), "/etc");
    assert_eq!(run.id, 0);
    assert!(!run.success);
    run.managed_files = strings(&["/etc/a \"quoted\"", "/etc/b\\c"]);
    let db = run.to_db("{}".to_string()).unwrap();
    assert_eq!(db.data, "{}");
    assert_eq!(db.sys_config_dir, "/etc");
    let back = Run::from_db(db, ManagedServicesConfig::load(vec![])).unwrap();
    assert_eq!(back.managed_files, run.managed_files);
    assert_eq!(back.sys_config_dir, "/etc");
    let bad = RunDB {
        id: 1,
        data: "{}".to_string(),
        sys_config_dir: "/etc".to_string(),
        managed_files: "not json".to_string(),
        success: true,
    };
    assert_eq!(Run::from_db(bad, ManagedServicesConfig::load(vec![])).err(), Some(RunError::Json));
    let mut plain = Run::new(ManagedServicesConfig::load(vec![]), "/etc");
    plain.managed_files = strings(&["x", "y"]);
    assert_eq!(plain.to_db(String::new()).unwrap().managed_files, r#"["x","y"]"#);
    let cols = plain.db_columns("{}".to_string(), Some("[]".to_string())).unwrap();
    assert_eq!(cols.managed_files, "[]");
    assert_eq!(cols.data, "{}");
    assert_eq!(plain.db_columns("{}".to_string(), None).err(), Some(RunError::Json));
}

#[test]
fn modified_file_diff() {
    assert_eq!(compare_file("same\n", "same\n"), None);
    let lines = compare_file("a\nb\n", "a\nc").unwrap();
    assert_eq!(
        lines,
        vec![
            (' ', "  a\n".to_string()),
            ('-', "- b\n".to_string()),
            ('+', "+ c\n".to_string()),
        ]
    );
    assert_eq!(
        show_changes(&vec![('+', "x\r".to_string())]),
        vec![('+', "+ x\r".to_string())]
    );
}

#[test]
fn rollback_arguments() {
    let args = RunArgs::for_rollback("/etc", true);
    assert!(!args.dry_run);
    assert!(args.noconfirm);
    assert_eq!(args.sys_config_dir, "/etc");
}

#[test]
fn dry_run_changes_nothing() {
    assert!(should_write(true, false));
    assert!(!should_write(true, true));
    assert!(!should_write(false, false));
    assert!(should_fix_permissions(true, false));
    assert!(!should_fix_permissions(true, true));
    assert!(!should_fix_permissions(false, false));
}

#[test]
fn indentation_is_four_spaces_a_level() {
    let mut a = KeyValueAdapter::new(" ", "#");
    a.set("Host", "h").indent().set("User", "u").indent().set("Port", "22");
    a.outdent().outdent().indent().outdent().set("Next", "n");
    assert_eq!(a.build(), "Host h\n    User u\n        Port 22\nNext n");
    let mut b = KeyValueAdapter::new("=", "#").sequence_separator(",");
    assert!(b.parse_struct(&table(vec![("SessionDir", TomlValue::Array(vec![s("S1"), s("S2")]))])).is_ok());
    assert_eq!(b.build(), "SessionDir=S1,S2");
}
