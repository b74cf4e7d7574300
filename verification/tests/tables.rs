use spec_manager::config::Config;
use spec_manager::services::systemd::sections::{Install, Service, Timer, Unit};
use spec_manager::services::systemd::ServiceType;
use spec_manager::managed_config::{is_toml_file, services_dir, ManagedServicesConfig};
use spec_manager::toml_value::{merge_tables, tables_equal, values_equal, TomlTable, TomlValue};

fn s(x: &str) -> TomlValue {
    TomlValue::String(x.to_string())
}

fn table(pairs: Vec<(&str, TomlValue)>) -> TomlTable {
    let mut t = TomlTable::new();
    for (k, v) in pairs {
        t.insert(k.to_string(), v);
    }
    t
}

#[test]
fn test_merge_tables() {
    let mut base_table = table(vec![(
        "user",
        TomlValue::Table(table(vec![("name", s("bob")), ("admin", TomlValue::Boolean(false))])),
    )]);

    let incoming = table(vec![
        ("user", TomlValue::Table(table(vec![("email", s("bob@example.com"))]))),
        ("system", TomlValue::Table(table(vec![("arch", s("x86_64"))]))),
    ]);

    let expect = table(vec![
        (
            "user",
            TomlValue::Table(table(vec![
                ("name", s("bob")),
                ("admin", TomlValue::Boolean(false)),
                ("email", s("bob@example.com")),
            ])),
        ),
        ("system", TomlValue::Table(table(vec![("arch", s("x86_64"))]))),
    ]);

    merge_tables(&mut base_table, incoming);

    assert_eq!(expect, base_table);
}

#[test]
fn merge_replaces_non_tables() {
    let mut base = table(vec![
        ("a", TomlValue::Integer(1)),
        ("t", TomlValue::Table(table(vec![("x", TomlValue::Integer(1))]))),
        ("keep", s("kept")),
    ]);
    let incoming = table(vec![
        ("a", TomlValue::Table(table(vec![("y", TomlValue::Integer(2))]))),
        ("t", s("now a string")),
    ]);
    merge_tables(&mut base, incoming);
    let expect = table(vec![
        ("a", TomlValue::Table(table(vec![("y", TomlValue::Integer(2))]))),
        ("t", s("now a string")),
        ("keep", s("kept")),
    ]);
    assert_eq!(expect, base);
}

#[test]
fn merge_into_empty_gives_incoming() {
    let mut base = TomlTable::new();
    let incoming = table(vec![("k", TomlValue::Table(table(vec![("v", TomlValue::Boolean(true))])))]);
    let copy = table(vec![("k", TomlValue::Table(table(vec![("v", TomlValue::Boolean(true))])))]);
    merge_tables(&mut base, incoming);
    assert_eq!(copy, base);
}

#[test]
fn table_keys_stay_sorted_and_unique() {
    let mut t = TomlTable::new();
    assert_eq!(t.insert("b".to_string(), TomlValue::Integer(1)), None);
    assert_eq!(t.insert("a".to_string(), TomlValue::Integer(2)), None);
    assert_eq!(t.insert("b".to_string(), TomlValue::Integer(3)), Some(TomlValue::Integer(1)));
    assert_eq!(t.len(), 2);
    let keys: Vec<&str> = t.entries().iter().map(|e| e.0.as_str()).collect();
    assert_eq!(keys, vec!["a", "b"]);
    assert_eq!(t.get("b"), Some(&TomlValue::Integer(3)));
    assert_eq!(t.get("c"), None);
    assert!(!t.is_empty());
}

#[test]
fn managed_config_load_merges_in_turn() {
    let first = table(vec![("ssh", TomlValue::Table(table(vec![("a", s("1"))])))]);
    let second = table(vec![
        ("ssh", TomlValue::Table(table(vec![("b", s("2"))]))),
        ("udev", TomlValue::Table(table(vec![("c", s("3"))]))),
    ]);
    let config = ManagedServicesConfig::load(vec![first, second]);
    let expect = table(vec![
        ("ssh", TomlValue::Table(table(vec![("a", s("1")), ("b", s("2"))]))),
        ("udev", TomlValue::Table(table(vec![("c", s("3"))]))),
    ]);
    assert_eq!(expect, config.data);
}

#[test]
fn same_configuration_is_unchanged() {
    let a = ManagedServicesConfig::load(vec![table(vec![("x", TomlValue::Array(vec![s("1"), TomlValue::Integer(2)]))])]);
    let b = ManagedServicesConfig::load(vec![table(vec![("x", TomlValue::Array(vec![s("1"), TomlValue::Integer(2)]))])]);
    let c = ManagedServicesConfig::load(vec![table(vec![("x", TomlValue::Array(vec![s("1"), TomlValue::Integer(3)]))])]);
    assert!(a.same_as(&b));
    assert!(a.same_as(&a));
    assert!(!a.same_as(&c));
    assert!(tables_equal(&a.data, &b.data));
    assert!(values_equal(&s("x"), &s("x")));
    assert!(!values_equal(&s("1"), &TomlValue::Integer(1)));
}

#[test]
fn config_load_services_overlays() {
    let config = Config::load(None, "/home/u/.config");
    assert_eq!(config.base_path, "/home/u/.config/spec");
    assert_eq!(config.services_dir(), "/home/u/.config/spec/services");
    let given = Config::load(Some("/etc/spec".to_string()), "/home/u/.config");
    assert_eq!(given.base_path, "/etc/spec");
    let merged = config.load_services(vec![
        table(vec![("ssh", TomlValue::Table(table(vec![("a", s("1"))])))]),
        table(vec![("ssh", TomlValue::Table(table(vec![("b", s("2"))])))]),
    ]);
    let expect = table(vec![("ssh", TomlValue::Table(table(vec![("b", s("2"))])))]);
    assert_eq!(expect, merged);
}

#[test]
fn services_files_are_toml() {
    assert!(is_toml_file("ssh.toml"));
    assert!(!is_toml_file(".toml"));
    assert!(!is_toml_file("ssh.yaml"));
    assert!(!is_toml_file("toml"));
    assert_eq!(services_dir("/cfg"), "/cfg/services");
    assert_eq!(services_dir("/cfg/"), "/cfg/services");
}

#[test]
fn unit_sections_as_tables() {
    let unit = Unit {
        description: "test2 desc".to_string(),
        after: Some(vec!["network.target".to_string()]),
        requires: None,
    };
    assert_eq!(
        unit.to_table(),
        table(vec![
            ("Description", s("test2 desc")),
            ("After", TomlValue::Array(vec![s("network.target")])),
        ])
    );

    let service = Service {
        exec_start: "test_program_2".to_string(),
        exec_start_pre: None,
        exec_start_post: None,
        service_type: Some(ServiceType::Oneshot),
        restart: None,
        user: Some("bob".to_string()),
        environment: Some(vec![
            ("VAR2".to_string(), "val2".to_string()),
            ("VAR1".to_string(), "val1".to_string()),
        ]),
    };
    assert_eq!(
        service.to_table(),
        table(vec![
            ("ExecStart", s("test_program_2")),
            ("Type", s("oneshot")),
            ("User", s("bob")),
            (
                "Environment",
                TomlValue::Table(table(vec![("VAR1", s("val1")), ("VAR2", s("val2"))])),
            ),
        ])
    );

    let install = Install {
        wanted_by: vec!["multi-user.target".to_string()],
    };
    assert_eq!(
        install.to_table(),
        table(vec![("WantedBy", TomlValue::Array(vec![s("multi-user.target")]))])
    );

    let timer = Timer {
        accuracy_sec: None,
        defer_reactivation: None,
        fixed_random_delay: None,
        on_active_sec: None,
        on_boot_sec: None,
        on_calendar: Some(vec!["hourly".to_string()]),
        on_clock_change: None,
        on_startup_sec: None,
        on_timezone_change: None,
        on_unit_active_sec: None,
        on_unit_inactive_sec: None,
        persistent: None,
        randomized_delay_sec: None,
        randomized_offset_sec: None,
        remain_after_elapse: None,
        unit: Some("test1".to_string()),
        wake_system: Some(true),
    };
    assert_eq!(
        timer.to_table(),
        table(vec![
            ("OnCalendar", TomlValue::Array(vec![s("hourly")])),
            ("Unit", s("test1")),
            ("WakeSystem", TomlValue::Boolean(true)),
        ])
    );
}

#[test]
fn services_texts_parse_and_merge() {
    let base = r#"
[user]
name = "bob"
admin = false
"#;
    let incoming = r#"
[user]
email = "bob@example.com"

[system]
arch = "x86_64"
"#;
    let config = ManagedServicesConfig::load_texts(&vec![base.to_string(), incoming.to_string()]).unwrap();
    let expect = table(vec![
        (
            "user",
            TomlValue::Table(table(vec![
                ("name", s("bob")),
                ("admin", TomlValue::Boolean(false)),
                ("email", s("bob@example.com")),
            ])),
        ),
        ("system", TomlValue::Table(table(vec![("arch", s("x86_64"))]))),
    ]);
    assert_eq!(expect, config.data);
    let numbers = ManagedServicesConfig::load_texts(&vec!["x = [1, 2.5]\nwhen = 1979-05-27".to_string()]).unwrap();
    assert_eq!(
        numbers.data,
        table(vec![
            ("x", TomlValue::Array(vec![TomlValue::Integer(1), TomlValue::Float("2.5".to_string())])),
            ("when", TomlValue::Datetime("1979-05-27".to_string())),
        ])
    );
    assert!(ManagedServicesConfig::load_texts(&vec![base.to_string(), "[user\nname = ".to_string()]).is_none());
    assert!(ManagedServicesConfig::load_texts(&vec!["a = 1\na = 2".to_string()]).is_none());
    assert_eq!(ManagedServicesConfig::load_texts(&vec![]).unwrap().data, TomlTable::new());
}
