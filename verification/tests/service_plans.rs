use spec_manager::services::autocpu_freq::{AutoCpuFreqConfig, AutoCpuFreqService};
use spec_manager::services::fw_fanctrl::{FanSettings, FwFanCtrlConfig, FwFanCtrlService, SpeedCurvePoint, Strategy};
use spec_manager::services::sddm::{SddmConfig, SddmService};
use spec_manager::services::ssh::{SshConfig, SshSystemService};
use spec_manager::services::sudoers::{RunAsSpec, SudoersConfig, SudoersService, UserSpec};
use spec_manager::services::systemd::{
    SystemdConfig, SystemdService, SystemdSystemService, SystemdTimer, SystemdUnit, SystemdUserService,
};
use spec_manager::services::tuned::{TuneDConfig, TuneDService};
use spec_manager::services::tuned_ppd::{TuneDPPDConfig, TuneDPPDService};
use spec_manager::services::types::{FileArtifact, Paths, ServiceState};
use spec_manager::toml_value::{TomlTable, TomlValue};

fn s(x: &str) -> TomlValue {
    TomlValue::String(x.to_string())
}

fn table(pairs: Vec<(&str, TomlValue)>) -> TomlTable {
    let mut t = TomlTable::new();
    for (k, v) in pairs {
        t.insert(k.to_string(), v);
    }
    t
}

fn test_paths() -> Paths {
    Paths {
        system_config: "/test".to_string(),
        ..Default::default()
    }
}

#[test]
fn autocpu_freq_test_plan() {
    let config = AutoCpuFreqConfig {
        charger: Some(table(vec![
            ("governor", s("performance")),
            ("energy_performance_preference", s("performance")),
            ("turbo", s("auto")),
        ])),
        battery: Some(table(vec![
            ("energy_performance_preference", s("balance_power")),
            ("turbo", s("never")),
        ])),
        service: None,
    };

    let plan = AutoCpuFreqService.plan(&config, &test_paths());

    assert_eq!(plan.files.len(), 1);

    if let Some(file) = plan.files.first() {
        assert_eq!(file.path, "/test/auto-cpufreq.conf".to_string());

        let expected_content = r#"# Managed by spec
[charger]
energy_performance_preference = performance
governor = performance
turbo = auto

[battery]
energy_performance_preference = balance_power
turbo = never
"#;

        assert_eq!(expected_content.trim(), file.content.trim());
    }
}

fn json_of(v: &TomlValue) -> serde_json::Value {
    match v {
        TomlValue::String(x) => serde_json::Value::String(x.clone()),
        TomlValue::Integer(i) => serde_json::Value::from(*i),
        TomlValue::Float(f) => serde_json::Value::from(f.parse::<f64>().unwrap()),
        TomlValue::Boolean(b) => serde_json::Value::Bool(*b),
        TomlValue::Datetime(d) => serde_json::Value::String(d.clone()),
        TomlValue::Array(a) => serde_json::Value::Array(a.iter().map(json_of).collect()),
        TomlValue::Table(t) => {
            let mut m = serde_json::Map::new();
            for (k, x) in t.entries() {
                m.insert(k.clone(), json_of(x));
            }
            serde_json::Value::Object(m)
        }
    }
}

#[test]
fn fw_fanctrl_test_plan() {
    // default_strategy = "medium", strategy_on_discharging = "",
    // [strategies.lazy] with its speed curve, as read from the configuration.
    let settings = FanSettings {
        default_strategy: "medium".to_string(),
        strategy_on_discharging: "".to_string(),
        strategies: vec![(
            "lazy".to_string(),
            Strategy {
                fan_speed_update_frequency: 5,
                moving_average_interval: 30,
                speed_curve: vec![
                    SpeedCurvePoint { temp: 0, speed: 15 },
                    SpeedCurvePoint { temp: 50, speed: 15 },
                ],
            },
        )],
    };
    let json = serde_json::to_string(&json_of(&TomlValue::Table(settings.to_table()))).unwrap();
    let config = FwFanCtrlConfig {
        json: json.to_string(),
        service: None,
    };

    let plan = FwFanCtrlService.plan(&config, &test_paths());

    assert_eq!(plan.files.len(), 1);

    if let Some(file) = plan.files.first() {
        assert_eq!(file.path, "/test/fw-fanctrl/config.json".to_string());

        let expected_content = r#"{
    "defaultStrategy": "medium",
    "strategyOnDischarging" : "",
    "strategies": {
        "lazy": {
            "fanSpeedUpdateFrequency": 5,
            "movingAverageInterval": 30,
            "speedCurve": [
                { "temp": 0, "speed": 15 },
                { "temp": 50, "speed": 15 }
            ]
        }
    }
}"#;

        let expected_json: serde_json::Value = serde_json::from_str(expected_content).unwrap();
        let got_json: serde_json::Value = serde_json::from_str(&file.content).unwrap();

        assert_eq!(expected_json, got_json);
    }
}

#[test]
fn sddm_test_plan() {
    let config = SddmConfig {
        general: Some(table(vec![
            ("DisplayServer", s("wayland")),
            ("GreeterEnvironment", s("QT_WAYLAND_SHELL_INTEGRATION=layer-shell")),
        ])),
        theme: None,
        x11: None,
        wayland: Some(table(vec![
            (
                "CompositorCommand",
                s("kwin_wayland --drm --no-lockscreen --no-global-shortcuts --locale1"),
            ),
            (
                "SessionDir",
                TomlValue::Array(vec![
                    s("/usr/local/share/wayland-sessions"),
                    s("/usr/share/wayland-sessions"),
                ]),
            ),
        ])),
        users: Some(table(vec![
            ("MinimumUid", TomlValue::Integer(1000)),
            ("MaximumUid", TomlValue::Integer(1100)),
        ])),
        autologin: Some(table(vec![("User", s("bob"))])),
        as_dropin: None,
        dropins: None,
        service: None,
    };

    let plan = SddmService.plan(&config, &test_paths());

    assert_eq!(plan.files.len(), 1);

    if let Some(file) = plan.files.first() {
        assert_eq!(file.path, "/test/sddm.conf".to_string());

        let expected_content = r#"# Managed by spec
[General]
DisplayServer=wayland
GreeterEnvironment=QT_WAYLAND_SHELL_INTEGRATION=layer-shell

[Wayland]
CompositorCommand=kwin_wayland --drm --no-lockscreen --no-global-shortcuts --locale1
SessionDir=/usr/local/share/wayland-sessions,/usr/share/wayland-sessions

[Users]
MaximumUid=1100
MinimumUid=1000

[Autologin]
User=bob"#;

        assert_eq!(expected_content.trim(), file.content.trim());
    }
}

#[test]
fn ssh_mod_test_plan() {
    let config = SshConfig {
        hosts: vec![
            (
                "host1".to_string(),
                table(vec![
                    ("Hostname", s("192.168.1.100")),
                    ("User", s("user1")),
                    ("IdentityFile", s("~/.ssh/id_rsa")),
                ]),
            ),
            (
                "host2".to_string(),
                table(vec![
                    ("Hostname", s("192.168.1.101")),
                    ("User", s("user2")),
                    ("IdentityFile", s("~/.ssh/custom_key")),
                ]),
            ),
        ],
    };
    let paths = Paths::default();

    let plan = SshSystemService.plan(&config, &paths).unwrap();
    let files = plan.files;

    assert_eq!(files.len(), 1);

    if let Some(file) = files.first() {
        assert_eq!(file.path, "ssh/ssh_config".to_string());

        let expected_content = r#"# Managed by spec
Host host1
    Hostname 192.168.1.100
    IdentityFile ~/.ssh/id_rsa
    User user1

Host host2
    Hostname 192.168.1.101
    IdentityFile ~/.ssh/custom_key
    User user2
"#;

        assert_eq!(expected_content, file.content);
    }
}

#[test]
fn sudoers_test_plan() {
    let config = SudoersConfig {
        user_specs: vec![
            UserSpec {
                user: "test".to_string(),
                host: "ALL".to_string(),
                run_as: RunAsSpec {
                    user: "ALL".to_string(),
                    group: Some("ALL".to_string()),
                },
                command: "ALL".to_string(),
            },
            UserSpec {
                user: "%sudo".to_string(),
                host: "ALL".to_string(),
                run_as: RunAsSpec {
                    user: "ALL".to_string(),
                    group: Some("ALL".to_string()),
                },
                command: "ALL".to_string(),
            },
            UserSpec {
                user: "bob".to_string(),
                host: "ALL".to_string(),
                run_as: RunAsSpec {
                    user: "root".to_string(),
                    group: None,
                },
                command: "/usr/bin/apt, /usr/bin/systemctl".to_string(),
            },
        ],
    };

    let plan = SudoersService.plan(&config, &test_paths());

    assert_eq!(plan.files.len(), 1);

    if let Some(file) = plan.files.first() {
        assert_eq!(file.path, "/test/sudoers.d/99_spec".to_string());

        let expected_content = r#"# Managed by spec
test ALL=(ALL:ALL) ALL
%sudo ALL=(ALL:ALL) ALL
bob ALL=(root) /usr/bin/apt, /usr/bin/systemctl
"#;

        assert_eq!(expected_content.trim(), file.content.trim());
    }
}

fn systemd_test_config() -> SystemdConfig {
    SystemdConfig {
        services: Some(vec![
            SystemdUnit {
                name: "test1".to_string(),
                unit: table(vec![("Description", s("test1 desc"))]),
                service: table(vec![("ExecStart", s("test_program"))]),
                install: None,
                enabled: Some(true),
                running: Some(true),
            },
            SystemdUnit {
                name: "test2".to_string(),
                unit: table(vec![("Description", s("test2 desc"))]),
                service: table(vec![
                    ("ExecStart", s("test_program_2")),
                    (
                        "Environment",
                        TomlValue::Table(table(vec![("VAR1", s("val1")), ("VAR2", s("val2"))])),
                    ),
                ]),
                install: None,
                enabled: None,
                running: None,
            },
        ]),
        timers: Some(vec![
            SystemdTimer {
                name: "test1".to_string(),
                unit: table(vec![("Description", s("Timer for test1"))]),
                timer: table(vec![
                    ("OnCalendar", TomlValue::Array(vec![s("hourly")])),
                    ("Unit", s("test1")),
                    ("WakeSystem", TomlValue::Boolean(true)),
                ]),
                install: None,
                enabled: Some(true),
                running: Some(true),
            },
            SystemdTimer {
                name: "test2".to_string(),
                unit: table(vec![("Description", s("Timer for test2"))]),
                timer: table(vec![
                    (
                        "OnCalendar",
                        TomlValue::Array(vec![s("Mon..Fri 22:30"), s("Sat,Sun 20:00")]),
                    ),
                    ("Unit", s("test2")),
                ]),
                install: None,
                enabled: None,
                running: None,
            },
        ]),
    }
}

#[test]
fn mod_test_plan() {
    let paths = Paths::default();
    let config = systemd_test_config();
    let dir = SystemdSystemService::config_path(&paths);

    let expected_files = [
        FileArtifact {
            path: format!("{dir}/test1.service"),
            content: r#"
# Managed by spec
[Unit]
Description=test1 desc

[Service]
ExecStart=test_program
"#
            .to_string(),
            permissions: 0o644,
            requires_root: true,
        },
        FileArtifact {
            path: format!("{dir}/test2.service"),
            content: r#"
# Managed by spec
[Unit]
Description=test2 desc

[Service]
Environment='VAR1=val1' 'VAR2=val2'
ExecStart=test_program_2
"#
            .to_string(),
            permissions: 0o644,
            requires_root: true,
        },
        FileArtifact {
            path: format!("{dir}/test1.timer"),
            content: r#"
# Managed by spec
[Unit]
Description=Timer for test1

[Timer]
OnCalendar=hourly
Unit=test1
WakeSystem=true
"#
            .to_string(),
            permissions: 0o644,
            requires_root: true,
        },
        FileArtifact {
            path: format!("{dir}/test2.timer"),
            content: r#"
# Managed by spec
[Unit]
Description=Timer for test2

[Timer]
OnCalendar=Mon..Fri 22:30
OnCalendar=Sat,Sun 20:00
Unit=test2
"#
            .to_string(),
            permissions: 0o644,
            requires_root: true,
        },
    ];

    let plan = SystemdSystemService.plan(&config, &paths).unwrap();
    let files = plan.files;
    let service_states = plan
        .addl_service_states
        .expect("addl_service_states should be Some");

    assert_eq!(4, files.len());
    assert_eq!(4, service_states.len());

    for (i, file) in files.iter().enumerate() {
        assert_eq!(file.path, expected_files[i].path);

        let expected = expected_files[i].content.trim();
        let actual = file.content.trim();

        assert_eq!(expected, actual, "For file {}", file.path);
    }

    let expected_states = [
        ServiceState::new("test1.service", Some(true), Some(true)),
        ServiceState::new("test2.service", None, None),
        ServiceState::new("test1.timer", Some(true), Some(true)),
        ServiceState::new("test2.timer", None, None),
    ];

    for (i, state) in service_states.iter().enumerate() {
        assert_eq!(expected_states[i].name, state.name);
        assert_eq!(expected_states[i].running, state.running);
        assert_eq!(expected_states[i].enabled, state.enabled);
    }
}

#[test]
fn systemd_user_test_plan() {
    let paths = Paths::default();
    let config = SystemdConfig {
        services: Some(vec![SystemdUnit {
            name: "test1".to_string(),
            unit: table(vec![("Description", s("test1 desc"))]),
            service: table(vec![("ExecStart", s("test_program"))]),
            install: None,
            enabled: Some(true),
            running: Some(true),
        }]),
        timers: None,
    };

    let expected_file = FileArtifact {
        path: "systemd/user/test1.service".to_string(),
        content: r#"# Managed by spec
[Unit]
Description=test1 desc

[Service]
ExecStart=test_program
"#
        .to_string(),
        permissions: 0o644,
        requires_root: false,
    };

    let expected_state = ServiceState::builder("test1.service")
        .requires_sudo(false)
        .enabled(Some(true))
        .running(Some(true))
        .reload_cmd("systemctl --user reload test1.service")
        .start_cmd("systemctl --user start test1.service")
        .enable_cmd("systemctl --user enable test1.service")
        .stop_cmd("systemctl --user stop test1.service")
        .disable_cmd("systemctl --user disable test1.service");

    let plan = SystemdUserService.plan(&config, &paths).unwrap();
    let file = plan.files.first().unwrap();
    let states = plan.addl_service_states.unwrap();
    let state = states.first().unwrap();

    assert_eq!(&expected_file, file);
    assert_eq!(&expected_state, state);
}

#[test]
fn tuned_test_plan() {
    let config = TuneDConfig {
        settings: table(vec![
            ("daemon", TomlValue::Boolean(true)),
            ("dynamic_tuning", TomlValue::Boolean(true)),
            ("sleep_interval", TomlValue::Integer(1)),
            ("update_interval", TomlValue::Integer(10)),
            ("recommend_command", TomlValue::Boolean(false)),
            ("reapply_sysctl", TomlValue::Boolean(true)),
            ("default_instance_priority", TomlValue::Integer(0)),
        ]),
        service: None,
    };

    let plan = TuneDService.plan(&config, &test_paths());

    assert_eq!(plan.files.len(), 1);

    if let Some(file) = plan.files.first() {
        assert_eq!(file.path, "/test/tuned/tuned-main.conf".to_string());

        let expected_content = r#"# Managed by spec
daemon = 1
default_instance_priority = 0
dynamic_tuning = 1
reapply_sysctl = 1
recommend_command = 0
sleep_interval = 1
update_interval = 10"#;

        assert_eq!(expected_content, file.content);
    }
}

#[test]
fn tuned_ppd_test_plan() {
    let config = TuneDPPDConfig {
        main: Some(table(vec![
            ("default", s("balanced")),
            ("battery_detection", TomlValue::Boolean(true)),
            ("sysfs_acpi_monitor", TomlValue::Boolean(true)),
        ])),
        profiles: Some(table(vec![
            ("power-saver", s("powersave")),
            ("balanced", s("balanced")),
            ("performance", s("throughput-performance")),
        ])),
        battery: Some(table(vec![("balanced", s("balanced-battery"))])),
        service: None,
    };

    let plan = TuneDPPDService.plan(&config, &test_paths());

    assert_eq!(plan.files.len(), 1);

    if let Some(file) = plan.files.first() {
        assert_eq!(file.path, "/test/tuned/ppd.conf".to_string());

        let expected_content = r#"# Managed by spec
[main]
battery_detection=true
default=balanced
sysfs_acpi_monitor=true

[profiles]
balanced=balanced
performance=throughput-performance
power-saver=powersave

[battery]
balanced=balanced-battery"#;

        assert_eq!(expected_content.trim(), file.content.trim());
    }
}
