use rustle::autostart::{
    desktop_entry_contents, reconcile_plan, systemd_unit_contents, AutostartPaths, AutostartStep,
};
use rustle::diagnostics::{default_log_path, panic_location, panic_payload_message};
use rustle::environment::unsupported_session_warning;
use rustle::{LoginMethod, PathEnv, Settings};

fn settings(start_on_login: bool, method: LoginMethod) -> Settings {
    let mut settings = Settings::default();
    settings.general.start_on_login = start_on_login;
    settings.general.start_on_login_method = method;
    settings
}

fn paths() -> AutostartPaths {
    AutostartPaths {
        config_home: "/home/a/.config".to_owned(),
    }
}

#[test]
fn panic_payload_message_formats_strings() {
    assert_eq!(panic_payload_message(Some("boom")), "boom");
    assert_eq!(panic_payload_message(Some(String::from("owned boom").as_str())), "owned boom");
}

#[test]
fn panic_payload_message_handles_non_string_payloads() {
    assert_eq!(panic_payload_message(None), "panic payload is not a string");
}

#[test]
fn panic_locations_name_file_line_and_column() {
    assert_eq!(panic_location(Some(("src/main.rs", 12, 5))), "src/main.rs:12:5");
    assert_eq!(panic_location(None), "unknown location");
}

#[test]
fn default_log_path_honors_xdg_data_home() {
    let env = PathEnv {
        xdg_data_home: Some("/tmp/rustle-log-test".to_owned()),
        xdg_config_home: None,
        home: None,
    };
    assert_eq!(
        default_log_path(&env).unwrap(),
        "/tmp/rustle-log-test/rustle/logs/rustle.log"
    );
    let nowhere = PathEnv {
        xdg_data_home: None,
        xdg_config_home: None,
        home: None,
    };
    assert!(default_log_path(&nowhere).is_err());
}

#[test]
fn unsupported_sessions_are_reported() {
    assert_eq!(unsupported_session_warning(None), Some("Hyprland"));
    assert_eq!(unsupported_session_warning(Some("")), Some("Hyprland"));
    assert_eq!(unsupported_session_warning(Some("abc_123")), None);
}

#[test]
fn autostart_paths_follow_the_config_home() {
    let p = paths();
    assert_eq!(p.xdg_autostart_path(), "/home/a/.config/autostart/rustle.desktop");
    assert_eq!(p.systemd_unit_path(), "/home/a/.config/systemd/user/rustle.service");
    assert_eq!(
        p.systemd_wants_path(),
        "/home/a/.config/systemd/user/default.target.wants/rustle.service"
    );
    assert_eq!(
        AutostartPaths::from_environment(None, Some("/home/a".to_owned())).unwrap(),
        p
    );
    assert_eq!(
        AutostartPaths::from_environment(Some("/x".to_owned()), Some("/home/a".to_owned()))
            .unwrap()
            .config_home,
        "/x"
    );
    assert_eq!(
        AutostartPaths::from_environment(None, None).unwrap_err(),
        "HOME or XDG_CONFIG_HOME must be set for start-on-login"
    );
}

#[test]
fn enabling_xdg_autostart_writes_desktop_entry() {
    let steps = reconcile_plan(&settings(true, LoginMethod::Xdg), &paths(), "/bin/rustle");
    assert_eq!(steps.len(), 4);
    assert_eq!(
        steps[0],
        AutostartStep::Remove("/home/a/.config/systemd/user/default.target.wants/rustle.service".to_owned())
    );
    let AutostartStep::Write { path, contents } = &steps[3] else {
        panic!("expected the desktop entry to be written");
    };
    assert_eq!(path, "/home/a/.config/autostart/rustle.desktop");
    assert!(contents.contains("Type=Application"));
    assert!(contents.contains("Name=Rustle"));
    assert!(contents.contains("Exec=/bin/rustle"));
}

#[test]
fn enabling_systemd_startup_writes_unit_and_symlink() {
    let steps = reconcile_plan(&settings(true, LoginMethod::Systemd), &paths(), "/bin/rustle");
    assert_eq!(steps.len(), 6);
    assert_eq!(
        steps[0],
        AutostartStep::Remove("/home/a/.config/autostart/rustle.desktop".to_owned())
    );
    assert_eq!(
        steps[5],
        AutostartStep::Symlink {
            target: "/home/a/.config/systemd/user/rustle.service".to_owned(),
            link: "/home/a/.config/systemd/user/default.target.wants/rustle.service".to_owned(),
        }
    );
    let AutostartStep::Write { contents, .. } = &steps[2] else {
        panic!("expected the unit to be written");
    };
    assert!(contents.contains("[Service]"));
    assert!(contents.contains("ExecStart=/bin/rustle"));
}

#[test]
fn disabling_start_on_login_cleans_up_all_artifacts() {
    let steps = reconcile_plan(&settings(false, LoginMethod::Systemd), &paths(), "/bin/rustle");
    assert_eq!(
        steps,
        vec![
            AutostartStep::Remove("/home/a/.config/autostart/rustle.desktop".to_owned()),
            AutostartStep::Remove(
                "/home/a/.config/systemd/user/default.target.wants/rustle.service".to_owned()
            ),
            AutostartStep::Remove("/home/a/.config/systemd/user/rustle.service".to_owned()),
        ]
    );
}

#[test]
fn startup_files_are_exact() {
    assert_eq!(
        desktop_entry_contents("/b/r"),
        "[Desktop Entry]\nType=Application\nVersion=1.0\nName=Rustle\nComment=Tray-first meeting notes app\nExec=/b/r\nTerminal=false\nX-GNOME-Autostart-enabled=true\n"
    );
    assert_eq!(
        systemd_unit_contents("/b/r"),
        "[Unit]\nDescription=Rustle tray application\n\n[Service]\nType=simple\nExecStart=/b/r\nRestart=on-failure\nRestartSec=5\n\n[Install]\nWantedBy=default.target\n"
    );
}
