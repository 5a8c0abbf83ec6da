use soter_system::soterspace::{
    active_runtime, backup_check, bool_string, cmdline_text, creation_target, incomplete_root_msg,
    install_apps_check, is_running, kill, not_exist, owns_runtime, pacman_install_args,
    pacstrap_args, parse_runtime_pid, pause, pid_record, removal_check, resume, rootfs_path,
    rootfs_check, rootfs_query_packages, runtime_pid_path, selected_spaces, session_flake, session_marker,
    session_notice, setting_check, signal_args, signal_outcome, space_conf, valid_package_name,
    wifi_listing,
};

const INVALID: &str = "soterspace names may contain only letters, numbers, '-' and '_'";

fn words(list: &[&str]) -> Vec<String> {
    list.iter().map(|w| w.to_string()).collect()
}

#[test]
fn rootfs_of_a_space() {
    assert_eq!(rootfs_path("lab", "/s", true), Ok("/s/lab/root".to_string()));
    assert_eq!(rootfs_path("lab", "/s/", true), Ok("/s/lab/root".to_string()));
    assert_eq!(rootfs_path("lab", "/s", false), Err("soterspace 'lab' does not exist".to_string()));
    assert_eq!(rootfs_path("../x", "/s", true), Err(INVALID.to_string()));
    assert_eq!(not_exist("lab"), "soterspace 'lab' does not exist");
}

#[test]
fn pid_file_location() {
    assert_eq!(runtime_pid_path("/s", "lab"), "/s/lab/runtime/session.pid");
}

#[test]
fn space_conf_records_the_options() {
    assert_eq!(space_conf("lab", true, false), "name=lab\nempty=true\ntemporary=false\n");
    assert_eq!(bool_string(true), "true");
    assert_eq!(bool_string(false), "false");
}

#[test]
fn creating_a_space() {
    match creation_target("lab", "/s", false) {
        Ok(s) => {
            assert_eq!(s.name, "lab");
            assert_eq!(s.path, "/s/lab");
        }
        Err(e) => panic!("refused: {e}"),
    }
    match creation_target("lab", "/s", true) {
        Err(e) => assert_eq!(e, "soterspace 'lab' already exists"),
        Ok(_) => panic!("expected a refusal"),
    }
    match creation_target("a b", "/s", false) {
        Err(e) => assert_eq!(e, INVALID),
        Ok(_) => panic!("expected a refusal"),
    }
}

#[test]
fn a_running_space_is_not_removed() {
    assert_eq!(
        removal_check("lab", true, true),
        Err("soterspace 'lab' is running; exit it before removing it".to_string())
    );
    assert_eq!(removal_check("lab", false, false), Err("soterspace 'lab' does not exist".to_string()));
    assert_eq!(removal_check("lab", true, false), Ok(()));
}

#[test]
fn only_two_settings_are_stored() {
    assert_eq!(setting_check("password"), Ok(()));
    assert_eq!(setting_check("openvpn.conf"), Ok(()));
    assert_eq!(setting_check("shell"), Err("unsupported setting".to_string()));
}

#[test]
fn pid_record_reads_back() {
    assert_eq!(pid_record(1234), "1234\n");
    assert_eq!(pid_record(0), "0\n");
    assert_eq!(parse_runtime_pid("lab", &pid_record(1234)), Ok(1234));
    assert_eq!(parse_runtime_pid("lab", &pid_record(u32::MAX)), Ok(u32::MAX));
    assert_eq!(parse_runtime_pid("lab", " 42 "), Ok(42));
    assert_eq!(parse_runtime_pid("lab", "+7"), Ok(7));
    let bad = Err("invalid runtime pid for soterspace 'lab'".to_string());
    assert_eq!(parse_runtime_pid("lab", "abc"), bad);
    assert_eq!(parse_runtime_pid("lab", "4294967296"), bad);
    assert_eq!(parse_runtime_pid("lab", "-1"), bad);
    assert_eq!(parse_runtime_pid("lab", ""), bad);
}

#[test]
fn runtime_ownership() {
    assert_eq!(cmdline_text("unshare\0--user\0"), "unshare --user ");
    assert!(owns_runtime("lab", "unshare --user sh -c hostname soter-lab; "));
    assert!(!owns_runtime("lab", "sh -c hostname soter-lab; "));
    assert!(!owns_runtime("lab", "unshare --user sh -c hostname soter-web; "));
    assert_eq!(active_runtime(7, true, true), Some(7));
    assert_eq!(active_runtime(7, true, false), None);
    assert_eq!(active_runtime(7, false, true), None);
}

#[test]
fn running_state() {
    assert_eq!(is_running(&Ok(Some(3))), Ok(true));
    assert_eq!(is_running(&Ok(None)), Ok(false));
    assert_eq!(is_running(&Err("x".to_string())), Err("x".to_string()));
}

#[test]
fn lifecycle_signals() {
    let k = kill("lab");
    assert_eq!((k.name.as_str(), k.signal.as_str(), k.action.as_str(), k.completed.as_str()), ("lab", "-TERM", "kill", "Killed"));
    let p = pause("lab");
    assert_eq!((p.signal.as_str(), p.action.as_str(), p.completed.as_str()), ("-STOP", "pause", "Paused"));
    let r = resume("lab");
    assert_eq!((r.signal.as_str(), r.action.as_str(), r.completed.as_str()), ("-CONT", "resume", "Resumed"));
    assert_eq!(signal_args(&k, Some(42)), Ok(words(&["-TERM", "--", "-42"])));
    assert_eq!(signal_args(&k, None), Err("soterspace 'lab' is not running".to_string()));
    assert_eq!(signal_outcome(&p, true), Ok("Paused soterspace 'lab'.".to_string()));
    assert_eq!(signal_outcome(&p, false), Err("failed to pause soterspace 'lab'".to_string()));
}

#[test]
fn package_names() {
    assert!(valid_package_name("lib32-gcc+@1.2_x"));
    assert!(!valid_package_name(""));
    assert!(!valid_package_name("a b"));
    assert!(!valid_package_name("x/y"));
}

#[test]
fn installing_apps() {
    assert_eq!(install_apps_check("lab", &Vec::new(), false), Err("choose at least one app".to_string()));
    assert_eq!(
        install_apps_check("lab", &words(&["vim"]), true),
        Err("soterspace 'lab' is running; exit it before installing apps".to_string())
    );
    assert_eq!(
        install_apps_check("lab", &words(&["vim", "bad name", "x y"]), false),
        Err("invalid Arch package name 'bad name'".to_string())
    );
    assert_eq!(install_apps_check("lab", &words(&["vim", "git"]), false), Ok(()));
    assert_eq!(
        pacman_install_args("/r", &words(&["vim", "git"])),
        words(&["/r", "pacman", "-Syu", "--needed", "--noconfirm", "vim", "git"])
    );
}

#[test]
fn provisioning_arguments() {
    assert_eq!(rootfs_query_packages(true, false), words(&["filesystem", "openssl"]));
    assert_eq!(rootfs_query_packages(false, true), words(&["filesystem", "pcre2"]));
    assert_eq!(rootfs_query_packages(true, true), words(&["filesystem", "openssl", "pcre2"]));
    assert_eq!(
        pacstrap_args("/r"),
        words(&["-c", "-P", "/r", "base", "bash", "coreutils", "util-linux", "iproute2"])
    );
    assert_eq!(
        incomplete_root_msg("/r"),
        "workspace root '/r' has files but its package database is incomplete; keep it for recovery and create a new Soterspace instead"
    );
}

#[test]
fn spaces_selected_for_a_run() {
    assert_eq!(selected_spaces(Some("lab"), true, &Vec::new()), Ok(words(&["lab"])));
    assert_eq!(
        selected_spaces(Some("lab"), false, &Vec::new()),
        Err("soterspace 'lab' does not exist".to_string())
    );
    assert_eq!(selected_spaces(Some("a/b"), true, &Vec::new()), Err(INVALID.to_string()));
    assert_eq!(selected_spaces(None, false, &Vec::new()), Err("no soterspaces found".to_string()));
    assert_eq!(selected_spaces(None, false, &words(&["a", "b"])), Ok(words(&["a", "b"])));
}

#[test]
fn flake_session_storage() {
    assert_eq!(session_flake("firefox-pentesting"), Ok("firefox".to_string()));
    assert_eq!(session_flake("chromium"), Ok("chromium".to_string()));
    assert_eq!(session_flake("opera"), Err("unknown Soter flake 'opera'".to_string()));
    assert_eq!(session_marker(), "version=1\nfull_sessions=true\nextension_sessions=true\n");
    assert_eq!(
        session_notice("firefox", "lab"),
        words(&[
            "Prepared persistent firefox session storage for 'lab'.",
            "Use firefox -s:<ID> for a full session, firefox -se:<ID> for extension-only state.",
            "Use firefox -l to list sessions and firefox -rs:<ID> to remove one."
        ])
    );
}

#[test]
fn backups_need_an_idle_space() {
    assert_eq!(
        backup_check("lab", true, true),
        Err("soterspace 'lab' is running; exit it before backing up".to_string())
    );
    assert_eq!(backup_check("lab", false, false), Err("soterspace 'lab' does not exist".to_string()));
    assert_eq!(backup_check("lab", true, false), Ok(()));
}

#[test]
fn wifi_listing_output() {
    assert_eq!(wifi_listing("  \n"), "No Wi-Fi networks found.\n");
    assert_eq!(wifi_listing(""), "No Wi-Fi networks found.\n");
    assert_eq!(wifi_listing("home:70:WPA2\n"), "SSID:SIGNAL:SECURITY\nhome:70:WPA2\n");
}

#[test]
fn reused_roots_need_a_complete_database() {
    let refused = Err("workspace root '/r' has files but its package database is incomplete; keep it for recovery and create a new Soterspace instead".to_string());
    assert_eq!(rootfs_check("/r", true, true), Ok(()));
    assert_eq!(rootfs_check("/r", false, true), refused);
    assert_eq!(rootfs_check("/r", true, false), refused);
    assert_eq!(rootfs_check("/r", false, false), refused);
}
