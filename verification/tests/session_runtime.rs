use soter_system::session::{
    entry_check, flake_launcher, guest_socket, guest_term, launcher_target, nix_build_args,
    parse_network_mode, quote_words, resolve_flakes, resolve_shell, runtime_script, session_argv,
    session_script, shell_quote, store_path, SessionParams,
};
use soter_system::soterspace::{cmdline_text, owns_runtime};

fn words(list: &[&str]) -> Vec<String> {
    list.iter().map(|w| w.to_string()).collect()
}

fn params(offline: bool, command: &[&str], shell_in_root: bool) -> SessionParams {
    SessionParams {
        name: "lab".to_string(),
        rootfs: "/s/lab/root".to_string(),
        shell: "/bin/bash".to_string(),
        offline,
        host_nix_store: false,
        host_x11: false,
        display: None,
        wayland_display: None,
        xdg_runtime_dir: None,
        term: Some("xterm".to_string()),
        command: words(command),
        shell_in_root,
    }
}

const MOUNTS: &str = "set -eu; mount --make-rprivate /; mkdir -p /s/lab/root/proc /s/lab/root/tmp /s/lab/root/run /s/lab/root/dev /s/lab/root/nix/store; mount -t proc proc /s/lab/root/proc; mount --rbind /dev /s/lab/root/dev; mount --make-rslave /s/lab/root/dev; mount -t tmpfs -o mode=1777 tmpfs /s/lab/root/tmp; ";
const CHROOT: &str = "hostname soter-lab; cd /s/lab/root; exec chroot . /usr/bin/env -i HOME=/root USER=root LOGNAME=root PATH=/opt/soter/bin:/usr/local/sbin:/usr/local/bin:/usr/sbin:/usr/bin:/sbin:/bin SHELL=/bin/bash SOTERSPACE=lab ";

#[test]
fn shell_quote_escapes_single_quotes() {
    assert_eq!(shell_quote("it's"), "'it'\\''s'");
    assert_eq!(shell_quote(""), "''");
    assert_eq!(shell_quote("a b"), "'a b'");
    assert_eq!(quote_words(&words(&["a b", "c"])), "'a b' 'c'");
    assert_eq!(quote_words(&Vec::new()), "");
}

#[test]
fn shell_choice() {
    assert_eq!(resolve_shell(Some("zsh"), Some("/bin/bash")), "/bin/zsh");
    assert_eq!(resolve_shell(Some("/usr/bin/fish"), None), "/usr/bin/fish");
    assert_eq!(resolve_shell(None, Some("/bin/bash")), "/bin/bash");
    assert_eq!(resolve_shell(None, None), "/bin/sh");
}

#[test]
fn terminal_type_inside_the_guest() {
    assert_eq!(guest_term(Some("xterm-ghostty")).as_deref(), Some("xterm-256color"));
    assert_eq!(guest_term(Some("screen")).as_deref(), Some("screen"));
    assert_eq!(guest_term(None), None);
}

#[test]
fn network_modes() {
    assert_eq!(parse_network_mode(None), Ok(false));
    assert_eq!(parse_network_mode(Some("open")), Ok(false));
    assert_eq!(parse_network_mode(Some("isolate")), Ok(true));
    assert_eq!(parse_network_mode(Some("mesh")), Err("unknown network mode 'mesh'".to_string()));
}

#[test]
fn flake_launchers() {
    let f = flake_launcher("firefox").unwrap();
    assert_eq!((f.package.as_str(), f.binary.as_str()), ("firefox-pentesting", "firefox"));
    let c = flake_launcher("chromium-pentesting").unwrap();
    assert_eq!((c.package.as_str(), c.binary.as_str()), ("chromium-pentesting", "chromium"));
    assert!(flake_launcher("opera").is_none());
}

#[test]
fn resolving_flakes() {
    match resolve_flakes(&words(&["chromium", "firefox-pentesting"])) {
        Ok(ls) => {
            assert_eq!(ls.len(), 2);
            assert_eq!(ls[0].binary, "chromium");
            assert_eq!(ls[1].package, "firefox-pentesting");
        }
        Err(e) => panic!("refused: {e}"),
    }
    match resolve_flakes(&words(&["firefox", "opera", "brave"])) {
        Err(e) => assert_eq!(e, "unknown Soter flake 'opera'"),
        Ok(_) => panic!("expected a refusal"),
    }
}

#[test]
fn no_flakes_means_no_nix_build() {
    match resolve_flakes(&Vec::new()) {
        Ok(ls) => assert!(ls.is_empty()),
        Err(e) => panic!("refused: {e}"),
    }
}

#[test]
fn nix_build_and_store_path() {
    assert_eq!(
        nix_build_args("firefox-pentesting"),
        words(&[
            "--extra-experimental-features",
            "nix-command flakes",
            "build",
            "--no-link",
            "--print-out-paths",
            ".#firefox-pentesting"
        ])
    );
    assert_eq!(
        store_path("p", " /nix/store/abc-firefox \n/nix/store/other\n"),
        Ok("/nix/store/abc-firefox".to_string())
    );
    assert_eq!(store_path("p", ""), Err("Nix returned no store path for 'p'".to_string()));
    assert_eq!(launcher_target("/nix/store/x", "firefox"), "/nix/store/x/bin/firefox");
}

#[test]
fn wayland_socket_inside_the_root() {
    assert_eq!(
        guest_socket("/s/lab/root", "/run/user/1000", "wayland-0"),
        "/s/lab/root/run/user/1000/wayland-0"
    );
    assert_eq!(guest_socket("/r/", "//run", "w"), "/r/run/w");
}

#[test]
fn entering_requires_a_present_idle_space() {
    assert_eq!(entry_check("lab", false, None), Err("soterspace 'lab' does not exist".to_string()));
    assert_eq!(entry_check("lab", true, Some(5)), Err("soterspace 'lab' is already running".to_string()));
    assert_eq!(entry_check("lab", true, None), Ok(()));
}

#[test]
fn script_of_a_login_shell_on_the_host_network() {
    let expected = format!(
        "{MOUNTS}mount --bind /etc/resolv.conf '/s/lab/root/etc/resolv.conf'; mount -o remount,bind,ro '/s/lab/root/etc/resolv.conf'; {CHROOT}TERM='xterm' /bin/bash -l"
    );
    assert_eq!(session_script(&params(false, &[], true)), expected);
}

#[test]
fn script_of_an_offline_command() {
    let expected = format!("{MOUNTS}{CHROOT}TERM='xterm' 'ip' 'addr'");
    assert_eq!(session_script(&params(true, &["ip", "addr"], true)), expected);
    let shell = session_script(&params(true, &[], false));
    assert!(shell.ends_with("TERM='xterm' /bin/sh -l"));
}

#[test]
fn script_with_shared_store_display_and_x11() {
    let mut p = params(true, &[], true);
    p.host_nix_store = true;
    p.host_x11 = true;
    p.display = Some(":0".to_string());
    p.wayland_display = Some("wayland-0".to_string());
    p.xdg_runtime_dir = Some("/run/user/1000".to_string());
    p.term = None;
    let expected = format!(
        "{MOUNTS}mount --bind /nix/store /s/lab/root/nix/store; mount -o remount,bind,ro /s/lab/root/nix/store; mkdir -p '/s/lab/root/tmp/.X11-unix'; mount --bind /tmp/.X11-unix '/s/lab/root/tmp/.X11-unix'; mount -o remount,bind,ro '/s/lab/root/tmp/.X11-unix'; {CHROOT}DISPLAY=':0' WAYLAND_DISPLAY='wayland-0' XDG_RUNTIME_DIR='/run/user/1000' /bin/bash -l"
    );
    assert_eq!(session_script(&p), expected);
}

#[test]
fn runtime_script_brings_up_loopback_offline() {
    assert_eq!(runtime_script("X", true), "set -eu; ip link set lo up; X");
    assert_eq!(runtime_script("X", false), "X");
}

#[test]
fn runtime_command_lines() {
    assert_eq!(
        session_argv(Some((1000, 1001)), true, "S"),
        words(&[
            "unshare",
            "--user",
            "--map-users=0,0,1",
            "--map-users=1000,1000,1",
            "--map-groups=0,0,1",
            "--map-groups=1001,1001,1",
            "--mount",
            "--pid",
            "--fork",
            "--uts",
            "--ipc",
            "--net",
            "sh",
            "-c",
            "S"
        ])
    );
    assert_eq!(
        session_argv(None, false, "S"),
        words(&["unshare", "--user", "--map-root-user", "--mount", "--pid", "--fork", "--uts", "--ipc", "sh", "-c", "S"])
    );
}

#[test]
fn a_started_session_is_recognised_as_the_space_runtime() {
    let script = session_script(&params(false, &[], true));
    let argv = session_argv(None, false, &runtime_script(&script, false));
    let mut raw = String::new();
    for a in &argv {
        raw.push_str(a);
        raw.push('\0');
    }
    let text = cmdline_text(&raw);
    assert!(owns_runtime("lab", &text));
    assert!(!owns_runtime("lab2", &text));
    assert!(!owns_runtime("lab", "sleep 100 soter-lab"));
}

#[test]
fn offline_sessions_get_their_own_network() {
    let offline = session_argv(None, true, "S");
    let online = session_argv(None, false, "S");
    assert!(offline.iter().any(|a| a == "--net"));
    assert!(!online.iter().any(|a| a == "--net"));
}
