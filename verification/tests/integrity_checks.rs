use soter_system::integrity::{
    baseline_record, check_baseline, core_candidate_paths, core_hash_paths, core_tar_args,
    digest_from_output, failure_count_result, points_into_nix_store, scan_space, sha256sum_failure,
    LauncherFact, ReportLine, ScanFacts, Status,
};

fn words(list: &[&str]) -> Vec<String> {
    list.iter().map(|w| w.to_string()).collect()
}

fn shown(lines: &[ReportLine]) -> Vec<(Status, String)> {
    lines.iter().map(|l| (l.status, l.text.clone())).collect()
}

fn launcher(name: &str, symlink: bool, target: &str) -> LauncherFact {
    LauncherFact { name: name.to_string(), symlink, target: target.to_string() }
}

fn quiet_facts() -> ScanFacts {
    ScanFacts {
        baseline: None,
        current: String::new(),
        launchers: Vec::new(),
        firefox_profile: false,
        chromium_profile: false,
        sessions_mode: None,
        legacy_network_conf: false,
        stale_net_ready: false,
    }
}

const INFO: [&str; 3] = [
    "default network mode is host-open",
    "'--network isolate' creates an offline network namespace with no veth/NAT",
    "hashes verify stored filesystem state; they cannot prove historical network traffic did not occur",
];

#[test]
fn core_paths_to_hash() {
    assert_eq!(core_candidate_paths(), words(&["etc", "usr", "bin", "sbin", "lib", "lib64"]));
    assert_eq!(
        core_hash_paths(&vec![true, false, true, false, false, true]),
        Ok(words(&["etc", "bin", "lib64"]))
    );
    assert_eq!(
        core_hash_paths(&vec![false; 6]),
        Err("no core filesystem paths were found to hash".to_string())
    );
    assert_eq!(core_hash_paths(&vec![false, true]), Ok(words(&["usr"])));
    assert_eq!(
        core_hash_paths(&Vec::new()),
        Err("no core filesystem paths were found to hash".to_string())
    );
    assert_eq!(
        core_tar_args(&words(&["etc", "usr"])),
        words(&[
            "--sort=name",
            "--mtime=@0",
            "--owner=0",
            "--group=0",
            "--numeric-owner",
            "--exclude=usr/share/wordlists/soter",
            "-cf",
            "-",
            "etc",
            "usr"
        ])
    );
}

#[test]
fn digest_of_sha256sum_output() {
    assert_eq!(digest_from_output("abc123  -\n"), Ok("abc123".to_string()));
    assert_eq!(digest_from_output("\n  abc123\tx"), Ok("abc123".to_string()));
    assert_eq!(digest_from_output(""), Err("sha256sum returned no digest".to_string()));
    assert_eq!(digest_from_output(" \n\t"), Err("sha256sum returned no digest".to_string()));
    assert_eq!(sha256sum_failure(" boom \n"), "sha256sum failed: boom");
}

#[test]
fn a_missing_baseline_is_stored() {
    let c = check_baseline("lab", None, "abc");
    assert!(!c.mismatch);
    assert_eq!(c.store.as_deref(), Some("abc\n"));
    assert_eq!(shown(&c.lines), vec![(Status::Baseline, "lab: stored core hash abc".to_string())]);
    assert_eq!(baseline_record("abc"), "abc\n");
}

#[test]
fn a_matching_baseline_passes() {
    let c = check_baseline("lab", Some("abc\n"), "abc");
    assert!(!c.mismatch);
    assert!(c.store.is_none());
    assert_eq!(shown(&c.lines), vec![(Status::Pass, "lab: core hash matches abc".to_string())]);
}

#[test]
fn a_changed_core_fails() {
    let c = check_baseline("lab", Some(" old \n"), "new");
    assert!(c.mismatch);
    assert!(c.store.is_none());
    assert_eq!(
        shown(&c.lines),
        vec![
            (Status::Fail, "lab: core hash changed".to_string()),
            (Status::Fail, "       expected: old".to_string()),
            (Status::Fail, "       current:  new".to_string()),
        ]
    );
}

#[test]
fn a_stored_baseline_matches_the_same_digest() {
    let digest = digest_from_output("9f86d081884c7d65  -\n").unwrap();
    let first = check_baseline("lab", None, &digest);
    let stored = first.store.unwrap();
    let second = check_baseline("lab", Some(&stored), &digest);
    assert!(!second.mismatch);
    assert_eq!(second.lines[0].status, Status::Pass);
}

#[test]
fn failure_counts() {
    assert_eq!(failure_count_result(0, "security check(s) failed"), Ok(()));
    assert_eq!(
        failure_count_result(2, "security check(s) failed"),
        Err("2 security check(s) failed".to_string())
    );
    assert_eq!(
        failure_count_result(13, "Soterspace core integrity check(s) failed"),
        Err("13 Soterspace core integrity check(s) failed".to_string())
    );
}

#[test]
fn nix_store_paths_by_component() {
    assert!(points_into_nix_store("/nix/store/abc-firefox/bin/firefox"));
    assert!(points_into_nix_store("/nix//store/./abc"));
    assert!(points_into_nix_store("/nix/store"));
    assert!(!points_into_nix_store("/nix/storex/abc"));
    assert!(!points_into_nix_store("nix/store/abc"));
    assert!(!points_into_nix_store("/tmp/evil"));
    assert!(!points_into_nix_store(""));
}

#[test]
fn scan_of_a_quiet_space() {
    let r = scan_space("lab", &quiet_facts());
    assert_eq!(r.failures, 0);
    let mut expected = vec![(Status::Warn, "no core hash baseline; run 'soter --hash lab'".to_string())];
    for i in INFO {
        expected.push((Status::Info, i.to_string()));
    }
    assert_eq!(shown(&r.lines), expected);
}

#[test]
fn scan_counts_each_failed_check() {
    let mut f = quiet_facts();
    f.baseline = Some("abc\n".to_string());
    f.current = "abc".to_string();
    f.launchers = vec![
        launcher("firefox", true, "/nix/store/x-firefox/bin/firefox"),
        launcher("chromium", false, ""),
        launcher("evil", true, "/tmp/evil"),
    ];
    f.firefox_profile = true;
    f.sessions_mode = Some(0o40755);
    f.legacy_network_conf = true;
    let r = scan_space("lab", &f);
    assert_eq!(r.failures, 3);
    let mut expected = vec![
        (Status::Pass, "core filesystem matches the stored SHA-256 baseline".to_string()),
        (Status::Pass, "launcher 'firefox' points into /nix/store".to_string()),
        (Status::Fail, "launcher 'chromium' is not a managed symlink".to_string()),
        (Status::Fail, "launcher 'evil' points outside /nix/store: /tmp/evil".to_string()),
        (Status::Warn, "unmanaged persistent firefox profile data exists at root/.mozilla/firefox".to_string()),
        (Status::Fail, "saved flake session storage permissions are 755".to_string()),
        (Status::Warn, "legacy network.conf remains from the old routed isolation design".to_string()),
    ];
    for i in INFO {
        expected.push((Status::Info, i.to_string()));
    }
    assert_eq!(shown(&r.lines), expected);
}

#[test]
fn scan_of_a_changed_core_and_private_sessions() {
    let mut f = quiet_facts();
    f.baseline = Some("abc".to_string());
    f.current = "def".to_string();
    f.chromium_profile = true;
    f.sessions_mode = Some(0o40700);
    f.stale_net_ready = true;
    let r = scan_space("lab", &f);
    assert_eq!(r.failures, 1);
    let lines = shown(&r.lines);
    assert_eq!(lines[0], (Status::Fail, "core filesystem differs from the stored SHA-256 baseline".to_string()));
    assert_eq!(lines[1], (Status::Warn, "unmanaged persistent chromium profile data exists at root/.config/chromium".to_string()));
    assert_eq!(lines[2], (Status::Pass, "saved flake session storage is not group/world accessible".to_string()));
    assert_eq!(lines[3], (Status::Warn, "stale runtime/net-ready marker remains from the old network design".to_string()));
    assert_eq!(lines.len(), 7);
    assert_eq!(r.failures, lines.iter().filter(|(s, _)| *s == Status::Fail).count());
}

#[test]
fn group_readable_sessions_fail_with_octal_mode() {
    let mut f = quiet_facts();
    f.sessions_mode = Some(0o100640);
    let r = scan_space("lab", &f);
    assert_eq!(r.failures, 1);
    assert_eq!(r.lines[1].text, "saved flake session storage permissions are 640");
}
