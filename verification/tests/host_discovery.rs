use soter_system::discovery::{
    detect_distro, detect_package_manager, first_present, os_release_id, package_manager_candidates,
    system_info, SystemInfo,
};
use soter_system::paths::{join, state_root};
use soter_system::text::{parse_u32, split_commas, to_decimal, trim};
use soter_system::vpn::VpnPolicy;

fn words(list: &[&str]) -> Vec<String> {
    list.iter().map(|w| w.to_string()).collect()
}

#[test]
fn distribution_id_of_os_release() {
    assert_eq!(os_release_id("NAME=\"Arch Linux\"\nID=arch\n").as_deref(), Some("arch"));
    assert_eq!(os_release_id("ID=\"ubuntu\"").as_deref(), Some("ubuntu"));
    assert_eq!(os_release_id("ID_LIKE=debian\r\nID=debian\r\n").as_deref(), Some("debian"));
    assert_eq!(os_release_id("NAME=x\n"), None);
}

#[test]
fn sysinfo_distro() {
    assert_eq!(detect_distro(Some("ID_LIKE=debian\nID=ubuntu\n")), "ubuntu");
    assert_eq!(detect_distro(Some("ID=\"fedora\"")), "fedora");
    assert_eq!(detect_distro(Some("ID=\"ID=x\"")), "x");
    assert_eq!(detect_distro(Some("NAME=x")), "unknown");
    assert_eq!(detect_distro(None), "unknown");
}

#[test]
fn sysinfo_package_manager() {
    assert_eq!(detect_package_manager(&vec![true]), "apt-get");
    assert_eq!(detect_package_manager(&vec![false, true]), "pacman");
    assert_eq!(detect_package_manager(&vec![false, false, false, true]), "yum");
    assert_eq!(detect_package_manager(&Vec::new()), "unknown");
    assert_eq!(detect_package_manager(&vec![false; 4]), "unknown");
}

#[test]
fn discovery_report() {
    assert_eq!(
        package_manager_candidates(),
        words(&["pacman", "apt-get", "dnf", "yum", "zypper", "apk"])
    );
    assert_eq!(first_present(&words(&["a", "b"]), &vec![false, true]).as_deref(), Some("b"));
    assert_eq!(first_present(&words(&["a", "b"]), &vec![false]), None);
    let info = system_info(Some("ID=arch\n"), &vec![false, false, true], Some("6.1.0\n"), true);
    assert_eq!(info.distro, "arch");
    assert_eq!(info.package_manager.as_deref(), Some("dnf"));
    assert_eq!(info.kernel.as_deref(), Some("6.1.0"));
    assert_eq!(info.init_system.as_deref(), Some("systemd"));
    let none = system_info(None, &Vec::new(), None, false);
    assert_eq!(none.distro, "unknown");
    assert!(none.package_manager.is_none() && none.kernel.is_none() && none.init_system.is_none());
    let d = SystemInfo::default();
    assert_eq!(d.distro, "");
    assert!(d.package_manager.is_none());
}

#[test]
fn state_root_location() {
    assert_eq!(state_root(Some("/x"), Some("/h")), Ok("/x/soter/spaces".to_string()));
    assert_eq!(state_root(None, Some("/home/u")), Ok("/home/u/.local/state/soter/spaces".to_string()));
    assert_eq!(state_root(None, Some("/home/u/")), Ok("/home/u/.local/state/soter/spaces".to_string()));
    assert_eq!(state_root(None, None), Err("HOME is not set".to_string()));
}

#[test]
fn joining_paths() {
    assert_eq!(join("/a", "b"), "/a/b");
    assert_eq!(join("/a/", "b"), "/a/b");
    assert_eq!(join("/a", "/b"), "/b");
    assert_eq!(join("", "b"), "b");
    assert_eq!(join("/a", ""), "/a/");
}

#[test]
fn strict_vpn_policy_fails_closed() {
    let p = VpnPolicy::strict("corp.ovpn");
    assert_eq!(p.profile, "corp.ovpn");
    assert!(p.fail_closed);
}

#[test]
fn decimal_text() {
    assert_eq!(to_decimal(0), "0");
    assert_eq!(to_decimal(1234), "1234");
    assert_eq!(to_decimal(u64::MAX), "18446744073709551615");
    assert_eq!(parse_u32("+5"), Some(5));
    assert_eq!(parse_u32("4294967295"), Some(u32::MAX));
    assert_eq!(parse_u32("4294967296"), None);
    assert_eq!(parse_u32("-1"), None);
    assert_eq!(parse_u32(""), None);
    assert_eq!(parse_u32("+"), None);
    assert_eq!(parse_u32("007"), Some(7));
}

#[test]
fn splitting_and_trimming() {
    assert_eq!(split_commas(",a,,b,"), words(&["a", "b"]));
    assert_eq!(split_commas(""), Vec::<String>::new());
    assert_eq!(trim("\t a b \n"), "a b");
}
