//! Host and distribution discovery: what the probes found, read into a
//! `SystemInfo`.

use vstd::prelude::*;
use vstd::string::*;
use crate::text::{
    begins_with, lines, lines_of, opt_str, opt_string, owned, replace, replaced, starts_with,
    strings, trim, trim_char, trim_matches, trimmed,
};

verus! {

/// What discovery found out about the host.
#[derive(Debug, Clone)]
pub struct SystemInfo {
    pub distro: String,
    pub package_manager: Option<String>,
    pub kernel: Option<String>,
    pub init_system: Option<String>,
}

impl Default for SystemInfo {
    fn default() -> (r: SystemInfo)
        ensures
            r.distro@ == Seq::<char>::empty(),
            r.package_manager is None,
            r.kernel is None,
            r.init_system is None,
    {
        SystemInfo { distro: String::new(), package_manager: None, kernel: None, init_system: None }
    }
}

/// The first line of `lines` from the `k`-th on that starts with `ID=`.
pub open spec fn id_line_from(ls: Seq<Seq<char>>, k: int) -> Option<Seq<char>>
    decreases ls.len() - k,
{
    if k < 0 || k >= ls.len() {
        None
    } else if begins_with(ls[k], "ID="@) {
        Some(ls[k])
    } else {
        id_line_from(ls, k + 1)
    }
}

fn find_id_line(ls: &Vec<String>) -> (r: Option<usize>)
    ensures
        match r {
            Some(k) => k < ls.len() && id_line_from(strings(ls@), 0) == Some(ls@[k as int]@)
                && begins_with(ls@[k as int]@, "ID="@),
            None => id_line_from(strings(ls@), 0) is None,
        },
{
    let ghost a = strings(ls@);
    let mut k: usize = 0;
    while k < ls.len()
        invariant
            k <= ls.len(),
            a == strings(ls@),
            id_line_from(a, 0) == id_line_from(a, k as int),
        decreases ls.len() - k,
    {
        assert(a[k as int] == ls@[k as int]@);
        if starts_with(ls[k].as_str(), "ID=") {
            return Some(k);
        }
        k = k + 1;
    }
    None
}

/// The distribution id of an `/etc/os-release`: the value of its first
/// `ID=` line without surrounding quotes.
pub open spec fn os_release_id_spec(text: Seq<char>) -> Option<Seq<char>> {
    match id_line_from(lines_of(text), 0) {
        Some(l) => Some(trim_char(l.skip(3), '"')),
        None => None,
    }
}

pub fn os_release_id(text: &str) -> (r: Option<String>)
    ensures
        opt_string(r) == os_release_id_spec(text@),
{
    let ls = lines(text);
    match find_id_line(&ls) {
        Some(k) => {
            let line = ls[k].as_str();
            let n = line.unicode_len();
            proof {
                reveal_strlit("ID=");
            }
            assert(begins_with(line@, "ID="@));
            let rest = line.substring_char(3, n);
            assert(line@.subrange(3, n as int) =~= line@.skip(3));
            Some(trim_matches(rest, '"'))
        },
        None => None,
    }
}

/// The package managers that discovery looks for, in order of preference.
pub fn package_manager_candidates() -> (r: Vec<String>)
    ensures
        strings(r@) == seq!["pacman"@, "apt-get"@, "dnf"@, "yum"@, "zypper"@, "apk"@],
{
    let mut r = Vec::new();
    r.push(owned("pacman"));
    r.push(owned("apt-get"));
    r.push(owned("dnf"));
    r.push(owned("yum"));
    r.push(owned("zypper"));
    r.push(owned("apk"));
    assert(strings(r@) =~= seq!["pacman"@, "apt-get"@, "dnf"@, "yum"@, "zypper"@, "apk"@]);
    r
}

/// The first candidate that is present.
pub open spec fn first_present_spec(candidates: Seq<Seq<char>>, present: Seq<bool>, k: int) -> Option<Seq<char>>
    decreases candidates.len() - k,
{
    if k < 0 || k >= candidates.len() || k >= present.len() {
        None
    } else if present[k] {
        Some(candidates[k])
    } else {
        first_present_spec(candidates, present, k + 1)
    }
}

pub fn first_present(candidates: &Vec<String>, present: &Vec<bool>) -> (r: Option<String>)
    ensures
        opt_string(r) == first_present_spec(strings(candidates@), present@, 0),
{
    let mut k: usize = 0;
    while k < candidates.len() && k < present.len()
        invariant
            k <= candidates.len(),
            first_present_spec(strings(candidates@), present@, 0) == first_present_spec(
                strings(candidates@),
                present@,
                k as int,
            ),
        decreases candidates.len() - k,
    {
        if present[k] {
            return Some(candidates[k].clone());
        }
        k = k + 1;
    }
    None
}

/// Reads what the probes found: the text of `/etc/os-release` (if it could
/// be read), which candidate package managers are present, the output of a
/// successful `uname -r`, and whether `systemctl` is present.
pub fn system_info(os_release: Option<&str>, present: &Vec<bool>, uname_output: Option<&str>, has_systemctl: bool) -> (r: SystemInfo)
    ensures
        r.distro@ == match os_release {
            Some(t) => match os_release_id_spec(t@) {
                Some(id) => id,
                None => "unknown"@,
            },
            None => "unknown"@,
        },
        opt_string(r.package_manager) == first_present_spec(
            seq!["pacman"@, "apt-get"@, "dnf"@, "yum"@, "zypper"@, "apk"@],
            present@,
            0,
        ),
        opt_string(r.kernel) == match uname_output {
            Some(o) => Some(trimmed(o@)),
            None => None,
        },
        opt_string(r.init_system) == (if has_systemctl { Some("systemd"@) } else { None }),
{
    let distro = match os_release {
        Some(t) => match os_release_id(t) {
            Some(id) => id,
            None => owned("unknown"),
        },
        None => owned("unknown"),
    };
    let candidates = package_manager_candidates();
    let package_manager = first_present(&candidates, present);
    let kernel = match uname_output {
        Some(o) => Some(trim(o)),
        None => None,
    };
    let init_system = if has_systemctl { Some(owned("systemd")) } else { None };
    SystemInfo { distro, package_manager, kernel, init_system }
}

/// The distribution that the `sysinfo` tool reports: from the first line
/// that starts with `ID=`, every `ID=` removed and quotes trimmed; else
/// `unknown`.
pub open spec fn detect_distro_spec(os_release: Option<Seq<char>>) -> Seq<char> {
    match os_release {
        Some(t) => match id_line_from(lines_of(t), 0) {
            Some(l) => trim_char(replaced(l, "ID="@, seq![]), '"'),
            None => "unknown"@,
        },
        None => "unknown"@,
    }
}

pub fn detect_distro(os_release: Option<&str>) -> (r: String)
    ensures
        r@ == detect_distro_spec(opt_str(os_release)),
{
    match os_release {
        Some(t) => {
            let ls = lines(t);
            match find_id_line(&ls) {
                Some(k) => {
                    proof {
                        reveal_strlit("ID=");
                    }
                    let stripped = replace(ls[k].as_str(), "ID=", "");
                    proof {
                        reveal_strlit("");
                    }
                    assert(""@ =~= Seq::<char>::empty());
                    trim_matches(stripped.as_str(), '"')
                },
                None => owned("unknown"),
            }
        },
        None => owned("unknown"),
    }
}

/// The package manager that the `sysinfo` tool reports: the first of
/// `apt-get`, `pacman`, `dnf` and `yum` that is present, else `unknown`.
pub fn detect_package_manager(present: &Vec<bool>) -> (r: String)
    ensures
        r@ == match first_present_spec(seq!["apt-get"@, "pacman"@, "dnf"@, "yum"@], present@, 0) {
            Some(m) => m,
            None => "unknown"@,
        },
{
    let mut c = Vec::new();
    c.push(owned("apt-get"));
    c.push(owned("pacman"));
    c.push(owned("dnf"));
    c.push(owned("yum"));
    assert(strings(c@) =~= seq!["apt-get"@, "pacman"@, "dnf"@, "yum"@]);
    match first_present(&c, present) {
        Some(m) => m,
        None => owned("unknown"),
    }
}

} // verus!
