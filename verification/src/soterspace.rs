//! Soterspace names, state paths, runtime records and lifecycle decisions.

use vstd::prelude::*;
use vstd::string::*;
use crate::paths::{join, joined};
use crate::text::{
    cat, cat3, decimal, has_substr, is_digit, map_char, owned,
    parse_u32, parse_unsigned, push_char, replace_char, to_decimal, trim, trim_end, trim_start,
    trimmed, contains, lemma_decimal_digits,
};

verus! {

// ---------------------------------------------------------------- names

/// A name character: an ASCII letter, an ASCII digit, `-` or `_`.
pub open spec fn is_name_char(c: char) -> bool {
    ('a' <= c && c <= 'z') || ('A' <= c && c <= 'Z') || ('0' <= c && c <= '9') || c == '-'
        || c == '_'
}

/// A Soterspace (or case) name: non-empty, made of name characters only.
pub open spec fn is_valid_name(s: Seq<char>) -> bool {
    s.len() > 0 && forall|i: int| 0 <= i < s.len() ==> is_name_char(#[trigger] s[i])
}

pub fn valid_name(name: &str) -> (r: bool)
    ensures
        r == is_valid_name(name@),
{
    let n = name.unicode_len();
    if n == 0 {
        return false;
    }
    let mut i: usize = 0;
    while i < n
        invariant
            n == name@.len(),
            i <= n,
            forall|j: int| 0 <= j < i ==> is_name_char(#[trigger] name@[j]),
        decreases n - i,
    {
        let c = name.get_char(i);
        if !(('a' <= c && c <= 'z') || ('A' <= c && c <= 'Z') || ('0' <= c && c <= '9') || c == '-'
            || c == '_') {
            return false;
        }
        i = i + 1;
    }
    true
}

/// The refusal of a name that is not a valid Soterspace name.
pub open spec fn invalid_name_msg() -> Seq<char> {
    "soterspace names may contain only letters, numbers, '-' and '_'"@
}

/// The refusal for a Soterspace that does not exist.
pub open spec fn not_exist_msg(name: Seq<char>) -> Seq<char> {
    "soterspace '"@ + name + "' does not exist"@
}

/// Accepts exactly the valid Soterspace names.
pub fn check_name(name: &str) -> (r: Result<(), String>)
    ensures
        is_valid_name(name@) ==> r is Ok,
        !is_valid_name(name@) ==> (r matches Err(e) && e@ == invalid_name_msg()),
{
    if valid_name(name) {
        Ok(())
    } else {
        Err(owned("soterspace names may contain only letters, numbers, '-' and '_'"))
    }
}

/// The message that a Soterspace does not exist.
pub fn not_exist(name: &str) -> (r: String)
    ensures
        r@ == not_exist_msg(name@),
{
    cat3("soterspace '", name, "' does not exist")
}

// ---------------------------------------------------------------- layout

/// A Soterspace: its name and its directory.
#[derive(Debug, Clone)]
pub struct Soterspace {
    pub name: String,
    pub path: String,
}

/// The directory of the Soterspace `name` under the state root.
pub open spec fn space_dir_spec(root: Seq<char>, name: Seq<char>) -> Seq<char> {
    joined(root, name)
}

/// The root filesystem of a Soterspace that exists; the refusal of an
/// invalid name, then of a missing Soterspace, otherwise.
pub fn rootfs_path(name: &str, root: &str, present: bool) -> (r: Result<String, String>)
    ensures
        !is_valid_name(name@) ==> (r matches Err(e) && e@ == invalid_name_msg()),
        is_valid_name(name@) && !present ==> (r matches Err(e) && e@ == not_exist_msg(name@)),
        is_valid_name(name@) && present ==> (r matches Ok(p) && p@ == joined(
            space_dir_spec(root@, name@),
            "root"@,
        )),
{
    check_name(name)?;
    if !present {
        return Err(not_exist(name));
    }
    let dir = join(root, name);
    Ok(join(dir.as_str(), "root"))
}

/// Where a running session records the process id of its runtime.
pub fn runtime_pid_path(root: &str, name: &str) -> (r: String)
    ensures
        r@ == joined(space_dir_spec(root@, name@), "runtime/session.pid"@),
{
    let dir = join(root, name);
    join(dir.as_str(), "runtime/session.pid")
}

/// What a new Soterspace records in its `space.conf`.
pub open spec fn space_conf_spec(name: Seq<char>, empty: bool, temporary: bool) -> Seq<char> {
    "name="@ + name + "\nempty="@ + bool_text(empty) + "\ntemporary="@ + bool_text(temporary)
        + "\n"@
}

/// `true` or `false`, as `format!` writes a `bool`.
pub open spec fn bool_text(b: bool) -> Seq<char> {
    if b { "true"@ } else { "false"@ }
}

pub fn bool_string(b: bool) -> (r: String)
    ensures
        r@ == bool_text(b),
{
    if b { owned("true") } else { owned("false") }
}

pub fn space_conf(name: &str, empty: bool, temporary: bool) -> (r: String)
    ensures
        r@ == space_conf_spec(name@, empty, temporary),
{
    let mut s = cat("name=", name);
    s.append("\nempty=");
    let e = bool_string(empty);
    s.append(e.as_str());
    s.append("\ntemporary=");
    let t = bool_string(temporary);
    s.append(t.as_str());
    s.append("\n");
    s
}

/// Where a new Soterspace goes: refused for an invalid name or a directory
/// that is already there.
pub fn creation_target(name: &str, root: &str, taken: bool) -> (r: Result<Soterspace, String>)
    ensures
        !is_valid_name(name@) ==> (r matches Err(e) && e@ == invalid_name_msg()),
        is_valid_name(name@) && taken ==> (r matches Err(e) && e@ == "soterspace '"@ + name@
            + "' already exists"@),
        is_valid_name(name@) && !taken ==> (r matches Ok(s) && s.name@ == name@ && s.path@
            == space_dir_spec(root@, name@)),
{
    check_name(name)?;
    if taken {
        return Err(cat3("soterspace '", name, "' already exists"));
    }
    Ok(Soterspace { name: owned(name), path: join(root, name) })
}

/// Refuses to remove a Soterspace that is missing or running.
pub fn removal_check(name: &str, present: bool, running: bool) -> (r: Result<(), String>)
    ensures
        !present ==> (r matches Err(e) && e@ == not_exist_msg(name@)),
        present && running ==> (r matches Err(e) && e@ == "soterspace '"@ + name@
            + "' is running; exit it before removing it"@),
        present && !running ==> r is Ok,
{
    if !present {
        return Err(not_exist(name));
    }
    if running {
        return Err(cat3("soterspace '", name, "' is running; exit it before removing it"));
    }
    Ok(())
}

/// The settings that a Soterspace stores in files of their own.
pub open spec fn is_setting_key(key: Seq<char>) -> bool {
    key == "password"@ || key == "openvpn.conf"@
}

/// Accepts only the settings `password` and `openvpn.conf`.
pub fn setting_check(key: &str) -> (r: Result<(), String>)
    ensures
        is_setting_key(key@) ==> r is Ok,
        !is_setting_key(key@) ==> (r matches Err(e) && e@ == "unsupported setting"@),
{
    if crate::text::str_eq(key, "password") || crate::text::str_eq(key, "openvpn.conf") {
        Ok(())
    } else {
        Err(owned("unsupported setting"))
    }
}

// ---------------------------------------------------------------- runtime

/// What a session writes into its pid file: the process id and a newline.
pub open spec fn pid_record_spec(pid: u32) -> Seq<char> {
    decimal(pid as nat) + seq!['\n']
}

pub fn pid_record(pid: u32) -> (r: String)
    ensures
        r@ == pid_record_spec(pid),
{
    let mut s = to_decimal(pid as u64);
    push_char(&mut s, '\n');
    s
}

/// The refusal of a pid file that does not hold a process id.
pub open spec fn invalid_pid_msg(name: Seq<char>) -> Seq<char> {
    "invalid runtime pid for soterspace '"@ + name + "'"@
}

/// Reads the process id out of a session's pid file.
pub fn parse_runtime_pid(name: &str, content: &str) -> (r: Result<u32, String>)
    ensures
        match parse_unsigned(trimmed(content@), u32::MAX as nat) {
            Some(v) => r == Ok::<u32, String>(v as u32),
            None => r matches Err(e) && e@ == invalid_pid_msg(name@),
        },
{
    let t = trim(content);
    match parse_u32(t.as_str()) {
        Some(v) => Ok(v),
        None => Err(cat3("invalid runtime pid for soterspace '", name, "'")),
    }
}

/// Law: the process id that a session records is the one read back.
pub proof fn lemma_pid_record_roundtrip(pid: u32)
    ensures
        parse_unsigned(trimmed(pid_record_spec(pid)), u32::MAX as nat) == Some(pid as nat),
{
    let d = decimal(pid as nat);
    lemma_decimal_digits(pid as nat);
    let rec = pid_record_spec(pid);
    assert(rec[0] == d[0]);
    assert(is_digit(d[0]));
    assert(trim_start(rec) == rec);
    assert(rec.last() == '\n');
    assert(rec.drop_last() =~= d);
    assert(is_digit(d.last()));
    assert(trim_end(d) == d);
    assert(trim_end(rec) == trim_end(d));
    assert(trimmed(rec) == d);
}

/// The command line of a process as `/proc/<pid>/cmdline` gives it: each
/// argument followed by a NUL.
pub open spec fn nul_terminated(args: Seq<Seq<char>>) -> Seq<char>
    decreases args.len(),
{
    if args.len() == 0 {
        seq![]
    } else {
        nul_terminated(args.drop_last()) + args.last() + seq!['\0']
    }
}

/// A command line made readable: each NUL written as a space.
pub open spec fn cmdline_text_spec(raw: Seq<char>) -> Seq<char> {
    map_char(raw, '\0', ' ')
}

pub fn cmdline_text(raw: &str) -> (r: String)
    ensures
        r@ == cmdline_text_spec(raw@),
{
    replace_char(raw, '\0', ' ')
}

/// A process is this Soterspace's runtime when its command line names both
/// `unshare` and the session's host name `soter-<name>`.
pub open spec fn owns_runtime_spec(name: Seq<char>, cmdline: Seq<char>) -> bool {
    has_substr(cmdline, "unshare"@) && has_substr(cmdline, "soter-"@ + name)
}

pub fn owns_runtime(name: &str, cmdline: &str) -> (r: bool)
    ensures
        r == owns_runtime_spec(name@, cmdline@),
{
    let needle = cat("soter-", name);
    contains(cmdline, "unshare") && contains(cmdline, needle.as_str())
}

/// The running session of a Soterspace: its recorded process id when the
/// process group is alive and belongs to it; `None` (a stale record) else.
pub fn active_runtime(pid: u32, alive: bool, owned_by_space: bool) -> (r: Option<u32>)
    ensures
        r == (if alive && owned_by_space { Some(pid) } else { None::<u32> }),
{
    if alive && owned_by_space { Some(pid) } else { None }
}

/// Whether a Soterspace runs, from the lookup of its active session.
pub fn is_running(active: &Result<Option<u32>, String>) -> (r: Result<bool, String>)
    ensures
        match *active {
            Ok(p) => r == Ok::<bool, String>(p is Some),
            Err(e) => r matches Err(f) && f@ == e@,
        },
{
    match active {
        Ok(p) => Ok(p.is_some()),
        Err(e) => Err(e.clone()),
    }
}

// ---------------------------------------------------------------- signals

/// A lifecycle signal to deliver to a Soterspace's process group.
pub struct SignalPlan {
    pub name: String,
    /// The `kill` option that selects the signal.
    pub signal: String,
    /// The verb of the refusal messages.
    pub action: String,
    /// The verb of the success message.
    pub completed: String,
}

pub open spec fn plan_is(p: SignalPlan, name: Seq<char>, signal: Seq<char>, action: Seq<char>, completed: Seq<char>) -> bool {
    p.name@ == name && p.signal@ == signal && p.action@ == action && p.completed@ == completed
}

/// Stops a running Soterspace: `SIGTERM` to its process group.
pub fn kill(name: &str) -> (r: SignalPlan)
    ensures
        plan_is(r, name@, "-TERM"@, "kill"@, "Killed"@),
{
    SignalPlan { name: owned(name), signal: owned("-TERM"), action: owned("kill"), completed: owned("Killed") }
}

/// Pauses a running Soterspace: `SIGSTOP` to its process group.
pub fn pause(name: &str) -> (r: SignalPlan)
    ensures
        plan_is(r, name@, "-STOP"@, "pause"@, "Paused"@),
{
    SignalPlan { name: owned(name), signal: owned("-STOP"), action: owned("pause"), completed: owned("Paused") }
}

/// Resumes a paused Soterspace: `SIGCONT` to its process group.
pub fn resume(name: &str) -> (r: SignalPlan)
    ensures
        plan_is(r, name@, "-CONT"@, "resume"@, "Resumed"@),
{
    SignalPlan { name: owned(name), signal: owned("-CONT"), action: owned("resume"), completed: owned("Resumed") }
}

/// The `kill` arguments that deliver a plan's signal to the session's
/// process group; refused when no session runs.
pub fn signal_args(plan: &SignalPlan, active: Option<u32>) -> (r: Result<Vec<String>, String>)
    ensures
        match active {
            Some(pid) => r matches Ok(v) && v.len() == 3 && v[0]@ == plan.signal@ && v[1]@
                == "--"@ && v[2]@ == seq!['-'] + decimal(pid as nat),
            None => r matches Err(e) && e@ == "soterspace '"@ + plan.name@ + "' is not running"@,
        },
{
    match active {
        Some(pid) => {
            let mut group = String::new();
            push_char(&mut group, '-');
            let d = to_decimal(pid as u64);
            group.append(d.as_str());
            let mut v = Vec::new();
            v.push(plan.signal.clone());
            v.push(owned("--"));
            v.push(group);
            Ok(v)
        },
        None => Err(cat3("soterspace '", plan.name.as_str(), "' is not running")),
    }
}

/// What delivering a plan's signal reports: the line to print on success,
/// the refusal otherwise.
pub fn signal_outcome(plan: &SignalPlan, delivered: bool) -> (r: Result<String, String>)
    ensures
        delivered ==> (r matches Ok(m) && m@ == plan.completed@ + " soterspace '"@ + plan.name@
            + "'."@),
        !delivered ==> (r matches Err(e) && e@ == "failed to "@ + plan.action@ + " soterspace '"@
            + plan.name@ + "'"@),
{
    if delivered {
        let mut m = cat3(plan.completed.as_str(), " soterspace '", plan.name.as_str());
        m.append("'.");
        Ok(m)
    } else {
        let mut e = cat3("failed to ", plan.action.as_str(), " soterspace '");
        e.append(plan.name.as_str());
        e.append("'");
        Err(e)
    }
}

} // verus!

verus! {

// ---------------------------------------------------------------- apps

/// A character of an Arch package name: an ASCII letter or digit, or one
/// of `-`, `_`, `.`, `+`, `@`.
pub open spec fn is_package_char(c: char) -> bool {
    ('a' <= c && c <= 'z') || ('A' <= c && c <= 'Z') || ('0' <= c && c <= '9') || c == '-'
        || c == '_' || c == '.' || c == '+' || c == '@'
}

pub open spec fn is_package_name(s: Seq<char>) -> bool {
    s.len() > 0 && forall|i: int| 0 <= i < s.len() ==> is_package_char(#[trigger] s[i])
}

pub fn valid_package_name(p: &str) -> (r: bool)
    ensures
        r == is_package_name(p@),
{
    let n = p.unicode_len();
    if n == 0 {
        return false;
    }
    let mut i: usize = 0;
    while i < n
        invariant
            n == p@.len(),
            i <= n,
            forall|j: int| 0 <= j < i ==> is_package_char(#[trigger] p@[j]),
        decreases n - i,
    {
        let c = p.get_char(i);
        if !(('a' <= c && c <= 'z') || ('A' <= c && c <= 'Z') || ('0' <= c && c <= '9') || c == '-'
            || c == '_' || c == '.' || c == '+' || c == '@') {
            return false;
        }
        i = i + 1;
    }
    true
}

/// Refuses an app installation with no apps, into a running Soterspace, or
/// with an invalid package name (the first one is named).
pub fn install_apps_check(name: &str, packages: &Vec<String>, running: bool) -> (r: Result<(), String>)
    ensures
        packages.len() == 0 ==> (r matches Err(e) && e@ == "choose at least one app"@),
        packages.len() > 0 && running ==> (r matches Err(e) && e@ == "soterspace '"@ + name@
            + "' is running; exit it before installing apps"@),
        packages.len() > 0 && !running ==> match r {
            Ok(()) => forall|i: int| 0 <= i < packages.len() ==> is_package_name(#[trigger] packages@[i]@),
            Err(e) => exists|k: int| 0 <= k < packages.len() && !is_package_name(#[trigger] packages@[k]@)
                && (forall|j: int| 0 <= j < k ==> is_package_name(#[trigger] packages@[j]@))
                && e@ == "invalid Arch package name '"@ + packages@[k]@ + "'"@,
        },
{
    if packages.len() == 0 {
        return Err(owned("choose at least one app"));
    }
    if running {
        return Err(cat3("soterspace '", name, "' is running; exit it before installing apps"));
    }
    let mut i: usize = 0;
    while i < packages.len()
        invariant
            i <= packages.len(),
            !running,
            packages.len() > 0,
            forall|j: int| 0 <= j < i ==> is_package_name(#[trigger] packages@[j]@),
        decreases packages.len() - i,
    {
        if !valid_package_name(packages[i].as_str()) {
            return Err(cat3("invalid Arch package name '", packages[i].as_str(), "'"));
        }
        i = i + 1;
    }
    Ok(())
}

/// The `arch-chroot` arguments that install packages inside a root.
pub fn pacman_install_args(rootfs: &str, packages: &Vec<String>) -> (r: Vec<String>)
    ensures
        crate::text::strings(r@) == seq![rootfs@, "pacman"@, "-Syu"@, "--needed"@, "--noconfirm"@]
            + crate::text::strings(packages@),
{
    let mut r = Vec::new();
    r.push(owned(rootfs));
    r.push(owned("pacman"));
    r.push(owned("-Syu"));
    r.push(owned("--needed"));
    r.push(owned("--noconfirm"));
    let ghost head = crate::text::strings(r@);
    assert(head =~= seq![rootfs@, "pacman"@, "-Syu"@, "--needed"@, "--noconfirm"@]);
    let mut i: usize = 0;
    while i < packages.len()
        invariant
            i <= packages.len(),
            crate::text::strings(r@) == head + crate::text::strings(packages@).take(i as int),
        decreases packages.len() - i,
    {
        let ghost before = r@;
        r.push(packages[i].clone());
        assert(crate::text::strings(r@) =~= crate::text::strings(before).push(packages@[i as int]@));
        assert(crate::text::strings(packages@).take(i + 1) =~= crate::text::strings(packages@).take(
            i as int,
        ).push(packages@[i as int]@));
        i = i + 1;
    }
    assert(crate::text::strings(packages@).take(packages.len() as int) =~= crate::text::strings(
        packages@,
    ));
    r
}

/// The packages whose database records a reused root must have: always
/// `filesystem`, plus `openssl` and `pcre2` where files of theirs are found.
pub fn rootfs_query_packages(has_openssl_file: bool, has_pcre2_file: bool) -> (r: Vec<String>)
    ensures
        crate::text::strings(r@) == seq!["filesystem"@] + (if has_openssl_file {
            seq!["openssl"@]
        } else {
            Seq::<Seq<char>>::empty()
        }) + (if has_pcre2_file { seq!["pcre2"@] } else { Seq::<Seq<char>>::empty() }),
{
    let mut r = Vec::new();
    r.push(owned("filesystem"));
    if has_openssl_file {
        r.push(owned("openssl"));
    }
    if has_pcre2_file {
        r.push(owned("pcre2"));
    }
    assert(crate::text::strings(r@) =~= seq!["filesystem"@] + (if has_openssl_file {
        seq!["openssl"@]
    } else {
        Seq::<Seq<char>>::empty()
    }) + (if has_pcre2_file { seq!["pcre2"@] } else { Seq::<Seq<char>>::empty() }));
    r
}

/// The refusal to reuse a root whose package database is incomplete.
pub fn incomplete_root_msg(rootfs: &str) -> (r: String)
    ensures
        r@ == "workspace root '"@ + rootfs@
            + "' has files but its package database is incomplete; keep it for recovery and create a new Soterspace instead"@,
{
    cat3(
        "workspace root '",
        rootfs,
        "' has files but its package database is incomplete; keep it for recovery and create a new Soterspace instead",
    )
}

/// Accepts a reused root only when its package database answered for the
/// expected packages and it has `/usr/bin/env`; else refuses it, keeping it
/// for recovery.
pub fn rootfs_check(rootfs: &str, query_ok: bool, has_env: bool) -> (r: Result<(), String>)
    ensures
        query_ok && has_env ==> r is Ok,
        !(query_ok && has_env) ==> (r matches Err(e) && e@ == "workspace root '"@ + rootfs@
            + "' has files but its package database is incomplete; keep it for recovery and create a new Soterspace instead"@),
{
    if query_ok && has_env {
        Ok(())
    } else {
        Err(incomplete_root_msg(rootfs))
    }
}

/// The `pacstrap` arguments that provision a fresh root.
pub fn pacstrap_args(rootfs: &str) -> (r: Vec<String>)
    ensures
        crate::text::strings(r@) == seq!["-c"@, "-P"@, rootfs@, "base"@, "bash"@, "coreutils"@,
            "util-linux"@, "iproute2"@],
{
    let mut r = Vec::new();
    r.push(owned("-c"));
    r.push(owned("-P"));
    r.push(owned(rootfs));
    r.push(owned("base"));
    r.push(owned("bash"));
    r.push(owned("coreutils"));
    r.push(owned("util-linux"));
    r.push(owned("iproute2"));
    assert(crate::text::strings(r@) =~= seq!["-c"@, "-P"@, rootfs@, "base"@, "bash"@,
        "coreutils"@, "util-linux"@, "iproute2"@]);
    r
}

// ---------------------------------------------------------------- selection

/// The Soterspaces that a scan or hash run covers: the named one (which
/// must exist), else all that exist (there must be one).
pub fn selected_spaces(target: Option<&str>, present: bool, listed: &Vec<String>) -> (r: Result<Vec<String>, String>)
    ensures
        match target {
            Some(name) => if !is_valid_name(name@) {
                r matches Err(e) && e@ == invalid_name_msg()
            } else if !present {
                r matches Err(e) && e@ == not_exist_msg(name@)
            } else {
                r matches Ok(v) && crate::text::strings(v@) == seq![name@]
            },
            None => if listed.len() == 0 {
                r matches Err(e) && e@ == "no soterspaces found"@
            } else {
                r matches Ok(v) && crate::text::strings(v@) == crate::text::strings(listed@)
            },
        },
{
    match target {
        Some(name) => {
            check_name(name)?;
            if !present {
                return Err(not_exist(name));
            }
            let mut v = Vec::new();
            v.push(owned(name));
            assert(crate::text::strings(v@) =~= seq![name@]);
            Ok(v)
        },
        None => {
            if listed.len() == 0 {
                return Err(owned("no soterspaces found"));
            }
            let mut v: Vec<String> = Vec::new();
            let mut i: usize = 0;
            while i < listed.len()
                invariant
                    i <= listed.len(),
                    crate::text::strings(v@) == crate::text::strings(listed@).take(i as int),
                decreases listed.len() - i,
            {
                let ghost before = v@;
                v.push(listed[i].clone());
                assert(crate::text::strings(v@) =~= crate::text::strings(before).push(listed@[i as int]@));
                assert(crate::text::strings(v@) =~= crate::text::strings(listed@).take(i + 1));
                i = i + 1;
            }
            assert(crate::text::strings(listed@).take(listed.len() as int) =~= crate::text::strings(
                listed@,
            ));
            Ok(v)
        },
    }
}

// ---------------------------------------------------------------- flakes

/// The browser whose sessions a flake name stores.
pub open spec fn session_flake_spec(flake: Seq<char>) -> Result<Seq<char>, Seq<char>> {
    if flake == "firefox"@ || flake == "firefox-pentesting"@ {
        Ok("firefox"@)
    } else if flake == "chromium"@ || flake == "chromium-pentesting"@ {
        Ok("chromium"@)
    } else {
        Err("unknown Soter flake '"@ + flake + "'"@)
    }
}

pub fn session_flake(flake: &str) -> (r: Result<String, String>)
    ensures
        crate::text::res_string(r) == session_flake_spec(flake@),
{
    if crate::text::str_eq(flake, "firefox") || crate::text::str_eq(flake, "firefox-pentesting") {
        Ok(owned("firefox"))
    } else if crate::text::str_eq(flake, "chromium") || crate::text::str_eq(flake, "chromium-pentesting") {
        Ok(owned("chromium"))
    } else {
        Err(cat3("unknown Soter flake '", flake, "'"))
    }
}

/// The marker that Soter manages a flake's session storage.
pub fn session_marker() -> (r: String)
    ensures
        r@ == "version=1\nfull_sessions=true\nextension_sessions=true\n"@,
{
    owned("version=1\nfull_sessions=true\nextension_sessions=true\n")
}

/// What preparing a flake's session storage tells the user.
pub fn session_notice(flake: &str, name: &str) -> (r: Vec<String>)
    ensures
        r.len() == 3,
        r[0]@ == "Prepared persistent "@ + flake@ + " session storage for '"@ + name@ + "'."@,
        r[1]@ == "Use "@ + flake@ + " -s:<ID> for a full session, "@ + flake@
            + " -se:<ID> for extension-only state."@,
        r[2]@ == "Use "@ + flake@ + " -l to list sessions and "@ + flake@
            + " -rs:<ID> to remove one."@,
{
    let mut a = cat3("Prepared persistent ", flake, " session storage for '");
    a.append(name);
    a.append("'.");
    let mut b = cat3("Use ", flake, " -s:<ID> for a full session, ");
    b.append(flake);
    b.append(" -se:<ID> for extension-only state.");
    let mut c = cat3("Use ", flake, " -l to list sessions and ");
    c.append(flake);
    c.append(" -rs:<ID> to remove one.");
    let mut r = Vec::new();
    r.push(a);
    r.push(b);
    r.push(c);
    r
}

// ---------------------------------------------------------------- backups

/// Refuses to back up a Soterspace that is missing or running.
pub fn backup_check(name: &str, present: bool, running: bool) -> (r: Result<(), String>)
    ensures
        !present ==> (r matches Err(e) && e@ == not_exist_msg(name@)),
        present && running ==> (r matches Err(e) && e@ == "soterspace '"@ + name@
            + "' is running; exit it before backing up"@),
        present && !running ==> r is Ok,
{
    if !present {
        return Err(not_exist(name));
    }
    if running {
        return Err(cat3("soterspace '", name, "' is running; exit it before backing up"));
    }
    Ok(())
}

// ---------------------------------------------------------------- Wi-Fi

/// What listing the host's Wi-Fi networks prints: a notice when `nmcli`
/// found none, else a header line and its output.
pub open spec fn wifi_listing_spec(text: Seq<char>) -> Seq<char> {
    if trimmed(text).len() == 0 {
        "No Wi-Fi networks found.\n"@
    } else {
        "SSID:SIGNAL:SECURITY\n"@ + text
    }
}

pub fn wifi_listing(text: &str) -> (r: String)
    ensures
        r@ == wifi_listing_spec(text@),
{
    let t = trim(text);
    if t.unicode_len() == 0 {
        owned("No Wi-Fi networks found.\n")
    } else {
        cat("SSID:SIGNAL:SECURITY\n", text)
    }
}

} // verus!

verus! {

/// Law: a valid name cannot leave the state root: the Soterspace's
/// directory is the root with the name as one more component, since a
/// valid name is neither absolute nor holds a `/`, `.` or `..`.
pub proof fn lemma_valid_name_stays_in_root(root: Seq<char>, name: Seq<char>)
    requires
        is_valid_name(name),
    ensures
        !name.contains('/'),
        name != "."@ && name != ".."@,
        space_dir_spec(root, name) == if root.len() == 0 || root.last() == '/' {
            root + name
        } else {
            root + seq!['/'] + name
        },
{
    assert(is_name_char(name[0]));
    reveal_strlit(".");
    reveal_strlit("..");
    assert(name != "."@) by {
        if name == "."@ {
            assert(name[0] == '.');
        }
    }
    assert(name != ".."@) by {
        if name == ".."@ {
            assert(name[0] == '.');
        }
    }
    assert(!name.contains('/')) by {
        if name.contains('/') {
            let k = choose|k: int| 0 <= k < name.len() && name[k] == '/';
            assert(is_name_char(name[k]));
        }
    }
}

} // verus!

verus! {

/// Law: a character may stand in an Arch package name exactly when it is
/// an ASCII letter (every one of `a`..=`z` and `A`..=`Z`, the ends
/// included), an ASCII digit, or one of `-`, `_`, `.`, `+`, `@`; such a
/// character is plain ASCII, and neither a space nor a slash.
pub proof fn lemma_package_chars(c: char)
    ensures
        ('a' <= c && c <= 'z') ==> is_package_char(c),
        ('A' <= c && c <= 'Z') ==> is_package_char(c),
        ('0' <= c && c <= '9') ==> is_package_char(c),
        is_package_char('-') && is_package_char('_') && is_package_char('.')
            && is_package_char('+') && is_package_char('@'),
        is_package_char(c) ==> c < '\u{80}' && c != ' ' && c != '/' && c != '\0',
        is_package_char(c) ==> ('a' <= c && c <= 'z') || ('A' <= c && c <= 'Z') || ('0' <= c
            && c <= '9') || c == '-' || c == '_' || c == '.' || c == '+' || c == '@',
{
}

/// Law: an Arch package name is accepted exactly when it is non-empty and
/// made of package characters; every valid Soterspace name (letters,
/// digits, `-`, `_`) is also an acceptable package name.
pub proof fn lemma_package_names(s: Seq<char>)
    ensures
        is_valid_name(s) ==> is_package_name(s),
        is_package_name(s) <==> (s.len() > 0 && forall|i: int| 0 <= i < s.len() ==> is_package_char(#[trigger] s[i])),
        is_package_name(s) ==> forall|i: int| 0 <= i < s.len() ==> (#[trigger] s[i]) < '\u{80}'
            && s[i] != ' ' && s[i] != '/',
{
    assert forall|i: int| 0 <= i < s.len() && is_package_char(#[trigger] s[i]) implies s[i] < '\u{80}'
        && s[i] != ' ' && s[i] != '/' by {
        lemma_package_chars(s[i]);
    }
}

} // verus!
