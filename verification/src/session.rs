//! Planning a Soterspace session: the shell, the network mode, the Nix
//! launchers, the namespace runtime's command line and the script it runs.

use vstd::prelude::*;
use vstd::string::*;
use crate::paths::{join, joined};
use crate::soterspace::is_valid_name;
use crate::text::{
    cat, cat3, occurs_at, owned, push_char, str_eq, to_decimal, decimal, trim, trimmed,
    lemma_map_char_keeps,
};

verus! {

// ---------------------------------------------------------------- quoting

/// What one character becomes inside a single-quoted shell word.
pub open spec fn quote_piece(c: char) -> Seq<char> {
    if c == '\'' {
        seq!['\'', '\\', '\'', '\'']
    } else {
        seq![c]
    }
}

/// `s` with every `'` written as `'\''`.
pub open spec fn escape_quotes(s: Seq<char>) -> Seq<char>
    decreases s.len(),
{
    if s.len() == 0 {
        seq![]
    } else {
        escape_quotes(s.drop_last()) + quote_piece(s.last())
    }
}

/// `s` as one single-quoted POSIX shell word.
pub open spec fn single_quoted(s: Seq<char>) -> Seq<char> {
    seq!['\''] + escape_quotes(s) + seq!['\'']
}

/// Quotes `value` as a single POSIX shell word.
pub fn shell_quote(value: &str) -> (r: String)
    ensures
        r@ == single_quoted(value@),
{
    let n = value.unicode_len();
    let mut r = String::new();
    push_char(&mut r, '\'');
    let mut i: usize = 0;
    while i < n
        invariant
            n == value@.len(),
            i <= n,
            r@ == seq!['\''] + escape_quotes(value@.take(i as int)),
        decreases n - i,
    {
        let c = value.get_char(i);
        if c == '\'' {
            push_char(&mut r, '\'');
            push_char(&mut r, '\\');
            push_char(&mut r, '\'');
            push_char(&mut r, '\'');
        } else {
            push_char(&mut r, c);
        }
        assert(value@.take(i + 1).drop_last() =~= value@.take(i as int));
        assert(r@ =~= seq!['\''] + escape_quotes(value@.take(i + 1)));
        i = i + 1;
    }
    assert(value@.take(n as int) =~= value@);
    push_char(&mut r, '\'');
    r
}

/// Characters that end or split a word when they stand unquoted.
pub open spec fn is_shell_special(c: char) -> bool {
    c == ' ' || c == '\t' || c == '\n' || c == ';' || c == '&' || c == '|' || c == '<' || c == '>'
        || c == '(' || c == ')' || c == '$' || c == '`' || c == '"' || c == '*' || c == '?'
        || c == '[' || c == '#' || c == '~' || c == '=' || c == '%'
}

/// The text of one POSIX shell word that `s` holds entirely, reading it from
/// inside single quotes when `in_quotes` holds: `None` where `s` is not one
/// complete word made of single-quoted parts, backslash escapes and plain
/// characters.
pub open spec fn shell_word(s: Seq<char>, in_quotes: bool) -> Option<Seq<char>>
    decreases s.len(),
{
    if s.len() == 0 {
        if in_quotes {
            None
        } else {
            Some(seq![])
        }
    } else if in_quotes {
        if s[0] == '\'' {
            shell_word(s.drop_first(), false)
        } else {
            match shell_word(s.drop_first(), true) {
                Some(w) => Some(seq![s[0]] + w),
                None => None,
            }
        }
    } else if s[0] == '\'' {
        shell_word(s.drop_first(), true)
    } else if s[0] == '\\' {
        if s.len() >= 2 && s[1] != '\n' {
            match shell_word(s.subrange(2, s.len() as int), false) {
                Some(w) => Some(seq![s[1]] + w),
                None => None,
            }
        } else {
            None
        }
    } else if is_shell_special(s[0]) {
        None
    } else {
        match shell_word(s.drop_first(), false) {
            Some(w) => Some(seq![s[0]] + w),
            None => None,
        }
    }
}

proof fn lemma_escape_concat(a: Seq<char>, b: Seq<char>)
    ensures
        escape_quotes(a + b) == escape_quotes(a) + escape_quotes(b),
    decreases b.len(),
{
    if b.len() == 0 {
        assert(a + b =~= a);
        assert(escape_quotes(a) + escape_quotes(b) =~= escape_quotes(a));
    } else {
        lemma_escape_concat(a, b.drop_last());
        assert((a + b).drop_last() =~= a + b.drop_last());
        assert((a + b).last() == b.last());
        assert(escape_quotes(a + b) == escape_quotes(a + b.drop_last()) + quote_piece(b.last()));
        assert(escape_quotes(a) + escape_quotes(b) =~= escape_quotes(a) + escape_quotes(
            b.drop_last(),
        ) + quote_piece(b.last()));
    }
}

proof fn lemma_escape_first(s: Seq<char>)
    requires
        s.len() > 0,
    ensures
        escape_quotes(s) == quote_piece(s[0]) + escape_quotes(s.drop_first()),
{
    assert(s =~= seq![s[0]] + s.drop_first());
    lemma_escape_concat(seq![s[0]], s.drop_first());
    let one = seq![s[0]];
    assert(one.drop_last() =~= Seq::<char>::empty());
    assert(one.last() == s[0]);
    assert(escape_quotes(one) == escape_quotes(one.drop_last()) + quote_piece(one.last()));
    assert(escape_quotes(Seq::<char>::empty()) =~= Seq::<char>::empty());
    assert(escape_quotes(one) =~= quote_piece(s[0]));
}

proof fn lemma_quoted_tail(s: Seq<char>, rest: Seq<char>)
    ensures
        shell_word(escape_quotes(s) + seq!['\''] + rest, true) == match shell_word(rest, false) {
            Some(w) => Some(s + w),
            None => None::<Seq<char>>,
        },
    decreases s.len(),
{
    let input = escape_quotes(s) + seq!['\''] + rest;
    if s.len() == 0 {
        assert(escape_quotes(s) =~= Seq::<char>::empty());
        assert(input =~= seq!['\''] + rest);
        assert(input[0] == '\'');
        assert(input.drop_first() =~= rest);
        assert(shell_word(input, true) == shell_word(rest, false));
        match shell_word(rest, false) {
            Some(w) => assert(s + w =~= w),
            None => {},
        }
    } else {
        lemma_escape_first(s);
        let tail = s.drop_first();
        lemma_quoted_tail(tail, rest);
        let inner = escape_quotes(tail) + seq!['\''] + rest;
        if s[0] == '\'' {
            assert(input =~= seq!['\'', '\\', '\'', '\''] + inner);
            assert(input.drop_first() =~= seq!['\\', '\'', '\''] + inner);
            let after = input.drop_first();
            assert(input[0] == '\'');
            assert(shell_word(input, true) == shell_word(after, false));
            assert(after[0] == '\\' && after[1] == '\'' && after.len() >= 2);
            let after2 = after.subrange(2, after.len() as int);
            assert(after2 =~= seq!['\''] + inner);
            assert(after2[0] == '\'');
            assert(after2.drop_first() =~= inner);
            assert(shell_word(after2, false) == shell_word(inner, true));
        } else {
            assert(input =~= seq![s[0]] + inner);
            assert(input[0] == s[0]);
            assert(input.drop_first() =~= inner);
        }
        match shell_word(rest, false) {
            Some(w) => assert(seq![s[0]] + (tail + w) =~= s + w),
            None => {},
        }
    }
}

/// Law: a quoted value is read back by the shell as exactly one word whose
/// text is the value itself.
pub proof fn lemma_shell_quote_roundtrip(s: Seq<char>)
    ensures
        shell_word(single_quoted(s), false) == Some(s),
{
    let q = single_quoted(s);
    lemma_quoted_tail(s, seq![]);
    assert(q.drop_first() =~= escape_quotes(s) + seq!['\''] + Seq::<char>::empty());
    assert(s + Seq::<char>::empty() =~= s);
}

} // verus!

verus! {

// ---------------------------------------------------------------- choices

/// The shell to start: an absolute `--shell` value as given, a bare name
/// under `/bin`, else `$SHELL`, else `/bin/sh`.
pub open spec fn resolved_shell(shell_override: Option<Seq<char>>, env_shell: Option<Seq<char>>) -> Seq<char> {
    match shell_override {
        Some(v) => if v.len() > 0 && v[0] == '/' { v } else { "/bin/"@ + v },
        None => match env_shell {
            Some(s) => s,
            None => "/bin/sh"@,
        },
    }
}

pub fn resolve_shell(shell_override: Option<&str>, env_shell: Option<&str>) -> (r: String)
    ensures
        r@ == resolved_shell(crate::text::opt_str(shell_override), crate::text::opt_str(env_shell)),
{
    match shell_override {
        Some(v) => {
            if v.unicode_len() > 0 && v.get_char(0) == '/' {
                owned(v)
            } else {
                cat("/bin/", v)
            }
        },
        None => match env_shell {
            Some(s) => owned(s),
            None => owned("/bin/sh"),
        },
    }
}

/// The terminal type inside the Soterspace: Ghostty's entry, which minimal
/// roots do not ship, becomes `xterm-256color`; others pass unchanged.
pub open spec fn guest_term_spec(term: Option<Seq<char>>) -> Option<Seq<char>> {
    match term {
        Some(t) => if t == "xterm-ghostty"@ { Some("xterm-256color"@) } else { Some(t) },
        None => None,
    }
}

pub fn guest_term(term: Option<&str>) -> (r: Option<String>)
    ensures
        crate::text::opt_string(r) == guest_term_spec(crate::text::opt_str(term)),
{
    match term {
        Some(t) => if str_eq(t, "xterm-ghostty") {
            Some(owned("xterm-256color"))
        } else {
            Some(owned(t))
        },
        None => None,
    }
}

/// Whether a network mode asks for an offline namespace: no mode or `open`
/// shares the host network, `isolate` is offline, any other is refused.
pub open spec fn network_mode_spec(mode: Option<Seq<char>>) -> Result<bool, Seq<char>> {
    let m = match mode {
        Some(m) => m,
        None => "open"@,
    };
    if m == "open"@ {
        Ok(false)
    } else if m == "isolate"@ {
        Ok(true)
    } else {
        Err("unknown network mode '"@ + m + "'"@)
    }
}

pub fn parse_network_mode(mode: Option<&str>) -> (r: Result<bool, String>)
    ensures
        match (r, network_mode_spec(crate::text::opt_str(mode))) {
            (Ok(a), Ok(b)) => a == b,
            (Err(a), Err(b)) => a@ == b,
            _ => false,
        },
{
    let m = match mode {
        Some(m) => m,
        None => "open",
    };
    if str_eq(m, "open") {
        Ok(false)
    } else if str_eq(m, "isolate") {
        Ok(true)
    } else {
        Err(cat3("unknown network mode '", m, "'"))
    }
}

/// The Nix package and the launcher binary of a Soter flake name.
pub open spec fn flake_launcher_spec(name: Seq<char>) -> Option<(Seq<char>, Seq<char>)> {
    if name == "firefox"@ || name == "firefox-pentesting"@ {
        Some(("firefox-pentesting"@, "firefox"@))
    } else if name == "chromium"@ || name == "chromium-pentesting"@ {
        Some(("chromium-pentesting"@, "chromium"@))
    } else {
        None
    }
}

/// A launcher to provide: the Nix package to build and the binary to link.
pub struct Launcher {
    pub package: String,
    pub binary: String,
}

pub fn flake_launcher(name: &str) -> (r: Option<Launcher>)
    ensures
        match (r, flake_launcher_spec(name@)) {
            (Some(l), Some((p, b))) => l.package@ == p && l.binary@ == b,
            (None, None) => true,
            _ => false,
        },
{
    if str_eq(name, "firefox") || str_eq(name, "firefox-pentesting") {
        Some(Launcher { package: owned("firefox-pentesting"), binary: owned("firefox") })
    } else if str_eq(name, "chromium") || str_eq(name, "chromium-pentesting") {
        Some(Launcher { package: owned("chromium-pentesting"), binary: owned("chromium") })
    } else {
        None
    }
}

/// The error for a flake name that Soter does not know.
pub open spec fn unknown_flake_msg(name: Seq<char>) -> Seq<char> {
    "unknown Soter flake '"@ + name + "'"@
}

/// The launchers that `--flakes` asks for, in order; the first unknown name
/// refuses the whole list.
pub fn resolve_flakes(flakes: &Vec<String>) -> (r: Result<Vec<Launcher>, String>)
    ensures
        match r {
            Ok(ls) => ls.len() == flakes.len() && forall|i: int| 0 <= i < flakes.len() ==>
                #[trigger] flake_launcher_spec(flakes[i]@) == Some((ls[i].package@, ls[i].binary@)),
            Err(e) => exists|k: int| 0 <= k < flakes.len()
                && flake_launcher_spec(#[trigger] flakes[k]@) is None
                && (forall|j: int| 0 <= j < k ==> flake_launcher_spec(#[trigger] flakes[j]@) is Some)
                && e@ == unknown_flake_msg(flakes[k]@),
        },
{
    let mut out: Vec<Launcher> = Vec::new();
    let mut i: usize = 0;
    while i < flakes.len()
        invariant
            i <= flakes.len(),
            out.len() == i,
            forall|j: int| 0 <= j < i ==> #[trigger] flake_launcher_spec(flakes[j]@) == Some(
                (out[j].package@, out[j].binary@),
            ),
        decreases flakes.len() - i,
    {
        match flake_launcher(flakes[i].as_str()) {
            Some(l) => out.push(l),
            None => {
                let e = cat3("unknown Soter flake '", flakes[i].as_str(), "'");
                assert(forall|j: int| 0 <= j < i ==> flake_launcher_spec(#[trigger] flakes[j]@) is Some);
                return Err(e);
            },
        }
        i = i + 1;
    }
    Ok(out)
}

/// The arguments of the `nix` call that builds a launcher's package.
pub fn nix_build_args(package: &str) -> (r: Vec<String>)
    ensures
        r.len() == 6,
        r[0]@ == "--extra-experimental-features"@,
        r[1]@ == "nix-command flakes"@,
        r[2]@ == "build"@,
        r[3]@ == "--no-link"@,
        r[4]@ == "--print-out-paths"@,
        r[5]@ == ".#"@ + package@,
{
    let mut r = Vec::new();
    r.push(owned("--extra-experimental-features"));
    r.push(owned("nix-command flakes"));
    r.push(owned("build"));
    r.push(owned("--no-link"));
    r.push(owned("--print-out-paths"));
    r.push(cat(".#", package));
    r
}

/// The text of `s` before its first line feed.
pub open spec fn before_newline(s: Seq<char>) -> Seq<char>
    decreases s.len(),
{
    if s.len() == 0 || s[0] == '\n' {
        seq![]
    } else {
        seq![s[0]] + before_newline(s.drop_first())
    }
}

/// The first line of `s`, trimmed; `None` when `s` has no line at all.
pub open spec fn first_line_trimmed(s: Seq<char>) -> Option<Seq<char>> {
    if s.len() == 0 {
        None
    } else {
        Some(trimmed(before_newline(s)))
    }
}

/// The store path that `nix build --print-out-paths` printed for `package`.
pub fn store_path(package: &str, stdout: &str) -> (r: Result<String, String>)
    ensures
        match (r, first_line_trimmed(stdout@)) {
            (Ok(p), Some(l)) => p@ == l,
            (Err(e), None) => e@ == "Nix returned no store path for '"@ + package@ + "'"@,
            _ => false,
        },
{
    let n = stdout.unicode_len();
    if n == 0 {
        return Err(cat3("Nix returned no store path for '", package, "'"));
    }
    let mut i: usize = 0;
    assert(stdout@.skip(0) =~= stdout@);
    assert(stdout@.take(0) + before_newline(stdout@) =~= before_newline(stdout@));
    while i < n && stdout.get_char(i) != '\n'
        invariant
            n == stdout@.len(),
            i <= n,
            forall|j: int| 0 <= j < i ==> stdout@[j] != '\n',
            before_newline(stdout@) == stdout@.take(i as int) + before_newline(stdout@.skip(i as int)),
        decreases n - i,
    {
        let ghost rest = stdout@.skip(i as int);
        assert(rest.drop_first() =~= stdout@.skip(i + 1));
        assert(stdout@.take(i + 1) =~= stdout@.take(i as int) + seq![rest[0]]);
        i = i + 1;
    }
    assert(before_newline(stdout@.skip(i as int)) =~= Seq::<char>::empty());
    assert(stdout@.take(i as int) + Seq::<char>::empty() =~= stdout@.subrange(0, i as int));
    let line = stdout.substring_char(0, i);
    Ok(trim(line))
}

/// Where a launcher link points: the package's binary in the Nix store.
pub fn launcher_target(store_path: &str, binary: &str) -> (r: String)
    ensures
        r@ == store_path@ + "/bin/"@ + binary@,
{
    cat3(store_path, "/bin/", binary)
}

/// Where the guest sees the host's Wayland socket: the runtime directory,
/// without its leading slashes, under the root, then the display's name.
pub open spec fn guest_socket_spec(rootfs: Seq<char>, runtime: Seq<char>, wayland: Seq<char>) -> Seq<char> {
    joined(joined(rootfs, strip_leading_slashes(runtime)), wayland)
}

/// `s` without its leading `/` characters.
pub open spec fn strip_leading_slashes(s: Seq<char>) -> Seq<char>
    decreases s.len(),
{
    if s.len() > 0 && s[0] == '/' {
        strip_leading_slashes(s.drop_first())
    } else {
        s
    }
}

pub fn guest_socket(rootfs: &str, runtime: &str, wayland: &str) -> (r: String)
    ensures
        r@ == guest_socket_spec(rootfs@, runtime@, wayland@),
{
    let n = runtime.unicode_len();
    let mut i: usize = 0;
    assert(runtime@.skip(0) =~= runtime@);
    while i < n && runtime.get_char(i) == '/'
        invariant
            n == runtime@.len(),
            i <= n,
            strip_leading_slashes(runtime@) == strip_leading_slashes(runtime@.skip(i as int)),
        decreases n - i,
    {
        assert(runtime@.skip(i as int).drop_first() =~= runtime@.skip(i + 1));
        i = i + 1;
    }
    assert(runtime@.skip(i as int) =~= runtime@.subrange(i as int, n as int));
    let rel = runtime.substring_char(i, n);
    let dir = join(rootfs, rel);
    join(dir.as_str(), wayland)
}

/// Refuses to enter a Soterspace that does not exist or already runs.
pub fn entry_check(name: &str, present: bool, active: Option<u32>) -> (r: Result<(), String>)
    ensures
        !present ==> (r matches Err(e) && e@ == "soterspace '"@ + name@ + "' does not exist"@),
        present && active is Some ==> (r matches Err(e) && e@ == "soterspace '"@ + name@
            + "' is already running"@),
        present && active is None ==> r is Ok,
{
    if !present {
        return Err(cat3("soterspace '", name, "' does not exist"));
    }
    if active.is_some() {
        return Err(cat3("soterspace '", name, "' is already running"));
    }
    Ok(())
}

} // verus!

verus! {

// ---------------------------------------------------------------- the script

/// What the namespace runtime needs to know to build a session's script.
pub struct SessionParams {
    /// The Soterspace's name.
    pub name: String,
    /// Its root filesystem, as the host sees it.
    pub rootfs: String,
    /// The shell, as `resolve_shell` chose it.
    pub shell: String,
    /// Whether the session runs offline, in a network namespace of its own.
    pub offline: bool,
    /// Whether the host has `/nix/store` to share read-only.
    pub host_nix_store: bool,
    /// Whether the host has `/tmp/.X11-unix` to share read-only.
    pub host_x11: bool,
    pub display: Option<String>,
    pub wayland_display: Option<String>,
    pub xdg_runtime_dir: Option<String>,
    /// The terminal type, as `guest_term` mapped it.
    pub term: Option<String>,
    /// The command to run; empty for a login shell.
    pub command: Vec<String>,
    /// Whether the shell exists inside the root filesystem.
    pub shell_in_root: bool,
}

/// `text` when `cond` holds, else nothing.
pub open spec fn when(cond: bool, text: Seq<char>) -> Seq<char> {
    if cond { text } else { seq![] }
}

pub open spec fn root_mounts(r: Seq<char>) -> Seq<char> {
    "mkdir -p "@ + r + "/proc "@ + r + "/tmp "@ + r + "/run "@ + r + "/dev "@ + r
        + "/nix/store; mount -t proc proc "@ + r + "/proc; mount --rbind /dev "@ + r
        + "/dev; mount --make-rslave "@ + r + "/dev; mount -t tmpfs -o mode=1777 tmpfs "@ + r
        + "/tmp; "@
}

pub open spec fn resolver_mounts(r: Seq<char>) -> Seq<char> {
    "mount --bind /etc/resolv.conf "@ + single_quoted(joined(r, "etc/resolv.conf"@))
        + "; mount -o remount,bind,ro "@ + single_quoted(joined(r, "etc/resolv.conf"@)) + "; "@
}

pub open spec fn nix_mounts(r: Seq<char>) -> Seq<char> {
    "mount --bind /nix/store "@ + r + "/nix/store; mount -o remount,bind,ro "@ + r
        + "/nix/store; "@
}

pub open spec fn x11_mounts(r: Seq<char>) -> Seq<char> {
    "mkdir -p "@ + single_quoted(joined(r, "tmp/.X11-unix"@)) + "; mount --bind /tmp/.X11-unix "@
        + single_quoted(joined(r, "tmp/.X11-unix"@)) + "; mount -o remount,bind,ro "@
        + single_quoted(joined(r, "tmp/.X11-unix"@)) + "; "@
}

/// The host name of the session: `soter-` and the Soterspace's name.
pub open spec fn hostname_line(name: Seq<char>) -> Seq<char> {
    "hostname "@ + ("soter-"@ + name) + "; "@
}

pub open spec fn chroot_line(r: Seq<char>, shell: Seq<char>, name: Seq<char>) -> Seq<char> {
    "cd "@ + r
        + "; exec chroot . /usr/bin/env -i HOME=/root USER=root LOGNAME=root PATH=/opt/soter/bin:/usr/local/sbin:/usr/local/bin:/usr/sbin:/usr/bin:/sbin:/bin SHELL="@
        + shell + " SOTERSPACE="@ + name + " "@
}

/// `KEY='value' ` for a variable that is set, nothing otherwise.
pub open spec fn env_word(key: Seq<char>, value: Option<Seq<char>>) -> Seq<char> {
    match value {
        Some(v) => key + single_quoted(v) + " "@,
        None => seq![],
    }
}

/// Each argument quoted, with single spaces between.
pub open spec fn quoted_words(args: Seq<Seq<char>>) -> Seq<char> {
    crate::text::joined_with(args.map_values(|a: Seq<char>| single_quoted(a)), " "@)
}

/// What the session runs: a login shell (the chosen one when the root has
/// it, else `/bin/sh`), or the given command.
pub open spec fn entry_command(shell: Seq<char>, shell_in_root: bool, command: Seq<Seq<char>>) -> Seq<char> {
    if command.len() == 0 {
        (if shell_in_root { shell } else { "/bin/sh"@ }) + " -l"@
    } else {
        quoted_words(command)
    }
}

/// The mounts that prepare the root before the host name is set.
pub open spec fn script_head(p: SessionParams) -> Seq<char> {
    "set -eu; mount --make-rprivate /; "@ + root_mounts(p.rootfs@)
        + when(!p.offline, resolver_mounts(p.rootfs@))
        + when(p.host_nix_store, nix_mounts(p.rootfs@))
        + when(p.host_x11, x11_mounts(p.rootfs@))
}

/// The desktop and terminal variables passed into the session.
pub open spec fn env_words(p: SessionParams) -> Seq<char> {
    env_word("DISPLAY="@, crate::text::opt_string(p.display))
        + env_word("WAYLAND_DISPLAY="@, crate::text::opt_string(p.wayland_display))
        + env_word("XDG_RUNTIME_DIR="@, crate::text::opt_string(p.xdg_runtime_dir))
        + env_word("TERM="@, crate::text::opt_string(p.term))
}

/// The whole script of a session.
pub open spec fn session_script_spec(p: SessionParams) -> Seq<char> {
    script_head(p) + hostname_line(p.name@) + chroot_line(p.rootfs@, p.shell@, p.name@)
        + env_words(p) + entry_command(p.shell@, p.shell_in_root, crate::text::strings(p.command@))
}

fn push_root_mounts(s: &mut String, r: &str)
    ensures
        final(s)@ == old(s)@ + root_mounts(r@),
{
    let ghost start = s@;
    s.append("mkdir -p ");
    s.append(r);
    s.append("/proc ");
    s.append(r);
    s.append("/tmp ");
    s.append(r);
    s.append("/run ");
    s.append(r);
    s.append("/dev ");
    s.append(r);
    s.append("/nix/store; mount -t proc proc ");
    s.append(r);
    s.append("/proc; mount --rbind /dev ");
    s.append(r);
    s.append("/dev; mount --make-rslave ");
    s.append(r);
    s.append("/dev; mount -t tmpfs -o mode=1777 tmpfs ");
    s.append(r);
    s.append("/tmp; ");
    assert(s@ =~= start + root_mounts(r@));
}

fn resolver_mounts_exec(r: &str) -> (out: String)
    ensures
        out@ == resolver_mounts(r@),
{
    let path = join(r, "etc/resolv.conf");
    let q = shell_quote(path.as_str());
    let mut s = owned("mount --bind /etc/resolv.conf ");
    s.append(q.as_str());
    s.append("; mount -o remount,bind,ro ");
    s.append(q.as_str());
    s.append("; ");
    s
}

fn nix_mounts_exec(r: &str) -> (out: String)
    ensures
        out@ == nix_mounts(r@),
{
    let mut s = owned("mount --bind /nix/store ");
    s.append(r);
    s.append("/nix/store; mount -o remount,bind,ro ");
    s.append(r);
    s.append("/nix/store; ");
    s
}

fn x11_mounts_exec(r: &str) -> (out: String)
    ensures
        out@ == x11_mounts(r@),
{
    let path = join(r, "tmp/.X11-unix");
    let q = shell_quote(path.as_str());
    let mut s = owned("mkdir -p ");
    s.append(q.as_str());
    s.append("; mount --bind /tmp/.X11-unix ");
    s.append(q.as_str());
    s.append("; mount -o remount,bind,ro ");
    s.append(q.as_str());
    s.append("; ");
    s
}

fn env_word_exec(key: &str, value: &Option<String>) -> (out: String)
    ensures
        out@ == env_word(key@, crate::text::opt_string(*value)),
{
    match value {
        Some(v) => {
            let q = shell_quote(v.as_str());
            cat3(key, q.as_str(), " ")
        },
        None => String::new(),
    }
}

/// Each argument quoted, with single spaces between.
pub fn quote_words(args: &Vec<String>) -> (r: String)
    ensures
        r@ == quoted_words(crate::text::strings(args@)),
{
    let mut quoted: Vec<String> = Vec::new();
    let mut i: usize = 0;
    while i < args.len()
        invariant
            i <= args.len(),
            quoted.len() == i,
            forall|j: int| 0 <= j < i ==> #[trigger] quoted@[j]@ == single_quoted(args@[j]@),
        decreases args.len() - i,
    {
        quoted.push(shell_quote(args[i].as_str()));
        i = i + 1;
    }
    assert(crate::text::strings(quoted@) =~= crate::text::strings(args@).map_values(
        |a: Seq<char>| single_quoted(a),
    ));
    crate::text::join_strings(&quoted, " ")
}

fn script_head_exec(p: &SessionParams) -> (out: String)
    ensures
        out@ == script_head(*p),
{
    let r0 = p.rootfs.as_str();
    let mut s = owned("set -eu; mount --make-rprivate /; ");
    push_root_mounts(&mut s, r0);
    let ghost s1 = s@;
    if !p.offline {
        let m = resolver_mounts_exec(r0);
        s.append(m.as_str());
    }
    assert(s@ =~= s1 + when(!p.offline, resolver_mounts(r0@)));
    let ghost s2 = s@;
    if p.host_nix_store {
        let m = nix_mounts_exec(r0);
        s.append(m.as_str());
    }
    assert(s@ =~= s2 + when(p.host_nix_store, nix_mounts(r0@)));
    let ghost s3 = s@;
    if p.host_x11 {
        let m = x11_mounts_exec(r0);
        s.append(m.as_str());
    }
    assert(s@ =~= s3 + when(p.host_x11, x11_mounts(r0@)));
    s
}

fn env_words_exec(p: &SessionParams) -> (out: String)
    ensures
        out@ == env_words(*p),
{
    let mut s = env_word_exec("DISPLAY=", &p.display);
    let w = env_word_exec("WAYLAND_DISPLAY=", &p.wayland_display);
    s.append(w.as_str());
    let w = env_word_exec("XDG_RUNTIME_DIR=", &p.xdg_runtime_dir);
    s.append(w.as_str());
    let w = env_word_exec("TERM=", &p.term);
    s.append(w.as_str());
    s
}

fn entry_command_exec(p: &SessionParams) -> (out: String)
    ensures
        out@ == entry_command(p.shell@, p.shell_in_root, crate::text::strings(p.command@)),
{
    if p.command.len() == 0 {
        assert(crate::text::strings(p.command@).len() == 0);
        if p.shell_in_root {
            cat(p.shell.as_str(), " -l")
        } else {
            cat("/bin/sh", " -l")
        }
    } else {
        quote_words(&p.command)
    }
}

fn chroot_line_exec(r: &str, shell: &str, name: &str) -> (out: String)
    ensures
        out@ == chroot_line(r@, shell@, name@),
{
    let mut s = cat("cd ", r);
    s.append("; exec chroot . /usr/bin/env -i HOME=/root USER=root LOGNAME=root PATH=/opt/soter/bin:/usr/local/sbin:/usr/local/bin:/usr/sbin:/usr/bin:/sbin:/bin SHELL=");
    s.append(shell);
    s.append(" SOTERSPACE=");
    s.append(name);
    s.append(" ");
    s
}

/// The script that the namespace runtime runs for a session.
pub fn session_script(p: &SessionParams) -> (r: String)
    ensures
        r@ == session_script_spec(*p),
{
    let mut s = script_head_exec(p);
    let ghost s4 = s@;
    s.append("hostname ");
    s.append("soter-");
    s.append(p.name.as_str());
    s.append("; ");
    assert(s@ =~= s4 + hostname_line(p.name@));
    let c = chroot_line_exec(p.rootfs.as_str(), p.shell.as_str(), p.name.as_str());
    s.append(c.as_str());
    let e = env_words_exec(p);
    s.append(e.as_str());
    let t = entry_command_exec(p);
    s.append(t.as_str());
    s
}

} // verus!

verus! {

// ---------------------------------------------------------------- the runtime

/// The script that the runtime's shell runs: offline sessions first bring
/// up their loopback interface.
pub open spec fn runtime_script_spec(script: Seq<char>, offline: bool) -> Seq<char> {
    if offline {
        "set -eu; ip link set lo up; "@ + script
    } else {
        script
    }
}

pub fn runtime_script(script: &str, offline: bool) -> (r: String)
    ensures
        r@ == runtime_script_spec(script@, offline),
{
    if offline {
        cat("set -eu; ip link set lo up; ", script)
    } else {
        owned(script)
    }
}

/// The id mappings of the user namespace: root, plus the desktop user and
/// group one to one when both are known; else the caller as root.
pub open spec fn id_map_args(ids: Option<(u32, u32)>) -> Seq<Seq<char>> {
    match ids {
        Some((uid, gid)) => seq![
            "--map-users=0,0,1"@,
            "--map-users="@ + decimal(uid as nat) + ","@ + decimal(uid as nat) + ",1"@,
            "--map-groups=0,0,1"@,
            "--map-groups="@ + decimal(gid as nat) + ","@ + decimal(gid as nat) + ",1"@,
        ],
        None => seq!["--map-root-user"@],
    }
}

/// The full command line of the namespace runtime: `unshare` with the
/// namespaces to create, then `sh -c` and the runtime script.
pub open spec fn session_argv_spec(ids: Option<(u32, u32)>, offline: bool, script: Seq<char>) -> Seq<Seq<char>> {
    seq!["unshare"@, "--user"@] + id_map_args(ids) + seq![
        "--mount"@,
        "--pid"@,
        "--fork"@,
        "--uts"@,
        "--ipc"@,
    ] + (if offline { seq!["--net"@] } else { Seq::<Seq<char>>::empty() }) + seq![
        "sh"@,
        "-c"@,
        script,
    ]
}

fn id_map(prefix: &str, id: u32) -> (r: String)
    ensures
        r@ == prefix@ + decimal(id as nat) + ","@ + decimal(id as nat) + ",1"@,
{
    let d = to_decimal(id as u64);
    let mut s = cat(prefix, d.as_str());
    s.append(",");
    s.append(d.as_str());
    s.append(",1");
    s
}

/// The command line (program first) that starts a session's runtime.
pub fn session_argv(ids: Option<(u32, u32)>, offline: bool, script: &str) -> (r: Vec<String>)
    ensures
        crate::text::strings(r@) == session_argv_spec(ids, offline, script@),
{
    let mut v: Vec<String> = Vec::new();
    v.push(owned("unshare"));
    v.push(owned("--user"));
    let ghost a = seq!["unshare"@, "--user"@];
    assert(crate::text::strings(v@) =~= a);
    match ids {
        Some((uid, gid)) => {
            v.push(owned("--map-users=0,0,1"));
            v.push(id_map("--map-users=", uid));
            v.push(owned("--map-groups=0,0,1"));
            v.push(id_map("--map-groups=", gid));
        },
        None => {
            v.push(owned("--map-root-user"));
        },
    }
    let ghost b = a + id_map_args(ids);
    assert(crate::text::strings(v@) =~= b);
    v.push(owned("--mount"));
    v.push(owned("--pid"));
    v.push(owned("--fork"));
    v.push(owned("--uts"));
    v.push(owned("--ipc"));
    let ghost c = b + seq!["--mount"@, "--pid"@, "--fork"@, "--uts"@, "--ipc"@];
    assert(crate::text::strings(v@) =~= c);
    if offline {
        v.push(owned("--net"));
    }
    let ghost d = c + (if offline { seq!["--net"@] } else { Seq::<Seq<char>>::empty() });
    assert(crate::text::strings(v@) =~= d);
    v.push(owned("sh"));
    v.push(owned("-c"));
    v.push(owned(script));
    assert(crate::text::strings(v@) =~= d + seq!["sh"@, "-c"@, script@]);
    v
}

// ---------------------------------------------------------------- laws

proof fn lemma_occurs_in_concat(a: Seq<char>, x: Seq<char>, b: Seq<char>, needle: Seq<char>, i: int)
    requires
        occurs_at(x, needle, i),
    ensures
        occurs_at(a + x + b, needle, a.len() + i),
{
    let s = a + x + b;
    assert(s.subrange(a.len() + i, a.len() + i + needle.len()) =~= x.subrange(i, i + needle.len()));
}

proof fn lemma_nul_terminated_last(args: Seq<Seq<char>>)
    requires
        args.len() > 0,
    ensures
        crate::soterspace::nul_terminated(args) == crate::soterspace::nul_terminated(args.drop_last())
            + args.last() + seq!['\0'],
{
}

proof fn lemma_nul_terminated_first(args: Seq<Seq<char>>)
    requires
        args.len() > 0,
    ensures
        occurs_at(crate::soterspace::nul_terminated(args), args[0], 0),
    decreases args.len(),
{
    let n = crate::soterspace::nul_terminated(args);
    if args.len() == 1 {
        assert(args.drop_last() =~= Seq::<Seq<char>>::empty());
        assert(crate::soterspace::nul_terminated(args.drop_last()) =~= Seq::<char>::empty());
        assert(args.last() == args[0]);
        assert(n =~= args[0] + seq!['\0']);
        assert(n.subrange(0, args[0].len() as int) =~= args[0]);
    } else {
        lemma_nul_terminated_first(args.drop_last());
        let m = crate::soterspace::nul_terminated(args.drop_last());
        assert(args.drop_last()[0] == args[0]);
        assert(n.subrange(0, args[0].len() as int) =~= m.subrange(0, args[0].len() as int));
    }
}

proof fn lemma_script_names_host(p: SessionParams) -> (k: int)
    ensures
        occurs_at(session_script_spec(p), "soter-"@ + p.name@, k),
{
    let needle = "soter-"@ + p.name@;
    let script = session_script_spec(p);
    let head = script_head(p) + "hostname "@;
    let tail = "; "@ + chroot_line(p.rootfs@, p.shell@, p.name@) + env_words(p) + entry_command(
        p.shell@,
        p.shell_in_root,
        crate::text::strings(p.command@),
    );
    assert(script =~= head + needle + tail);
    assert(needle.subrange(0, needle.len() as int) =~= needle);
    lemma_occurs_in_concat(head, needle, tail, needle, 0);
    head.len() as int
}

proof fn lemma_argv_holds(ids: Option<(u32, u32)>, offline: bool, script: Seq<char>, needle: Seq<char>, k: int) -> (at: int)
    requires
        occurs_at(script, needle, k),
    ensures
        occurs_at(crate::soterspace::nul_terminated(session_argv_spec(ids, offline, runtime_script_spec(script, offline))), needle, at),
        occurs_at(crate::soterspace::nul_terminated(session_argv_spec(ids, offline, runtime_script_spec(script, offline))), "unshare"@, 0),
{
    let rs = runtime_script_spec(script, offline);
    let argv = session_argv_spec(ids, offline, rs);
    let raw = crate::soterspace::nul_terminated(argv);
    let pre = if offline { "set -eu; ip link set lo up; "@ } else { Seq::<char>::empty() };
    assert(rs =~= pre + script + Seq::<char>::empty());
    lemma_occurs_in_concat(pre, script, Seq::<char>::empty(), needle, k);
    assert(argv.last() == rs);
    lemma_nul_terminated_last(argv);
    let init = crate::soterspace::nul_terminated(argv.drop_last());
    lemma_occurs_in_concat(init, rs, seq!['\0'], needle, pre.len() + k);
    assert(argv[0] == "unshare"@);
    lemma_nul_terminated_first(argv);
    init.len() + pre.len() + k
}

/// Law: the runtime that starts a session of a validly named Soterspace is
/// recognised as that Soterspace's runtime by the ownership check that
/// `is_running`, `kill`, `pause` and `resume` rely on.
pub proof fn lemma_session_runtime_is_owned(p: SessionParams, ids: Option<(u32, u32)>)
    requires
        is_valid_name(p.name@),
    ensures
        crate::soterspace::owns_runtime_spec(
            p.name@,
            crate::soterspace::cmdline_text_spec(
                crate::soterspace::nul_terminated(
                    session_argv_spec(ids, p.offline, runtime_script_spec(session_script_spec(p), p.offline)),
                ),
            ),
        ),
{
    let name = p.name@;
    let needle = "soter-"@ + name;
    let k = lemma_script_names_host(p);
    let at = lemma_argv_holds(ids, p.offline, session_script_spec(p), needle, k);
    let raw = crate::soterspace::nul_terminated(
        session_argv_spec(ids, p.offline, runtime_script_spec(session_script_spec(p), p.offline)),
    );
    reveal_strlit("unshare");
    reveal_strlit("soter-");
    assert(!"unshare"@.contains('\0'));
    assert forall|j: int| 0 <= j < needle.len() implies needle[j] != '\0' by {
        if j >= 6 {
            assert(needle[j] == name[j - 6]);
            assert(crate::soterspace::is_name_char(name[j - 6]));
        }
    }
    assert(!needle.contains('\0'));
    crate::text::lemma_map_char_keeps(raw, '\0', ' ', "unshare"@, 0);
    crate::text::lemma_map_char_keeps(raw, '\0', ' ', needle, at);
}

} // verus!

verus! {

/// Law: the runtime gets a network namespace of its own (`--net`) exactly
/// when the session is offline; an open session shares the host network.
pub proof fn lemma_offline_means_own_network(ids: Option<(u32, u32)>, offline: bool, script: Seq<char>)
    ensures
        ({
            let argv = session_argv_spec(ids, offline, script);
            argv.subrange(0, argv.len() - 3).contains("--net"@) == offline
        }),
{
    let argv = session_argv_spec(ids, offline, script);
    let opts = argv.subrange(0, argv.len() - 3);
    reveal_strlit("--net");
    reveal_strlit("unshare");
    reveal_strlit("--user");
    reveal_strlit("--map-users=0,0,1");
    reveal_strlit("--map-users=");
    reveal_strlit("--map-groups=0,0,1");
    reveal_strlit("--map-groups=");
    reveal_strlit("--map-root-user");
    reveal_strlit("--mount");
    reveal_strlit("--pid");
    reveal_strlit("--fork");
    reveal_strlit("--uts");
    reveal_strlit("--ipc");
    let base = seq!["unshare"@, "--user"@] + id_map_args(ids) + seq![
        "--mount"@,
        "--pid"@,
        "--fork"@,
        "--uts"@,
        "--ipc"@,
    ];
    assert(forall|i: int| 0 <= i < base.len() ==> base[i] != "--net"@) by {
        assert forall|i: int| 0 <= i < base.len() implies base[i] != "--net"@ by {
            let x = base[i];
            if x == "--net"@ {
                assert(x.len() == 5);
                assert(x[2] == 'n');
            }
        }
    }
    if offline {
        assert(opts =~= base + seq!["--net"@]);
        assert(opts[base.len() as int] == "--net"@);
    } else {
        assert(opts =~= base);
    }
}

} // verus!
