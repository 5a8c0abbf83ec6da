//! Integrity checks of Soterspaces: the core hash and its baseline, and the
//! security scan of a Soterspace's state.

use vstd::prelude::*;
use vstd::string::*;
use crate::text::{
    cat, cat3, decimal, digit_char, is_whitespace, is_ws, owned, push_char, sep_items,
    split_nonempty, str_eq, strings, to_decimal, trim, trim_end, trim_start, trimmed,
};

verus! {

// ---------------------------------------------------------------- the core hash

/// The top-level directories of a root whose content the core hash covers.
pub open spec fn core_candidates() -> Seq<Seq<char>> {
    seq!["etc"@, "usr"@, "bin"@, "sbin"@, "lib"@, "lib64"@]
}

pub fn core_candidate_paths() -> (r: Vec<String>)
    ensures
        strings(r@) == core_candidates(),
{
    let mut r = Vec::new();
    r.push(owned("etc"));
    r.push(owned("usr"));
    r.push(owned("bin"));
    r.push(owned("sbin"));
    r.push(owned("lib"));
    r.push(owned("lib64"));
    assert(strings(r@) =~= core_candidates());
    r
}

/// The candidates that exist, in order.
pub open spec fn present_paths(candidates: Seq<Seq<char>>, present: Seq<bool>) -> Seq<Seq<char>>
    decreases candidates.len(),
{
    if candidates.len() == 0 {
        seq![]
    } else {
        present_paths(candidates.drop_last(), present) + if candidates.len() - 1 < present.len()
            && present[candidates.len() - 1] {
            seq![candidates.last()]
        } else {
            Seq::<Seq<char>>::empty()
        }
    }
}

/// The core paths to archive, given which candidates exist (one flag per
/// candidate, in order; a missing flag counts as absent); refused when none
/// does.
pub fn core_hash_paths(present: &Vec<bool>) -> (r: Result<Vec<String>, String>)
    ensures
        present_paths(core_candidates(), present@).len() == 0 ==> (r matches Err(e) && e@
            == "no core filesystem paths were found to hash"@),
        present_paths(core_candidates(), present@).len() > 0 ==> (r matches Ok(v) && strings(v@)
            == present_paths(core_candidates(), present@)),
{
    let all = core_candidate_paths();
    let mut out: Vec<String> = Vec::new();
    let mut i: usize = 0;
    while i < all.len()
        invariant
            i <= all.len(),
            strings(all@) == core_candidates(),
            strings(out@) == present_paths(core_candidates().take(i as int), present@),
        decreases all.len() - i,
    {
        let ghost before = out@;
        let ghost cs = core_candidates().take(i + 1);
        assert(cs.drop_last() =~= core_candidates().take(i as int));
        assert(cs.last() == all@[i as int]@);
        if i < present.len() && present[i] {
            out.push(all[i].clone());
            assert(strings(out@) =~= strings(before) + seq![all@[i as int]@]);
        } else {
            assert(strings(out@) =~= strings(before) + Seq::<Seq<char>>::empty());
        }
        i = i + 1;
    }
    assert(core_candidates().take(all.len() as int) =~= core_candidates());
    if out.len() == 0 {
        Err(owned("no core filesystem paths were found to hash"))
    } else {
        Ok(out)
    }
}

/// The `tar` arguments that archive the core paths reproducibly (sorted,
/// with fixed times and owners) to standard output.
pub open spec fn core_tar_args_spec(paths: Seq<Seq<char>>) -> Seq<Seq<char>> {
    seq![
        "--sort=name"@,
        "--mtime=@0"@,
        "--owner=0"@,
        "--group=0"@,
        "--numeric-owner"@,
        "--exclude=usr/share/wordlists/soter"@,
        "-cf"@,
        "-"@,
    ] + paths
}

pub fn core_tar_args(paths: &Vec<String>) -> (r: Vec<String>)
    ensures
        strings(r@) == core_tar_args_spec(strings(paths@)),
{
    let mut r = Vec::new();
    r.push(owned("--sort=name"));
    r.push(owned("--mtime=@0"));
    r.push(owned("--owner=0"));
    r.push(owned("--group=0"));
    r.push(owned("--numeric-owner"));
    r.push(owned("--exclude=usr/share/wordlists/soter"));
    r.push(owned("-cf"));
    r.push(owned("-"));
    let ghost head = strings(r@);
    let mut i: usize = 0;
    while i < paths.len()
        invariant
            i <= paths.len(),
            strings(r@) == head + strings(paths@).take(i as int),
        decreases paths.len() - i,
    {
        let ghost before = r@;
        r.push(paths[i].clone());
        assert(strings(r@) =~= strings(before).push(paths@[i as int]@));
        assert(strings(paths@).take(i + 1) =~= strings(paths@).take(i as int).push(paths@[i as int]@));
        i = i + 1;
    }
    assert(strings(paths@).take(paths.len() as int) =~= strings(paths@));
    r
}

/// The run of non-whitespace characters that `s` starts with.
pub open spec fn leading_word(s: Seq<char>) -> Seq<char>
    decreases s.len(),
{
    if s.len() == 0 || is_ws(s[0]) {
        seq![]
    } else {
        seq![s[0]] + leading_word(s.drop_first())
    }
}

/// The first whitespace-separated word of `s` (`split_whitespace().next()`).
pub open spec fn first_word(s: Seq<char>) -> Option<Seq<char>> {
    if trim_start(s).len() == 0 {
        None
    } else {
        Some(leading_word(trim_start(s)))
    }
}

/// The digest that `sha256sum` printed: its first word.
pub fn digest_from_output(stdout: &str) -> (r: Result<String, String>)
    ensures
        match first_word(stdout@) {
            Some(w) => r matches Ok(d) && d@ == w,
            None => r matches Err(e) && e@ == "sha256sum returned no digest"@,
        },
{
    let n = stdout.unicode_len();
    let mut i: usize = 0;
    assert(stdout@.skip(0) =~= stdout@);
    while i < n && is_whitespace(stdout.get_char(i))
        invariant
            n == stdout@.len(),
            i <= n,
            trim_start(stdout@) == trim_start(stdout@.skip(i as int)),
        decreases n - i,
    {
        assert(stdout@.skip(i as int).drop_first() =~= stdout@.skip(i + 1));
        i = i + 1;
    }
    let ghost t = stdout@.skip(i as int);
    assert(trim_start(t) == t);
    if i == n {
        assert(t.len() == 0);
        return Err(owned("sha256sum returned no digest"));
    }
    let mut j: usize = i;
    assert(t.skip(0) =~= t);
    assert(t.take(0) + leading_word(t.skip(0)) =~= leading_word(t));
    while j < n && !is_whitespace(stdout.get_char(j))
        invariant
            n == stdout@.len(),
            i <= j <= n,
            t == stdout@.skip(i as int),
            leading_word(t) == t.take(j - i) + leading_word(t.skip(j - i)),
        decreases n - j,
    {
        let ghost rest = t.skip(j - i);
        assert(rest[0] == stdout@[j as int]);
        assert(rest.drop_first() =~= t.skip(j - i + 1));
        assert(t.take(j - i + 1) =~= t.take(j - i) + seq![rest[0]]);
        j = j + 1;
    }
    assert(leading_word(t.skip(j - i)) =~= Seq::<char>::empty());
    assert(t.take(j - i) + Seq::<char>::empty() =~= stdout@.subrange(i as int, j as int));
    let w = stdout.substring_char(i, j);
    Ok(owned(w))
}

/// The refusal when `sha256sum` fails: its error output, trimmed.
pub fn sha256sum_failure(stderr: &str) -> (r: String)
    ensures
        r@ == "sha256sum failed: "@ + trimmed(stderr@),
{
    let t = trim(stderr);
    cat("sha256sum failed: ", t.as_str())
}

/// What a core hash baseline file holds: the digest and a newline.
pub open spec fn baseline_record_spec(digest: Seq<char>) -> Seq<char> {
    digest + seq!['\n']
}

pub fn baseline_record(digest: &str) -> (r: String)
    ensures
        r@ == baseline_record_spec(digest@),
{
    let mut s = owned(digest);
    push_char(&mut s, '\n');
    s
}

/// How a line of a report reads.
#[derive(Clone, Copy, PartialEq, Eq, Structural, Debug)]
pub enum Status {
    Pass,
    Fail,
    Warn,
    Info,
    Baseline,
}

/// One line of a report: its status and its text.
pub struct ReportLine {
    pub status: Status,
    pub text: String,
}

pub open spec fn line_is(l: ReportLine, status: Status, text: Seq<char>) -> bool {
    l.status == status && l.text@ == text
}

/// What comparing a Soterspace's core hash with its baseline finds.
pub struct HashCheck {
    /// The lines to print.
    pub lines: Vec<ReportLine>,
    /// Whether the digest differs from the baseline.
    pub mismatch: bool,
    /// The baseline to store, when there was none.
    pub store: Option<String>,
}

/// Compares the current core digest of a Soterspace with its baseline (the
/// content of the baseline file, if there is one): a match passes, a
/// difference fails and shows both, and a missing baseline is stored.
pub fn check_baseline(name: &str, baseline: Option<&str>, digest: &str) -> (r: HashCheck)
    ensures
        match baseline {
            Some(b) => r.store is None && r.mismatch == (trimmed(b@) != digest@) && if trimmed(b@)
                == digest@ {
                r.lines.len() == 1 && line_is(r.lines[0], Status::Pass, name@ + ": core hash matches "@ + digest@)
            } else {
                r.lines.len() == 3 && line_is(r.lines[0], Status::Fail, name@ + ": core hash changed"@)
                    && line_is(r.lines[1], Status::Fail, "       expected: "@ + trimmed(b@))
                    && line_is(r.lines[2], Status::Fail, "       current:  "@ + digest@)
            },
            None => !r.mismatch && r.lines.len() == 1 && line_is(r.lines[0], Status::Baseline, name@
                + ": stored core hash "@ + digest@) && (r.store matches Some(s) && s@ == baseline_record_spec(digest@)),
        },
{
    let mut lines: Vec<ReportLine> = Vec::new();
    match baseline {
        Some(b) => {
            let expected = trim(b);
            if str_eq(expected.as_str(), digest) {
                lines.push(ReportLine { status: Status::Pass, text: cat3(name, ": core hash matches ", digest) });
                HashCheck { lines, mismatch: false, store: None }
            } else {
                lines.push(ReportLine { status: Status::Fail, text: cat(name, ": core hash changed") });
                lines.push(ReportLine { status: Status::Fail, text: cat("       expected: ", expected.as_str()) });
                lines.push(ReportLine { status: Status::Fail, text: cat("       current:  ", digest) });
                HashCheck { lines, mismatch: true, store: None }
            }
        },
        None => {
            lines.push(ReportLine { status: Status::Baseline, text: cat3(name, ": stored core hash ", digest) });
            HashCheck { lines, mismatch: false, store: Some(baseline_record(digest)) }
        },
    }
}

/// The outcome of a run over several Soterspaces, from its number of
/// mismatches (or failures) and the noun of the message.
pub fn failure_count_result(count: usize, what: &str) -> (r: Result<(), String>)
    ensures
        count == 0 ==> r is Ok,
        count > 0 ==> (r matches Err(e) && e@ == decimal(count as nat) + " "@ + what@),
{
    if count == 0 {
        Ok(())
    } else {
        let d = to_decimal(count as u64);
        Err(cat3(d.as_str(), " ", what))
    }
}

/// Law: a baseline that the hash check stored is matched later by the same
/// digest, so an unchanged core passes.
pub proof fn lemma_baseline_roundtrip(digest: Seq<char>)
    requires
        forall|i: int| 0 <= i < digest.len() ==> !is_ws(#[trigger] digest[i]),
    ensures
        trimmed(baseline_record_spec(digest)) == digest,
{
    let rec = baseline_record_spec(digest);
    if digest.len() == 0 {
        assert(rec =~= seq!['\n']);
        assert(trim_start(rec) == trim_start(rec.drop_first()));
        assert(rec.drop_first() =~= Seq::<char>::empty());
        assert(trim_start(rec) =~= Seq::<char>::empty());
    } else {
        assert(rec[0] == digest[0]);
        assert(!is_ws(digest[0]));
        assert(trim_start(rec) == rec);
        assert(rec.drop_last() =~= digest);
        assert(!is_ws(digest.last()));
        assert(trim_end(digest) == digest);
    }
}

/// Law: the digest that is read from `sha256sum`'s output holds no
/// whitespace, so the baseline law applies to it.
pub proof fn lemma_leading_word_has_no_whitespace(s: Seq<char>)
    ensures
        forall|i: int| 0 <= i < leading_word(s).len() ==> !is_ws(#[trigger] leading_word(s)[i]),
    decreases s.len(),
{
    if s.len() > 0 && !is_ws(s[0]) {
        lemma_leading_word_has_no_whitespace(s.drop_first());
        let w = leading_word(s);
        assert forall|i: int| 0 <= i < w.len() implies !is_ws(#[trigger] w[i]) by {
            if i > 0 {
                assert(w[i] == leading_word(s.drop_first())[i - 1]);
            }
        }
    }
}

} // verus!

verus! {

// ---------------------------------------------------------------- the scan

/// The path segments of `s` that name something: the non-empty pieces
/// between slashes other than `.`.
pub open spec fn real_segments(items: Seq<Seq<char>>) -> Seq<Seq<char>>
    decreases items.len(),
{
    if items.len() == 0 {
        seq![]
    } else {
        real_segments(items.drop_last()) + if items.last() == "."@ {
            Seq::<Seq<char>>::empty()
        } else {
            seq![items.last()]
        }
    }
}

/// Whether a path lies under `/nix/store/`, component by component as
/// `Path::starts_with` compares (repeated slashes and `.` segments do not
/// count).
pub open spec fn in_nix_store(path: Seq<char>) -> bool {
    let segs = real_segments(sep_items(path, '/'));
    path.len() > 0 && path[0] == '/' && segs.len() >= 2 && segs[0] == "nix"@ && segs[1] == "store"@
}

pub fn points_into_nix_store(path: &str) -> (r: bool)
    ensures
        r == in_nix_store(path@),
{
    if path.unicode_len() == 0 || path.get_char(0) != '/' {
        return false;
    }
    let items = split_nonempty(path, '/');
    let ghost all = strings(items@);
    let mut segs: Vec<String> = Vec::new();
    let mut i: usize = 0;
    while i < items.len()
        invariant
            i <= items.len(),
            all == strings(items@),
            strings(segs@) == real_segments(all.take(i as int)),
        decreases items.len() - i,
    {
        let ghost before = segs@;
        assert(all.take(i + 1).drop_last() =~= all.take(i as int));
        assert(all.take(i + 1).last() == items@[i as int]@);
        if !str_eq(items[i].as_str(), ".") {
            segs.push(items[i].clone());
            assert(strings(segs@) =~= strings(before) + seq![items@[i as int]@]);
        } else {
            assert(strings(segs@) =~= strings(before) + Seq::<Seq<char>>::empty());
        }
        i = i + 1;
    }
    assert(all.take(items.len() as int) =~= all);
    segs.len() >= 2 && str_eq(segs[0].as_str(), "nix") && str_eq(segs[1].as_str(), "store")
}

/// A launcher found in a Soterspace's `/opt/soter/bin`.
pub struct LauncherFact {
    pub name: String,
    /// Whether it is a symbolic link.
    pub symlink: bool,
    /// Where the link points (empty for other files).
    pub target: String,
}

/// What the scan finds in one Soterspace.
pub struct ScanFacts {
    /// The content of the core hash baseline, if there is one.
    pub baseline: Option<String>,
    /// The current core digest (only read when there is a baseline).
    pub current: String,
    /// The launchers, in directory order.
    pub launchers: Vec<LauncherFact>,
    /// Whether `root/.mozilla/firefox` exists in the root.
    pub firefox_profile: bool,
    /// Whether `root/.config/chromium` exists in the root.
    pub chromium_profile: bool,
    /// The mode of the saved flake session storage, if it exists.
    pub sessions_mode: Option<u32>,
    /// Whether the legacy `network.conf` remains.
    pub legacy_network_conf: bool,
    /// Whether the stale `runtime/net-ready` marker remains.
    pub stale_net_ready: bool,
}

/// A report line as status and text.
pub open spec fn entry(l: ReportLine) -> (Status, Seq<char>) {
    (l.status, l.text@)
}

pub open spec fn entries(v: Seq<ReportLine>) -> Seq<(Status, Seq<char>)> {
    v.map_values(|l: ReportLine| entry(l))
}

/// How many entries of a report fail.
pub open spec fn fail_count(s: Seq<(Status, Seq<char>)>) -> nat
    decreases s.len(),
{
    if s.len() == 0 {
        0
    } else {
        fail_count(s.drop_last()) + if s.last().0 == Status::Fail { 1nat } else { 0nat }
    }
}

pub open spec fn integrity_entries(name: Seq<char>, baseline: Option<Seq<char>>, current: Seq<char>) -> Seq<(Status, Seq<char>)> {
    match baseline {
        Some(b) => if trimmed(b) == current {
            seq![(Status::Pass, "core filesystem matches the stored SHA-256 baseline"@)]
        } else {
            seq![(Status::Fail, "core filesystem differs from the stored SHA-256 baseline"@)]
        },
        None => seq![(Status::Warn, "no core hash baseline; run 'soter --hash "@ + name + "'"@)],
    }
}

pub open spec fn launcher_entry(l: LauncherFact) -> (Status, Seq<char>) {
    if !l.symlink {
        (Status::Fail, "launcher '"@ + l.name@ + "' is not a managed symlink"@)
    } else if in_nix_store(l.target@) {
        (Status::Pass, "launcher '"@ + l.name@ + "' points into /nix/store"@)
    } else {
        (Status::Fail, "launcher '"@ + l.name@ + "' points outside /nix/store: "@ + l.target@)
    }
}

/// The permission bits of a mode as three octal digits (`{:03o}`).
pub open spec fn octal3(p: nat) -> Seq<char> {
    seq![digit_char(p / 64), digit_char((p / 8) % 8), digit_char(p % 8)]
}

pub open spec fn sessions_entries(mode: Option<u32>) -> Seq<(Status, Seq<char>)> {
    match mode {
        Some(m) => if (m % 512) % 64 == 0 {
            seq![(Status::Pass, "saved flake session storage is not group/world accessible"@)]
        } else {
            seq![(Status::Fail, "saved flake session storage permissions are "@ + octal3((m % 512) as nat))]
        },
        None => seq![],
    }
}

pub open spec fn flag_entry(on: bool, status: Status, text: Seq<char>) -> Seq<(Status, Seq<char>)> {
    if on { seq![(status, text)] } else { seq![] }
}

/// The notes that every scan ends with.
pub open spec fn info_entries() -> Seq<(Status, Seq<char>)> {
    seq![
        (Status::Info, "default network mode is host-open"@),
        (Status::Info, "'--network isolate' creates an offline network namespace with no veth/NAT"@),
        (Status::Info, "hashes verify stored filesystem state; they cannot prove historical network traffic did not occur"@),
    ]
}

/// The report of one Soterspace's scan.
pub open spec fn scan_entries(name: Seq<char>, f: ScanFacts) -> Seq<(Status, Seq<char>)> {
    integrity_entries(name, crate::text::opt_string(f.baseline), f.current@)
        + f.launchers@.map_values(|l: LauncherFact| launcher_entry(l))
        + flag_entry(f.firefox_profile, Status::Warn, "unmanaged persistent firefox profile data exists at root/.mozilla/firefox"@)
        + flag_entry(f.chromium_profile, Status::Warn, "unmanaged persistent chromium profile data exists at root/.config/chromium"@)
        + sessions_entries(f.sessions_mode)
        + flag_entry(f.legacy_network_conf, Status::Warn, "legacy network.conf remains from the old routed isolation design"@)
        + flag_entry(f.stale_net_ready, Status::Warn, "stale runtime/net-ready marker remains from the old network design"@)
        + info_entries()
}

/// The report of a scan and how many of its checks failed.
pub struct ScanReport {
    pub lines: Vec<ReportLine>,
    pub failures: usize,
}

proof fn lemma_fail_count_bounded(s: Seq<(Status, Seq<char>)>)
    ensures
        fail_count(s) <= s.len(),
    decreases s.len(),
{
    if s.len() > 0 {
        lemma_fail_count_bounded(s.drop_last());
    }
}

fn add_line(lines: &mut Vec<ReportLine>, failures: &mut usize, status: Status, text: String)
    requires
        *old(failures) == fail_count(entries(old(lines)@)),
        old(lines).len() < usize::MAX,
    ensures
        entries(final(lines)@) == entries(old(lines)@).push((status, text@)),
        *final(failures) == fail_count(entries(final(lines)@)),
        final(lines).len() == old(lines).len() + 1,
{
    let ghost before = entries(lines@);
    lines.push(ReportLine { status, text });
    assert(entries(lines@) =~= before.push((status, text@)));
    assert(entries(lines@).drop_last() =~= before);
    proof {
        lemma_fail_count_bounded(before);
    }
    if status == Status::Fail {
        *failures = *failures + 1;
    }
}

fn octal3_exec(p: u32) -> (r: String)
    requires
        p < 512,
    ensures
        r@ == octal3(p as nat),
{
    let mut s = String::new();
    push_char(&mut s, digit3(p / 64));
    push_char(&mut s, digit3((p / 8) % 8));
    push_char(&mut s, digit3(p % 8));
    assert(s@ =~= octal3(p as nat));
    s
}

fn digit3(d: u32) -> (c: char)
    requires
        d < 10,
    ensures
        c == digit_char(d as nat),
{
    if d == 0 { '0' }
    else if d == 1 { '1' }
    else if d == 2 { '2' }
    else if d == 3 { '3' }
    else if d == 4 { '4' }
    else if d == 5 { '5' }
    else if d == 6 { '6' }
    else if d == 7 { '7' }
    else if d == 8 { '8' }
    else { '9' }
}

/// Where the scan stands: the lines so far and how many fail.
spec fn tally(lines: Seq<ReportLine>, failures: usize) -> bool {
    failures == fail_count(entries(lines))
}

fn scan_integrity(lines: &mut Vec<ReportLine>, failures: &mut usize, name: &str, f: &ScanFacts)
    requires
        tally(old(lines)@, *old(failures)),
        old(lines).len() < usize::MAX,
    ensures
        tally(final(lines)@, *final(failures)),
        entries(final(lines)@) == entries(old(lines)@) + integrity_entries(name@, crate::text::opt_string(f.baseline), f.current@),
        final(lines).len() == old(lines).len() + 1,
{
    let ghost before = entries(lines@);
    match &f.baseline {
        Some(b) => {
            let expected = trim(b.as_str());
            if str_eq(expected.as_str(), f.current.as_str()) {
                add_line(lines, failures, Status::Pass, owned("core filesystem matches the stored SHA-256 baseline"));
            } else {
                add_line(lines, failures, Status::Fail, owned("core filesystem differs from the stored SHA-256 baseline"));
            }
        },
        None => {
            add_line(lines, failures, Status::Warn, cat3("no core hash baseline; run 'soter --hash ", name, "'"));
        },
    }
    assert(entries(lines@) =~= before + integrity_entries(name@, crate::text::opt_string(f.baseline), f.current@));
}

fn scan_launchers(lines: &mut Vec<ReportLine>, failures: &mut usize, f: &ScanFacts)
    requires
        tally(old(lines)@, *old(failures)),
        old(lines).len() + f.launchers.len() < usize::MAX,
    ensures
        tally(final(lines)@, *final(failures)),
        entries(final(lines)@) == entries(old(lines)@) + f.launchers@.map_values(|l: LauncherFact| launcher_entry(l)),
        final(lines).len() == old(lines).len() + f.launchers.len(),
{
    let ghost g1 = entries(lines@);
    let ghost n0 = lines.len();
    let ghost ls = f.launchers@.map_values(|l: LauncherFact| launcher_entry(l));
    assert(g1 + ls.take(0) =~= g1);
    let mut i: usize = 0;
    while i < f.launchers.len()
        invariant
            i <= f.launchers.len(),
            n0 + f.launchers.len() < usize::MAX,
            lines.len() == n0 + i,
            ls == f.launchers@.map_values(|l: LauncherFact| launcher_entry(l)),
            entries(lines@) == g1 + ls.take(i as int),
            tally(lines@, *failures),
        decreases f.launchers.len() - i,
    {
        let l = &f.launchers[i];
        let text;
        let status;
        if !l.symlink {
            status = Status::Fail;
            text = cat3("launcher '", l.name.as_str(), "' is not a managed symlink");
        } else if points_into_nix_store(l.target.as_str()) {
            status = Status::Pass;
            text = cat3("launcher '", l.name.as_str(), "' points into /nix/store");
        } else {
            status = Status::Fail;
            let mut t = cat3("launcher '", l.name.as_str(), "' points outside /nix/store: ");
            t.append(l.target.as_str());
            text = t;
        }
        assert((status, text@) == launcher_entry(f.launchers@[i as int]));
        add_line(lines, failures, status, text);
        assert(ls.take(i + 1) =~= ls.take(i as int).push(ls[i as int]));
        assert(entries(lines@) =~= g1 + ls.take(i + 1));
        i = i + 1;
    }
    assert(ls.take(f.launchers.len() as int) =~= ls);
}

fn scan_flag(lines: &mut Vec<ReportLine>, failures: &mut usize, on: bool, text: &str)
    requires
        tally(old(lines)@, *old(failures)),
        old(lines).len() < usize::MAX,
    ensures
        tally(final(lines)@, *final(failures)),
        entries(final(lines)@) == entries(old(lines)@) + flag_entry(on, Status::Warn, text@),
        final(lines).len() <= old(lines).len() + 1,
{
    let ghost before = entries(lines@);
    if on {
        add_line(lines, failures, Status::Warn, owned(text));
    }
    assert(entries(lines@) =~= before + flag_entry(on, Status::Warn, text@));
}

fn scan_sessions(lines: &mut Vec<ReportLine>, failures: &mut usize, mode: Option<u32>)
    requires
        tally(old(lines)@, *old(failures)),
        old(lines).len() < usize::MAX,
    ensures
        tally(final(lines)@, *final(failures)),
        entries(final(lines)@) == entries(old(lines)@) + sessions_entries(mode),
        final(lines).len() <= old(lines).len() + 1,
{
    let ghost before = entries(lines@);
    match mode {
        Some(m) => {
            let p = m & 0o777;
            assert(m & 0o777 == m % 512) by (bit_vector);
            assert(p & 0o077 == 0 <==> p % 64 == 0) by (bit_vector)
                requires
                    p == m & 0o777,
            ;
            if p & 0o077 == 0 {
                add_line(lines, failures, Status::Pass, owned("saved flake session storage is not group/world accessible"));
            } else {
                let o = octal3_exec(p);
                add_line(lines, failures, Status::Fail, cat("saved flake session storage permissions are ", o.as_str()));
            }
        },
        None => {},
    }
    assert(entries(lines@) =~= before + sessions_entries(mode));
}

fn scan_info(lines: &mut Vec<ReportLine>, failures: &mut usize)
    requires
        tally(old(lines)@, *old(failures)),
        old(lines).len() + 3 <= usize::MAX,
    ensures
        tally(final(lines)@, *final(failures)),
        entries(final(lines)@) == entries(old(lines)@) + info_entries(),
{
    let ghost before = entries(lines@);
    add_line(lines, failures, Status::Info, owned("default network mode is host-open"));
    add_line(lines, failures, Status::Info, owned("'--network isolate' creates an offline network namespace with no veth/NAT"));
    add_line(lines, failures, Status::Info, owned("hashes verify stored filesystem state; they cannot prove historical network traffic did not occur"));
    assert(entries(lines@) =~= before + info_entries());
}

/// Scans one Soterspace from what was found in it: each finding is a line,
/// and the failures are counted.
pub fn scan_space(name: &str, f: &ScanFacts) -> (r: ScanReport)
    requires
        f.launchers.len() + 9 <= usize::MAX,
    ensures
        entries(r.lines@) == scan_entries(name@, *f),
        r.failures == fail_count(entries(r.lines@)),
{
    let mut lines: Vec<ReportLine> = Vec::new();
    let mut failures: usize = 0;
    assert(entries(lines@) =~= Seq::<(Status, Seq<char>)>::empty());
    scan_integrity(&mut lines, &mut failures, name, f);
    scan_launchers(&mut lines, &mut failures, f);
    scan_flag(&mut lines, &mut failures, f.firefox_profile, "unmanaged persistent firefox profile data exists at root/.mozilla/firefox");
    scan_flag(&mut lines, &mut failures, f.chromium_profile, "unmanaged persistent chromium profile data exists at root/.config/chromium");
    scan_sessions(&mut lines, &mut failures, f.sessions_mode);
    scan_flag(&mut lines, &mut failures, f.legacy_network_conf, "legacy network.conf remains from the old routed isolation design");
    scan_flag(&mut lines, &mut failures, f.stale_net_ready, "stale runtime/net-ready marker remains from the old network design");
    scan_info(&mut lines, &mut failures);
    assert(entries(lines@) =~= scan_entries(name@, *f));
    ScanReport { lines, failures }
}

} // verus!

verus! {

/// Law: the saved flake session storage passes exactly when its mode has no
/// permission bit for the group or for others (`mode & 0o077 == 0`,
/// execute bits included); otherwise its one line fails, shows the
/// permission bits as three octal digits (owner, group, others), and counts
/// as one failure. Without session storage there is no line.
pub proof fn lemma_session_storage_line(m: u32)
    ensures
        (m & 0o077 == 0) ==> sessions_entries(Some(m)) == seq![
            (Status::Pass, "saved flake session storage is not group/world accessible"@),
        ],
        (m & 0o077 != 0) ==> sessions_entries(Some(m)) == seq![
            (
                Status::Fail,
                "saved flake session storage permissions are "@ + seq![
                    digit_char(((m >> 6u32) & 7u32) as nat),
                    digit_char(((m >> 3u32) & 7u32) as nat),
                    digit_char((m & 7u32) as nat),
                ],
            ),
        ],
        fail_count(sessions_entries(Some(m))) == (if m & 0o077 == 0 { 0nat } else { 1nat }),
        sessions_entries(None) == Seq::<(Status, Seq<char>)>::empty(),
{
    assert((m % 512) % 64 == 0 <==> m & 0o077 == 0) by (bit_vector);
    assert((m % 512) / 64 == (m >> 6u32) & 7u32) by (bit_vector);
    assert(((m % 512) / 8) % 8 == (m >> 3u32) & 7u32) by (bit_vector);
    assert((m % 512) % 8 == m & 7u32) by (bit_vector);
    let s = sessions_entries(Some(m));
    assert(s.len() == 1);
    assert(s.drop_last() =~= Seq::<(Status, Seq<char>)>::empty());
    assert(fail_count(s.drop_last()) == 0);
    assert(fail_count(s) == fail_count(s.drop_last()) + if s.last().0 == Status::Fail { 1nat } else { 0nat });
}

} // verus!
