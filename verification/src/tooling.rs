//! On-demand security tooling for Soterspaces: the tool menu, reading a
//! selection, choosing the target Soterspace, and case directories.

use vstd::prelude::*;
use vstd::string::*;
use crate::soterspace::{is_valid_name, valid_name};
use crate::text::{
    cat, cat3, decimal, is_whitespace, is_ws, owned, parse_unsigned, parse_usize, push_char,
    str_eq, strings, to_decimal, trim, trimmed,
};

verus! {

/// A tool that Soter can install into a Soterspace.
#[derive(Debug, Clone, Copy)]
pub struct ToolSpec {
    pub number: usize,
    pub name: &'static str,
    pub package: &'static str,
    pub command: &'static str,
    pub description: &'static str,
}

/// The content of a `ToolSpec`.
pub struct ToolInfo {
    pub number: nat,
    pub name: Seq<char>,
    pub package: Seq<char>,
    pub command: Seq<char>,
    pub description: Seq<char>,
}

pub open spec fn tool_info(t: ToolSpec) -> ToolInfo {
    ToolInfo {
        number: t.number as nat,
        name: t.name@,
        package: t.package@,
        command: t.command@,
        description: t.description@,
    }
}

pub open spec fn info(number: nat, name: Seq<char>, package: Seq<char>, command: Seq<char>, description: Seq<char>) -> ToolInfo {
    ToolInfo { number, name, package, command, description }
}

/// The number of tools on the menu.
pub open spec fn tool_count() -> nat {
    11
}

/// The tool with menu number `n`, if there is one.
pub open spec fn tool_row(n: nat) -> Option<ToolInfo> {
    if n == 1 {
        Some(info(1, "Nmap"@, "nmap"@, "nmap"@, "Network discovery and port scanning"@))
    } else if n == 2 {
        Some(info(2, "FFUF"@, "ffuf"@, "ffuf"@, "Fast web content fuzzing"@))
    } else if n == 3 {
        Some(info(3, "Gobuster"@, "gobuster"@, "gobuster"@, "Directory, DNS and virtual-host enumeration"@))
    } else if n == 4 {
        Some(info(4, "Netcat"@, "openbsd-netcat"@, "nc"@, "TCP/UDP connectivity and debugging"@))
    } else if n == 5 {
        Some(info(5, "curl"@, "curl"@, "curl"@, "HTTP/API requests and transfers"@))
    } else if n == 6 {
        Some(info(6, "wget"@, "wget"@, "wget"@, "HTTP/HTTPS file retrieval"@))
    } else if n == 7 {
        Some(info(7, "jq"@, "jq"@, "jq"@, "JSON inspection and transformation"@))
    } else if n == 8 {
        Some(info(8, "ripgrep"@, "ripgrep"@, "rg"@, "Fast recursive text searching"@))
    } else if n == 9 {
        Some(info(9, "DNS tools"@, "bind"@, "dig"@, "dig, host and nslookup"@))
    } else if n == 10 {
        Some(info(10, "socat"@, "socat"@, "socat"@, "Bidirectional socket relay and testing"@))
    } else if n == 11 {
        Some(info(11, "tcpdump"@, "tcpdump"@, "tcpdump"@, "Packet capture and traffic inspection"@))
    } else {
        None
    }
}

fn spec_tool(number: usize, name: &'static str, package: &'static str, command: &'static str, description: &'static str) -> (t: ToolSpec)
    ensures
        tool_info(t) == info(number as nat, name@, package@, command@, description@),
{
    ToolSpec { number, name, package, command, description }
}

/// The tool with menu number `n`, if there is one.
pub fn tool_by_number(n: usize) -> (r: Option<ToolSpec>)
    ensures
        match r {
            Some(t) => tool_row(n as nat) == Some(tool_info(t)),
            None => tool_row(n as nat) is None,
        },
{
    if n == 1 {
        Some(spec_tool(1, "Nmap", "nmap", "nmap", "Network discovery and port scanning"))
    } else if n == 2 {
        Some(spec_tool(2, "FFUF", "ffuf", "ffuf", "Fast web content fuzzing"))
    } else if n == 3 {
        Some(spec_tool(3, "Gobuster", "gobuster", "gobuster", "Directory, DNS and virtual-host enumeration"))
    } else if n == 4 {
        Some(spec_tool(4, "Netcat", "openbsd-netcat", "nc", "TCP/UDP connectivity and debugging"))
    } else if n == 5 {
        Some(spec_tool(5, "curl", "curl", "curl", "HTTP/API requests and transfers"))
    } else if n == 6 {
        Some(spec_tool(6, "wget", "wget", "wget", "HTTP/HTTPS file retrieval"))
    } else if n == 7 {
        Some(spec_tool(7, "jq", "jq", "jq", "JSON inspection and transformation"))
    } else if n == 8 {
        Some(spec_tool(8, "ripgrep", "ripgrep", "rg", "Fast recursive text searching"))
    } else if n == 9 {
        Some(spec_tool(9, "DNS tools", "bind", "dig", "dig, host and nslookup"))
    } else if n == 10 {
        Some(spec_tool(10, "socat", "socat", "socat", "Bidirectional socket relay and testing"))
    } else if n == 11 {
        Some(spec_tool(11, "tcpdump", "tcpdump", "tcpdump", "Packet capture and traffic inspection"))
    } else {
        None
    }
}

/// All the tools, in menu order.
pub fn tools() -> (r: Vec<ToolSpec>)
    ensures
        r.len() == tool_count(),
        forall|i: int| 0 <= i < r.len() ==> tool_row((i + 1) as nat) == Some(#[trigger] tool_info(r[i])),
{
    let mut r: Vec<ToolSpec> = Vec::new();
    let mut n: usize = 1;
    while n <= 11
        invariant
            1 <= n <= 12,
            r.len() == n - 1,
            forall|i: int| 0 <= i < r.len() ==> tool_row((i + 1) as nat) == Some(#[trigger] tool_info(r[i])),
        decreases 12 - n,
    {
        match tool_by_number(n) {
            Some(t) => r.push(t),
            None => {
                assert(false);
            },
        }
        n = n + 1;
    }
    r
}

// ---------------------------------------------------------------- selection

/// A character that separates tool numbers: a comma or whitespace.
pub open spec fn is_selection_sep(c: char) -> bool {
    c == ',' || is_ws(c)
}

/// The non-empty pieces of `s` between separators, read from index `i` on
/// with `cur` already collected.
pub open spec fn tokens_from(s: Seq<char>, i: int, cur: Seq<char>) -> Seq<Seq<char>>
    decreases s.len() - i,
{
    if i >= s.len() {
        if cur.len() > 0 { seq![cur] } else { seq![] }
    } else if is_selection_sep(s[i]) {
        (if cur.len() > 0 { seq![cur] } else { Seq::<Seq<char>>::empty() }) + tokens_from(
            s,
            i + 1,
            seq![],
        )
    } else {
        tokens_from(s, i + 1, cur.push(s[i]))
    }
}

/// The tool numbers as typed: the non-empty pieces between separators.
pub open spec fn selection_tokens(s: Seq<char>) -> Seq<Seq<char>> {
    tokens_from(s, 0, seq![])
}

fn split_selection(s: &str) -> (r: Vec<String>)
    ensures
        strings(r@) == selection_tokens(s@),
{
    let n = s.unicode_len();
    let mut out: Vec<String> = Vec::new();
    let mut cur = String::new();
    let mut i: usize = 0;
    while i < n
        invariant
            n == s@.len(),
            i <= n,
            strings(out@) + tokens_from(s@, i as int, cur@) == selection_tokens(s@),
        decreases n - i,
    {
        let c = s.get_char(i);
        if c == ',' || is_whitespace(c) {
            let ghost before = strings(out@);
            let ghost piece = if cur@.len() > 0 { seq![cur@] } else { Seq::<Seq<char>>::empty() };
            if cur.unicode_len() > 0 {
                out.push(cur);
            }
            assert(strings(out@) =~= before + piece);
            cur = String::new();
            assert(before + piece + tokens_from(s@, i + 1, seq![]) =~= before + (piece
                + tokens_from(s@, i + 1, seq![])));
        } else {
            push_char(&mut cur, c);
        }
        i = i + 1;
    }
    let ghost before = strings(out@);
    if cur.unicode_len() > 0 {
        out.push(cur);
        assert(strings(out@) =~= before + seq![cur@]);
    } else {
        assert(before + Seq::<Seq<char>>::empty() =~= before);
    }
    out
}

/// Whether a tool with menu number `n` was already chosen.
pub open spec fn chosen(acc: Seq<ToolInfo>, n: nat) -> bool {
    exists|j: int| 0 <= j < acc.len() && (#[trigger] acc[j]).number == n
}

/// Reading the tokens from the `k`-th on, with `acc` chosen so far: each
/// must be a number on the menu; a repeated number is chosen once, where it
/// first appears; choosing nothing is refused.
pub open spec fn selection_from(toks: Seq<Seq<char>>, k: int, acc: Seq<ToolInfo>) -> Result<Seq<ToolInfo>, Seq<char>>
    decreases toks.len() - k,
{
    if k < 0 || k >= toks.len() {
        if acc.len() == 0 { Err("no tools selected"@) } else { Ok(acc) }
    } else {
        let raw = trimmed(toks[k]);
        match parse_unsigned(raw, usize::MAX as nat) {
            None => Err("invalid tool selection '"@ + raw + "'"@),
            Some(n) => match tool_row(n) {
                None => Err("unknown tool number "@ + decimal(n)),
                Some(t) => selection_from(toks, k + 1, if chosen(acc, n) { acc } else { acc.push(t) }),
            },
        }
    }
}

/// The tools that a typed selection such as `1,2 8` names.
pub open spec fn selection_spec(value: Seq<char>) -> Result<Seq<ToolInfo>, Seq<char>> {
    selection_from(selection_tokens(value), 0, seq![])
}

pub open spec fn tool_infos(v: Seq<ToolSpec>) -> Seq<ToolInfo> {
    v.map_values(|t: ToolSpec| tool_info(t))
}

/// Reads a tool selection: numbers from the menu, separated by commas or
/// whitespace.
pub fn parse_selection(value: &str) -> (r: Result<Vec<ToolSpec>, String>)
    ensures
        match (r, selection_spec(value@)) {
            (Ok(v), Ok(w)) => tool_infos(v@) == w,
            (Err(e), Err(f)) => e@ == f,
            _ => false,
        },
{
    let toks = split_selection(value);
    let ghost ts = selection_tokens(value@);
    let mut selected: Vec<ToolSpec> = Vec::new();
    let mut k: usize = 0;
    assert(tool_infos(selected@) =~= Seq::<ToolInfo>::empty());
    while k < toks.len()
        invariant
            k <= toks.len(),
            strings(toks@) == ts,
            ts == selection_tokens(value@),
            selection_spec(value@) == selection_from(ts, k as int, tool_infos(selected@)),
        decreases toks.len() - k,
    {
        assert(ts[k as int] == toks@[k as int]@);
        let raw = trim(toks[k].as_str());
        let number = match parse_usize(raw.as_str()) {
            Some(n) => n,
            None => {
                return Err(cat3("invalid tool selection '", raw.as_str(), "'"));
            },
        };
        let tool = match tool_by_number(number) {
            Some(t) => t,
            None => {
                let d = to_decimal(number as u64);
                return Err(cat("unknown tool number ", d.as_str()));
            },
        };
        let ghost acc = tool_infos(selected@);
        let mut seen = false;
        let mut j: usize = 0;
        while j < selected.len()
            invariant
                j <= selected.len(),
                acc == tool_infos(selected@),
                seen == (exists|m: int| 0 <= m < j && (#[trigger] acc[m]).number == number),
            decreases selected.len() - j,
        {
            assert(acc[j as int] == tool_info(selected@[j as int]));
            if selected[j].number == number {
                seen = true;
            }
            assert(seen == (exists|m: int| 0 <= m < j + 1 && (#[trigger] acc[m]).number == number)) by {
                if seen {
                    if acc[j as int].number == number {
                        assert(0 <= j < j + 1);
                    }
                }
            }
            j = j + 1;
        }
        assert(seen == chosen(acc, number as nat));
        if !seen {
            selected.push(tool);
            assert(tool_infos(selected@) =~= acc.push(tool_info(tool)));
        }
        k = k + 1;
    }
    if selected.len() == 0 {
        return Err(owned("no tools selected"));
    }
    Ok(selected)
}

} // verus!

verus! {

// ---------------------------------------------------------------- the menu

/// `n` spaces.
pub open spec fn spaces(n: nat) -> Seq<char> {
    Seq::new(n, |i: int| ' ')
}

/// `s` right-aligned in a field of `width` characters (`{:>width}`).
pub open spec fn pad_left(s: Seq<char>, width: nat) -> Seq<char> {
    if s.len() < width { spaces((width - s.len()) as nat) + s } else { s }
}

/// `s` left-aligned in a field of `width` characters (`{:<width}`).
pub open spec fn pad_right(s: Seq<char>, width: nat) -> Seq<char> {
    if s.len() < width { s + spaces((width - s.len()) as nat) } else { s }
}

fn push_spaces(s: &mut String, n: usize)
    ensures
        final(s)@ == old(s)@ + spaces(n as nat),
{
    let mut i: usize = 0;
    while i < n
        invariant
            i <= n,
            s@ == old(s)@ + spaces(i as nat),
        decreases n - i,
    {
        push_char(s, ' ');
        assert(old(s)@ + spaces((i + 1) as nat) =~= old(s)@ + spaces(i as nat) + seq![' ']);
        i = i + 1;
    }
}

/// One line of the tool menu: `  N. NAME       DESCRIPTION`.
pub open spec fn menu_line_spec(t: ToolInfo) -> Seq<char> {
    "  "@ + pad_left(decimal(t.number), 2) + ". "@ + pad_right(t.name, 10) + " "@ + t.description
}

pub fn menu_line(t: &ToolSpec) -> (r: String)
    ensures
        r@ == menu_line_spec(tool_info(*t)),
{
    let d = to_decimal(t.number as u64);
    let mut s = owned("  ");
    let dl = d.unicode_len();
    if dl < 2 {
        push_spaces(&mut s, 2 - dl);
    }
    s.append(d.as_str());
    s.append(". ");
    s.append(t.name);
    let nl = t.name.unicode_len();
    if nl < 10 {
        push_spaces(&mut s, 10 - nl);
    }
    s.append(" ");
    s.append(t.description);
    assert(s@ =~= menu_line_spec(tool_info(*t)));
    s
}

// ---------------------------------------------------------------- the target

/// The Soterspace that the installer's answer names: a position in the list
/// (counted from one; zero counts as one), else a listed name.
pub open spec fn chosen_space_spec(spaces: Seq<Seq<char>>, answer: Seq<char>) -> Result<Seq<char>, Seq<char>> {
    let w = trimmed(answer);
    match parse_unsigned(w, usize::MAX as nat) {
        Some(i) => {
            let k = if i == 0 { 0 } else { i - 1 };
            if k < spaces.len() {
                Ok(spaces[k])
            } else {
                Err("invalid Soterspace selection: "@ + w)
            }
        },
        None => if spaces.contains(w) {
            Ok(w)
        } else {
            Err("unknown Soterspace '"@ + w + "'"@)
        },
    }
}

pub fn choose_space(spaces: &Vec<String>, answer: &str) -> (r: Result<String, String>)
    ensures
        crate::text::res_string(r) == chosen_space_spec(strings(spaces@), answer@),
{
    let w = trim(answer);
    match parse_usize(w.as_str()) {
        Some(i) => {
            let k = if i == 0 { 0 } else { i - 1 };
            if k < spaces.len() {
                Ok(spaces[k].clone())
            } else {
                Err(cat("invalid Soterspace selection: ", w.as_str()))
            }
        },
        None => {
            let mut j: usize = 0;
            while j < spaces.len()
                invariant
                    j <= spaces.len(),
                    w@ == trimmed(answer@),
                    parse_unsigned(w@, usize::MAX as nat) is None,
                    forall|m: int| 0 <= m < j ==> strings(spaces@)[m] != w@,
                decreases spaces.len() - j,
            {
                if str_eq(spaces[j].as_str(), w.as_str()) {
                    assert(strings(spaces@)[j as int] == w@);
                    assert(strings(spaces@).contains(w@));
                    return Ok(w);
                }
                j = j + 1;
            }
            assert(!strings(spaces@).contains(w@));
            Err(cat3("unknown Soterspace '", w.as_str(), "'"))
        },
    }
}

// ---------------------------------------------------------------- installing

/// The packages of the chosen tools, in order.
pub fn tool_packages(selected: &Vec<ToolSpec>) -> (r: Vec<String>)
    ensures
        strings(r@) == tool_infos(selected@).map_values(|t: ToolInfo| t.package),
{
    let mut r: Vec<String> = Vec::new();
    let mut i: usize = 0;
    while i < selected.len()
        invariant
            i <= selected.len(),
            strings(r@) == tool_infos(selected@).map_values(|t: ToolInfo| t.package).take(i as int),
        decreases selected.len() - i,
    {
        let ghost before = r@;
        r.push(owned(selected[i].package));
        assert(strings(r@) =~= strings(before).push(selected@[i as int].package@));
        assert(strings(r@) =~= tool_infos(selected@).map_values(|t: ToolInfo| t.package).take(i + 1));
        i = i + 1;
    }
    assert(tool_infos(selected@).map_values(|t: ToolInfo| t.package).take(selected.len() as int)
        =~= tool_infos(selected@).map_values(|t: ToolInfo| t.package));
    r
}

/// The `arch-chroot` arguments that install the chosen tools' packages
/// inside a root, leaving the rest of the system as it is.
pub fn tool_install_args(rootfs: &str, packages: &Vec<String>) -> (r: Vec<String>)
    ensures
        strings(r@) == seq![rootfs@, "pacman"@, "-S"@, "--needed"@, "--noconfirm"@] + strings(
            packages@,
        ),
{
    let mut r = Vec::new();
    r.push(owned(rootfs));
    r.push(owned("pacman"));
    r.push(owned("-S"));
    r.push(owned("--needed"));
    r.push(owned("--noconfirm"));
    let ghost head = strings(r@);
    assert(head =~= seq![rootfs@, "pacman"@, "-S"@, "--needed"@, "--noconfirm"@]);
    let mut i: usize = 0;
    while i < packages.len()
        invariant
            i <= packages.len(),
            strings(r@) == head + strings(packages@).take(i as int),
        decreases packages.len() - i,
    {
        let ghost before = r@;
        r.push(packages[i].clone());
        assert(strings(r@) =~= strings(before).push(packages@[i as int]@));
        assert(strings(packages@).take(i + 1) =~= strings(packages@).take(i as int).push(
            packages@[i as int]@,
        ));
        i = i + 1;
    }
    assert(strings(packages@).take(packages.len() as int) =~= strings(packages@));
    r
}

/// The names of the chosen tools, in order.
pub fn tool_names(selected: &Vec<ToolSpec>) -> (r: Vec<String>)
    ensures
        strings(r@) == tool_infos(selected@).map_values(|t: ToolInfo| t.name),
{
    let mut r: Vec<String> = Vec::new();
    let mut i: usize = 0;
    while i < selected.len()
        invariant
            i <= selected.len(),
            strings(r@) == tool_infos(selected@).map_values(|t: ToolInfo| t.name).take(i as int),
        decreases selected.len() - i,
    {
        let ghost before = r@;
        r.push(owned(selected[i].name));
        assert(strings(r@) =~= strings(before).push(selected@[i as int].name@));
        assert(strings(r@) =~= tool_infos(selected@).map_values(|t: ToolInfo| t.name).take(i + 1));
        i = i + 1;
    }
    assert(tool_infos(selected@).map_values(|t: ToolInfo| t.name).take(selected.len() as int)
        =~= tool_infos(selected@).map_values(|t: ToolInfo| t.name));
    r
}

/// Refuses to install tools into a running Soterspace, or into one whose
/// root has not been provisioned yet (it has no `/usr/bin/env`).
pub fn tools_install_check(name: &str, running: bool, provisioned: bool) -> (r: Result<(), String>)
    ensures
        running ==> (r matches Err(e) && e@ == "soterspace '"@ + name@
            + "' is running; stop it before changing installed tools"@),
        !running && !provisioned ==> (r matches Err(e) && e@ == "soterspace '"@ + name@
            + "' has not finished provisioning; enter it once before installing tools"@),
        !running && provisioned ==> r is Ok,
{
    if running {
        return Err(cat3("soterspace '", name, "' is running; stop it before changing installed tools"));
    }
    if !provisioned {
        return Err(cat3(
            "soterspace '",
            name,
            "' has not finished provisioning; enter it once before installing tools",
        ));
    }
    Ok(())
}

/// The lines that report what was installed.
pub open spec fn install_report_spec(name: Seq<char>, selected: Seq<ToolInfo>, baseline_invalidated: bool) -> Seq<Seq<char>> {
    seq!["\nInstalled:"@] + selected.map_values(
        |t: ToolInfo| "  - "@ + t.name + " ("@ + t.command + ")"@,
    ) + seq![
        "Starter wordlist: /usr/share/wordlists/soter/common.txt"@,
        "Secure case directory: /root/soter/cases"@,
    ] + if baseline_invalidated {
        seq![
            "Integrity baseline cleared because this was an authorized system change."@,
            "Run 'soter --hash "@ + name + "' after you finish installing tools."@,
        ]
    } else {
        Seq::<Seq<char>>::empty()
    }
}

pub fn install_report(name: &str, selected: &Vec<ToolSpec>, baseline_invalidated: bool) -> (r: Vec<String>)
    ensures
        strings(r@) == install_report_spec(name@, tool_infos(selected@), baseline_invalidated),
{
    let mut r: Vec<String> = Vec::new();
    r.push(owned("\nInstalled:"));
    let ghost head = seq!["\nInstalled:"@];
    let ghost lines = tool_infos(selected@).map_values(
        |t: ToolInfo| "  - "@ + t.name + " ("@ + t.command + ")"@,
    );
    assert(strings(r@) =~= head + lines.take(0));
    let mut i: usize = 0;
    while i < selected.len()
        invariant
            i <= selected.len(),
            lines.len() == selected.len(),
            lines == tool_infos(selected@).map_values(
                |t: ToolInfo| "  - "@ + t.name + " ("@ + t.command + ")"@,
            ),
            strings(r@) == head + lines.take(i as int),
        decreases selected.len() - i,
    {
        let ghost before = r@;
        let mut line = cat3("  - ", selected[i].name, " (");
        line.append(selected[i].command);
        line.append(")");
        r.push(line);
        assert(strings(r@) =~= strings(before).push(lines[i as int]));
        assert(lines.take(i + 1) =~= lines.take(i as int).push(lines[i as int]));
        assert(strings(r@) =~= head + lines.take(i + 1));
        i = i + 1;
    }
    assert(lines.take(selected.len() as int) =~= lines);
    let ghost mid = strings(r@);
    r.push(owned("Starter wordlist: /usr/share/wordlists/soter/common.txt"));
    r.push(owned("Secure case directory: /root/soter/cases"));
    let ghost mid2 = mid + seq![
        "Starter wordlist: /usr/share/wordlists/soter/common.txt"@,
        "Secure case directory: /root/soter/cases"@,
    ];
    assert(strings(r@) =~= mid2);
    if baseline_invalidated {
        r.push(owned("Integrity baseline cleared because this was an authorized system change."));
        r.push(cat3("Run 'soter --hash ", name, "' after you finish installing tools."));
    }
    assert(strings(r@) =~= mid2 + if baseline_invalidated {
        seq![
            "Integrity baseline cleared because this was an authorized system change."@,
            "Run 'soter --hash "@ + name@ + "' after you finish installing tools."@,
        ]
    } else {
        Seq::<Seq<char>>::empty()
    });
    r
}

} // verus!

verus! {

// ---------------------------------------------------------------- cases

/// Accepts a case name made of letters, digits, `-` and `_` only.
pub fn case_name_check(case_name: &str) -> (r: Result<(), String>)
    ensures
        is_valid_name(case_name@) ==> r is Ok,
        !is_valid_name(case_name@) ==> (r matches Err(e) && e@
            == "case names may contain only letters, numbers, '-' and '_'"@),
{
    if valid_name(case_name) {
        Ok(())
    } else {
        Err(owned("case names may contain only letters, numbers, '-' and '_'"))
    }
}

/// Refuses a case in a running Soterspace, or one that already exists.
pub fn case_check(space: &str, case_name: &str, running: bool, exists: bool) -> (r: Result<(), String>)
    ensures
        running ==> (r matches Err(e) && e@ == "soterspace '"@ + space@
            + "' is running; stop it before creating a case"@),
        !running && exists ==> (r matches Err(e) && e@ == "case '"@ + case_name@
            + "' already exists in soterspace '"@ + space@ + "'"@),
        !running && !exists ==> r is Ok,
{
    if running {
        return Err(cat3("soterspace '", space, "' is running; stop it before creating a case"));
    }
    if exists {
        let mut e = cat3("case '", case_name, "' already exists in soterspace '");
        e.append(space);
        e.append("'");
        return Err(e);
    }
    Ok(())
}

/// The directories of a case, in the order they are made.
pub fn case_directories() -> (r: Vec<String>)
    ensures
        strings(r@) == seq!["recon"@, "scans"@, "findings"@, "evidence"@, "notes"@, "loot"@],
{
    let mut r = Vec::new();
    r.push(owned("recon"));
    r.push(owned("scans"));
    r.push(owned("findings"));
    r.push(owned("evidence"));
    r.push(owned("notes"));
    r.push(owned("loot"));
    assert(strings(r@) =~= seq!["recon"@, "scans"@, "findings"@, "evidence"@, "notes"@, "loot"@]);
    r
}

/// The `README.txt` of a case.
pub open spec fn case_readme_spec(case_name: Seq<char>) -> Seq<char> {
    "Soter case: "@ + case_name
        + "\n\nrecon/     discovery and enumeration notes\nscans/     scanner output\nfindings/  validated findings and writeups\nevidence/  screenshots and supporting artifacts\nnotes/     working notes\nloot/      authorized collected test data\n"@
}

pub fn case_readme(case_name: &str) -> (r: String)
    ensures
        r@ == case_readme_spec(case_name@),
{
    cat3(
        "Soter case: ",
        case_name,
        "\n\nrecon/     discovery and enumeration notes\nscans/     scanner output\nfindings/  validated findings and writeups\nevidence/  screenshots and supporting artifacts\nnotes/     working notes\nloot/      authorized collected test data\n",
    )
}

/// The starter wordlist that a security workspace gets.
pub fn starter_wordlist() -> (r: String)
    ensures
        r@ == "admin\napi\napp\nassets\nbackup\nconfig\ndashboard\ndev\ndocs\nfiles\nimages\ninternal\nlogin\nold\nprivate\nrobots.txt\nstatic\ntest\nupload\nuploads\n"@,
{
    owned(
        "admin\napi\napp\nassets\nbackup\nconfig\ndashboard\ndev\ndocs\nfiles\nimages\ninternal\nlogin\nold\nprivate\nrobots.txt\nstatic\ntest\nupload\nuploads\n",
    )
}

// ---------------------------------------------------------------- providers

/// A tool environment to prepare.
#[derive(Debug, Clone)]
pub struct ToolEnvironment {
    pub packages: Vec<String>,
    pub ephemeral: bool,
}

/// Something that prepares tool environments and runs tools in them.
pub trait ToolProvider {
    fn prepare(&self, env: &ToolEnvironment) -> Result<(), String>;

    fn run(&self, tool: &str, args: &[String]) -> Result<i32, String>;
}

} // verus!

verus! {

/// The tools of a selection are on the menu, each chosen once.
pub open spec fn well_chosen(v: Seq<ToolInfo>) -> bool {
    &&& forall|i: int| 0 <= i < v.len() ==> tool_row(#[trigger] v[i].number) == Some(v[i])
    &&& forall|i: int, j: int| 0 <= i < j < v.len() ==> (#[trigger] v[i]).number != (#[trigger] v[j]).number
}

proof fn lemma_selection_from_well_chosen(toks: Seq<Seq<char>>, k: int, acc: Seq<ToolInfo>)
    requires
        well_chosen(acc),
    ensures
        selection_from(toks, k, acc) matches Ok(v) ==> well_chosen(v) && v.len() > 0,
    decreases toks.len() - k,
{
    if 0 <= k < toks.len() {
        let raw = trimmed(toks[k]);
        match parse_unsigned(raw, usize::MAX as nat) {
            None => {},
            Some(n) => match tool_row(n) {
                None => {},
                Some(t) => {
                    assert(t.number == n);
                    let next = if chosen(acc, n) { acc } else { acc.push(t) };
                    if !chosen(acc, n) {
                        assert forall|i: int, j: int| 0 <= i < j < next.len() implies (#[trigger] next[i]).number
                            != (#[trigger] next[j]).number by {
                            if j == acc.len() {
                                assert(next[i] == acc[i]);
                                assert(!(acc[i].number == n));
                            } else {
                                assert(next[i] == acc[i] && next[j] == acc[j]);
                            }
                        }
                        assert forall|i: int| 0 <= i < next.len() implies tool_row(#[trigger] next[i].number) == Some(next[i]) by {
                            if i < acc.len() {
                                assert(next[i] == acc[i]);
                            }
                        }
                    }
                    lemma_selection_from_well_chosen(toks, k + 1, next);
                },
            },
        }
    }
}

/// Law: a selection that is accepted names at least one tool, every tool it
/// names is on the menu, and no tool is named twice.
pub proof fn lemma_selection_well_chosen(value: Seq<char>)
    ensures
        selection_spec(value) matches Ok(v) ==> well_chosen(v) && v.len() > 0,
{
    lemma_selection_from_well_chosen(selection_tokens(value), 0, seq![]);
}

} // verus!

verus! {

/// Law: the menu numbers the eleven tools from one; each installs the Arch
/// package of the tool table (nmap, ffuf, gobuster, openbsd-netcat, curl,
/// wget, jq, ripgrep, bind, socat, tcpdump, in menu order), and a tool's
/// package is the command it provides except for Netcat (`nc`), ripgrep
/// (`rg`) and the DNS tools (`dig`).
pub proof fn lemma_tool_packages(n: nat)
    ensures
        (1 <= n <= 11) <==> tool_row(n) is Some,
        1 <= n <= 11 ==> tool_row(n)->0.number == n && tool_row(n)->0.package == seq![
            "nmap"@,
            "ffuf"@,
            "gobuster"@,
            "openbsd-netcat"@,
            "curl"@,
            "wget"@,
            "jq"@,
            "ripgrep"@,
            "bind"@,
            "socat"@,
            "tcpdump"@,
        ][n - 1],
        1 <= n <= 11 && n != 4 && n != 8 && n != 9 ==> tool_row(n)->0.package == tool_row(n)->0.command,
        n == 4 ==> tool_row(n)->0.command == "nc"@,
        n == 8 ==> tool_row(n)->0.command == "rg"@,
        n == 9 ==> tool_row(n)->0.command == "dig"@,
{
}

} // verus!
