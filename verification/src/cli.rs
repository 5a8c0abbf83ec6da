//! The `soter` command line: reading the arguments, then choosing the one
//! request they make.

use vstd::prelude::*;
use vstd::string::*;
use crate::text::{
    cat, cat3, comma_items, opt_string, owned, split_commas, str_eq, strings,
};

verus! {

/// The options and arguments of one `soter` invocation.
#[derive(Debug, Clone)]
pub struct Cli {
    pub create: bool,
    pub empty: bool,
    pub remove: bool,
    pub modify: bool,
    pub list: bool,
    pub all: bool,
    pub temporary: bool,
    pub unlock: bool,
    pub human_readable: bool,
    pub extended_regexp: bool,
    pub passwd: Option<String>,
    pub shell: Option<String>,
    pub flakes: Vec<String>,
    pub save_flake: Option<String>,
    pub tools: bool,
    pub scan: bool,
    pub hash: bool,
    pub kill: bool,
    pub pause: bool,
    pub resume: bool,
    pub network_mode: Option<String>,
    pub network_list: Option<String>,
    pub openvpn: Option<String>,
    pub unsafe_network: bool,
    pub backup: bool,
    pub bzip: bool,
    pub bunzip: bool,
    pub restore: Option<String>,
    pub apps: Vec<String>,
    pub case_name: Option<String>,
    pub arguments: Vec<String>,
}

/// The mathematical content of a `Cli`.
pub struct CliView {
    pub create: bool,
    pub empty: bool,
    pub remove: bool,
    pub modify: bool,
    pub list: bool,
    pub all: bool,
    pub temporary: bool,
    pub unlock: bool,
    pub human_readable: bool,
    pub extended_regexp: bool,
    pub passwd: Option<Seq<char>>,
    pub shell: Option<Seq<char>>,
    pub flakes: Seq<Seq<char>>,
    pub save_flake: Option<Seq<char>>,
    pub tools: bool,
    pub scan: bool,
    pub hash: bool,
    pub kill: bool,
    pub pause: bool,
    pub resume: bool,
    pub network_mode: Option<Seq<char>>,
    pub network_list: Option<Seq<char>>,
    pub openvpn: Option<Seq<char>>,
    pub unsafe_network: bool,
    pub backup: bool,
    pub bzip: bool,
    pub bunzip: bool,
    pub restore: Option<Seq<char>>,
    pub apps: Seq<Seq<char>>,
    pub case_name: Option<Seq<char>>,
    pub arguments: Seq<Seq<char>>,
}

/// The options and arguments that `c` holds.
pub open spec fn cli_view(c: Cli) -> CliView {
    CliView {
        create: c.create,
        empty: c.empty,
        remove: c.remove,
        modify: c.modify,
        list: c.list,
        all: c.all,
        temporary: c.temporary,
        unlock: c.unlock,
        human_readable: c.human_readable,
        extended_regexp: c.extended_regexp,
        passwd: opt_string(c.passwd),
        shell: opt_string(c.shell),
        flakes: strings(c.flakes@),
        save_flake: opt_string(c.save_flake),
        tools: c.tools,
        scan: c.scan,
        hash: c.hash,
        kill: c.kill,
        pause: c.pause,
        resume: c.resume,
        network_mode: opt_string(c.network_mode),
        network_list: opt_string(c.network_list),
        openvpn: opt_string(c.openvpn),
        unsafe_network: c.unsafe_network,
        backup: c.backup,
        bzip: c.bzip,
        bunzip: c.bunzip,
        restore: opt_string(c.restore),
        apps: strings(c.apps@),
        case_name: opt_string(c.case_name),
        arguments: strings(c.arguments@),
    }
}

/// `c` holds exactly the options and arguments that `v` describes.
pub open spec fn cli_is(c: Cli, v: CliView) -> bool {
    c.create == v.create
        && c.empty == v.empty
        && c.remove == v.remove
        && c.modify == v.modify
        && c.list == v.list
        && c.all == v.all
        && c.temporary == v.temporary
        && c.unlock == v.unlock
        && c.human_readable == v.human_readable
        && c.extended_regexp == v.extended_regexp
        && opt_string(c.passwd) == v.passwd
        && opt_string(c.shell) == v.shell
        && strings(c.flakes@) == v.flakes
        && opt_string(c.save_flake) == v.save_flake
        && c.tools == v.tools
        && c.scan == v.scan
        && c.hash == v.hash
        && c.kill == v.kill
        && c.pause == v.pause
        && c.resume == v.resume
        && opt_string(c.network_mode) == v.network_mode
        && opt_string(c.network_list) == v.network_list
        && opt_string(c.openvpn) == v.openvpn
        && c.unsafe_network == v.unsafe_network
        && c.backup == v.backup
        && c.bzip == v.bzip
        && c.bunzip == v.bunzip
        && opt_string(c.restore) == v.restore
        && strings(c.apps@) == v.apps
        && opt_string(c.case_name) == v.case_name
        && strings(c.arguments@) == v.arguments
}

/// No option set and no argument given.
pub open spec fn default_cli() -> CliView {
    CliView {
        create: false,
        empty: false,
        remove: false,
        modify: false,
        list: false,
        all: false,
        temporary: false,
        unlock: false,
        human_readable: false,
        extended_regexp: false,
        passwd: None,
        shell: None,
        flakes: seq![],
        save_flake: None,
        tools: false,
        scan: false,
        hash: false,
        kill: false,
        pause: false,
        resume: false,
        network_mode: None,
        network_list: None,
        openvpn: None,
        unsafe_network: false,
        backup: false,
        bzip: false,
        bunzip: false,
        restore: None,
        apps: seq![],
        case_name: None,
        arguments: seq![],
    }
}

impl Cli {
    /// No option set and no argument given.
    pub fn new() -> (r: Cli)
        ensures
            cli_is(r, default_cli()),
    {
        let r = Cli {
            create: false,
            empty: false,
            remove: false,
            modify: false,
            list: false,
            all: false,
            temporary: false,
            unlock: false,
            human_readable: false,
            extended_regexp: false,
            passwd: None,
            shell: None,
            flakes: Vec::new(),
            save_flake: None,
            tools: false,
            scan: false,
            hash: false,
            kill: false,
            pause: false,
            resume: false,
            network_mode: None,
            network_list: None,
            openvpn: None,
            unsafe_network: false,
            backup: false,
            bzip: false,
            bunzip: false,
            restore: None,
            apps: Vec::new(),
            case_name: None,
            arguments: Vec::new(),
        };
        assert(strings(r.flakes@) =~= Seq::<Seq<char>>::empty());
        assert(strings(r.arguments@) =~= Seq::<Seq<char>>::empty());
        assert(strings(r.apps@) =~= Seq::<Seq<char>>::empty());
        r
    }
}

/// What reading the arguments leads to.
pub enum Parsed {
    /// Run with these options.
    Run(Cli),
    /// `--help`: print the usage and stop.
    Help,
    /// `--version`: print the version and stop.
    Version,
}

pub enum ParsedView {
    Run(CliView),
    Help,
    Version,
}

/// `p` is the outcome that `q` describes.
pub open spec fn parsed_is(p: Parsed, q: ParsedView) -> bool {
    match (p, q) {
        (Parsed::Run(c), ParsedView::Run(v)) => cli_is(c, v),
        (Parsed::Help, ParsedView::Help) => true,
        (Parsed::Version, ParsedView::Version) => true,
        _ => false,
    }
}

} // verus!

verus! {

/// The options without a value.
#[derive(Clone, Copy, PartialEq, Eq, Structural, Debug)]
pub enum Flag {
    Create,
    Empty,
    CreateEmpty,
    Remove,
    Modify,
    List,
    All,
    Temporary,
    Unlock,
    Tools,
    Scan,
    Hash,
    Kill,
    Pause,
    Resume,
    Unsafe,
    Backup,
    Bzip,
    Bunzip,
    HumanReadable,
    ExtendedRegexp,
}

/// The option without a value that an argument names, if any.
pub open spec fn flag_of(a: Seq<char>) -> Option<Flag> {
    if a == "-c"@ || a == "--create"@ {
        Some(Flag::Create)
    } else if a == "-e"@ || a == "--empty"@ {
        Some(Flag::Empty)
    } else if a == "-ce"@ || a == "-ec"@ {
        Some(Flag::CreateEmpty)
    } else if a == "-r"@ || a == "--remove"@ {
        Some(Flag::Remove)
    } else if a == "-m"@ || a == "--modify"@ {
        Some(Flag::Modify)
    } else if a == "-l"@ || a == "--list"@ {
        Some(Flag::List)
    } else if a == "-a"@ || a == "--all"@ {
        Some(Flag::All)
    } else if a == "-T"@ || a == "--temporary"@ {
        Some(Flag::Temporary)
    } else if a == "-U"@ || a == "--unlock"@ {
        Some(Flag::Unlock)
    } else if a == "--tools"@ {
        Some(Flag::Tools)
    } else if a == "--scan"@ {
        Some(Flag::Scan)
    } else if a == "--hash"@ {
        Some(Flag::Hash)
    } else if a == "--kill"@ {
        Some(Flag::Kill)
    } else if a == "--pause"@ {
        Some(Flag::Pause)
    } else if a == "--resume"@ {
        Some(Flag::Resume)
    } else if a == "--unsafe"@ {
        Some(Flag::Unsafe)
    } else if a == "--backup"@ {
        Some(Flag::Backup)
    } else if a == "--bzip"@ {
        Some(Flag::Bzip)
    } else if a == "--bunzip"@ {
        Some(Flag::Bunzip)
    } else if a == "-h"@ || a == "--human-readable"@ {
        Some(Flag::HumanReadable)
    } else if a == "-E"@ || a == "--extended-regexp"@ {
        Some(Flag::ExtendedRegexp)
    } else {
        None
    }
}

/// What an option without a value sets: its own field (both `create`
/// and `empty` for `-ce`), nothing else.
pub open spec fn with_flag(c: CliView, f: Flag) -> CliView {
    CliView {
        create: c.create || f == Flag::Create || f == Flag::CreateEmpty,
        empty: c.empty || f == Flag::Empty || f == Flag::CreateEmpty,
        remove: c.remove || f == Flag::Remove,
        modify: c.modify || f == Flag::Modify,
        list: c.list || f == Flag::List,
        all: c.all || f == Flag::All,
        temporary: c.temporary || f == Flag::Temporary,
        unlock: c.unlock || f == Flag::Unlock,
        tools: c.tools || f == Flag::Tools,
        scan: c.scan || f == Flag::Scan,
        hash: c.hash || f == Flag::Hash,
        kill: c.kill || f == Flag::Kill,
        pause: c.pause || f == Flag::Pause,
        resume: c.resume || f == Flag::Resume,
        unsafe_network: c.unsafe_network || f == Flag::Unsafe,
        backup: c.backup || f == Flag::Backup,
        bzip: c.bzip || f == Flag::Bzip,
        bunzip: c.bunzip || f == Flag::Bunzip,
        human_readable: c.human_readable || f == Flag::HumanReadable,
        extended_regexp: c.extended_regexp || f == Flag::ExtendedRegexp,
        ..c
    }
}

fn flag_named(a: &str) -> (r: Option<Flag>)
    ensures
        r == flag_of(a@),
{
    if str_eq(a, "-c") || str_eq(a, "--create") {
        Some(Flag::Create)
    } else if str_eq(a, "-e") || str_eq(a, "--empty") {
        Some(Flag::Empty)
    } else if str_eq(a, "-ce") || str_eq(a, "-ec") {
        Some(Flag::CreateEmpty)
    } else if str_eq(a, "-r") || str_eq(a, "--remove") {
        Some(Flag::Remove)
    } else if str_eq(a, "-m") || str_eq(a, "--modify") {
        Some(Flag::Modify)
    } else if str_eq(a, "-l") || str_eq(a, "--list") {
        Some(Flag::List)
    } else if str_eq(a, "-a") || str_eq(a, "--all") {
        Some(Flag::All)
    } else if str_eq(a, "-T") || str_eq(a, "--temporary") {
        Some(Flag::Temporary)
    } else if str_eq(a, "-U") || str_eq(a, "--unlock") {
        Some(Flag::Unlock)
    } else if str_eq(a, "--tools") {
        Some(Flag::Tools)
    } else if str_eq(a, "--scan") {
        Some(Flag::Scan)
    } else if str_eq(a, "--hash") {
        Some(Flag::Hash)
    } else if str_eq(a, "--kill") {
        Some(Flag::Kill)
    } else if str_eq(a, "--pause") {
        Some(Flag::Pause)
    } else if str_eq(a, "--resume") {
        Some(Flag::Resume)
    } else if str_eq(a, "--unsafe") {
        Some(Flag::Unsafe)
    } else if str_eq(a, "--backup") {
        Some(Flag::Backup)
    } else if str_eq(a, "--bzip") {
        Some(Flag::Bzip)
    } else if str_eq(a, "--bunzip") {
        Some(Flag::Bunzip)
    } else if str_eq(a, "-h") || str_eq(a, "--human-readable") {
        Some(Flag::HumanReadable)
    } else if str_eq(a, "-E") || str_eq(a, "--extended-regexp") {
        Some(Flag::ExtendedRegexp)
    } else {
        None
    }
}

fn set_flag(c: Cli, f: Flag, Ghost(v): Ghost<CliView>) -> (r: Cli)
    requires
        cli_is(c, v),
    ensures
        cli_is(r, with_flag(v, f)),
{
    Cli {
        create: c.create || f == Flag::Create || f == Flag::CreateEmpty,
        empty: c.empty || f == Flag::Empty || f == Flag::CreateEmpty,
        remove: c.remove || f == Flag::Remove,
        modify: c.modify || f == Flag::Modify,
        list: c.list || f == Flag::List,
        all: c.all || f == Flag::All,
        temporary: c.temporary || f == Flag::Temporary,
        unlock: c.unlock || f == Flag::Unlock,
        tools: c.tools || f == Flag::Tools,
        scan: c.scan || f == Flag::Scan,
        hash: c.hash || f == Flag::Hash,
        kill: c.kill || f == Flag::Kill,
        pause: c.pause || f == Flag::Pause,
        resume: c.resume || f == Flag::Resume,
        unsafe_network: c.unsafe_network || f == Flag::Unsafe,
        backup: c.backup || f == Flag::Backup,
        bzip: c.bzip || f == Flag::Bzip,
        bunzip: c.bunzip || f == Flag::Bunzip,
        human_readable: c.human_readable || f == Flag::HumanReadable,
        extended_regexp: c.extended_regexp || f == Flag::ExtendedRegexp,
        ..c
    }
}

} // verus!

verus! {

/// One step of reading the arguments.
pub enum StepView {
    /// Go on at this index with these options.
    Next(int, CliView),
    /// Stop reading: this is the outcome.
    Stop(ParsedView),
    /// Refuse the arguments with this message.
    Fail(Seq<char>),
}

/// Reading the argument at `i` (with `c` read so far): an option takes the
/// argument after it as its value; `--` ends the options, keeping all that
/// follows as arguments; another word that starts with `-` is refused.
pub open spec fn step_spec(args: Seq<Seq<char>>, i: int, c: CliView) -> StepView {
    match flag_of(args[i]) {
        Some(f) => StepView::Next(i + 1, with_flag(c, f)),
        None => valued_step(args, i, c),
    }
}

/// The options that take a value.
pub open spec fn valued_step(args: Seq<Seq<char>>, i: int, c: CliView) -> StepView {
    let a = args[i];
    let has_value = i + 1 < args.len();
    if a == "--passwd"@ {
        if has_value {
            StepView::Next(i + 2, CliView { passwd: Some(args[i + 1]), ..c })
        } else {
            StepView::Fail("--passwd requires a password"@)
        }
    } else if a == "--shell"@ {
        if has_value {
            StepView::Next(i + 2, CliView { shell: Some(args[i + 1]), ..c })
        } else {
            StepView::Fail("--shell requires a shell"@)
        }
    } else if a == "--flakes"@ {
        if has_value {
            if comma_items(args[i + 1]).len() == 0 {
                StepView::Fail("--flakes requires at least one package"@)
            } else {
                StepView::Next(i + 2, CliView { flakes: comma_items(args[i + 1]), ..c })
            }
        } else {
            StepView::Fail("--flakes requires a package list (for example: firefox,chromium)"@)
        }
    } else if a == "--apps"@ {
        if has_value {
            if comma_items(args[i + 1]).len() == 0 {
                StepView::Fail("--apps requires at least one package"@)
            } else {
                StepView::Next(i + 2, CliView { apps: comma_items(args[i + 1]), ..c })
            }
        } else {
            StepView::Fail("--apps requires a package list (for example: curl,jq)"@)
        }
    } else if a == "--case"@ {
        if has_value {
            StepView::Next(i + 2, CliView { case_name: Some(args[i + 1]), ..c })
        } else {
            StepView::Fail("--case requires a case name"@)
        }
    } else if a == "--save"@ {
        if has_value {
            StepView::Next(i + 2, CliView { save_flake: Some(args[i + 1]), ..c })
        } else {
            StepView::Fail("--save requires a flake name"@)
        }
    } else if a == "-network"@ || a == "--network"@ {
        network_step_spec(args, i, c)
    } else if a == "--openvpn"@ {
        if has_value {
            StepView::Next(i + 2, CliView { openvpn: Some(args[i + 1]), ..c })
        } else {
            StepView::Fail("--openvpn requires a file"@)
        }
    } else if a == "--restore"@ {
        if has_value {
            StepView::Next(i + 2, CliView { restore: Some(args[i + 1]), ..c })
        } else {
            StepView::Fail("--restore requires a backup file"@)
        }
    } else {
        word_step(args, i, c)
    }
}

/// `--network`: a mode (`open`, `isolate`) or `-l` and a category to list.
pub open spec fn network_step_spec(args: Seq<Seq<char>>, i: int, c: CliView) -> StepView {
    if i + 1 >= args.len() {
        StepView::Fail("--network requires 'open', 'isolate', or '-l wifi'"@)
    } else if args[i + 1] == "-l"@ || args[i + 1] == "--list"@ {
        if i + 2 < args.len() {
            StepView::Next(i + 3, CliView { network_list: Some(args[i + 2]), ..c })
        } else {
            StepView::Fail("--network --list requires a category (for example: wifi)"@)
        }
    } else if args[i + 1] == "open"@ || args[i + 1] == "--open"@ {
        StepView::Next(i + 2, CliView { network_mode: Some("open"@), ..c })
    } else if args[i + 1] == "isolate"@ || args[i + 1] == "--isolate"@ {
        StepView::Next(i + 2, CliView { network_mode: Some("isolate"@), ..c })
    } else {
        StepView::Fail(
            "unknown network option: "@ + args[i + 1] + "; expected open, isolate, or -l wifi"@,
        )
    }
}

/// The rest: `--help`, `--version`, `--`, unknown options, plain arguments.
pub open spec fn word_step(args: Seq<Seq<char>>, i: int, c: CliView) -> StepView {
    let a = args[i];
    if a == "--help"@ {
        StepView::Stop(ParsedView::Help)
    } else if a == "--version"@ {
        StepView::Stop(ParsedView::Version)
    } else if a == "--"@ {
        StepView::Stop(ParsedView::Run(CliView { arguments: c.arguments + args.skip(i + 1), ..c }))
    } else if a.len() > 0 && a[0] == '-' {
        StepView::Fail("unknown option: "@ + a)
    } else {
        StepView::Next(i + 1, CliView { arguments: c.arguments.push(a), ..c })
    }
}

/// The outcome of reading the arguments from index `i` on.
pub open spec fn parse_from(args: Seq<Seq<char>>, i: int, c: CliView) -> Result<ParsedView, Seq<char>>
    decreases args.len() - i,
{
    if i < 0 || i >= args.len() {
        Ok(ParsedView::Run(c))
    } else {
        match step_spec(args, i, c) {
            StepView::Next(j, next) => if i < j {
                parse_from(args, j, next)
            } else {
                Ok(ParsedView::Run(next))
            },
            StepView::Stop(p) => Ok(p),
            StepView::Fail(e) => Err(e),
        }
    }
}

/// The outcome of reading a whole argument list (the program's name left
/// out).
pub open spec fn parse_spec(args: Seq<Seq<char>>) -> Result<ParsedView, Seq<char>> {
    parse_from(args, 0, default_cli())
}

pub(crate) enum Step {
    Next(usize, Cli),
    Stop(Parsed),
    Fail(String),
}

pub(crate) open spec fn step_is(s: Step, t: StepView) -> bool {
    match (s, t) {
        (Step::Next(j, c), StepView::Next(k, v)) => j == k && cli_is(c, v),
        (Step::Stop(p), StepView::Stop(q)) => parsed_is(p, q),
        (Step::Fail(e), StepView::Fail(f)) => e@ == f,
        _ => false,
    }
}

fn set_passwd(c: Cli, value: String, Ghost(v): Ghost<CliView>) -> (r: Cli)
    requires
        cli_is(c, v),
    ensures
        cli_is(r, CliView { passwd: Some(value@), ..v }),
{
    Cli { passwd: Some(value), ..c }
}

fn set_shell(c: Cli, value: String, Ghost(v): Ghost<CliView>) -> (r: Cli)
    requires
        cli_is(c, v),
    ensures
        cli_is(r, CliView { shell: Some(value@), ..v }),
{
    Cli { shell: Some(value), ..c }
}

fn set_save_flake(c: Cli, value: String, Ghost(v): Ghost<CliView>) -> (r: Cli)
    requires
        cli_is(c, v),
    ensures
        cli_is(r, CliView { save_flake: Some(value@), ..v }),
{
    Cli { save_flake: Some(value), ..c }
}

fn set_network_mode(c: Cli, value: String, Ghost(v): Ghost<CliView>) -> (r: Cli)
    requires
        cli_is(c, v),
    ensures
        cli_is(r, CliView { network_mode: Some(value@), ..v }),
{
    Cli { network_mode: Some(value), ..c }
}

fn set_network_list(c: Cli, value: String, Ghost(v): Ghost<CliView>) -> (r: Cli)
    requires
        cli_is(c, v),
    ensures
        cli_is(r, CliView { network_list: Some(value@), ..v }),
{
    Cli { network_list: Some(value), ..c }
}

fn set_openvpn(c: Cli, value: String, Ghost(v): Ghost<CliView>) -> (r: Cli)
    requires
        cli_is(c, v),
    ensures
        cli_is(r, CliView { openvpn: Some(value@), ..v }),
{
    Cli { openvpn: Some(value), ..c }
}

fn set_restore(c: Cli, value: String, Ghost(v): Ghost<CliView>) -> (r: Cli)
    requires
        cli_is(c, v),
    ensures
        cli_is(r, CliView { restore: Some(value@), ..v }),
{
    Cli { restore: Some(value), ..c }
}

fn set_flakes(c: Cli, value: Vec<String>, Ghost(v): Ghost<CliView>) -> (r: Cli)
    requires
        cli_is(c, v),
    ensures
        cli_is(r, CliView { flakes: strings(value@), ..v }),
{
    Cli { flakes: value, ..c }
}

fn set_apps(c: Cli, value: Vec<String>, Ghost(v): Ghost<CliView>) -> (r: Cli)
    requires
        cli_is(c, v),
    ensures
        cli_is(r, CliView { apps: strings(value@), ..v }),
{
    Cli { apps: value, ..c }
}

fn set_case_name(c: Cli, value: String, Ghost(v): Ghost<CliView>) -> (r: Cli)
    requires
        cli_is(c, v),
    ensures
        cli_is(r, CliView { case_name: Some(value@), ..v }),
{
    Cli { case_name: Some(value), ..c }
}

fn set_arguments(c: Cli, value: Vec<String>, Ghost(v): Ghost<CliView>) -> (r: Cli)
    requires
        cli_is(c, v),
    ensures
        cli_is(r, CliView { arguments: strings(value@), ..v }),
{
    Cli { arguments: value, ..c }
}

fn rest_of(args: &Vec<String>, from: usize, mut acc: Vec<String>) -> (r: Vec<String>)
    requires
        from <= args.len(),
    ensures
        strings(r@) == strings(acc@) + strings(args@).skip(from as int),
{
    let ghost start = strings(acc@);
    let mut k = from;
    while k < args.len()
        invariant
            from <= k <= args.len(),
            strings(acc@) == start + strings(args@).subrange(from as int, k as int),
        decreases args.len() - k,
    {
        let ghost before = acc@;
        acc.push(args[k].clone());
        assert(acc@ =~= before.push(args@[k as int]));
        assert(strings(acc@) =~= strings(before).push(args@[k as int]@));
        assert(strings(args@).subrange(from as int, k + 1) =~= strings(args@).subrange(
            from as int,
            k as int,
        ).push(args@[k as int]@));
        assert(strings(acc@) =~= start + strings(args@).subrange(from as int, k + 1));
        k = k + 1;
    }
    assert(strings(args@).subrange(from as int, args.len() as int) =~= strings(args@).skip(
        from as int,
    ));
    acc
}

fn valued(args: &Vec<String>, i: usize) -> (r: Option<String>)
    requires
        i < args.len(),
    ensures
        (i + 1 < args.len()) == r is Some,
        r matches Some(v) ==> v@ == strings(args@)[i + 1],
{
    if i + 1 < args.len() {
        Some(args[i + 1].clone())
    } else {
        None
    }
}

fn network_step(args: &Vec<String>, i: usize, c: Cli, Ghost(v): Ghost<CliView>) -> (r: Step)
    requires
        i < args.len(),
        cli_is(c, v),
    ensures
        step_is(r, network_step_spec(strings(args@), i as int, v)),
        r matches Step::Next(j, _) ==> i < j <= args.len(),
{
    let ghost a = strings(args@);
    let ghost want = network_step_spec(a, i as int, v);
    if i + 1 >= args.len() {
        let r = Step::Fail(owned("--network requires 'open', 'isolate', or '-l wifi'"));
        assert(step_is(r, want));
        return r;
    }
    let val = args[i + 1].as_str();
    assert(a[i + 1] == val@);
    if str_eq(val, "-l") || str_eq(val, "--list") {
        if i + 2 < args.len() {
            assert(a[i + 2] == args@[i + 2]@);
            let r = Step::Next(i + 3, set_network_list(c, args[i + 2].clone(), Ghost(v)));
            assert(step_is(r, want));
            r
        } else {
            let r = Step::Fail(owned("--network --list requires a category (for example: wifi)"));
            assert(step_is(r, want));
            r
        }
    } else if str_eq(val, "open") || str_eq(val, "--open") {
        let r = Step::Next(i + 2, set_network_mode(c, owned("open"), Ghost(v)));
        assert(step_is(r, want));
        r
    } else if str_eq(val, "isolate") || str_eq(val, "--isolate") {
        let r = Step::Next(i + 2, set_network_mode(c, owned("isolate"), Ghost(v)));
        assert(step_is(r, want));
        r
    } else {
        let r = Step::Fail(cat3("unknown network option: ", val, "; expected open, isolate, or -l wifi"));
        assert(step_is(r, want));
        r
    }
}

fn word_step_exec(args: &Vec<String>, i: usize, c: Cli, Ghost(v): Ghost<CliView>) -> (r: Step)
    requires
        i < args.len(),
        cli_is(c, v),
    ensures
        step_is(r, word_step(strings(args@), i as int, v)),
        r matches Step::Next(j, _) ==> i < j <= args.len(),
{
    let ghost a = strings(args@);
    let arg = args[i].as_str();
    assert(a[i as int] == arg@);
    if str_eq(arg, "--help") {
        Step::Stop(Parsed::Help)
    } else if str_eq(arg, "--version") {
        Step::Stop(Parsed::Version)
    } else if str_eq(arg, "--") {
        let rest = rest_of(args, i + 1, c.arguments.clone());
        Step::Stop(Parsed::Run(set_arguments(c, rest, Ghost(v))))
    } else if arg.unicode_len() > 0 && arg.get_char(0) == '-' {
        Step::Fail(cat("unknown option: ", arg))
    } else {
        let mut more = c.arguments.clone();
        let ghost before = more@;
        more.push(args[i].clone());
        assert(more@ =~= before.push(args@[i as int]));
        assert(strings(more@) =~= v.arguments.push(arg@));
        Step::Next(i + 1, set_arguments(c, more, Ghost(v)))
    }
}

fn valued_step_exec(args: &Vec<String>, i: usize, c: Cli, Ghost(v): Ghost<CliView>) -> (r: Step)
    requires
        i < args.len(),
        cli_is(c, v),
    ensures
        step_is(r, valued_step(strings(args@), i as int, v)),
        r matches Step::Next(j, _) ==> i < j <= args.len(),
{
    let ghost a = strings(args@);
    let arg = args[i].as_str();
    assert(a[i as int] == arg@);
    if str_eq(arg, "--passwd") {
        match valued(args, i) {
            Some(x) => Step::Next(i + 2, set_passwd(c, x, Ghost(v))),
            None => Step::Fail(owned("--passwd requires a password")),
        }
    } else if str_eq(arg, "--shell") {
        match valued(args, i) {
            Some(x) => Step::Next(i + 2, set_shell(c, x, Ghost(v))),
            None => Step::Fail(owned("--shell requires a shell")),
        }
    } else if str_eq(arg, "--flakes") {
        match valued(args, i) {
            Some(x) => {
                let items = split_commas(x.as_str());
                if items.len() == 0 {
                    Step::Fail(owned("--flakes requires at least one package"))
                } else {
                    Step::Next(i + 2, set_flakes(c, items, Ghost(v)))
                }
            },
            None => Step::Fail(
                owned("--flakes requires a package list (for example: firefox,chromium)"),
            ),
        }
    } else if str_eq(arg, "--apps") {
        match valued(args, i) {
            Some(x) => {
                let items = split_commas(x.as_str());
                if items.len() == 0 {
                    Step::Fail(owned("--apps requires at least one package"))
                } else {
                    Step::Next(i + 2, set_apps(c, items, Ghost(v)))
                }
            },
            None => Step::Fail(owned("--apps requires a package list (for example: curl,jq)")),
        }
    } else if str_eq(arg, "--case") {
        match valued(args, i) {
            Some(x) => Step::Next(i + 2, set_case_name(c, x, Ghost(v))),
            None => Step::Fail(owned("--case requires a case name")),
        }
    } else if str_eq(arg, "--save") {
        match valued(args, i) {
            Some(x) => Step::Next(i + 2, set_save_flake(c, x, Ghost(v))),
            None => Step::Fail(owned("--save requires a flake name")),
        }
    } else if str_eq(arg, "-network") || str_eq(arg, "--network") {
        network_step(args, i, c, Ghost(v))
    } else if str_eq(arg, "--openvpn") {
        match valued(args, i) {
            Some(x) => Step::Next(i + 2, set_openvpn(c, x, Ghost(v))),
            None => Step::Fail(owned("--openvpn requires a file")),
        }
    } else if str_eq(arg, "--restore") {
        match valued(args, i) {
            Some(x) => Step::Next(i + 2, set_restore(c, x, Ghost(v))),
            None => Step::Fail(owned("--restore requires a backup file")),
        }
    } else {
        word_step_exec(args, i, c, Ghost(v))
    }
}

fn step(args: &Vec<String>, i: usize, c: Cli, Ghost(v): Ghost<CliView>) -> (r: Step)
    requires
        i < args.len(),
        cli_is(c, v),
    ensures
        step_is(r, step_spec(strings(args@), i as int, v)),
        r matches Step::Next(j, _) ==> i < j <= args.len(),
{
    let ghost a = strings(args@);
    let arg = args[i].as_str();
    assert(a[i as int] == arg@);
    match flag_named(arg) {
        Some(f) => Step::Next(i + 1, set_flag(c, f, Ghost(v))),
        None => valued_step_exec(args, i, c, Ghost(v)),
    }
}

/// Reads the arguments of `soter` (without the program's name).
pub fn parse_args(args: &Vec<String>) -> (r: Result<Parsed, String>)
    ensures
        match (r, parse_spec(strings(args@))) {
            (Ok(p), Ok(q)) => parsed_is(p, q),
            (Err(e), Err(f)) => e@ == f,
            _ => false,
        },
{
    let ghost a = strings(args@);
    let mut c = Cli::new();
    let ghost mut v = default_cli();
    let mut i: usize = 0;
    while i < args.len()
        invariant
            i <= args.len(),
            a == strings(args@),
            cli_is(c, v),
            parse_spec(a) == parse_from(a, i as int, v),
        decreases args.len() - i,
    {
        let ghost before = v;
        match step(args, i, c, Ghost(v)) {
            Step::Next(j, next) => {
                proof {
                    v = match step_spec(a, i as int, before) {
                        StepView::Next(_, w) => w,
                        _ => before,
                    };
                }
                i = j;
                c = next;
            },
            Step::Stop(p) => return Ok(p),
            Step::Fail(e) => return Err(e),
        }
    }
    Ok(Parsed::Run(c))
}

} // verus!

verus! {

/// The one thing that an invocation of `soter` asks for.
pub enum Request {
    /// No arguments at all: greet and point to `--help`.
    Greet,
    /// `soter help`: print the usage.
    Usage,
    /// `--tools`: the interactive tool installer.
    Tools,
    /// `--network -l wifi`: list the host's Wi-Fi networks.
    ListWifi,
    /// `--restore FILE`.
    Restore(String),
    /// `--scan`, of one Soterspace or of all.
    Scan(Option<String>),
    /// `--hash`, of one Soterspace or of all.
    Hash(Option<String>),
    Kill(String),
    Pause(String),
    Resume(String),
    /// `-l`: list the Soterspaces.
    List,
    /// `-c NAME`: record a new Soterspace, without entering it.
    Create { name: String, empty: bool, temporary: bool },
    Remove(String),
    /// `--backup NAME`: archive it into `NAME.soter`.
    Backup { name: String, file: String },
    /// `--save FLAKE NAME`.
    SaveFlake { name: String, flake: String },
    /// `--apps LIST NAME`: install these Arch packages into the Soterspace.
    InstallApps { name: String, packages: Vec<String> },
    /// `--case CASE NAME`: create this case inside the Soterspace.
    CreateCase { space: String, case_name: String },
    SetPassword { name: String, password: String },
    Unlock(String),
    /// `--openvpn FILE NAME`: store the profile and whether it fails closed.
    SetOpenvpn { name: String, config: String },
    /// `NAME [COMMAND...]`: enter a Soterspace or run a command in it.
    Enter {
        name: String,
        command: Vec<String>,
        shell: Option<String>,
        flakes: Vec<String>,
        network: Option<String>,
    },
    /// Refused, with this message.
    Fail(String),
}

pub enum RequestView {
    Greet,
    Usage,
    Tools,
    ListWifi,
    Restore(Seq<char>),
    Scan(Option<Seq<char>>),
    Hash(Option<Seq<char>>),
    Kill(Seq<char>),
    Pause(Seq<char>),
    Resume(Seq<char>),
    List,
    Create { name: Seq<char>, empty: bool, temporary: bool },
    Remove(Seq<char>),
    Backup { name: Seq<char>, file: Seq<char> },
    SaveFlake { name: Seq<char>, flake: Seq<char> },
    InstallApps { name: Seq<char>, packages: Seq<Seq<char>> },
    CreateCase { space: Seq<char>, case_name: Seq<char> },
    SetPassword { name: Seq<char>, password: Seq<char> },
    Unlock(Seq<char>),
    SetOpenvpn { name: Seq<char>, config: Seq<char> },
    Enter {
        name: Seq<char>,
        command: Seq<Seq<char>>,
        shell: Option<Seq<char>>,
        flakes: Seq<Seq<char>>,
        network: Option<Seq<char>>,
    },
    Fail(Seq<char>),
}

impl View for Request {
    type V = RequestView;

    open spec fn view(&self) -> RequestView {
        match self {
            Request::Greet => RequestView::Greet,
            Request::Usage => RequestView::Usage,
            Request::Tools => RequestView::Tools,
            Request::ListWifi => RequestView::ListWifi,
            Request::Restore(f) => RequestView::Restore(f@),
            Request::Scan(t) => RequestView::Scan(opt_string(*t)),
            Request::Hash(t) => RequestView::Hash(opt_string(*t)),
            Request::Kill(n) => RequestView::Kill(n@),
            Request::Pause(n) => RequestView::Pause(n@),
            Request::Resume(n) => RequestView::Resume(n@),
            Request::List => RequestView::List,
            Request::Create { name, empty, temporary } => RequestView::Create {
                name: name@,
                empty: *empty,
                temporary: *temporary,
            },
            Request::Remove(n) => RequestView::Remove(n@),
            Request::Backup { name, file } => RequestView::Backup { name: name@, file: file@ },
            Request::SaveFlake { name, flake } => RequestView::SaveFlake { name: name@, flake: flake@ },
            Request::InstallApps { name, packages } => RequestView::InstallApps {
                name: name@,
                packages: strings(packages@),
            },
            Request::CreateCase { space, case_name } => RequestView::CreateCase {
                space: space@,
                case_name: case_name@,
            },
            Request::SetPassword { name, password } => RequestView::SetPassword {
                name: name@,
                password: password@,
            },
            Request::Unlock(n) => RequestView::Unlock(n@),
            Request::SetOpenvpn { name, config } => RequestView::SetOpenvpn { name: name@, config: config@ },
            Request::Enter { name, command, shell, flakes, network } => RequestView::Enter {
                name: name@,
                command: strings(command@),
                shell: opt_string(*shell),
                flakes: strings(flakes@),
                network: opt_string(*network),
            },
            Request::Fail(e) => RequestView::Fail(e@),
        }
    }
}

/// What an OpenVPN setting records: the profile, and whether the tunnel
/// fails closed (unless `--unsafe` relaxed it).
pub open spec fn openvpn_config_spec(profile: Seq<char>, unsafe_network: bool) -> Seq<char> {
    "profile="@ + profile + "\nfail_closed="@ + crate::soterspace::bool_text(!unsafe_network) + "\n"@
}

pub fn openvpn_config(profile: &str, unsafe_network: bool) -> (r: String)
    ensures
        r@ == openvpn_config_spec(profile@, unsafe_network),
{
    let mut s = cat("profile=", profile);
    s.append("\nfail_closed=");
    let b = crate::soterspace::bool_string(!unsafe_network);
    s.append(b.as_str());
    s.append("\n");
    s
}

/// The request of a Soterspace-specific invocation without a lifecycle,
/// listing, creation, removal, backup or flake option.
pub open spec fn space_request(v: CliView, name: Seq<char>) -> RequestView {
    if v.passwd is Some {
        RequestView::SetPassword { name, password: v.passwd->0 }
    } else if v.unlock {
        RequestView::Unlock(name)
    } else if v.openvpn is Some {
        RequestView::SetOpenvpn { name, config: openvpn_config_spec(v.openvpn->0, v.unsafe_network) }
    } else if v.modify {
        RequestView::Fail("modify requires a setting such as --passwd, --network, or --openvpn"@)
    } else {
        RequestView::Enter {
            name,
            command: v.arguments.skip(1),
            shell: v.shell,
            flakes: v.flakes,
            network: v.network_mode,
        }
    }
}

/// A request that needs a Soterspace's name: refused with `missing` when
/// none was given.
pub open spec fn named(target: Option<Seq<char>>, missing: Seq<char>, f: spec_fn(Seq<char>) -> RequestView) -> RequestView {
    match target {
        Some(n) => f(n),
        None => RequestView::Fail(missing),
    }
}

/// The request that the options make, by their precedence: tools, network
/// listing, restore, scan, hash, kill, pause, resume, list, create, remove,
/// backup, flake sessions, apps, cases, then the settings or entry of a named
/// Soterspace.
pub open spec fn plan_spec(v: CliView, no_arguments: bool) -> RequestView {
    let target = if v.arguments.len() > 0 { Some(v.arguments[0]) } else { None };
    if no_arguments {
        RequestView::Greet
    } else if v.arguments.len() > 0 && v.arguments[0] == "help"@ {
        RequestView::Usage
    } else if v.tools {
        RequestView::Tools
    } else if v.network_list is Some {
        if v.network_list->0 == "wifi"@ {
            RequestView::ListWifi
        } else {
            RequestView::Fail("unknown network list category: "@ + v.network_list->0)
        }
    } else if v.restore is Some {
        RequestView::Restore(v.restore->0)
    } else if v.scan {
        RequestView::Scan(target)
    } else if v.hash {
        RequestView::Hash(target)
    } else if v.kill {
        named(target, "--kill requires a soterspace name"@, |n: Seq<char>| RequestView::Kill(n))
    } else if v.pause {
        named(target, "--pause requires a soterspace name"@, |n: Seq<char>| RequestView::Pause(n))
    } else if v.resume {
        named(target, "--resume requires a soterspace name"@, |n: Seq<char>| RequestView::Resume(n))
    } else if v.list {
        RequestView::List
    } else if v.create {
        named(
            target,
            "create requires a soterspace name"@,
            |n: Seq<char>| RequestView::Create { name: n, empty: v.empty, temporary: v.temporary },
        )
    } else if v.remove {
        named(target, "remove requires a soterspace name"@, |n: Seq<char>| RequestView::Remove(n))
    } else if v.backup {
        named(
            target,
            "backup requires a soterspace name"@,
            |n: Seq<char>| RequestView::Backup { name: n, file: n + ".soter"@ },
        )
    } else if v.save_flake is Some {
        named(
            target,
            "--save requires a soterspace name, for example: soter --save firefox lab"@,
            |n: Seq<char>| RequestView::SaveFlake { name: n, flake: v.save_flake->0 },
        )
    } else if v.apps.len() > 0 {
        named(
            target,
            "--apps requires a soterspace name"@,
            |n: Seq<char>| RequestView::InstallApps { name: n, packages: v.apps },
        )
    } else if v.case_name is Some {
        named(
            target,
            "--case requires a soterspace name"@,
            |n: Seq<char>| RequestView::CreateCase { space: n, case_name: v.case_name->0 },
        )
    } else if target is Some {
        space_request(v, target->0)
    } else {
        RequestView::Fail("no soterspace or operation specified"@)
    }
}

} // verus!

verus! {

fn first_argument(c: &Cli) -> (r: Option<String>)
    ensures
        opt_string(r) == (if c.arguments@.len() > 0 { Some(c.arguments@[0]@) } else { None::<Seq<char>> }),
{
    if c.arguments.len() > 0 {
        Some(c.arguments[0].clone())
    } else {
        None
    }
}

fn clone_opt(o: &Option<String>) -> (r: Option<String>)
    ensures
        opt_string(r) == opt_string(*o),
{
    match o {
        Some(s) => Some(s.clone()),
        None => None,
    }
}

fn clone_strings(v: &Vec<String>) -> (r: Vec<String>)
    ensures
        strings(r@) == strings(v@),
{
    let mut out: Vec<String> = Vec::new();
    let mut i: usize = 0;
    while i < v.len()
        invariant
            i <= v.len(),
            strings(out@) == strings(v@).take(i as int),
        decreases v.len() - i,
    {
        let ghost before = out@;
        out.push(v[i].clone());
        assert(out@ =~= before.push(v@[i as int]));
        assert(strings(out@) =~= strings(before).push(v@[i as int]@));
        assert(strings(out@) =~= strings(v@).take(i + 1));
        i = i + 1;
    }
    assert(strings(v@).take(v.len() as int) =~= strings(v@));
    out
}

fn settings_or_entry(c: &Cli, name: String) -> (r: Request)
    requires
        c.arguments.len() > 0,
    ensures
        r@ == space_request(cli_view(*c), name@),
{
    match &c.passwd {
        Some(p) => return Request::SetPassword { name, password: p.clone() },
        None => {},
    }
    if c.unlock {
        return Request::Unlock(name);
    }
    match &c.openvpn {
        Some(profile) => {
            let config = openvpn_config(profile.as_str(), c.unsafe_network);
            return Request::SetOpenvpn { name, config };
        },
        None => {},
    }
    if c.modify {
        return Request::Fail(owned("modify requires a setting such as --passwd, --network, or --openvpn"));
    }
    let mut command: Vec<String> = Vec::new();
    let mut i: usize = 1;
    assert(strings(command@) =~= strings(c.arguments@).subrange(1, 1));
    while i < c.arguments.len()
        invariant
            1 <= i <= c.arguments.len(),
            strings(command@) == strings(c.arguments@).subrange(1, i as int),
        decreases c.arguments.len() - i,
    {
        let ghost before = command@;
        command.push(c.arguments[i].clone());
        assert(command@ =~= before.push(c.arguments@[i as int]));
        assert(strings(command@) =~= strings(before).push(c.arguments@[i as int]@));
        assert(strings(command@) =~= strings(c.arguments@).subrange(1, i + 1));
        i = i + 1;
    }
    assert(strings(c.arguments@).subrange(1, c.arguments.len() as int) =~= strings(
        c.arguments@,
    ).skip(1));
    Request::Enter {
        name,
        command,
        shell: clone_opt(&c.shell),
        flakes: clone_strings(&c.flakes),
        network: clone_opt(&c.network_mode),
    }
}

/// The request that an invocation makes; `no_arguments` when `soter` ran
/// without any argument.
pub fn plan(c: &Cli, no_arguments: bool) -> (r: Request)
    ensures
        r@ == plan_spec(cli_view(*c), no_arguments),
{
    let ghost v = cli_view(*c);
    let target = first_argument(c);
    if no_arguments {
        return Request::Greet;
    }
    if c.arguments.len() > 0 && str_eq(c.arguments[0].as_str(), "help") {
        return Request::Usage;
    }
    if c.tools {
        return Request::Tools;
    }
    match &c.network_list {
        Some(category) => {
            if str_eq(category.as_str(), "wifi") {
                return Request::ListWifi;
            } else {
                return Request::Fail(cat("unknown network list category: ", category.as_str()));
            }
        },
        None => {},
    }
    match &c.restore {
        Some(file) => return Request::Restore(file.clone()),
        None => {},
    }
    if c.scan {
        return Request::Scan(target);
    }
    if c.hash {
        return Request::Hash(target);
    }
    if c.kill {
        return match target {
            Some(n) => Request::Kill(n),
            None => Request::Fail(owned("--kill requires a soterspace name")),
        };
    }
    if c.pause {
        return match target {
            Some(n) => Request::Pause(n),
            None => Request::Fail(owned("--pause requires a soterspace name")),
        };
    }
    if c.resume {
        return match target {
            Some(n) => Request::Resume(n),
            None => Request::Fail(owned("--resume requires a soterspace name")),
        };
    }
    if c.list {
        return Request::List;
    }
    if c.create {
        return match target {
            Some(n) => Request::Create { name: n, empty: c.empty, temporary: c.temporary },
            None => Request::Fail(owned("create requires a soterspace name")),
        };
    }
    if c.remove {
        return match target {
            Some(n) => Request::Remove(n),
            None => Request::Fail(owned("remove requires a soterspace name")),
        };
    }
    if c.backup {
        return match target {
            Some(n) => {
                let file = cat(n.as_str(), ".soter");
                Request::Backup { name: n, file }
            },
            None => Request::Fail(owned("backup requires a soterspace name")),
        };
    }
    match &c.save_flake {
        Some(flake) => {
            return match target {
                Some(n) => Request::SaveFlake { name: n, flake: flake.clone() },
                None => Request::Fail(
                    owned("--save requires a soterspace name, for example: soter --save firefox lab"),
                ),
            };
        },
        None => {},
    }
    if c.apps.len() > 0 {
        return match target {
            Some(n) => Request::InstallApps { name: n, packages: clone_strings(&c.apps) },
            None => Request::Fail(owned("--apps requires a soterspace name")),
        };
    }
    match &c.case_name {
        Some(case_name) => {
            return match target {
                Some(n) => Request::CreateCase { space: n, case_name: case_name.clone() },
                None => Request::Fail(owned("--case requires a soterspace name")),
            };
        },
        None => {},
    }
    match target {
        Some(n) => settings_or_entry(c, n),
        None => Request::Fail(owned("no soterspace or operation specified")),
    }
}

} // verus!

verus! {

/// Law: entering a Soterspace carries out the options as they were given:
/// the first argument names the Soterspace, the arguments after it are the
/// command, and the shell, the Nix flakes and the network mode (`open`,
/// `isolate`, or none) are exactly those the options set.
pub proof fn lemma_enter_keeps_options(v: CliView)
    ensures
        plan_spec(v, false) matches RequestView::Enter { name, command, shell, flakes, network }
            ==> v.arguments.len() > 0 && name == v.arguments[0] && command == v.arguments.skip(1)
            && shell == v.shell && flakes == v.flakes && network == v.network_mode,
{
}

/// Law: creating a Soterspace records it as empty exactly when `-e`,
/// `--empty`, `-ce` or `-ec` was given, and as temporary exactly when `-T`
/// or `--temporary` was, each independently of the other, under the name
/// given first.
pub proof fn lemma_create_keeps_flags(v: CliView)
    ensures
        plan_spec(v, false) matches RequestView::Create { name, empty, temporary } ==> v.create
            && v.arguments.len() > 0 && name == v.arguments[0] && empty == v.empty && temporary
            == v.temporary,
{
}

proof fn lemma_flag_literals()
    ensures
        flag_of("-c"@) == Some(Flag::Create),
        flag_of("--create"@) == Some(Flag::Create),
        flag_of("-e"@) == Some(Flag::Empty),
        flag_of("--empty"@) == Some(Flag::Empty),
        flag_of("-ce"@) == Some(Flag::CreateEmpty),
        flag_of("-ec"@) == Some(Flag::CreateEmpty),
        flag_of("-r"@) == Some(Flag::Remove),
        flag_of("--remove"@) == Some(Flag::Remove),
        flag_of("-m"@) == Some(Flag::Modify),
        flag_of("--modify"@) == Some(Flag::Modify),
        flag_of("-l"@) == Some(Flag::List),
        flag_of("--list"@) == Some(Flag::List),
        flag_of("-a"@) == Some(Flag::All),
        flag_of("--all"@) == Some(Flag::All),
        flag_of("-T"@) == Some(Flag::Temporary),
        flag_of("--temporary"@) == Some(Flag::Temporary),
        flag_of("-U"@) == Some(Flag::Unlock),
        flag_of("--unlock"@) == Some(Flag::Unlock),
        flag_of("--tools"@) == Some(Flag::Tools),
        flag_of("--scan"@) == Some(Flag::Scan),
        flag_of("--hash"@) == Some(Flag::Hash),
        flag_of("--kill"@) == Some(Flag::Kill),
        flag_of("--pause"@) == Some(Flag::Pause),
        flag_of("--resume"@) == Some(Flag::Resume),
        flag_of("--unsafe"@) == Some(Flag::Unsafe),
        flag_of("--backup"@) == Some(Flag::Backup),
        flag_of("--bzip"@) == Some(Flag::Bzip),
        flag_of("--bunzip"@) == Some(Flag::Bunzip),
        flag_of("-h"@) == Some(Flag::HumanReadable),
        flag_of("--human-readable"@) == Some(Flag::HumanReadable),
        flag_of("-E"@) == Some(Flag::ExtendedRegexp),
        flag_of("--extended-regexp"@) == Some(Flag::ExtendedRegexp),
{
    reveal_strlit("-c");
    reveal_strlit("--create");
    reveal_strlit("-e");
    reveal_strlit("--empty");
    reveal_strlit("-ce");
    reveal_strlit("-ec");
    reveal_strlit("-r");
    reveal_strlit("--remove");
    reveal_strlit("-m");
    reveal_strlit("--modify");
    reveal_strlit("-l");
    reveal_strlit("--list");
    reveal_strlit("-a");
    reveal_strlit("--all");
    reveal_strlit("-T");
    reveal_strlit("--temporary");
    reveal_strlit("-U");
    reveal_strlit("--unlock");
    reveal_strlit("--tools");
    reveal_strlit("--scan");
    reveal_strlit("--hash");
    reveal_strlit("--kill");
    reveal_strlit("--pause");
    reveal_strlit("--resume");
    reveal_strlit("--unsafe");
    reveal_strlit("--backup");
    reveal_strlit("--bzip");
    reveal_strlit("--bunzip");
    reveal_strlit("-h");
    reveal_strlit("--human-readable");
    reveal_strlit("-E");
    reveal_strlit("--extended-regexp");
    assert(flag_of("-c"@) == Some(Flag::Create)) by {
    }
    assert(flag_of("--create"@) == Some(Flag::Create)) by {
    }
    assert(flag_of("-e"@) == Some(Flag::Empty)) by {
        assert("-e"@[1] != "-c"@[1]);
        assert("-e"@.len() != "--create"@.len());
    }
    assert(flag_of("--empty"@) == Some(Flag::Empty)) by {
        assert("--empty"@.len() != "-c"@.len());
        assert("--empty"@.len() != "--create"@.len());
    }
    assert(flag_of("-ce"@) == Some(Flag::CreateEmpty)) by {
        assert("-ce"@.len() != "-c"@.len());
        assert("-ce"@.len() != "--create"@.len());
        assert("-ce"@.len() != "-e"@.len());
        assert("-ce"@.len() != "--empty"@.len());
    }
    assert(flag_of("-ec"@) == Some(Flag::CreateEmpty)) by {
        assert("-ec"@.len() != "-c"@.len());
        assert("-ec"@.len() != "--create"@.len());
        assert("-ec"@.len() != "-e"@.len());
        assert("-ec"@.len() != "--empty"@.len());
    }
    assert(flag_of("-r"@) == Some(Flag::Remove)) by {
        assert("-r"@[1] != "-c"@[1]);
        assert("-r"@.len() != "--create"@.len());
        assert("-r"@[1] != "-e"@[1]);
        assert("-r"@.len() != "--empty"@.len());
        assert("-r"@.len() != "-ce"@.len());
        assert("-r"@.len() != "-ec"@.len());
    }
    assert(flag_of("--remove"@) == Some(Flag::Remove)) by {
        assert("--remove"@.len() != "-c"@.len());
        assert("--remove"@[2] != "--create"@[2]);
        assert("--remove"@.len() != "-e"@.len());
        assert("--remove"@.len() != "--empty"@.len());
        assert("--remove"@.len() != "-ce"@.len());
        assert("--remove"@.len() != "-ec"@.len());
    }
    assert(flag_of("-m"@) == Some(Flag::Modify)) by {
        assert("-m"@[1] != "-c"@[1]);
        assert("-m"@.len() != "--create"@.len());
        assert("-m"@[1] != "-e"@[1]);
        assert("-m"@.len() != "--empty"@.len());
        assert("-m"@.len() != "-ce"@.len());
        assert("-m"@.len() != "-ec"@.len());
        assert("-m"@[1] != "-r"@[1]);
        assert("-m"@.len() != "--remove"@.len());
    }
    assert(flag_of("--modify"@) == Some(Flag::Modify)) by {
        assert("--modify"@.len() != "-c"@.len());
        assert("--modify"@[2] != "--create"@[2]);
        assert("--modify"@.len() != "-e"@.len());
        assert("--modify"@.len() != "--empty"@.len());
        assert("--modify"@.len() != "-ce"@.len());
        assert("--modify"@.len() != "-ec"@.len());
        assert("--modify"@.len() != "-r"@.len());
        assert("--modify"@[2] != "--remove"@[2]);
    }
    assert(flag_of("-l"@) == Some(Flag::List)) by {
        assert("-l"@[1] != "-c"@[1]);
        assert("-l"@.len() != "--create"@.len());
        assert("-l"@[1] != "-e"@[1]);
        assert("-l"@.len() != "--empty"@.len());
        assert("-l"@.len() != "-ce"@.len());
        assert("-l"@.len() != "-ec"@.len());
        assert("-l"@[1] != "-r"@[1]);
        assert("-l"@.len() != "--remove"@.len());
        assert("-l"@[1] != "-m"@[1]);
        assert("-l"@.len() != "--modify"@.len());
    }
    assert(flag_of("--list"@) == Some(Flag::List)) by {
        assert("--list"@.len() != "-c"@.len());
        assert("--list"@.len() != "--create"@.len());
        assert("--list"@.len() != "-e"@.len());
        assert("--list"@.len() != "--empty"@.len());
        assert("--list"@.len() != "-ce"@.len());
        assert("--list"@.len() != "-ec"@.len());
        assert("--list"@.len() != "-r"@.len());
        assert("--list"@.len() != "--remove"@.len());
        assert("--list"@.len() != "-m"@.len());
        assert("--list"@.len() != "--modify"@.len());
    }
    assert(flag_of("-a"@) == Some(Flag::All)) by {
        assert("-a"@[1] != "-c"@[1]);
        assert("-a"@.len() != "--create"@.len());
        assert("-a"@[1] != "-e"@[1]);
        assert("-a"@.len() != "--empty"@.len());
        assert("-a"@.len() != "-ce"@.len());
        assert("-a"@.len() != "-ec"@.len());
        assert("-a"@[1] != "-r"@[1]);
        assert("-a"@.len() != "--remove"@.len());
        assert("-a"@[1] != "-m"@[1]);
        assert("-a"@.len() != "--modify"@.len());
        assert("-a"@[1] != "-l"@[1]);
        assert("-a"@.len() != "--list"@.len());
    }
    assert(flag_of("--all"@) == Some(Flag::All)) by {
        assert("--all"@.len() != "-c"@.len());
        assert("--all"@.len() != "--create"@.len());
        assert("--all"@.len() != "-e"@.len());
        assert("--all"@.len() != "--empty"@.len());
        assert("--all"@.len() != "-ce"@.len());
        assert("--all"@.len() != "-ec"@.len());
        assert("--all"@.len() != "-r"@.len());
        assert("--all"@.len() != "--remove"@.len());
        assert("--all"@.len() != "-m"@.len());
        assert("--all"@.len() != "--modify"@.len());
        assert("--all"@.len() != "-l"@.len());
        assert("--all"@.len() != "--list"@.len());
    }
    assert(flag_of("-T"@) == Some(Flag::Temporary)) by {
        assert("-T"@[1] != "-c"@[1]);
        assert("-T"@.len() != "--create"@.len());
        assert("-T"@[1] != "-e"@[1]);
        assert("-T"@.len() != "--empty"@.len());
        assert("-T"@.len() != "-ce"@.len());
        assert("-T"@.len() != "-ec"@.len());
        assert("-T"@[1] != "-r"@[1]);
        assert("-T"@.len() != "--remove"@.len());
        assert("-T"@[1] != "-m"@[1]);
        assert("-T"@.len() != "--modify"@.len());
        assert("-T"@[1] != "-l"@[1]);
        assert("-T"@.len() != "--list"@.len());
        assert("-T"@[1] != "-a"@[1]);
        assert("-T"@.len() != "--all"@.len());
    }
    assert(flag_of("--temporary"@) == Some(Flag::Temporary)) by {
        assert("--temporary"@.len() != "-c"@.len());
        assert("--temporary"@.len() != "--create"@.len());
        assert("--temporary"@.len() != "-e"@.len());
        assert("--temporary"@.len() != "--empty"@.len());
        assert("--temporary"@.len() != "-ce"@.len());
        assert("--temporary"@.len() != "-ec"@.len());
        assert("--temporary"@.len() != "-r"@.len());
        assert("--temporary"@.len() != "--remove"@.len());
        assert("--temporary"@.len() != "-m"@.len());
        assert("--temporary"@.len() != "--modify"@.len());
        assert("--temporary"@.len() != "-l"@.len());
        assert("--temporary"@.len() != "--list"@.len());
        assert("--temporary"@.len() != "-a"@.len());
        assert("--temporary"@.len() != "--all"@.len());
    }
    assert(flag_of("-U"@) == Some(Flag::Unlock)) by {
        assert("-U"@[1] != "-c"@[1]);
        assert("-U"@.len() != "--create"@.len());
        assert("-U"@[1] != "-e"@[1]);
        assert("-U"@.len() != "--empty"@.len());
        assert("-U"@.len() != "-ce"@.len());
        assert("-U"@.len() != "-ec"@.len());
        assert("-U"@[1] != "-r"@[1]);
        assert("-U"@.len() != "--remove"@.len());
        assert("-U"@[1] != "-m"@[1]);
        assert("-U"@.len() != "--modify"@.len());
        assert("-U"@[1] != "-l"@[1]);
        assert("-U"@.len() != "--list"@.len());
        assert("-U"@[1] != "-a"@[1]);
        assert("-U"@.len() != "--all"@.len());
        assert("-U"@[1] != "-T"@[1]);
        assert("-U"@.len() != "--temporary"@.len());
    }
    assert(flag_of("--unlock"@) == Some(Flag::Unlock)) by {
        assert("--unlock"@.len() != "-c"@.len());
        assert("--unlock"@[2] != "--create"@[2]);
        assert("--unlock"@.len() != "-e"@.len());
        assert("--unlock"@.len() != "--empty"@.len());
        assert("--unlock"@.len() != "-ce"@.len());
        assert("--unlock"@.len() != "-ec"@.len());
        assert("--unlock"@.len() != "-r"@.len());
        assert("--unlock"@[2] != "--remove"@[2]);
        assert("--unlock"@.len() != "-m"@.len());
        assert("--unlock"@[2] != "--modify"@[2]);
        assert("--unlock"@.len() != "-l"@.len());
        assert("--unlock"@.len() != "--list"@.len());
        assert("--unlock"@.len() != "-a"@.len());
        assert("--unlock"@.len() != "--all"@.len());
        assert("--unlock"@.len() != "-T"@.len());
        assert("--unlock"@.len() != "--temporary"@.len());
    }
    assert(flag_of("--tools"@) == Some(Flag::Tools)) by {
        assert("--tools"@.len() != "-c"@.len());
        assert("--tools"@.len() != "--create"@.len());
        assert("--tools"@.len() != "-e"@.len());
        assert("--tools"@[2] != "--empty"@[2]);
        assert("--tools"@.len() != "-ce"@.len());
        assert("--tools"@.len() != "-ec"@.len());
        assert("--tools"@.len() != "-r"@.len());
        assert("--tools"@.len() != "--remove"@.len());
        assert("--tools"@.len() != "-m"@.len());
        assert("--tools"@.len() != "--modify"@.len());
        assert("--tools"@.len() != "-l"@.len());
        assert("--tools"@.len() != "--list"@.len());
        assert("--tools"@.len() != "-a"@.len());
        assert("--tools"@.len() != "--all"@.len());
        assert("--tools"@.len() != "-T"@.len());
        assert("--tools"@.len() != "--temporary"@.len());
        assert("--tools"@.len() != "-U"@.len());
        assert("--tools"@.len() != "--unlock"@.len());
    }
    assert(flag_of("--scan"@) == Some(Flag::Scan)) by {
        assert("--scan"@.len() != "-c"@.len());
        assert("--scan"@.len() != "--create"@.len());
        assert("--scan"@.len() != "-e"@.len());
        assert("--scan"@.len() != "--empty"@.len());
        assert("--scan"@.len() != "-ce"@.len());
        assert("--scan"@.len() != "-ec"@.len());
        assert("--scan"@.len() != "-r"@.len());
        assert("--scan"@.len() != "--remove"@.len());
        assert("--scan"@.len() != "-m"@.len());
        assert("--scan"@.len() != "--modify"@.len());
        assert("--scan"@.len() != "-l"@.len());
        assert("--scan"@[2] != "--list"@[2]);
        assert("--scan"@.len() != "-a"@.len());
        assert("--scan"@.len() != "--all"@.len());
        assert("--scan"@.len() != "-T"@.len());
        assert("--scan"@.len() != "--temporary"@.len());
        assert("--scan"@.len() != "-U"@.len());
        assert("--scan"@.len() != "--unlock"@.len());
        assert("--scan"@.len() != "--tools"@.len());
    }
    assert(flag_of("--hash"@) == Some(Flag::Hash)) by {
        assert("--hash"@.len() != "-c"@.len());
        assert("--hash"@.len() != "--create"@.len());
        assert("--hash"@.len() != "-e"@.len());
        assert("--hash"@.len() != "--empty"@.len());
        assert("--hash"@.len() != "-ce"@.len());
        assert("--hash"@.len() != "-ec"@.len());
        assert("--hash"@.len() != "-r"@.len());
        assert("--hash"@.len() != "--remove"@.len());
        assert("--hash"@.len() != "-m"@.len());
        assert("--hash"@.len() != "--modify"@.len());
        assert("--hash"@.len() != "-l"@.len());
        assert("--hash"@[2] != "--list"@[2]);
        assert("--hash"@.len() != "-a"@.len());
        assert("--hash"@.len() != "--all"@.len());
        assert("--hash"@.len() != "-T"@.len());
        assert("--hash"@.len() != "--temporary"@.len());
        assert("--hash"@.len() != "-U"@.len());
        assert("--hash"@.len() != "--unlock"@.len());
        assert("--hash"@.len() != "--tools"@.len());
        assert("--hash"@[2] != "--scan"@[2]);
    }
    assert(flag_of("--kill"@) == Some(Flag::Kill)) by {
        assert("--kill"@.len() != "-c"@.len());
        assert("--kill"@.len() != "--create"@.len());
        assert("--kill"@.len() != "-e"@.len());
        assert("--kill"@.len() != "--empty"@.len());
        assert("--kill"@.len() != "-ce"@.len());
        assert("--kill"@.len() != "-ec"@.len());
        assert("--kill"@.len() != "-r"@.len());
        assert("--kill"@.len() != "--remove"@.len());
        assert("--kill"@.len() != "-m"@.len());
        assert("--kill"@.len() != "--modify"@.len());
        assert("--kill"@.len() != "-l"@.len());
        assert("--kill"@[2] != "--list"@[2]);
        assert("--kill"@.len() != "-a"@.len());
        assert("--kill"@.len() != "--all"@.len());
        assert("--kill"@.len() != "-T"@.len());
        assert("--kill"@.len() != "--temporary"@.len());
        assert("--kill"@.len() != "-U"@.len());
        assert("--kill"@.len() != "--unlock"@.len());
        assert("--kill"@.len() != "--tools"@.len());
        assert("--kill"@[2] != "--scan"@[2]);
        assert("--kill"@[2] != "--hash"@[2]);
    }
    assert(flag_of("--pause"@) == Some(Flag::Pause)) by {
        assert("--pause"@.len() != "-c"@.len());
        assert("--pause"@.len() != "--create"@.len());
        assert("--pause"@.len() != "-e"@.len());
        assert("--pause"@[2] != "--empty"@[2]);
        assert("--pause"@.len() != "-ce"@.len());
        assert("--pause"@.len() != "-ec"@.len());
        assert("--pause"@.len() != "-r"@.len());
        assert("--pause"@.len() != "--remove"@.len());
        assert("--pause"@.len() != "-m"@.len());
        assert("--pause"@.len() != "--modify"@.len());
        assert("--pause"@.len() != "-l"@.len());
        assert("--pause"@.len() != "--list"@.len());
        assert("--pause"@.len() != "-a"@.len());
        assert("--pause"@.len() != "--all"@.len());
        assert("--pause"@.len() != "-T"@.len());
        assert("--pause"@.len() != "--temporary"@.len());
        assert("--pause"@.len() != "-U"@.len());
        assert("--pause"@.len() != "--unlock"@.len());
        assert("--pause"@[2] != "--tools"@[2]);
        assert("--pause"@.len() != "--scan"@.len());
        assert("--pause"@.len() != "--hash"@.len());
        assert("--pause"@.len() != "--kill"@.len());
    }
    assert(flag_of("--resume"@) == Some(Flag::Resume)) by {
        assert("--resume"@.len() != "-c"@.len());
        assert("--resume"@[2] != "--create"@[2]);
        assert("--resume"@.len() != "-e"@.len());
        assert("--resume"@.len() != "--empty"@.len());
        assert("--resume"@.len() != "-ce"@.len());
        assert("--resume"@.len() != "-ec"@.len());
        assert("--resume"@.len() != "-r"@.len());
        assert("--resume"@[4] != "--remove"@[4]);
        assert("--resume"@.len() != "-m"@.len());
        assert("--resume"@[2] != "--modify"@[2]);
        assert("--resume"@.len() != "-l"@.len());
        assert("--resume"@.len() != "--list"@.len());
        assert("--resume"@.len() != "-a"@.len());
        assert("--resume"@.len() != "--all"@.len());
        assert("--resume"@.len() != "-T"@.len());
        assert("--resume"@.len() != "--temporary"@.len());
        assert("--resume"@.len() != "-U"@.len());
        assert("--resume"@[2] != "--unlock"@[2]);
        assert("--resume"@.len() != "--tools"@.len());
        assert("--resume"@.len() != "--scan"@.len());
        assert("--resume"@.len() != "--hash"@.len());
        assert("--resume"@.len() != "--kill"@.len());
        assert("--resume"@.len() != "--pause"@.len());
    }
    assert(flag_of("--unsafe"@) == Some(Flag::Unsafe)) by {
        assert("--unsafe"@.len() != "-c"@.len());
        assert("--unsafe"@[2] != "--create"@[2]);
        assert("--unsafe"@.len() != "-e"@.len());
        assert("--unsafe"@.len() != "--empty"@.len());
        assert("--unsafe"@.len() != "-ce"@.len());
        assert("--unsafe"@.len() != "-ec"@.len());
        assert("--unsafe"@.len() != "-r"@.len());
        assert("--unsafe"@[2] != "--remove"@[2]);
        assert("--unsafe"@.len() != "-m"@.len());
        assert("--unsafe"@[2] != "--modify"@[2]);
        assert("--unsafe"@.len() != "-l"@.len());
        assert("--unsafe"@.len() != "--list"@.len());
        assert("--unsafe"@.len() != "-a"@.len());
        assert("--unsafe"@.len() != "--all"@.len());
        assert("--unsafe"@.len() != "-T"@.len());
        assert("--unsafe"@.len() != "--temporary"@.len());
        assert("--unsafe"@.len() != "-U"@.len());
        assert("--unsafe"@[4] != "--unlock"@[4]);
        assert("--unsafe"@.len() != "--tools"@.len());
        assert("--unsafe"@.len() != "--scan"@.len());
        assert("--unsafe"@.len() != "--hash"@.len());
        assert("--unsafe"@.len() != "--kill"@.len());
        assert("--unsafe"@.len() != "--pause"@.len());
        assert("--unsafe"@[2] != "--resume"@[2]);
    }
    assert(flag_of("--backup"@) == Some(Flag::Backup)) by {
        assert("--backup"@.len() != "-c"@.len());
        assert("--backup"@[2] != "--create"@[2]);
        assert("--backup"@.len() != "-e"@.len());
        assert("--backup"@.len() != "--empty"@.len());
        assert("--backup"@.len() != "-ce"@.len());
        assert("--backup"@.len() != "-ec"@.len());
        assert("--backup"@.len() != "-r"@.len());
        assert("--backup"@[2] != "--remove"@[2]);
        assert("--backup"@.len() != "-m"@.len());
        assert("--backup"@[2] != "--modify"@[2]);
        assert("--backup"@.len() != "-l"@.len());
        assert("--backup"@.len() != "--list"@.len());
        assert("--backup"@.len() != "-a"@.len());
        assert("--backup"@.len() != "--all"@.len());
        assert("--backup"@.len() != "-T"@.len());
        assert("--backup"@.len() != "--temporary"@.len());
        assert("--backup"@.len() != "-U"@.len());
        assert("--backup"@[2] != "--unlock"@[2]);
        assert("--backup"@.len() != "--tools"@.len());
        assert("--backup"@.len() != "--scan"@.len());
        assert("--backup"@.len() != "--hash"@.len());
        assert("--backup"@.len() != "--kill"@.len());
        assert("--backup"@.len() != "--pause"@.len());
        assert("--backup"@[2] != "--resume"@[2]);
        assert("--backup"@[2] != "--unsafe"@[2]);
    }
    assert(flag_of("--bzip"@) == Some(Flag::Bzip)) by {
        assert("--bzip"@.len() != "-c"@.len());
        assert("--bzip"@.len() != "--create"@.len());
        assert("--bzip"@.len() != "-e"@.len());
        assert("--bzip"@.len() != "--empty"@.len());
        assert("--bzip"@.len() != "-ce"@.len());
        assert("--bzip"@.len() != "-ec"@.len());
        assert("--bzip"@.len() != "-r"@.len());
        assert("--bzip"@.len() != "--remove"@.len());
        assert("--bzip"@.len() != "-m"@.len());
        assert("--bzip"@.len() != "--modify"@.len());
        assert("--bzip"@.len() != "-l"@.len());
        assert("--bzip"@[2] != "--list"@[2]);
        assert("--bzip"@.len() != "-a"@.len());
        assert("--bzip"@.len() != "--all"@.len());
        assert("--bzip"@.len() != "-T"@.len());
        assert("--bzip"@.len() != "--temporary"@.len());
        assert("--bzip"@.len() != "-U"@.len());
        assert("--bzip"@.len() != "--unlock"@.len());
        assert("--bzip"@.len() != "--tools"@.len());
        assert("--bzip"@[2] != "--scan"@[2]);
        assert("--bzip"@[2] != "--hash"@[2]);
        assert("--bzip"@[2] != "--kill"@[2]);
        assert("--bzip"@.len() != "--pause"@.len());
        assert("--bzip"@.len() != "--resume"@.len());
        assert("--bzip"@.len() != "--unsafe"@.len());
        assert("--bzip"@.len() != "--backup"@.len());
    }
    assert(flag_of("--bunzip"@) == Some(Flag::Bunzip)) by {
        assert("--bunzip"@.len() != "-c"@.len());
        assert("--bunzip"@[2] != "--create"@[2]);
        assert("--bunzip"@.len() != "-e"@.len());
        assert("--bunzip"@.len() != "--empty"@.len());
        assert("--bunzip"@.len() != "-ce"@.len());
        assert("--bunzip"@.len() != "-ec"@.len());
        assert("--bunzip"@.len() != "-r"@.len());
        assert("--bunzip"@[2] != "--remove"@[2]);
        assert("--bunzip"@.len() != "-m"@.len());
        assert("--bunzip"@[2] != "--modify"@[2]);
        assert("--bunzip"@.len() != "-l"@.len());
        assert("--bunzip"@.len() != "--list"@.len());
        assert("--bunzip"@.len() != "-a"@.len());
        assert("--bunzip"@.len() != "--all"@.len());
        assert("--bunzip"@.len() != "-T"@.len());
        assert("--bunzip"@.len() != "--temporary"@.len());
        assert("--bunzip"@.len() != "-U"@.len());
        assert("--bunzip"@[2] != "--unlock"@[2]);
        assert("--bunzip"@.len() != "--tools"@.len());
        assert("--bunzip"@.len() != "--scan"@.len());
        assert("--bunzip"@.len() != "--hash"@.len());
        assert("--bunzip"@.len() != "--kill"@.len());
        assert("--bunzip"@.len() != "--pause"@.len());
        assert("--bunzip"@[2] != "--resume"@[2]);
        assert("--bunzip"@[2] != "--unsafe"@[2]);
        assert("--bunzip"@[3] != "--backup"@[3]);
        assert("--bunzip"@.len() != "--bzip"@.len());
    }
    assert(flag_of("-h"@) == Some(Flag::HumanReadable)) by {
        assert("-h"@[1] != "-c"@[1]);
        assert("-h"@.len() != "--create"@.len());
        assert("-h"@[1] != "-e"@[1]);
        assert("-h"@.len() != "--empty"@.len());
        assert("-h"@.len() != "-ce"@.len());
        assert("-h"@.len() != "-ec"@.len());
        assert("-h"@[1] != "-r"@[1]);
        assert("-h"@.len() != "--remove"@.len());
        assert("-h"@[1] != "-m"@[1]);
        assert("-h"@.len() != "--modify"@.len());
        assert("-h"@[1] != "-l"@[1]);
        assert("-h"@.len() != "--list"@.len());
        assert("-h"@[1] != "-a"@[1]);
        assert("-h"@.len() != "--all"@.len());
        assert("-h"@[1] != "-T"@[1]);
        assert("-h"@.len() != "--temporary"@.len());
        assert("-h"@[1] != "-U"@[1]);
        assert("-h"@.len() != "--unlock"@.len());
        assert("-h"@.len() != "--tools"@.len());
        assert("-h"@.len() != "--scan"@.len());
        assert("-h"@.len() != "--hash"@.len());
        assert("-h"@.len() != "--kill"@.len());
        assert("-h"@.len() != "--pause"@.len());
        assert("-h"@.len() != "--resume"@.len());
        assert("-h"@.len() != "--unsafe"@.len());
        assert("-h"@.len() != "--backup"@.len());
        assert("-h"@.len() != "--bzip"@.len());
        assert("-h"@.len() != "--bunzip"@.len());
    }
    assert(flag_of("--human-readable"@) == Some(Flag::HumanReadable)) by {
        assert("--human-readable"@.len() != "-c"@.len());
        assert("--human-readable"@.len() != "--create"@.len());
        assert("--human-readable"@.len() != "-e"@.len());
        assert("--human-readable"@.len() != "--empty"@.len());
        assert("--human-readable"@.len() != "-ce"@.len());
        assert("--human-readable"@.len() != "-ec"@.len());
        assert("--human-readable"@.len() != "-r"@.len());
        assert("--human-readable"@.len() != "--remove"@.len());
        assert("--human-readable"@.len() != "-m"@.len());
        assert("--human-readable"@.len() != "--modify"@.len());
        assert("--human-readable"@.len() != "-l"@.len());
        assert("--human-readable"@.len() != "--list"@.len());
        assert("--human-readable"@.len() != "-a"@.len());
        assert("--human-readable"@.len() != "--all"@.len());
        assert("--human-readable"@.len() != "-T"@.len());
        assert("--human-readable"@.len() != "--temporary"@.len());
        assert("--human-readable"@.len() != "-U"@.len());
        assert("--human-readable"@.len() != "--unlock"@.len());
        assert("--human-readable"@.len() != "--tools"@.len());
        assert("--human-readable"@.len() != "--scan"@.len());
        assert("--human-readable"@.len() != "--hash"@.len());
        assert("--human-readable"@.len() != "--kill"@.len());
        assert("--human-readable"@.len() != "--pause"@.len());
        assert("--human-readable"@.len() != "--resume"@.len());
        assert("--human-readable"@.len() != "--unsafe"@.len());
        assert("--human-readable"@.len() != "--backup"@.len());
        assert("--human-readable"@.len() != "--bzip"@.len());
        assert("--human-readable"@.len() != "--bunzip"@.len());
    }
    assert(flag_of("-E"@) == Some(Flag::ExtendedRegexp)) by {
        assert("-E"@[1] != "-c"@[1]);
        assert("-E"@.len() != "--create"@.len());
        assert("-E"@[1] != "-e"@[1]);
        assert("-E"@.len() != "--empty"@.len());
        assert("-E"@.len() != "-ce"@.len());
        assert("-E"@.len() != "-ec"@.len());
        assert("-E"@[1] != "-r"@[1]);
        assert("-E"@.len() != "--remove"@.len());
        assert("-E"@[1] != "-m"@[1]);
        assert("-E"@.len() != "--modify"@.len());
        assert("-E"@[1] != "-l"@[1]);
        assert("-E"@.len() != "--list"@.len());
        assert("-E"@[1] != "-a"@[1]);
        assert("-E"@.len() != "--all"@.len());
        assert("-E"@[1] != "-T"@[1]);
        assert("-E"@.len() != "--temporary"@.len());
        assert("-E"@[1] != "-U"@[1]);
        assert("-E"@.len() != "--unlock"@.len());
        assert("-E"@.len() != "--tools"@.len());
        assert("-E"@.len() != "--scan"@.len());
        assert("-E"@.len() != "--hash"@.len());
        assert("-E"@.len() != "--kill"@.len());
        assert("-E"@.len() != "--pause"@.len());
        assert("-E"@.len() != "--resume"@.len());
        assert("-E"@.len() != "--unsafe"@.len());
        assert("-E"@.len() != "--backup"@.len());
        assert("-E"@.len() != "--bzip"@.len());
        assert("-E"@.len() != "--bunzip"@.len());
        assert("-E"@[1] != "-h"@[1]);
        assert("-E"@.len() != "--human-readable"@.len());
    }
    assert(flag_of("--extended-regexp"@) == Some(Flag::ExtendedRegexp)) by {
        assert("--extended-regexp"@.len() != "-c"@.len());
        assert("--extended-regexp"@.len() != "--create"@.len());
        assert("--extended-regexp"@.len() != "-e"@.len());
        assert("--extended-regexp"@.len() != "--empty"@.len());
        assert("--extended-regexp"@.len() != "-ce"@.len());
        assert("--extended-regexp"@.len() != "-ec"@.len());
        assert("--extended-regexp"@.len() != "-r"@.len());
        assert("--extended-regexp"@.len() != "--remove"@.len());
        assert("--extended-regexp"@.len() != "-m"@.len());
        assert("--extended-regexp"@.len() != "--modify"@.len());
        assert("--extended-regexp"@.len() != "-l"@.len());
        assert("--extended-regexp"@.len() != "--list"@.len());
        assert("--extended-regexp"@.len() != "-a"@.len());
        assert("--extended-regexp"@.len() != "--all"@.len());
        assert("--extended-regexp"@.len() != "-T"@.len());
        assert("--extended-regexp"@.len() != "--temporary"@.len());
        assert("--extended-regexp"@.len() != "-U"@.len());
        assert("--extended-regexp"@.len() != "--unlock"@.len());
        assert("--extended-regexp"@.len() != "--tools"@.len());
        assert("--extended-regexp"@.len() != "--scan"@.len());
        assert("--extended-regexp"@.len() != "--hash"@.len());
        assert("--extended-regexp"@.len() != "--kill"@.len());
        assert("--extended-regexp"@.len() != "--pause"@.len());
        assert("--extended-regexp"@.len() != "--resume"@.len());
        assert("--extended-regexp"@.len() != "--unsafe"@.len());
        assert("--extended-regexp"@.len() != "--backup"@.len());
        assert("--extended-regexp"@.len() != "--bzip"@.len());
        assert("--extended-regexp"@.len() != "--bunzip"@.len());
        assert("--extended-regexp"@.len() != "-h"@.len());
        assert("--extended-regexp"@.len() != "--human-readable"@.len());
    }
}

/// Law: `--network isolate` (or `--isolate`) makes the session offline and
/// `--network open` (or `--open`) keeps it on the host network: the option
/// sets the network mode to `isolate` or `open` respectively, touches
/// nothing else, and reading goes on after its value.
pub proof fn lemma_network_option(args: Seq<Seq<char>>, i: int, c: CliView)
    requires
        0 <= i,
        i + 1 < args.len(),
        args[i] == "--network"@,
    ensures
        (args[i + 1] == "isolate"@ || args[i + 1] == "--isolate"@) ==> step_spec(args, i, c)
            == StepView::Next(i + 2, CliView { network_mode: Some("isolate"@), ..c }),
        (args[i + 1] == "open"@ || args[i + 1] == "--open"@) ==> step_spec(args, i, c)
            == StepView::Next(i + 2, CliView { network_mode: Some("open"@), ..c }),
{
    reveal_strlit("--all");
    reveal_strlit("--apps");
    reveal_strlit("--backup");
    reveal_strlit("--bunzip");
    reveal_strlit("--bzip");
    reveal_strlit("--case");
    reveal_strlit("--create");
    reveal_strlit("--empty");
    reveal_strlit("--extended-regexp");
    reveal_strlit("--flakes");
    reveal_strlit("--hash");
    reveal_strlit("--human-readable");
    reveal_strlit("--isolate");
    reveal_strlit("--kill");
    reveal_strlit("--list");
    reveal_strlit("--modify");
    reveal_strlit("--network");
    reveal_strlit("--open");
    reveal_strlit("--passwd");
    reveal_strlit("--pause");
    reveal_strlit("--remove");
    reveal_strlit("--resume");
    reveal_strlit("--save");
    reveal_strlit("--scan");
    reveal_strlit("--shell");
    reveal_strlit("--temporary");
    reveal_strlit("--tools");
    reveal_strlit("--unlock");
    reveal_strlit("--unsafe");
    reveal_strlit("-E");
    reveal_strlit("-T");
    reveal_strlit("-U");
    reveal_strlit("-a");
    reveal_strlit("-c");
    reveal_strlit("-ce");
    reveal_strlit("-e");
    reveal_strlit("-ec");
    reveal_strlit("-h");
    reveal_strlit("-l");
    reveal_strlit("-m");
    reveal_strlit("-r");
    reveal_strlit("isolate");
    reveal_strlit("open");
    assert(flag_of("--network"@) is None) by {
        assert("--network"@.len() != "-c"@.len());
        assert("--network"@.len() != "--create"@.len());
        assert("--network"@.len() != "-e"@.len());
        assert("--network"@.len() != "--empty"@.len());
        assert("--network"@.len() != "-ce"@.len());
        assert("--network"@.len() != "-ec"@.len());
        assert("--network"@.len() != "-r"@.len());
        assert("--network"@.len() != "--remove"@.len());
        assert("--network"@.len() != "-m"@.len());
        assert("--network"@.len() != "--modify"@.len());
        assert("--network"@.len() != "-l"@.len());
        assert("--network"@.len() != "--list"@.len());
        assert("--network"@.len() != "-a"@.len());
        assert("--network"@.len() != "--all"@.len());
        assert("--network"@.len() != "-T"@.len());
        assert("--network"@.len() != "--temporary"@.len());
        assert("--network"@.len() != "-U"@.len());
        assert("--network"@.len() != "--unlock"@.len());
        assert("--network"@.len() != "--tools"@.len());
        assert("--network"@.len() != "--scan"@.len());
        assert("--network"@.len() != "--hash"@.len());
        assert("--network"@.len() != "--kill"@.len());
        assert("--network"@.len() != "--pause"@.len());
        assert("--network"@.len() != "--resume"@.len());
        assert("--network"@.len() != "--unsafe"@.len());
        assert("--network"@.len() != "--backup"@.len());
        assert("--network"@.len() != "--bzip"@.len());
        assert("--network"@.len() != "--bunzip"@.len());
        assert("--network"@.len() != "-h"@.len());
        assert("--network"@.len() != "--human-readable"@.len());
        assert("--network"@.len() != "-E"@.len());
        assert("--network"@.len() != "--extended-regexp"@.len());
    }
    assert("isolate"@.len() != "-l"@.len());
    assert("isolate"@.len() != "--list"@.len());
    assert("isolate"@.len() != "open"@.len());
    assert("isolate"@.len() != "--open"@.len());
    assert("--isolate"@.len() != "-l"@.len());
    assert("--isolate"@.len() != "--list"@.len());
    assert("--isolate"@.len() != "open"@.len());
    assert("--isolate"@.len() != "--open"@.len());
    assert("open"@.len() != "-l"@.len());
    assert("open"@.len() != "--list"@.len());
    assert("open"@.len() != "--open"@.len());
    assert("--open"@.len() != "-l"@.len());
    assert("--open"@[2] != "--list"@[2]);
    assert("--open"@.len() != "open"@.len());
    assert("--network"@.len() != "--passwd"@.len());
    assert("--network"@.len() != "--shell"@.len());
    assert("--network"@.len() != "--flakes"@.len());
    assert("--network"@.len() != "--apps"@.len());
    assert("--network"@.len() != "--case"@.len());
    assert("--network"@.len() != "--save"@.len());
}

/// Law: reading an option without a value sets `create`, `empty` and
/// `temporary` according to its spelling, and leaves the network mode and
/// the arguments as they were.
pub proof fn lemma_flag_spellings(c: CliView, a: Seq<char>)
    requires
        flag_of(a) is Some,
    ensures
        with_flag(c, flag_of(a)->0).create == (c.create || a == "-c"@ || a == "--create"@ || a
            == "-ce"@ || a == "-ec"@),
        with_flag(c, flag_of(a)->0).empty == (c.empty || a == "-e"@ || a == "--empty"@ || a
            == "-ce"@ || a == "-ec"@),
        with_flag(c, flag_of(a)->0).temporary == (c.temporary || a == "-T"@ || a == "--temporary"@),
        with_flag(c, flag_of(a)->0).network_mode == c.network_mode,
        with_flag(c, flag_of(a)->0).arguments == c.arguments,
{
    lemma_flag_literals();
    let cond = a == "-c"@ || a == "--create"@ || a == "-e"@ || a == "--empty"@ || a == "-ce"@ || a == "-ec"@ || a == "-r"@ || a == "--remove"@ || a == "-m"@ || a == "--modify"@ || a == "-l"@ || a == "--list"@ || a == "-a"@ || a == "--all"@ || a == "-T"@ || a == "--temporary"@ || a == "-U"@ || a == "--unlock"@ || a == "--tools"@ || a == "--scan"@ || a == "--hash"@ || a == "--kill"@ || a == "--pause"@ || a == "--resume"@ || a == "--unsafe"@ || a == "--backup"@ || a == "--bzip"@ || a == "--bunzip"@ || a == "-h"@ || a == "--human-readable"@ || a == "-E"@ || a == "--extended-regexp"@;
    assert(cond);
}

} // verus!
