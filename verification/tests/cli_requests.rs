use soter_system::cli::{parse_args, plan, Cli, Parsed, Request};

fn args(words: &[&str]) -> Vec<String> {
    words.iter().map(|w| w.to_string()).collect()
}

fn options(words: &[&str]) -> Cli {
    match parse_args(&args(words)) {
        Ok(Parsed::Run(c)) => c,
        Ok(_) => panic!("expected options for {:?}", words),
        Err(e) => panic!("refused {:?}: {}", words, e),
    }
}

fn refusal(words: &[&str]) -> String {
    match parse_args(&args(words)) {
        Err(e) => e,
        Ok(_) => panic!("expected a refusal for {:?}", words),
    }
}

fn request(words: &[&str]) -> Request {
    let list = args(words);
    let c = options(words);
    plan(&c, list.is_empty())
}

fn failure(words: &[&str]) -> String {
    match request(words) {
        Request::Fail(e) => e,
        _ => panic!("expected a failed request for {:?}", words),
    }
}

#[test]
fn combined_create_empty_flag() {
    let c = options(&["-ce", "lab"]);
    assert!(c.create && c.empty);
    assert!(!c.remove && !c.list);
    assert_eq!(c.arguments, vec!["lab".to_string()]);
    let d = options(&["-ec", "lab"]);
    assert!(d.create && d.empty);
}

#[test]
fn long_and_short_flags_set_their_fields() {
    let c = options(&["-r", "-m", "-l", "-a", "-T", "-U", "-h", "-E", "--tools", "--scan", "--hash"]);
    assert!(c.remove && c.modify && c.list && c.all && c.temporary && c.unlock);
    assert!(c.human_readable && c.extended_regexp && c.tools && c.scan && c.hash);
    let d = options(&["--kill", "--pause", "--resume", "--unsafe", "--backup", "--bzip", "--bunzip"]);
    assert!(d.kill && d.pause && d.resume && d.unsafe_network && d.backup && d.bzip && d.bunzip);
    assert!(!d.create);
}

#[test]
fn defaults_are_all_off() {
    let c = Cli::new();
    assert!(!c.create && !c.tools && !c.scan);
    assert!(c.passwd.is_none() && c.shell.is_none() && c.network_mode.is_none());
    assert!(c.flakes.is_empty() && c.arguments.is_empty());
    let e = options(&[]);
    assert!(e.arguments.is_empty() && !e.create);
}

#[test]
fn valued_options_take_the_next_word() {
    let c = options(&["--passwd", "s3cret", "--shell", "zsh", "--save", "firefox", "--openvpn", "a.ovpn", "--restore", "b.soter", "lab"]);
    assert_eq!(c.passwd.as_deref(), Some("s3cret"));
    assert_eq!(c.shell.as_deref(), Some("zsh"));
    assert_eq!(c.save_flake.as_deref(), Some("firefox"));
    assert_eq!(c.openvpn.as_deref(), Some("a.ovpn"));
    assert_eq!(c.restore.as_deref(), Some("b.soter"));
    assert_eq!(c.arguments, vec!["lab".to_string()]);
}

#[test]
fn flakes_are_split_on_commas_without_empty_items() {
    let c = options(&["--flakes", "firefox,,chromium,", "lab"]);
    assert_eq!(c.flakes, vec!["firefox".to_string(), "chromium".to_string()]);
    assert_eq!(refusal(&["--flakes", ",,"]), "--flakes requires at least one package");
    assert_eq!(
        refusal(&["--flakes"]),
        "--flakes requires a package list (for example: firefox,chromium)"
    );
}

#[test]
fn network_modes_and_listing() {
    assert_eq!(options(&["--network", "isolate", "lab"]).network_mode.as_deref(), Some("isolate"));
    assert_eq!(options(&["--network", "--open", "lab"]).network_mode.as_deref(), Some("open"));
    assert_eq!(options(&["-network", "--isolate"]).network_mode.as_deref(), Some("isolate"));
    assert_eq!(options(&["--network", "-l", "wifi"]).network_list.as_deref(), Some("wifi"));
    assert_eq!(options(&["--network", "--list", "wifi"]).network_list.as_deref(), Some("wifi"));
    assert_eq!(
        refusal(&["--network", "-l"]),
        "--network --list requires a category (for example: wifi)"
    );
    assert_eq!(refusal(&["--network"]), "--network requires 'open', 'isolate', or '-l wifi'");
    assert_eq!(
        refusal(&["--network", "mesh"]),
        "unknown network option: mesh; expected open, isolate, or -l wifi"
    );
}

#[test]
fn missing_values_are_refused() {
    assert_eq!(refusal(&["--passwd"]), "--passwd requires a password");
    assert_eq!(refusal(&["--shell"]), "--shell requires a shell");
    assert_eq!(refusal(&["--save"]), "--save requires a flake name");
    assert_eq!(refusal(&["--openvpn"]), "--openvpn requires a file");
    assert_eq!(refusal(&["--restore"]), "--restore requires a backup file");
}

#[test]
fn unknown_options_are_refused() {
    assert_eq!(refusal(&["--bogus"]), "unknown option: --bogus");
    assert_eq!(refusal(&["lab", "-x"]), "unknown option: -x");
    assert_eq!(refusal(&["-"]), "unknown option: -");
    assert_eq!(refusal(&["--bogus", "--help"]), "unknown option: --bogus");
}

#[test]
fn double_dash_keeps_everything_after_it() {
    let c = options(&["lab", "--", "ip", "-x", "--help"]);
    assert_eq!(c.arguments, args(&["lab", "ip", "-x", "--help"]));
}

#[test]
fn help_and_version_stop_reading() {
    assert!(matches!(parse_args(&args(&["--help", "--bogus"])), Ok(Parsed::Help)));
    assert!(matches!(parse_args(&args(&["--version"])), Ok(Parsed::Version)));
    assert!(matches!(parse_args(&args(&["lab", "--version", "--bogus"])), Ok(Parsed::Version)));
}

#[test]
fn no_arguments_greet_and_help_word_shows_usage() {
    assert!(matches!(request(&[]), Request::Greet));
    assert!(matches!(request(&["help"]), Request::Usage));
    assert!(matches!(request(&["--tools", "lab"]), Request::Tools));
}

#[test]
fn network_listing_requests() {
    assert!(matches!(request(&["--network", "-l", "wifi"]), Request::ListWifi));
    assert_eq!(failure(&["--network", "-l", "eth"]), "unknown network list category: eth");
}

#[test]
fn lifecycle_requests_need_a_name() {
    assert_eq!(failure(&["--kill"]), "--kill requires a soterspace name");
    assert_eq!(failure(&["--pause"]), "--pause requires a soterspace name");
    assert_eq!(failure(&["--resume"]), "--resume requires a soterspace name");
    assert_eq!(failure(&["-c"]), "create requires a soterspace name");
    assert_eq!(failure(&["-r"]), "remove requires a soterspace name");
    assert_eq!(failure(&["--backup"]), "backup requires a soterspace name");
    assert_eq!(
        failure(&["--save", "firefox"]),
        "--save requires a soterspace name, for example: soter --save firefox lab"
    );
    assert_eq!(failure(&["--shell", "zsh"]), "no soterspace or operation specified");
    match request(&["--kill", "lab"]) {
        Request::Kill(n) => assert_eq!(n, "lab"),
        _ => panic!("expected kill"),
    }
    match request(&["--pause", "lab"]) {
        Request::Pause(n) => assert_eq!(n, "lab"),
        _ => panic!("expected pause"),
    }
    match request(&["--resume", "lab"]) {
        Request::Resume(n) => assert_eq!(n, "lab"),
        _ => panic!("expected resume"),
    }
}

#[test]
fn scan_and_hash_cover_one_or_all() {
    match request(&["--scan", "--kill", "lab"]) {
        Request::Scan(t) => assert_eq!(t.as_deref(), Some("lab")),
        _ => panic!("expected scan"),
    }
    match request(&["--hash"]) {
        Request::Hash(t) => assert!(t.is_none()),
        _ => panic!("expected hash"),
    }
    match request(&["--restore", "lab.soter", "--scan"]) {
        Request::Restore(f) => assert_eq!(f, "lab.soter"),
        _ => panic!("expected restore"),
    }
    assert!(matches!(request(&["-l"]), Request::List));
}

#[test]
fn create_records_the_space_without_entering() {
    match request(&["-ce", "-T", "--shell", "zsh", "--flakes", "firefox", "lab"]) {
        Request::Create { name, empty, temporary } => {
            assert_eq!(name, "lab");
            assert!(empty && temporary);
        }
        _ => panic!("expected create"),
    }
    match request(&["-c", "demo"]) {
        Request::Create { name, empty, temporary } => {
            assert_eq!(name, "demo");
            assert!(!empty && !temporary);
        }
        _ => panic!("expected create"),
    }
}

#[test]
fn apps_option_installs_the_listed_packages() {
    let c = options(&["--apps", "curl,jq", "lab"]);
    assert_eq!(c.apps, args(&["curl", "jq"]));
    match request(&["--apps", "curl,jq", "lab"]) {
        Request::InstallApps { name, packages } => {
            assert_eq!(name, "lab");
            assert_eq!(packages, args(&["curl", "jq"]));
        }
        _ => panic!("expected an app installation"),
    }
    assert_eq!(options(&["--apps", ",curl,,", "x"]).apps, args(&["curl"]));
    assert_eq!(refusal(&["--apps", ","]), "--apps requires at least one package");
    assert_eq!(refusal(&["--apps"]), "--apps requires a package list (for example: curl,jq)");
    assert_eq!(failure(&["--apps", "curl"]), "--apps requires a soterspace name");
}

#[test]
fn case_option_creates_the_named_case() {
    let c = options(&["--case", "presentation", "demo"]);
    assert_eq!(c.case_name.as_deref(), Some("presentation"));
    match request(&["--case", "presentation", "demo"]) {
        Request::CreateCase { space, case_name } => {
            assert_eq!(space, "demo");
            assert_eq!(case_name, "presentation");
        }
        _ => panic!("expected a case"),
    }
    assert_eq!(refusal(&["--case"]), "--case requires a case name");
    assert_eq!(failure(&["--case", "presentation"]), "--case requires a soterspace name");
}

#[test]
fn backup_names_its_archive() {
    match request(&["--backup", "lab"]) {
        Request::Backup { name, file } => {
            assert_eq!(name, "lab");
            assert_eq!(file, "lab.soter");
        }
        _ => panic!("expected backup"),
    }
    match request(&["-r", "lab"]) {
        Request::Remove(n) => assert_eq!(n, "lab"),
        _ => panic!("expected remove"),
    }
    match request(&["--save", "chromium", "lab"]) {
        Request::SaveFlake { name, flake } => {
            assert_eq!(name, "lab");
            assert_eq!(flake, "chromium");
        }
        _ => panic!("expected save"),
    }
}

#[test]
fn settings_of_a_named_space() {
    match request(&["--passwd", "pw", "-U", "lab"]) {
        Request::SetPassword { name, password } => {
            assert_eq!(name, "lab");
            assert_eq!(password, "pw");
        }
        _ => panic!("expected password"),
    }
    match request(&["-U", "lab"]) {
        Request::Unlock(n) => assert_eq!(n, "lab"),
        _ => panic!("expected unlock"),
    }
    match request(&["--openvpn", "corp.ovpn", "--unsafe", "lab"]) {
        Request::SetOpenvpn { name, config } => {
            assert_eq!(name, "lab");
            assert_eq!(config, "profile=corp.ovpn\nfail_closed=false\n");
        }
        _ => panic!("expected openvpn"),
    }
    match request(&["--openvpn", "corp.ovpn", "lab"]) {
        Request::SetOpenvpn { config, .. } => assert_eq!(config, "profile=corp.ovpn\nfail_closed=true\n"),
        _ => panic!("expected openvpn"),
    }
    assert_eq!(
        failure(&["-m", "lab"]),
        "modify requires a setting such as --passwd, --network, or --openvpn"
    );
}

#[test]
fn entering_runs_the_words_after_the_name() {
    match request(&["--shell", "zsh", "lab", "--", "ip", "addr"]) {
        Request::Enter { name, command, shell, flakes, network } => {
            assert_eq!(name, "lab");
            assert_eq!(command, args(&["ip", "addr"]));
            assert_eq!(shell.as_deref(), Some("zsh"));
            assert!(flakes.is_empty());
            assert!(network.is_none());
        }
        _ => panic!("expected entry"),
    }
    match request(&["lab"]) {
        Request::Enter { command, .. } => assert!(command.is_empty()),
        _ => panic!("expected entry"),
    }
}
