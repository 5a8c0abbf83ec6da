use soter_system::tooling::{
    case_check, case_directories, case_name_check, case_readme, choose_space, install_report,
    menu_line, parse_selection, starter_wordlist, tool_by_number, tool_names, tool_packages, tools,
    tool_install_args, tools_install_check, ToolEnvironment, ToolSpec,
};

fn words(list: &[&str]) -> Vec<String> {
    list.iter().map(|w| w.to_string()).collect()
}

fn numbers(selected: &[ToolSpec]) -> Vec<usize> {
    selected.iter().map(|t| t.number).collect()
}

fn selection_error(value: &str) -> String {
    match parse_selection(value) {
        Err(e) => e,
        Ok(v) => panic!("expected a refusal, got {:?}", numbers(&v)),
    }
}

#[test]
fn the_tool_table() {
    let all = tools();
    assert_eq!(all.len(), 11);
    for (i, t) in all.iter().enumerate() {
        assert_eq!(t.number, i + 1);
    }
    let nc = tool_by_number(4).unwrap();
    assert_eq!((nc.name, nc.package, nc.command), ("Netcat", "openbsd-netcat", "nc"));
    let dns = tool_by_number(9).unwrap();
    assert_eq!((dns.name, dns.package, dns.command), ("DNS tools", "bind", "dig"));
    assert!(tool_by_number(0).is_none());
    assert!(tool_by_number(12).is_none());
}

#[test]
fn selection_keeps_first_occurrences_in_order() {
    let v = parse_selection("1,2 8,1").unwrap();
    assert_eq!(numbers(&v), vec![1, 2, 8]);
    let w = parse_selection(" 10,\t3\n").unwrap();
    assert_eq!(numbers(&w), vec![10, 3]);
    let p = parse_selection("+2").unwrap();
    assert_eq!(numbers(&p), vec![2]);
}

#[test]
fn selection_errors() {
    assert_eq!(selection_error("  \n"), "no tools selected");
    assert_eq!(selection_error(",,"), "no tools selected");
    assert_eq!(selection_error("x"), "invalid tool selection 'x'");
    assert_eq!(selection_error("1,x,99"), "invalid tool selection 'x'");
    assert_eq!(selection_error("-1"), "invalid tool selection '-1'");
    assert_eq!(selection_error("12"), "unknown tool number 12");
    assert_eq!(selection_error("99,x"), "unknown tool number 99");
    assert_eq!(selection_error("0"), "unknown tool number 0");
}

#[test]
fn a_selection_is_distinct_and_in_range() {
    let v = parse_selection("11 11 5,1,5 11").unwrap();
    let n = numbers(&v);
    assert_eq!(n, vec![11, 5, 1]);
    for (i, a) in n.iter().enumerate() {
        assert!(*a >= 1 && *a <= 11);
        for b in &n[i + 1..] {
            assert_ne!(a, b);
        }
    }
}

#[test]
fn menu_lines_are_aligned() {
    assert_eq!(menu_line(&tool_by_number(1).unwrap()), "   1. Nmap       Network discovery and port scanning");
    assert_eq!(menu_line(&tool_by_number(9).unwrap()), "   9. DNS tools  dig, host and nslookup");
    assert_eq!(menu_line(&tool_by_number(10).unwrap()), "  10. socat      Bidirectional socket relay and testing");
}

#[test]
fn choosing_the_target_space() {
    let spaces = words(&["alpha", "beta"]);
    assert_eq!(choose_space(&spaces, "2\n"), Ok("beta".to_string()));
    assert_eq!(choose_space(&spaces, "0"), Ok("alpha".to_string()));
    assert_eq!(choose_space(&spaces, "3"), Err("invalid Soterspace selection: 3".to_string()));
    assert_eq!(choose_space(&spaces, " beta "), Ok("beta".to_string()));
    assert_eq!(choose_space(&spaces, "gamma"), Err("unknown Soterspace 'gamma'".to_string()));
}

#[test]
fn packages_and_names_of_a_selection() {
    let v = parse_selection("1,4").unwrap();
    assert_eq!(tool_packages(&v), words(&["nmap", "openbsd-netcat"]));
    assert_eq!(tool_names(&v), words(&["Nmap", "Netcat"]));
}

#[test]
fn installing_tools_needs_an_idle_provisioned_space() {
    assert_eq!(
        tools_install_check("lab", true, true),
        Err("soterspace 'lab' is running; stop it before changing installed tools".to_string())
    );
    assert_eq!(
        tools_install_check("lab", false, false),
        Err("soterspace 'lab' has not finished provisioning; enter it once before installing tools".to_string())
    );
    assert_eq!(tools_install_check("lab", false, true), Ok(()));
}

#[test]
fn the_install_report() {
    let v = parse_selection("1,4").unwrap();
    assert_eq!(
        install_report("lab", &v, true),
        words(&[
            "\nInstalled:",
            "  - Nmap (nmap)",
            "  - Netcat (nc)",
            "Starter wordlist: /usr/share/wordlists/soter/common.txt",
            "Secure case directory: /root/soter/cases",
            "Integrity baseline cleared because this was an authorized system change.",
            "Run 'soter --hash lab' after you finish installing tools."
        ])
    );
    assert_eq!(install_report("lab", &v, false).len(), 5);
}

#[test]
fn cases() {
    assert_eq!(case_name_check("case-1"), Ok(()));
    assert_eq!(
        case_name_check("bad case"),
        Err("case names may contain only letters, numbers, '-' and '_'".to_string())
    );
    assert_eq!(
        case_check("lab", "c1", true, false),
        Err("soterspace 'lab' is running; stop it before creating a case".to_string())
    );
    assert_eq!(
        case_check("lab", "c1", false, true),
        Err("case 'c1' already exists in soterspace 'lab'".to_string())
    );
    assert_eq!(case_check("lab", "c1", false, false), Ok(()));
    assert_eq!(case_directories(), words(&["recon", "scans", "findings", "evidence", "notes", "loot"]));
    assert_eq!(
        case_readme("c1"),
        "Soter case: c1\n\nrecon/     discovery and enumeration notes\nscans/     scanner output\nfindings/  validated findings and writeups\nevidence/  screenshots and supporting artifacts\nnotes/     working notes\nloot/      authorized collected test data\n"
    );
}

#[test]
fn the_starter_wordlist() {
    let list = starter_wordlist();
    assert_eq!(list.lines().count(), 20);
    assert!(list.starts_with("admin\napi\n"));
    assert!(list.ends_with("upload\nuploads\n"));
}

#[test]
fn tool_environment_holds_its_packages() {
    let env = ToolEnvironment { packages: words(&["nmap"]), ephemeral: true };
    let copy = env.clone();
    assert_eq!(copy.packages, words(&["nmap"]));
    assert!(copy.ephemeral);
}

#[test]
fn tool_installation_arguments() {
    let v = parse_selection("1,4").unwrap();
    assert_eq!(
        tool_install_args("/r", &tool_packages(&v)),
        words(&["/r", "pacman", "-S", "--needed", "--noconfirm", "nmap", "openbsd-netcat"])
    );
    assert_eq!(tool_install_args("/r", &Vec::new()), words(&["/r", "pacman", "-S", "--needed", "--noconfirm"]));
}
