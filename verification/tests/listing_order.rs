use soter_system::listing::{listed_spaces, name_less};

fn entries(list: &[(&str, bool)]) -> Vec<(String, bool)> {
    list.iter().map(|(n, k)| (n.to_string(), *k)).collect()
}

#[test]
fn names_compare_like_strings() {
    assert!(name_less("a", "b"));
    assert!(!name_less("b", "a"));
    assert!(name_less("a", "ab"));
    assert!(!name_less("ab", "a"));
    assert!(!name_less("lab", "lab"));
    assert!(name_less("B", "a"));
    assert!(name_less("", "a"));
    assert!(name_less("z", "\u{e9}"));
    for (x, y) in [("lab", "lab-2"), ("Lab", "lab"), ("a_b", "ab"), ("9", "A")] {
        assert_eq!(name_less(x, y), x < y);
        assert_eq!(name_less(y, x), y < x);
    }
}

#[test]
fn only_spaces_are_listed_in_order() {
    let listed = listed_spaces(&entries(&[
        ("web", true),
        ("lab", true),
        ("junk", false),
        ("Alpha", true),
        ("lab2", true),
    ]));
    assert_eq!(listed, vec!["Alpha", "lab", "lab2", "web"]);
}

#[test]
fn an_empty_root_lists_nothing() {
    assert!(listed_spaces(&Vec::new()).is_empty());
    assert!(listed_spaces(&entries(&[("x", false)])).is_empty());
}

#[test]
fn listing_matches_a_sort() {
    let raw = entries(&[("m", true), ("b", true), ("z", false), ("a-1", true), ("a", true), ("b", true)]);
    let mut expected: Vec<String> = raw.iter().filter(|(_, k)| *k).map(|(n, _)| n.clone()).collect();
    expected.sort();
    assert_eq!(listed_spaces(&raw), expected);
}
