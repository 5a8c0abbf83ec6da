use soter_system::soterspace::{check_name, valid_name};

#[test]
fn valid_names_accept_letters_digits_dash_underscore() {
    assert!(valid_name("lab"));
    assert!(valid_name("Lab-2_x"));
    assert!(!valid_name(""));
    assert!(!valid_name("a b"));
    assert!(!valid_name("../x"));
    assert!(!valid_name("é"));
}

#[test]
fn check_name_refuses_invalid_names() {
    assert!(check_name("lab").is_ok());
    assert_eq!(
        check_name("bad/name").unwrap_err(),
        "soterspace names may contain only letters, numbers, '-' and '_'"
    );
}
