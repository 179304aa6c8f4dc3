use todo_store::util::{eq_ignore_case, str_eq, trim_spaces, uppercase_converter};

#[test]
fn uppercase_converter_folds_first_letter() {
    let mut s = String::from("fun");
    uppercase_converter(&mut s);
    assert_eq!(s, "Fun");
}

#[test]
fn uppercase_converter_keeps_already_uppercase() {
    let mut s = String::from("WORK");
    uppercase_converter(&mut s);
    assert_eq!(s, "WORK");
}

#[test]
fn uppercase_converter_only_touches_first_letter() {
    let mut s = String::from("personal time");
    uppercase_converter(&mut s);
    assert_eq!(s, "Personal time");
}

#[test]
fn uppercase_converter_keeps_empty_string() {
    let mut s = String::new();
    uppercase_converter(&mut s);
    assert_eq!(s, "");
}

#[test]
fn uppercase_converter_keeps_nonletter_first_character() {
    let mut s = String::from("1 errand");
    uppercase_converter(&mut s);
    assert_eq!(s, "1 errand");
}

#[test]
fn str_eq_is_exact() {
    assert!(str_eq("Active", "Active"));
    assert!(!str_eq("Active", "active"));
    assert!(!str_eq("Active", "Activ"));
    assert!(str_eq("", ""));
}

#[test]
fn eq_ignore_case_folds_ascii_case() {
    assert!(eq_ignore_case("WORK", "work"));
    assert!(eq_ignore_case("fUn", "Fun"));
    assert!(!eq_ignore_case("work", "works"));
    assert!(!eq_ignore_case("work", "walk"));
}

#[test]
fn trim_spaces_strips_surrounding_whitespace() {
    assert_eq!(trim_spaces("  buy milk \n"), "buy milk");
    assert_eq!(trim_spaces("\t\r\n "), "");
    assert_eq!(trim_spaces("intact"), "intact");
    assert_eq!(trim_spaces("inner  space"), "inner  space");
    assert_eq!(trim_spaces(""), "");
}
