use ego::{decimal_string, has_leading_dash, name_before_equals, octal_string, replace_newlines};

#[test]
fn decimal_formats_numbers() {
    assert_eq!(decimal_string(0), "0");
    assert_eq!(decimal_string(150), "150");
    assert_eq!(decimal_string(4294967295), "4294967295");
}

#[test]
fn octal_formats_numbers() {
    assert_eq!(octal_string(0o755), "755");
    assert_eq!(octal_string(0), "0");
    assert_eq!(octal_string(0o600 & 0o777), "600");
}

#[test]
fn newlines_become_commas() {
    assert_eq!(replace_newlines("user::rw-\ngroup::r--\n"), "user::rw-,group::r--,");
    assert_eq!(replace_newlines(""), "");
}

#[test]
fn leading_dash_is_seen() {
    assert!(has_leading_dash("-la"));
    assert!(!has_leading_dash("ls"));
    assert!(!has_leading_dash(""));
}

#[test]
fn name_stops_at_first_equals() {
    assert_eq!(name_before_equals("DISPLAY=:0"), "DISPLAY");
    assert_eq!(name_before_equals("A=b=c"), "A");
    assert_eq!(name_before_equals("PLAIN"), "PLAIN");
}
