use euphonica::text::{
    contains_str, find_char, i8_to_string, push_two_digits, rfind_char, split_char, str_eq,
    u64_to_string,
};

#[test]
fn decimal_formatting() {
    assert_eq!(u64_to_string(0), "0");
    assert_eq!(u64_to_string(7), "7");
    assert_eq!(u64_to_string(1024), "1024");
    assert_eq!(u64_to_string(u64::MAX), "18446744073709551615");
}

#[test]
fn signed_formatting() {
    assert_eq!(i8_to_string(-128), "-128");
    assert_eq!(i8_to_string(-5), "-5");
    assert_eq!(i8_to_string(9), "9");
}

#[test]
fn two_digit_padding() {
    let mut s = String::new();
    push_two_digits(&mut s, 3);
    push_two_digits(&mut s, 42);
    push_two_digits(&mut s, 123);
    assert_eq!(s, "0342123");
}

#[test]
fn string_equality_and_search() {
    assert!(str_eq("abc", "abc"));
    assert!(!str_eq("abc", "abd"));
    assert!(!str_eq("ab", "abc"));
    assert!(contains_str("playlists are disabled", "disabled"));
    assert!(!contains_str("enabled", "disabled"));
    assert!(contains_str("x", ""));
    assert_eq!(find_char("a]b]", ']'), Some(1));
    assert_eq!(rfind_char("a/b/c", '/'), Some(3));
    assert_eq!(find_char("abc", ']'), None);
}

#[test]
fn splitting_keeps_empty_pieces() {
    assert_eq!(split_char("a,,b", ','), vec!["a", "", "b"]);
    assert_eq!(split_char("", ','), vec![""]);
    assert_eq!(split_char("ü:ß", ':'), vec!["ü", "ß"]);
}
