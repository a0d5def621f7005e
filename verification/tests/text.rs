use chorus::text::{chars_eq_str, chars_of, contains_char, decimal_chars, decimal_string, remove_char, str_eq};

#[test]
fn decimal_forms() {
    assert_eq!(decimal_string(0), "0");
    assert_eq!(decimal_string(7), "7");
    assert_eq!(decimal_string(1234567890), "1234567890");
    assert_eq!(decimal_string(u64::MAX), "18446744073709551615");
    assert_eq!(decimal_chars(305), vec!['3', '0', '5']);
}

#[test]
fn character_helpers() {
    let cs = chars_of("a.b.c");
    assert_eq!(cs, vec!['a', '.', 'b', '.', 'c']);
    assert!(contains_char(&cs, 'b'));
    assert!(!contains_char(&cs, 'z'));
    let without = remove_char(&cs, '.');
    assert_eq!(without, vec!['a', 'b', 'c']);
    assert_eq!(remove_char(&without, '.'), without);
    assert!(chars_eq_str(&without, "abc"));
    assert!(!chars_eq_str(&without, "ab"));
    assert!(str_eq("ä€x", "ä€x"));
    assert!(!str_eq("abc", "abd"));
}
