use oneberry_devkit::text::{
    bool_to_string, concat3, contains_str, i64_to_string, join, parse_i32, parse_u32,
    replace_char, str_eq, string_of, trim, trim_end, u64_to_string,
};

#[test]
fn trim_removes_unicode_white_space_at_both_ends() {
    assert_eq!(trim("  \t hello world \n\r"), "hello world");
    assert_eq!(trim("\u{3000}x\u{a0}"), "x");
    assert_eq!(trim("   "), "");
    assert_eq!(trim(""), "");
    assert_eq!(trim("a b"), "a b");
}

#[test]
fn trim_end_keeps_leading_space() {
    assert_eq!(trim_end("  line \n"), "  line");
}

#[test]
fn decimal_formatting() {
    assert_eq!(u64_to_string(0), "0");
    assert_eq!(u64_to_string(8080), "8080");
    assert_eq!(u64_to_string(u64::MAX), u64::MAX.to_string());
    assert_eq!(i64_to_string(-1), "-1");
    assert_eq!(i64_to_string(i64::MIN), i64::MIN.to_string());
    assert_eq!(i64_to_string(1725029869), "1725029869");
}

#[test]
fn integer_parsing_follows_str_parse() {
    for s in ["0", "42", "+7", "-7", "", "+", "-", "12a", "4294967295", "4294967296", " 1", "007"] {
        assert_eq!(parse_u32(s), s.parse::<u32>().ok(), "u32 {:?}", s);
    }
    for s in ["0", "42", "+7", "-7", "", "+", "-", "2147483647", "2147483648", "-2147483648", "-2147483649", "x"] {
        assert_eq!(parse_i32(s), s.parse::<i32>().ok(), "i32 {:?}", s);
    }
}

#[test]
fn replace_join_contains_eq() {
    assert_eq!(replace_char("it's", '\'', "'\\''"), "it'\\''s");
    assert_eq!(join(&vec!["a".to_string(), "b".to_string(), "c".to_string()], " "), "a b c");
    assert_eq!(join(&vec![], " "), "");
    assert!(contains_str("User canceled. (-128)", "-128"));
    assert!(!contains_str("ok", "okay"));
    assert!(contains_str("anything", ""));
    assert!(str_eq("tailscale", "tailscale"));
    assert!(!str_eq("tailscale", "Tailscale"));
    assert_eq!(string_of(&['o', 'k']), "ok");
    assert_eq!(concat3("a", "-", "b"), "a-b");
    assert_eq!(bool_to_string(true), "true");
    assert_eq!(bool_to_string(false), "false");
}
