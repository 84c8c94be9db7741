use youtrack_tools::text::{
    bool_to_text, chars_of, eq_ignore_case, i32_to_decimal, push_padded, starts_with,
    trim_end_slashes, u32_to_decimal,
};

#[test]
fn decimal_of_unsigned_values() {
    assert_eq!(u32_to_decimal(0), "0");
    assert_eq!(u32_to_decimal(7), "7");
    assert_eq!(u32_to_decimal(10), "10");
    assert_eq!(u32_to_decimal(1234567), "1234567");
    assert_eq!(u32_to_decimal(u32::MAX), "4294967295");
}

#[test]
fn decimal_matches_to_string() {
    for n in [0u32, 1, 9, 99, 100, 101, 65535, 1_000_000, 4_000_000_000] {
        assert_eq!(u32_to_decimal(n), n.to_string());
    }
}

#[test]
fn decimal_of_signed_values() {
    assert_eq!(i32_to_decimal(0), "0");
    assert_eq!(i32_to_decimal(42), "42");
    assert_eq!(i32_to_decimal(-42), "-42");
    assert_eq!(i32_to_decimal(i32::MIN), "-2147483648");
    assert_eq!(i32_to_decimal(i32::MAX), "2147483647");
}

#[test]
fn booleans_as_text() {
    assert_eq!(bool_to_text(true), "true");
    assert_eq!(bool_to_text(false), "false");
}

#[test]
fn padding_to_a_width() {
    let mut s = String::from("[");
    push_padded(&mut s, "ab", 5);
    assert_eq!(s, "[ab   ");
    let mut t = String::new();
    push_padded(&mut t, "abcdef", 3);
    assert_eq!(t, "abcdef");
    let mut u = String::new();
    push_padded(&mut u, "", 2);
    assert_eq!(u, "  ");
}

#[test]
fn padding_counts_characters() {
    let mut s = String::new();
    push_padded(&mut s, "é", 3);
    assert_eq!(s, format!("{:<3}", "é"));
    assert_eq!(s, "é  ");
}

#[test]
fn case_insensitive_equality() {
    assert!(eq_ignore_case("PROJ", "proj"));
    assert!(eq_ignore_case("Priority", "pRIORITY"));
    assert!(!eq_ignore_case("Priority", "Priorit"));
    assert!(eq_ignore_case("ÄBC", "äbc"));
}

#[test]
fn prefixes() {
    assert!(starts_with("enum[1]", "enum"));
    assert!(starts_with("enum", "enum"));
    assert!(!starts_with("enu", "enum"));
    assert!(starts_with("x", ""));
    assert!(!starts_with("state[1]", "enum"));
}

#[test]
fn trailing_slashes_are_trimmed() {
    assert_eq!(trim_end_slashes("https://example.youtrack.cloud/api/"), "https://example.youtrack.cloud/api");
    assert_eq!(trim_end_slashes("https://x/api///"), "https://x/api");
    assert_eq!(trim_end_slashes("https://x/api"), "https://x/api");
    assert_eq!(trim_end_slashes("///"), "");
    assert_eq!(trim_end_slashes(""), "");
}

#[test]
fn trimming_twice_changes_nothing() {
    let once = trim_end_slashes("http://h/a//");
    assert_eq!(trim_end_slashes(&once), once);
}

#[test]
fn characters_of_a_string() {
    assert_eq!(chars_of("aé€"), vec!['a', 'é', '€']);
    assert!(chars_of("").is_empty());
}
