use dicom_download_cli::text::{
    format_pad3, parse_u32, str_eq, str_starts_with, to_ascii_lower, to_ascii_upper, trim_str,
    vec_contains_str,
};

#[test]
fn parsing_accepts_plain_digit_strings() {
    assert_eq!(parse_u32("0"), Some(0));
    assert_eq!(parse_u32("007"), Some(7));
    assert_eq!(parse_u32("4294967295"), Some(u32::MAX));
}

#[test]
fn parsing_rejects_non_digits_and_overflow() {
    assert_eq!(parse_u32(""), None);
    assert_eq!(parse_u32("12a"), None);
    assert_eq!(parse_u32("-3"), None);
    assert_eq!(parse_u32(" 3"), None);
    assert_eq!(parse_u32("4294967296"), None);
    assert_eq!(parse_u32("99999999999999999999"), None);
}

#[test]
fn padding_widens_to_three_digits() {
    assert_eq!(format_pad3(0), "000");
    assert_eq!(format_pad3(7), "007");
    assert_eq!(format_pad3(42), "042");
    assert_eq!(format_pad3(999), "999");
    assert_eq!(format_pad3(1234), "1234");
}

#[test]
fn case_folding_is_ascii_only() {
    assert_eq!(to_ascii_upper("com9"), "COM9");
    assert_eq!(to_ascii_lower("UnKnOwN"), "unknown");
    assert_eq!(to_ascii_upper("a-b_c"), "A-B_C");
}

#[test]
fn trimming_strips_surrounding_whitespace() {
    assert_eq!(trim_str("  a b \t"), "a b");
    assert_eq!(trim_str("\r\nx\r\n"), "x");
    assert_eq!(trim_str("   "), "");
    assert_eq!(trim_str(""), "");
    assert_eq!(trim_str("solid"), "solid");
}

#[test]
fn string_comparisons_work_charwise() {
    assert!(str_eq("abc", "abc"));
    assert!(!str_eq("abc", "abd"));
    assert!(!str_eq("abc", "ab"));
    assert!(str_starts_with("DWI1000", "DWI"));
    assert!(!str_starts_with("DW", "DWI"));
    let hay = vec!["a".to_string(), "b".to_string()];
    assert!(vec_contains_str(&hay, "b"));
    assert!(!vec_contains_str(&hay, "c"));
}
