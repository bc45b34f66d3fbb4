use aureli::text::{contains_substr, h1_pattern, has_comment_with_id, u32_to_dec_string};

#[test]
fn decimal_rendering_is_exact() {
    assert_eq!(u32_to_dec_string(0), "0");
    assert_eq!(u32_to_dec_string(7), "7");
    assert_eq!(u32_to_dec_string(12345), "12345");
    assert_eq!(u32_to_dec_string(u32::MAX), "4294967295");
}

#[test]
fn h1_pattern_wraps_the_id() {
    assert_eq!(h1_pattern(12345), "<h1>12345</h1>");
    assert_eq!(h1_pattern(0), "<h1>0</h1>");
}

#[test]
fn comment_body_holds_the_id() {
    // Line comments: the id must sit on the opener's line.
    assert!(has_comment_with_id("// id 12345", "12345"));
    assert!(has_comment_with_id("let x = 1; // 12345", "12345"));
    assert!(!has_comment_with_id("// milik\n12345", "12345"));
    // Block comments: the id must sit before the first close.
    assert!(has_comment_with_id("/* 12345 */", "12345"));
    assert!(has_comment_with_id("/* baris\n 12345 \nbaris */", "12345"));
    assert!(!has_comment_with_id("/* a */ 12345 /* b */", "12345"));
    // An unterminated block comment has no body.
    assert!(!has_comment_with_id("/* 12345", "12345"));
    // No comment at all.
    assert!(!has_comment_with_id("12345", "12345"));
}

#[test]
fn substring_containment() {
    assert!(contains_substr("text/html; charset=utf-8", "html"));
    assert!(contains_substr("html", "html"));
    assert!(contains_substr("anything", ""));
    assert!(!contains_substr("application/json", "html"));
    assert!(!contains_substr("htm", "html"));
    assert!(!contains_substr("", "html"));
}
