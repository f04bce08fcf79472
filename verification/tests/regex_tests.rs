use formatparse_core::build_case_insensitive_regex;
use formatparse_core::build_regex;
use formatparse_core::build_search_regex;
use formatparse_core::prepare_search_regex;
use formatparse_core::FormatParseError;

#[test]
fn test_build_regex() {
    let regex = build_regex(r"^test$").unwrap();
    assert!(regex.is_match("test"));
    assert!(!regex.is_match("TEST"));
    assert!(!regex.is_match("notest"));
}

#[test]
fn test_build_regex_with_dotall() {
    let regex = build_regex(r"test.line").unwrap();
    assert!(regex.is_match("test\nline"));
}

#[test]
fn test_build_case_insensitive_regex() {
    let regex = build_case_insensitive_regex(r"^test$").unwrap();
    assert!(regex.is_match("test"));
    assert!(regex.is_match("TEST"));
    assert!(regex.is_match("Test"));
    assert!(!regex.is_match("notest"));
}

#[test]
fn test_build_case_insensitive_regex_with_dotall() {
    let regex = build_case_insensitive_regex(r"test.line").unwrap();
    assert!(regex.is_match("TEST\nLINE"));
}

#[test]
fn test_prepare_search_regex_no_anchors() {
    let result = prepare_search_regex(r"test");
    assert_eq!(result, "test");
}

#[test]
fn test_prepare_search_regex_with_anchors() {
    let result = prepare_search_regex(r"^test$");
    assert_eq!(result, "test");
}

#[test]
fn test_prepare_search_regex_with_dotall() {
    let result = prepare_search_regex(r"(?s)^test$");
    assert_eq!(result, "test");
}

#[test]
fn test_prepare_search_regex_start_anchor_only() {
    let result = prepare_search_regex(r"^test");
    assert_eq!(result, "test");
}

#[test]
fn test_prepare_search_regex_end_anchor_only() {
    let result = prepare_search_regex(r"test$");
    assert_eq!(result, "test");
}

#[test]
fn test_build_search_regex_case_sensitive() {
    let regex = build_search_regex(r"^test$", true).unwrap();
    assert!(regex.is_match("test"));
    assert!(!regex.is_match("TEST"));
    // Should match anywhere in string (no anchors)
    assert!(regex.is_match("prefix test suffix"));
}

#[test]
fn test_build_search_regex_case_insensitive() {
    let regex = build_search_regex(r"^test$", false).unwrap();
    assert!(regex.is_match("test"));
    assert!(regex.is_match("TEST"));
    assert!(regex.is_match("Test"));
    // Should match anywhere in string (no anchors)
    assert!(regex.is_match("prefix TEST suffix"));
}

#[test]
fn test_build_search_regex_with_dotall() {
    let regex = build_search_regex(r"test.line", true).unwrap();
    assert!(regex.is_match("test\nline"));
    assert!(regex.is_match("prefix test\nline suffix"));
}

#[test]
fn test_prepare_search_regex_idempotent() {
    let once = prepare_search_regex(r"(?s)^test$");
    let twice = prepare_search_regex(&once);
    assert_eq!(twice, once);

    let once = prepare_search_regex(r"a.b");
    let twice = prepare_search_regex(&once);
    assert_eq!(twice, once);
}

#[test]
fn test_prepare_search_regex_anchor_round_trip() {
    let anchored = format!("^{}$", "a[0-9]+b");
    assert_eq!(prepare_search_regex(&anchored), "a[0-9]+b");
}

#[test]
fn test_prepare_search_regex_edge_patterns() {
    assert_eq!(prepare_search_regex(""), "");
    assert_eq!(prepare_search_regex("^"), "");
    assert_eq!(prepare_search_regex("$"), "");
    assert_eq!(prepare_search_regex("^$"), "");
    assert_eq!(prepare_search_regex("(?s)"), "");
    assert_eq!(prepare_search_regex("(?s)^$"), "");
}

#[test]
fn test_prepare_search_regex_multibyte() {
    // The trailing anchor must be found on a character boundary even when
    // the pattern holds multi-byte content just before it.
    assert_eq!(prepare_search_regex("^h\u{00e9}llo\u{20ac}$"), "h\u{00e9}llo\u{20ac}");
    assert_eq!(prepare_search_regex("\u{00e9}$"), "\u{00e9}");
}

#[test]
fn test_prepare_search_regex_strips_only_leading_and_trailing() {
    // Directives and anchors away from the expected positions stay put.
    assert_eq!(prepare_search_regex("a(?s)b"), "a(?s)b");
    assert_eq!(prepare_search_regex("a^b$c"), "a^b$c");
    assert_eq!(prepare_search_regex("te^st"), "te^st");
}

#[test]
fn test_build_regex_error() {
    let result = build_regex("(unclosed");
    match result {
        Err(FormatParseError::RegexError(msg)) => {
            assert!(!msg.is_empty());
        }
        Ok(_) => panic!("an unclosed group must be rejected"),
    }
}

#[test]
fn test_build_case_insensitive_regex_error() {
    assert!(build_case_insensitive_regex("(unclosed").is_none());
}

#[test]
fn test_build_search_regex_error() {
    let result = build_search_regex("^(unclosed$", true);
    assert!(matches!(result, Err(FormatParseError::RegexError(_))));
}

#[test]
fn test_build_regex_compiles_flagged_pattern() {
    // The injected DOTALL directive travels with the string: the compiled
    // form is anchored exactly as authored and spans line terminators.
    let regex = build_regex("^a.c$").unwrap();
    assert!(regex.is_match("a\nc"));
    assert!(!regex.is_match("xa\ncx"));
}

#[test]
fn test_build_search_regex_multibyte_anchored() {
    let regex = build_search_regex("^h\u{00e9}llo$", true).unwrap();
    assert!(regex.is_match("say h\u{00e9}llo there"));
    assert!(!regex.is_match("say hello there"));
}
