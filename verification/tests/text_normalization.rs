use asr_core::json_escape;
use asr_core::strip_punctuation;
use asr_core::strip_trailing_punctuation;

fn stripped(s: &str) -> String {
    let mut t = s.to_string();
    strip_trailing_punctuation(&mut t);
    t
}

#[test]
fn test_strip_trailing_basic() {
    assert_eq!(stripped("\u{4f60}\u{597d}\u{3002}"), "\u{4f60}\u{597d}");
    assert_eq!(stripped("hello!!!"), "hello");
    assert_eq!(stripped("hello"), "hello");
    assert_eq!(stripped(""), "");
}

#[test]
fn test_strip_trailing_whole_string() {
    assert_eq!(stripped("\u{3002}\u{ff0c}\u{ff01}"), "");
    assert_eq!(stripped("...!?"), "");
}

#[test]
fn test_strip_trailing_keeps_interior_punctuation() {
    assert_eq!(stripped("a.b."), "a.b");
    assert_eq!(stripped("a, b; c:"), "a, b; c");
}

#[test]
fn test_strip_trailing_idempotent() {
    for s in ["hello!!!", "\u{4f60}\u{597d}\u{3002}\u{ff01}", "", "a.b.", "\u{3002}"] {
        let once = stripped(s);
        let twice = stripped(&once);
        assert_eq!(once, twice);
        // an already-clean string is left alone
        assert_eq!(stripped(&once), once);
    }
}

#[test]
fn test_strip_punctuation_removes_everywhere() {
    assert_eq!(
        strip_punctuation("\u{4f60}\u{597d}\u{ff0c}\u{4e16}\u{754c}\u{ff01}"),
        "\u{4f60}\u{597d}\u{4e16}\u{754c}"
    );
    assert_eq!(strip_punctuation("a,b.c"), "abc");
    assert_eq!(strip_punctuation(""), "");
    assert_eq!(strip_punctuation("clean text"), "clean text");
}

#[test]
fn test_strip_punctuation_curly_quotes() {
    assert_eq!(strip_punctuation("\u{2018}a\u{2019}"), "a");
}

#[test]
fn test_strip_punctuation_idempotent() {
    for s in ["a,b.c", "\u{4f60}\u{597d}\u{ff01}", "", "xyz"] {
        let once = strip_punctuation(s);
        assert_eq!(strip_punctuation(&once), once);
    }
}

#[test]
fn test_json_escape() {
    assert_eq!(json_escape("plain"), "plain");
    assert_eq!(json_escape("a\"b"), "a\\\"b");
    assert_eq!(json_escape("back\\slash"), "back\\\\slash");
    assert_eq!(json_escape("line\nbreak\ttab"), "line\\nbreak\\ttab");
    assert_eq!(json_escape("\u{1}"), "\\u0001");
    assert_eq!(json_escape("\u{1f}"), "\\u001f");
    assert_eq!(json_escape(""), "");
}

