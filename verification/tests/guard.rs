use rtk::guard::{emit_guarded, estimate_tokens, never_worse, print_with_hint};
use rtk::text::{blank, white_space};

#[test]
fn estimate_rounds_up_to_whole_tokens() {
    assert_eq!(estimate_tokens(""), 0);
    assert_eq!(estimate_tokens("a"), 1);
    assert_eq!(estimate_tokens("abcd"), 1);
    assert_eq!(estimate_tokens("abcde"), 2);
    assert_eq!(estimate_tokens("abcdefgh"), 2);
    // four bytes of UTF-8, one character
    assert_eq!(estimate_tokens("\u{1F600}"), 1);
    assert_eq!(estimate_tokens("é"), 1);
    assert_eq!(estimate_tokens("ééé"), 2);
}

#[test]
fn never_worse_keeps_a_smaller_body() {
    assert_eq!(never_worse("a long raw output here", "short"), "short");
}

#[test]
fn never_worse_keeps_a_body_of_equal_cost() {
    // 5 and 8 bytes both estimate to 2 tokens
    assert_eq!(never_worse("abcde", "12345678"), "12345678");
}

#[test]
fn never_worse_falls_back_to_raw_for_a_larger_body() {
    assert_eq!(never_worse("raw", "a much longer filtered text"), "raw");
    assert_eq!(never_worse("", "x"), "");
}

#[test]
fn emit_guarded_appends_the_hint_on_its_own_line() {
    let raw = "x".repeat(100);
    assert_eq!(emit_guarded("3 failed", Some("[full output: /tmp/t.log]"), &raw), "3 failed\n[full output: /tmp/t.log]");
    assert_eq!(emit_guarded("3 failed", None, &raw), "3 failed");
}

#[test]
fn emit_guarded_caps_hint_and_body_at_raw() {
    assert_eq!(emit_guarded("ok", Some("hint text that is long"), "short raw"), "short raw");
}

#[test]
fn print_with_hint_matches_emit_guarded() {
    let raw = "y".repeat(40);
    assert_eq!(print_with_hint("f", Some("h"), &raw), "f\nh");
    assert_eq!(print_with_hint("f", None, &raw), "f");
    assert_eq!(print_with_hint("ffff", Some("hhhhhhhh"), "r"), "r");
}

#[test]
fn blank_means_only_unicode_whitespace() {
    assert!(blank(""));
    assert!(blank(" \t\r\n"));
    assert!(blank("\u{3000}\u{00A0}\u{2009}"));
    assert!(!blank("  x  "));
    assert!(!blank("\u{200B}"));
    assert!(white_space('\u{85}'));
    assert!(!white_space('a'));
    for c in ['\t', '\n', '\u{b}', '\u{c}', '\r', ' ', '\u{85}', '\u{a0}', '\u{1680}', '\u{2000}', '\u{200a}', '\u{2028}', '\u{2029}', '\u{202f}', '\u{205f}', '\u{3000}'] {
        assert_eq!(white_space(c), c.is_whitespace());
    }
}
