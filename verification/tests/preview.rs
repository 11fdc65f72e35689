use pi_interactive::preview::{push_line, queued_message_preview, truncate};

#[test]
fn truncate_short_string() {
    assert_eq!(truncate("hi", 10), "hi");
}

#[test]
fn truncate_exact_fit() {
    assert_eq!(truncate("hello", 5), "hello");
}

#[test]
fn truncate_adds_ellipsis() {
    assert_eq!(truncate("hello world!", 8), "hello...");
}

#[test]
fn truncate_zero() {
    assert_eq!(truncate("anything", 0), "");
}

#[test]
fn truncate_very_small_max() {
    assert_eq!(truncate("hello", 1), ".");
    assert_eq!(truncate("hello", 2), "..");
    assert_eq!(truncate("hello", 3), "...");
}

#[test]
fn truncation_counts_characters_and_fits() {
    assert_eq!(truncate("\u{e9}\u{e9}\u{e9}\u{e9}\u{e9}", 4), "\u{e9}...");
    assert_eq!(truncate("\u{e9}\u{e9}", 2), "\u{e9}\u{e9}");
    for max in 0..15 {
        let cut = truncate("hello world!", max);
        assert_eq!(cut.chars().count(), max.min(12));
        assert_eq!(truncate(&cut, max), cut);
    }
}

#[test]
fn queued_preview_short() {
    assert_eq!(queued_message_preview("hello", 10), "hello");
}

#[test]
fn queued_preview_truncated() {
    assert_eq!(queued_message_preview("hello world!", 8), "hello...");
}

#[test]
fn queued_preview_multiline() {
    assert_eq!(queued_message_preview("\n\nhello\nworld", 20), "hello");
}

#[test]
fn queued_preview_empty() {
    assert_eq!(queued_message_preview("", 10), "(empty)");
    assert_eq!(queued_message_preview("  \n  \n  ", 10), "(empty)");
}

#[test]
fn queued_preview_drops_outer_white_space() {
    assert_eq!(queued_message_preview(" \r\n  two words \r\nmore", 20), "two words");
}

#[test]
fn push_line_to_empty() {
    let mut s = String::new();
    push_line(&mut s, "hello");
    assert_eq!(s, "hello");
}

#[test]
fn push_line_appends_with_newline() {
    let mut s = "hello".to_string();
    push_line(&mut s, "world");
    assert_eq!(s, "hello\nworld");
}

#[test]
fn push_line_skips_empty() {
    let mut s = "hello".to_string();
    push_line(&mut s, "");
    assert_eq!(s, "hello");
}
