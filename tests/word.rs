use wordinfo::text::{normalize_text, trim_text};
use wordinfo::word::Word;

#[test]
fn test_print() {
    let w = Word::new("test", "123", "456", "789");
    let mut color = Word::new("red", "green", "blue", "yellow");
    assert!(!w.is_empty());
    color.definition = "  \n  \t ".into();
    assert!(color.is_empty());
}

#[test]
fn new_normalizes_every_field() {
    let w = Word::new("  a  \n\n b ", "\n\nx\n", " \t ", "l1 \r\n\r\n  l2");
    assert_eq!(w.it, "a\nb");
    assert_eq!(w.metadata, "x");
    assert_eq!(w.definition, "");
    assert_eq!(w.example, "l1\nl2");
}

#[test]
fn normalizing_twice_changes_nothing() {
    for s in [
        "",
        "   ",
        "\n\n\n",
        "  a \n\n\t b\t\n  c  ",
        "one\r\ntwo\r\n\r\n",
        "\u{3000}wide\u{3000}\n\u{a0}nbsp",
        "x  y",
    ] {
        let once = normalize_text(s);
        let twice = normalize_text(&once);
        assert_eq!(once, twice);
    }
}

#[test]
fn normalization_examples() {
    assert_eq!(normalize_text("  a  \n\n  b  "), "a\nb");
    assert_eq!(normalize_text("\u{3000}wide\u{3000}\n\u{a0}nbsp"), "wide\nnbsp");
    assert_eq!(normalize_text(" \n \t \n"), "");
}

#[test]
fn trim_removes_unicode_whitespace() {
    assert_eq!(trim_text("\u{2003} a b \u{85}"), "a b");
    assert_eq!(trim_text("   "), "");
}

#[test]
fn records_compare_by_headword() {
    let a = Word::new("same", "1", "2", "3");
    let b = Word::new("same", "x", "y", "z");
    let c = Word::new("other", "1", "2", "3");
    assert!(a == b);
    assert!(a != c);
}
