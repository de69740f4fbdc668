use wordinfo::selector::{
    record_from_matches, Document, Field, RealSelector, RealSelectorString, Selector,
};
use wordinfo::word::{Delimiter, Word};
use wordinfo::wordselector::WordSelector;

const PAGE: &str = r#"
            <div>
                <div class="it">TestWord</div>
                <div class="it">TestWord</div>
                <div class="metadata">TestMetadata</div>
                <div class="metadata">TestMetadata</div>
                <div class="definition">TestDefinition</div>
                <div class="definition">TestDefinition</div>
                <div class="example">TestExample</div>
                <div class="example">TestExample</div>
            </div>
        "#;

#[test]
fn test_select_one() {
    let html = Document::parse(PAGE);
    let delimiter = Delimiter::new("_", ", ", "; ", ". ");
    let realselectorstring = RealSelectorString::new(".it", ".metadata", ".definition", ".example");
    let result_word = realselectorstring.select_one(&html, "", &delimiter).unwrap();
    let expected_word = Word::new(
        "TestWord_TestWord",
        "TestMetadata, TestMetadata",
        "TestDefinition; TestDefinition",
        "TestExample. TestExample",
    );
    assert_eq!(result_word.it, expected_word.it);
    assert_eq!(result_word.metadata, expected_word.metadata);
    assert_eq!(result_word.definition, expected_word.definition);
    assert_eq!(result_word.example, expected_word.example);
}

#[test]
fn two_fragments_are_joined_by_the_field_delimiter() {
    let html = Document::parse(
        r#"<html><body><p class="d">A</p><span>x</span><p class="d">B</p></body></html>"#,
    );
    let queries = RealSelectorString::new(".d", ".d", ".d", ".d");
    let delimiter = Delimiter::new("_", "_", "_", "_");
    let w = queries.select_one(&html, "term", &delimiter).unwrap();
    assert_eq!(w.it, "A_B");
    assert_eq!(w.metadata, "A_B");
    assert_eq!(w.definition, "A_B");
    assert_eq!(w.example, "A_B");
}

#[test]
fn headword_falls_back_to_the_term() {
    let html = Document::parse("<html><body><p class=\"def\">meaning</p></body></html>");
    let queries = RealSelectorString::new(".missing", ".missing", ".def", ".missing");
    let w = queries.select_one(&html, "apple", &Delimiter::default()).unwrap();
    assert_eq!(w.it, "apple");
    assert_eq!(w.metadata, "");
    assert_eq!(w.definition, "meaning");
    assert_eq!(w.example, "");
}

#[test]
fn blank_headword_match_falls_back_to_the_term() {
    let html = Document::parse("<html><body><h1 class=\"hw\">  \n </h1></body></html>");
    let queries = RealSelectorString::new(".hw", ".hw", ".hw", ".hw");
    let w = queries.select_one(&html, "pear", &Delimiter::default()).unwrap();
    assert_eq!(w.it, "pear");
    assert_eq!(w.definition, "");
    assert!(w.is_empty());
}

#[test]
fn extraction_is_repeatable() {
    let html = Document::parse(PAGE);
    let compiled =
        RealSelector::try_from(&RealSelectorString::new(".it", ".metadata", ".definition", ".example"))
            .unwrap();
    let d = Delimiter::new("_", ", ", "; ", ". ");
    let a = compiled.extract(&html, "w", &d);
    let b = compiled.extract(&html, "w", &d);
    assert_eq!(a.it, b.it);
    assert_eq!(a.metadata, b.metadata);
    assert_eq!(a.definition, b.definition);
    assert_eq!(a.example, b.example);
}

#[test]
fn matched_text_is_normalized() {
    let html = Document::parse(
        "<html><body><div class=\"d\">\n   first line   \n\n\t  second  line \n </div></body></html>",
    );
    let queries = RealSelectorString::new(".d", ".d", ".d", ".d");
    let w = queries.select_one(&html, "t", &Delimiter::default()).unwrap();
    assert_eq!(w.definition, "first line\nsecond  line");
    assert_eq!(w.it, "first line\nsecond  line");
}

#[test]
fn nested_text_is_concatenated() {
    let html = Document::parse("<html><body><div class=\"d\">ab<b>cd</b>ef</div></body></html>");
    let queries = RealSelectorString::new(".d", ".d", ".d", ".d");
    let w = queries.select_one(&html, "t", &Delimiter::default()).unwrap();
    assert_eq!(w.it, "abcdef");
}

#[test]
fn malformed_query_names_its_field() {
    let cases = [
        (RealSelectorString::new("[", ".a", ".a", ".a"), Field::It),
        (RealSelectorString::new(".a", "..b", "[", ".a"), Field::Metadata),
        (RealSelectorString::new(".a", ".b", "#", ".a"), Field::Definition),
        (RealSelectorString::new(".a", ".b", ".c", ">>"), Field::Example),
    ];
    let html = Document::parse(PAGE);
    for (queries, field) in cases.iter() {
        let err = RealSelector::try_from(queries).err().unwrap();
        assert_eq!(err.field, *field);
        assert!(!err.message.is_empty());
        assert!(err.describe().contains("Selector construction error"));
        let err = queries.select_one(&html, "x", &Delimiter::default()).err().unwrap();
        assert_eq!(err.field, *field);
    }
}

#[test]
fn profile_select_one_uses_its_delimiters() {
    let profile = Selector::new(
        "test",
        RealSelectorString::new(".it", ".metadata", ".definition", ".example"),
        "https://example.org/{}",
        Delimiter::new("-", "+", "|", "/"),
    );
    let w = profile.select_one(&Document::parse(PAGE), "").unwrap();
    assert_eq!(w.it, "TestWord-TestWord");
    assert_eq!(w.metadata, "TestMetadata+TestMetadata");
    assert_eq!(w.definition, "TestDefinition|TestDefinition");
    assert_eq!(w.example, "TestExample/TestExample");
}

#[test]
fn url_template_is_filled() {
    let profile = Selector::new(
        "test",
        RealSelectorString::new("a", "b", "c", "d"),
        "https://example.org/search?q={}&lang=en",
        Delimiter::default(),
    );
    assert_eq!(profile.url_for("apple"), "https://example.org/search?q=apple&lang=en");
}

#[test]
fn default_delimiters() {
    let d = Delimiter::default();
    assert_eq!(d.it, " ");
    assert_eq!(d.metadata, " ");
    assert_eq!(d.definition, "; ");
    assert_eq!(d.example, "\n");
}

#[test]
fn word_selector_compiles_each_field() {
    let ok = WordSelector::try_from(&Word::new(".a", ".b", "#c", "p > q"));
    assert!(ok.is_ok());
    let err = WordSelector::try_from(&Word::new(".a", ".b", "[[", "p")).err().unwrap();
    assert_eq!(err.field, Field::Definition);
}

fn texts(v: &[&str]) -> Vec<String> {
    v.iter().map(|s| s.to_string()).collect()
}

#[test]
fn record_from_two_fragments() {
    let d = Delimiter::new("_", "_", "_", "_");
    let ab = texts(&["A", "B"]);
    let w = record_from_matches(&ab, &ab, &ab, &ab, "t", &d);
    assert_eq!(w.it, "A_B");
    assert_eq!(w.metadata, "A_B");
    assert_eq!(w.definition, "A_B");
    assert_eq!(w.example, "A_B");
}

#[test]
fn record_from_no_fragments() {
    let none = texts(&[]);
    let w = record_from_matches(&none, &none, &none, &none, "apple", &Delimiter::default());
    assert_eq!(w.it, "apple");
    assert_eq!(w.metadata, "");
    assert_eq!(w.definition, "");
    assert_eq!(w.example, "");
    let w = record_from_matches(&texts(&[" ", "\n"]), &none, &none, &none, "fig", &Delimiter::default());
    assert_eq!(w.it, "fig");
}

#[test]
fn record_fields_are_normalized_after_joining() {
    let d = Delimiter::new(" ", "\n", "; ", "\n");
    let w = record_from_matches(
        &texts(&["  run ", " (verb)  "]),
        &texts(&["  /rʌn/ ", "", "  "]),
        &texts(&["move fast", "\n  operate\n"]),
        &texts(&["He runs.", "  ", "They ran. "]),
        "run",
        &d,
    );
    assert_eq!(w.it, "run   (verb)");
    assert_eq!(w.metadata, "/rʌn/");
    assert_eq!(w.definition, "move fast;\noperate");
    assert_eq!(w.example, "He runs.\nThey ran.");
}
