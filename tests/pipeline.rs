use wordinfo::pipeline::{finish_lookup, lookup_target, prepare_term, LookupResult, OrderedResults};
use wordinfo::selector::{RealSelector, RealSelectorString, Selector};
use wordinfo::word::Delimiter;

fn page(word: &str) -> String {
    format!(
        "<html><body><h1 class=\"hw\">{}</h1><p class=\"def\">def of {}</p></body></html>",
        word, word
    )
}

fn compiled() -> RealSelector {
    RealSelector::try_from(&RealSelectorString::new(".hw", ".meta", ".def", ".ex")).unwrap()
}

fn result_for(word: &str, body: Result<String, String>) -> LookupResult {
    finish_lookup(&compiled(), &Delimiter::default(), word.to_string(), format!("u/{}", word), body)
}

#[test]
fn results_come_out_in_submission_order() {
    let mut q = OrderedResults::new(3);
    assert!(q.complete(1, result_for("w2", Ok(page("w2")))));
    assert!(q.pop_ready().is_none());
    assert!(q.complete(0, result_for("w1", Ok(page("w1")))));
    assert!(q.complete(2, result_for("w3", Ok(page("w3")))));
    let order: Vec<String> = std::iter::from_fn(|| q.pop_ready()).map(|r| r.term).collect();
    assert_eq!(order, vec!["w1", "w2", "w3"]);
    assert!(q.is_finished());
}

#[test]
fn a_failure_stays_in_its_own_slot() {
    let mut q = OrderedResults::new(3);
    assert!(q.complete(2, result_for("w3", Ok(page("w3")))));
    assert!(q.complete(1, result_for("w2", Err("connection refused".to_string()))));
    assert!(q.complete(0, result_for("w1", Ok(page("w1")))));
    let r1 = q.pop_ready().unwrap();
    let r2 = q.pop_ready().unwrap();
    let r3 = q.pop_ready().unwrap();
    assert!(q.pop_ready().is_none());
    assert_eq!(r1.outcome.unwrap().it, "w1");
    assert_eq!(r2.outcome.err().unwrap(), "connection refused");
    let w3 = r3.outcome.unwrap();
    assert_eq!(w3.it, "w3");
    assert_eq!(w3.definition, "def of w3");
}

#[test]
fn completing_a_slot_twice_or_out_of_range_is_refused() {
    let mut q = OrderedResults::new(2);
    assert_eq!(q.len(), 2);
    assert!(q.complete(0, result_for("a", Ok(page("a")))));
    assert!(!q.complete(0, result_for("b", Ok(page("b")))));
    assert!(!q.complete(5, result_for("c", Ok(page("c")))));
    assert_eq!(q.pop_ready().unwrap().term, "a");
    assert!(!q.complete(0, result_for("d", Ok(page("d")))));
    assert!(!q.is_finished());
}

#[test]
fn empty_page_gives_the_term_as_headword() {
    let r = result_for("kiwi", Ok(String::new()));
    assert_eq!(r.url, "u/kiwi");
    let w = r.outcome.unwrap();
    assert_eq!(w.it, "kiwi");
    assert!(w.is_empty());
}

#[test]
fn japanese_terms_are_transliterated() {
    assert_eq!(prepare_term("suki", true), "\u{3059}\u{304d}");
    assert_eq!(prepare_term("suki", false), "suki");
    let profile = Selector::new(
        "weblio",
        RealSelectorString::new("a", "b", "c", "d"),
        "https://www.weblio.jp/content/{}",
        Delimiter::default(),
    );
    let (term, url) = lookup_target(&profile, "suki", true);
    assert_eq!(term, "\u{3059}\u{304d}");
    assert_eq!(url, "https://www.weblio.jp/content/\u{3059}\u{304d}");
    let (term, url) = lookup_target(&profile, "apple", false);
    assert_eq!(term, "apple");
    assert_eq!(url, "https://www.weblio.jp/content/apple");
}
