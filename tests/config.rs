use wordinfo::config::{Config, LanguageSelectors, ResolveError};
use wordinfo::selector::{RealSelectorString, Selector, SelectorType};
use wordinfo::word::Delimiter;

#[test]
fn test_get_selectors_by_language() {
    let config = Config::default();
    let selectors = config.get_selectors_by_language(None).unwrap();
    assert!(selectors.iter().any(|x| x.name == "oxford"));
}

#[test]
fn test_get_selector_by_name() {
    let config = Config::default();
    let (selector, _) = config.get_selector_by_name(None, Some("cam".into())).unwrap();
    assert_eq!(selector.name, "cambridge-zh");
    let (selector, _) = config.get_selector_by_name(Some("jp"), Some("cam".into())).unwrap();
    assert_eq!(selector.name, "cambridge-en");
}

#[test]
fn no_name_resolves_to_the_first_profile() {
    let config = Config::default();
    let (selector, hint) = config.get_selector_by_name(None, None).unwrap();
    assert_eq!(selector.name, "cambridge-zh");
    assert!(hint.is_none());
    let (selector, hint) = config.get_selector_by_name(Some("jp"), None).unwrap();
    assert_eq!(selector.name, "weblio");
    assert!(hint.is_none());
}

#[test]
fn unmatched_name_falls_back_with_a_hint() {
    let config = Config::default();
    let (selector, hint) = config.get_selector_by_name(Some("en"), Some("zzz".into())).unwrap();
    assert_eq!(selector.name, "cambridge-zh");
    let hint = hint.unwrap();
    assert_eq!(hint.requested, "zzz");
    assert_eq!(hint.language, "en");
    assert_eq!(hint.available, vec!["cambridge-zh", "oxford", "bing-cn"]);
}

#[test]
fn exact_prefix_picks_a_later_profile() {
    let config = Config::default();
    let (selector, hint) = config.get_selector_by_name(None, Some("bing".into())).unwrap();
    assert_eq!(selector.name, "bing-cn");
    assert!(hint.is_none());
}

fn profile(name: &str) -> Selector {
    Selector::new(name, RealSelectorString::new("a", "b", "c", "d"), "u/{}", Delimiter::default())
}

#[test]
fn other_languages_are_looked_up_by_code() {
    let mut config = Config::default();
    config.other_languages.push(LanguageSelectors {
        language: "fr".into(),
        selectors: vec![profile("larousse"), profile("wiktionnaire")],
    });
    config.other_languages.push(LanguageSelectors { language: "de".into(), selectors: vec![] });
    let (selector, _) = config.get_selector_by_name(Some("fr"), Some("wik".into())).unwrap();
    assert_eq!(selector.name, "wiktionnaire");
    match config.get_selector_by_name(Some("de"), None) {
        Err(ResolveError::NoSelectors(l)) => assert_eq!(l, "de"),
        _ => panic!("expected NoSelectors"),
    }
    match config.get_selector_by_name(Some("xx"), None) {
        Err(ResolveError::UnknownLanguage(l)) => assert_eq!(l, "xx"),
        _ => panic!("expected UnknownLanguage"),
    }
}

#[test]
fn default_language_is_used_when_none_is_given() {
    let mut config = Config::default();
    config.default_language = "jp".into();
    let (selector, _) = config.get_selector_by_name(None, None).unwrap();
    assert_eq!(selector.name, "weblio");
}

#[test]
fn default_configuration() {
    let config = Config::default();
    assert_eq!(config.default_language, "en");
    assert_eq!(config.delimiter_between_words, "\n\n");
    assert_eq!(config.delimiter_between_paragraphs, "\n");
    assert_eq!(config.color.it, "red");
    assert_eq!(config.en.len(), 3);
    assert_eq!(config.jp[2].name, "dict-asia");
    assert_eq!(config.en[0].delimiter.definition, "\n");
    assert!(config.other_languages.is_empty());
    let all = config.all_selector_names();
    assert_eq!(all.len(), 2);
    assert_eq!(all[1].0, "jp");
    assert_eq!(all[1].1, vec!["weblio", "cambridge-en", "dict-asia"]);
}

#[test]
fn built_in_profiles_are_css_with_one_url_marker() {
    let config = Config::default();
    for s in config.en.iter().chain(config.jp.iter()) {
        assert_eq!(s.selector_type, SelectorType::Css);
        assert_eq!(s.url.matches("{}").count(), 1);
    }
    assert_eq!(config.jp[0].selector.it, "NULL");
    assert_eq!(config.en[2].delimiter.definition, " ");
    assert_eq!(config.jp[1].delimiter.definition, "; ");
}
