//! A dictionary entry to be processed by a dictionary-specific processor.
use vstd::prelude::*;

verus! {

#[verifier::external_type_specification]
#[verifier::external_body]
pub struct ExAnyhowError(anyhow::Error);

/// The page of the Cambridge English-Chinese dictionary for a word is this
/// prefix followed by the word.
pub const CAMBRIDGE_EN_ZH: &'static str =
    "https://dictionary.cambridge.org/dictionary/english-chinese-simplified/";

/// A word to look up, its language and its meaning once found.
pub struct Item {
    word: String,
    lang: Option<&'static str>,
    meaning: Option<String>,
}

/// A dictionary-specific processor of entries.
pub trait Process {
    /// Turns a fetched page into the text of the entry.
    fn process(content: String) -> anyhow::Result<String>;

    /// The page to fetch for this entry.
    fn url(&self) -> String;
}

impl Item {
    /// The word to look up.
    pub closed spec fn word(&self) -> Seq<char> {
        self.word@
    }

    /// The meaning found so far.
    pub closed spec fn meaning(&self) -> Option<String> {
        self.meaning
    }

    /// The language of the word.
    pub closed spec fn lang(&self) -> Option<&'static str> {
        self.lang
    }

    pub fn new(word: String, lang: Option<&'static str>, meaning: Option<String>) -> (r: Self)
        ensures
            r.word() == word@,
            r.lang() == lang,
            r.meaning() == meaning,
    {
        Self { word, lang, meaning }
    }

    /// Runs the lookup; no processor yields a meaning yet, so the result is
    /// always empty.
    pub fn exec() -> (r: Option<String>)
        ensures
            r matches Some(s) && s@.len() == 0,
    {
        Some(String::new())
    }

    /// The Cambridge English-Chinese page of this word.
    pub fn cambridge_url(&self) -> (r: String)
        ensures
            r@ == CAMBRIDGE_EN_ZH@ + self.word(),
    {
        let mut r = CAMBRIDGE_EN_ZH.to_owned();
        r.append(self.word.as_str());
        r
    }
}

impl Process for Item {
    /// Extraction for this dictionary is not written yet: the entry text is
    /// empty.
    fn process(content: String) -> (r: anyhow::Result<String>)
        ensures
            r matches Ok(s) && s@.len() == 0,
    {
        Ok(String::new())
    }

    fn url(&self) -> (r: String)
        ensures
            r@ == CAMBRIDGE_EN_ZH@ + self.word(),
    {
        self.cambridge_url()
    }
}

} // verus!
