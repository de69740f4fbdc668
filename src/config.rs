//! The language selector set and profile resolution.
use vstd::prelude::*;

use crate::selector::{RealSelectorString, Selector, SelectorType};
use crate::text::{same_text, starts_with_text, views};
use crate::word::{Fields, Word};

verus! {

/// The version written into configurations made by `Config::default`.
pub const CONFIG_VERSION: &'static str = "0.1.0";

/// The profiles of one language other than English and Japanese.
#[derive(Clone, Debug)]
pub struct LanguageSelectors {
    pub language: String,
    pub selectors: Vec<Selector>,
}

/// The configuration: default language, colors, output delimiters and the
/// profiles of each language, in order of precedence.
#[derive(Clone, Debug)]
pub struct Config {
    pub version: String,
    pub default_language: String,
    pub color: Word,
    pub delimiter_between_words: String,
    pub delimiter_between_paragraphs: String,
    pub en: Vec<Selector>,
    pub jp: Vec<Selector>,
    pub other_languages: Vec<LanguageSelectors>,
}

/// Why no profile could be picked.
#[derive(Clone, Debug)]
pub enum ResolveError {
    /// No profile list exists for this language.
    UnknownLanguage(String),
    /// The language's profile list is empty.
    NoSelectors(String),
}

/// The notice that a requested profile name matched nothing, so the
/// language's first profile is used.
#[derive(Clone, Debug)]
pub struct ResolveHint {
    /// The requested name prefix.
    pub requested: String,
    /// The language searched.
    pub language: String,
    /// The names of all profiles of that language, in order.
    pub available: Vec<String>,
}

/// The names of the profiles, in order.
pub open spec fn names(s: Seq<Selector>) -> Seq<Seq<char>> {
    s.map_values(|x: Selector| x.name@)
}

/// The profiles listed for `lang` among `entries`: those of the first entry
/// with that language.
pub open spec fn find_language(entries: Seq<LanguageSelectors>, lang: Seq<char>) -> Option<
    Seq<Selector>,
>
    decreases entries.len(),
{
    if entries.len() == 0 {
        None
    } else if entries[0].language@ == lang {
        Some(entries[0].selectors@)
    } else {
        find_language(entries.drop_first(), lang)
    }
}

/// `i` is the first position whose profile name starts with `prefix`.
pub open spec fn first_prefix_match(s: Seq<Selector>, prefix: Seq<char>, i: int) -> bool {
    &&& 0 <= i < s.len()
    &&& prefix.is_prefix_of(s[i].name@)
    &&& forall|j: int| 0 <= j < i ==> !prefix.is_prefix_of(#[trigger] s[j].name@)
}

/// Whether a request for `name` matches no profile name.
pub open spec fn falls_back(s: Seq<Selector>, name: Option<Seq<char>>) -> bool {
    name is Some && forall|i: int| 0 <= i < s.len() ==> !name->0.is_prefix_of(#[trigger] s[i].name@)
}

/// `sel` is the profile that a request for `name` resolves to: the first
/// whose name starts with `name`, else the first of all.
pub open spec fn resolves_to(s: Seq<Selector>, name: Option<Seq<char>>, sel: Selector) -> bool {
    if name is None || falls_back(s, name) {
        sel == s[0]
    } else {
        exists|i: int| first_prefix_match(s, name->0, i) && sel == #[trigger] s[i]
    }
}

/// The names of the profiles, in order.
pub fn selector_names(selectors: &Vec<Selector>) -> (r: Vec<String>)
    ensures
        views(r@) == names(selectors@),
{
    let mut r: Vec<String> = Vec::new();
    let mut i: usize = 0;
    while i < selectors.len()
        invariant
            i <= selectors@.len(),
            views(r@) == names(selectors@.subrange(0, i as int)),
        decreases selectors@.len() - i,
    {
        let name = selectors[i].name.as_str().to_owned();
        let ghost before = r@;
        r.push(name);
        assert(r@ == before.push(name));
        assert(views(r@) =~= views(before).push(name@));
        assert(names(selectors@.subrange(0, i + 1)) =~= names(selectors@.subrange(0, i as int)).push(
            selectors@[i as int].name@,
        ));
        i = i + 1;
    }
    assert(selectors@.subrange(0, selectors@.len() as int) =~= selectors@);
    r
}

impl Config {
    /// The language a request is for: the given one, else the default.
    pub open spec fn language_of(self, language: Option<&str>) -> Seq<char> {
        match language {
            Some(l) => l@,
            None => self.default_language@,
        }
    }

    /// The profiles of `lang`, if the configuration lists any.
    pub open spec fn selectors_of(self, lang: Seq<char>) -> Option<Seq<Selector>> {
        if lang == "en"@ {
            Some(self.en@)
        } else if lang == "jp"@ {
            Some(self.jp@)
        } else {
            find_language(self.other_languages@, lang)
        }
    }

    /// The profiles of the requested language, or of the default language.
    pub fn get_selectors_by_language(&self, language: Option<&str>) -> (r: Result<
        &Vec<Selector>,
        ResolveError,
    >)
        ensures
            match self.selectors_of(self.language_of(language)) {
                Some(s) => r matches Ok(v) && v@ == s,
                None => r matches Err(ResolveError::UnknownLanguage(l)) && l@ == self.language_of(
                    language,
                ),
            },
    {
        let lang: &str = match language {
            Some(l) => l,
            None => self.default_language.as_str(),
        };
        if same_text(lang, "en") {
            return Ok(&self.en);
        }
        if same_text(lang, "jp") {
            return Ok(&self.jp);
        }
        let entries = &self.other_languages;
        let mut i: usize = 0;
        assert(entries@.subrange(0, entries@.len() as int) =~= entries@);
        while i < entries.len()
            invariant
                i <= entries@.len(),
                entries@ == self.other_languages@,
                lang@ == self.language_of(language),
                lang@ != "en"@,
                lang@ != "jp"@,
                find_language(entries@, lang@) == find_language(
                    entries@.subrange(i as int, entries@.len() as int),
                    lang@,
                ),
            decreases entries@.len() - i,
        {
            let ghost rest = entries@.subrange(i as int, entries@.len() as int);
            assert(rest.drop_first() =~= entries@.subrange(i + 1, entries@.len() as int));
            assert(rest[0] == entries@[i as int]);
            if same_text(entries[i].language.as_str(), lang) {
                assert(find_language(rest, lang@) == Some(rest[0].selectors@));
                assert(self.selectors_of(lang@) == find_language(entries@, lang@));
                return Ok(&entries[i].selectors);
            }
            i = i + 1;
        }
        Err(ResolveError::UnknownLanguage(lang.to_owned()))
    }

    /// Picks the profile to use: the first of the language whose name starts
    /// with `selector_name`; the language's first profile when no name is
    /// given, or, with a hint that lists all names, when none matches.
    pub fn get_selector_by_name(&self, language: Option<&str>, selector_name: Option<String>) -> (r:
        Result<(&Selector, Option<ResolveHint>), ResolveError>)
        ensures
            ({
                let lang = self.language_of(language);
                let name = match selector_name {
                    Some(p) => Some(p@),
                    None => None,
                };
                match self.selectors_of(lang) {
                    None => r matches Err(ResolveError::UnknownLanguage(l)) && l@ == lang,
                    Some(s) => if s.len() == 0 {
                        r matches Err(ResolveError::NoSelectors(l)) && l@ == lang
                    } else {
                        r matches Ok((sel, hint)) && resolves_to(s, name, *sel) && (
                        hint is Some <==> falls_back(s, name)) && (hint matches Some(h) ==> (
                        name == Some(h.requested@) && h.language@ == lang && views(h.available@)
                            == names(s)))
                    },
                }
            }),
    {
        let selectors = match self.get_selectors_by_language(language) {
            Ok(v) => v,
            Err(e) => {
                return Err(e);
            },
        };
        let lang: &str = match language {
            Some(l) => l,
            None => self.default_language.as_str(),
        };
        if selectors.len() == 0 {
            return Err(ResolveError::NoSelectors(lang.to_owned()));
        }
        let prefix: &String = match &selector_name {
            None => {
                return Ok((&selectors[0], None));
            },
            Some(p) => p,
        };
        let mut i: usize = 0;
        while i < selectors.len()
            invariant
                i <= selectors@.len(),
                selectors@.len() > 0,
                self.selectors_of(self.language_of(language)) == Some(selectors@),
                selector_name == Some(*prefix),
                forall|j: int| 0 <= j < i ==> !prefix@.is_prefix_of(#[trigger] selectors@[j].name@),
            decreases selectors@.len() - i,
        {
            if starts_with_text(selectors[i].name.as_str(), prefix.as_str()) {
                proof {
                    let s = selectors@;
                    assert(first_prefix_match(s, prefix@, i as int));
                    assert(!falls_back(s, Some(prefix@)));
                    assert(resolves_to(s, Some(prefix@), s[i as int]));
                }
                return Ok((&selectors[i], None));
            }
            i = i + 1;
        }
        proof {
            let s = selectors@;
            assert forall|k: int| !first_prefix_match(s, prefix@, k) by {
                if 0 <= k < s.len() {
                    assert(!prefix@.is_prefix_of(s[k].name@));
                }
            }
        }
        let hint = ResolveHint {
            requested: prefix.as_str().to_owned(),
            language: lang.to_owned(),
            available: selector_names(selectors),
        };
        Ok((&selectors[0], Some(hint)))
    }

    /// Every language with its profile names: English, Japanese, then the
    /// others in order.
    pub fn all_selector_names(&self) -> (r: Vec<(String, Vec<String>)>)
        ensures
            r@.len() == 2 + self.other_languages@.len(),
            r@[0].0@ == "en"@,
            views(r@[0].1@) == names(self.en@),
            r@[1].0@ == "jp"@,
            views(r@[1].1@) == names(self.jp@),
            forall|i: int|
                0 <= i < self.other_languages@.len() ==> (#[trigger] r@[i + 2]).0@
                    == self.other_languages@[i].language@ && views(r@[i + 2].1@) == names(
                    self.other_languages@[i].selectors@,
                ),
    {
        let mut r: Vec<(String, Vec<String>)> = Vec::new();
        r.push(("en".to_owned(), selector_names(&self.en)));
        r.push(("jp".to_owned(), selector_names(&self.jp)));
        let mut i: usize = 0;
        while i < self.other_languages.len()
            invariant
                i <= self.other_languages@.len(),
                r@.len() == 2 + i,
                r@[0].0@ == "en"@,
                views(r@[0].1@) == names(self.en@),
                r@[1].0@ == "jp"@,
                views(r@[1].1@) == names(self.jp@),
                forall|k: int|
                    0 <= k < i ==> (#[trigger] r@[k + 2]).0@ == self.other_languages@[k].language@
                        && views(r@[k + 2].1@) == names(self.other_languages@[k].selectors@),
            decreases self.other_languages@.len() - i,
        {
            let entry = &self.other_languages[i];
            r.push((entry.language.as_str().to_owned(), selector_names(&entry.selectors)));
            i = i + 1;
        }
        r
    }
}

/// Four texts, one per field, in record order.
pub open spec fn fields(it: Seq<char>, metadata: Seq<char>, definition: Seq<char>, example: Seq<
    char,
>) -> Fields {
    Fields { it, metadata, definition, example }
}

/// `s` is a CSS profile with this name, these queries, this URL template and
/// these delimiters.
pub open spec fn profile_is(
    s: Selector,
    name: Seq<char>,
    queries: Fields,
    url: Seq<char>,
    delimiter: Fields,
) -> bool {
    &&& s.name@ == name
    &&& s.selector_type == SelectorType::Css
    &&& s.selector@ == queries
    &&& s.url@ == url
    &&& s.delimiter@ == delimiter
}

/// The default delimiters: a space for headword and metadata, `"; "` for
/// definitions, a line feed for examples.
pub open spec fn default_delimiters() -> Fields {
    fields(" "@, " "@, "; "@, "\n"@)
}

impl Default for Config {
    /// The built-in configuration: English by default, with the
    /// `cambridge-zh`, `oxford` and `bing-cn` profiles for English and the
    /// `weblio`, `cambridge-en` and `dict-asia` profiles for Japanese.
    fn default() -> (r: Config)
        ensures
            r.version@ == CONFIG_VERSION@,
            r.default_language@ == "en"@,
            r.color@ == Word::new_spec("red"@, "blue"@, "green"@, "yellow"@),
            r.delimiter_between_words@ == "\n\n"@,
            r.delimiter_between_paragraphs@ == "\n"@,
            r.en@.len() == 3,
            r.jp@.len() == 3,
            names(r.en@) == seq!["cambridge-zh"@, "oxford"@, "bing-cn"@],
            names(r.jp@) == seq!["weblio"@, "cambridge-en"@, "dict-asia"@],
            r.other_languages@.len() == 0,
            profile_is(
                r.en@[0],
                "cambridge-zh"@,
                fields(
                    ".pr.entry-body__el:nth-of-type(1) .di-title"@,
                    ".pr.entry-body__el:nth-of-type(1) .pos-header.dpos-h .region.dreg,.pr.entry-body__el:nth-of-type(1) .pos-header.dpos-h .pron.dpron"@,
                    ".def.ddef_d.db, .def-body.ddef_b > .trans.dtrans.dtrans-se.break-cj"@,
                    ".examp.dexamp"@,
                ),
                "https://dictionary.cambridge.org/dictionary/english-chinese-simplified/{}"@,
                fields(" "@, " "@, "\n"@, "\n"@),
            ),
            profile_is(
                r.en@[1],
                "oxford"@,
                fields(".webtop .headword"@, ".phons_n_am .phon"@, ".def"@, ".examples"@),
                "https://www.oxfordlearnersdictionaries.com/search/english/?q={}"@,
                default_delimiters(),
            ),
            profile_is(
                r.en@[2],
                "bing-cn"@,
                fields(
                    "#headword"@,
                    ".hd_prUS.b_primtxt, .hd_pr.b_primtxt"@,
                    ".qdef > ul > li > span"@,
                    ".se_li1 > .sen_en, .se_li1 > .sen_cn"@,
                ),
                "https://cn.bing.com/dict/search?q={}"@,
                fields(" "@, " "@, " "@, "\n"@),
            ),
            profile_is(
                r.jp@[0],
                "weblio"@,
                fields(
                    "NULL"@,
                    ".Sgkdj > p:nth-of-type(1)"@,
                    ".Sgkdj > p:nth-of-type(2)"@,
                    ".Wnryj > ul > li"@,
                ),
                "https://www.weblio.jp/content/{}"@,
                fields(" "@, " "@, "\n"@, "\n"@),
            ),
            profile_is(
                r.jp@[1],
                "cambridge-en"@,
                fields(
                    ".pr.dictionary .tw-bw.dhw.dpos-h_hw.di-title"@,
                    ".pr.dictionary .var.dvar .v.dv.lmr-0"@,
                    ".pr.dictionary .def.ddef_d.db, .def-body.ddef_b.ddef_b-t > .trans.dtrans"@,
                    ".pr.dictionary .examp.dexamp"@,
                ),
                "https://dictionary.cambridge.org/dictionary/japanese-english/{}"@,
                default_delimiters(),
            ),
            profile_is(
                r.jp@[2],
                "dict-asia"@,
                fields(
                    "#jp_Resunt_panel #jp_comment:nth-child(1) .jpword"@,
                    "#jp_Resunt_panel #jp_comment:nth-child(1) #kana_0"@,
                    "#jp_Resunt_panel #jp_comment:nth-child(1) #comment_0"@,
                    "NULL"@,
                ),
                "https://dict.asia/jc/{}"@,
                default_delimiters(),
            ),
    {
        let mut en: Vec<Selector> = Vec::new();
        en.push(
            Selector::new(
                "cambridge-zh",
                RealSelectorString::new(
                    ".pr.entry-body__el:nth-of-type(1) .di-title",
                    ".pr.entry-body__el:nth-of-type(1) .pos-header.dpos-h .region.dreg,.pr.entry-body__el:nth-of-type(1) .pos-header.dpos-h .pron.dpron",
                    ".def.ddef_d.db, .def-body.ddef_b > .trans.dtrans.dtrans-se.break-cj",
                    ".examp.dexamp",
                ),
                "https://dictionary.cambridge.org/dictionary/english-chinese-simplified/{}",
                RealSelectorString::new(" ", " ", "\n", "\n"),
            ),
        );
        en.push(
            Selector::new(
                "oxford",
                RealSelectorString::new(
                    ".webtop .headword",
                    ".phons_n_am .phon",
                    ".def",
                    ".examples",
                ),
                "https://www.oxfordlearnersdictionaries.com/search/english/?q={}",
                RealSelectorString::default(),
            ),
        );
        en.push(
            Selector::new(
                "bing-cn",
                RealSelectorString::new(
                    "#headword",
                    ".hd_prUS.b_primtxt, .hd_pr.b_primtxt",
                    ".qdef > ul > li > span",
                    ".se_li1 > .sen_en, .se_li1 > .sen_cn",
                ),
                "https://cn.bing.com/dict/search?q={}",
                RealSelectorString::new(" ", " ", " ", "\n"),
            ),
        );
        let mut jp: Vec<Selector> = Vec::new();
        jp.push(
            Selector::new(
                "weblio",
                RealSelectorString::new(
                    "NULL",
                    ".Sgkdj > p:nth-of-type(1)",
                    ".Sgkdj > p:nth-of-type(2)",
                    ".Wnryj > ul > li",
                ),
                "https://www.weblio.jp/content/{}",
                RealSelectorString::new(" ", " ", "\n", "\n"),
            ),
        );
        jp.push(
            Selector::new(
                "cambridge-en",
                RealSelectorString::new(
                    ".pr.dictionary .tw-bw.dhw.dpos-h_hw.di-title",
                    ".pr.dictionary .var.dvar .v.dv.lmr-0",
                    ".pr.dictionary .def.ddef_d.db, .def-body.ddef_b.ddef_b-t > .trans.dtrans",
                    ".pr.dictionary .examp.dexamp",
                ),
                "https://dictionary.cambridge.org/dictionary/japanese-english/{}",
                RealSelectorString::default(),
            ),
        );
        // This dictionary does not separate definitions from examples.
        jp.push(
            Selector::new(
                "dict-asia",
                RealSelectorString::new(
                    "#jp_Resunt_panel #jp_comment:nth-child(1) .jpword",
                    "#jp_Resunt_panel #jp_comment:nth-child(1) #kana_0",
                    "#jp_Resunt_panel #jp_comment:nth-child(1) #comment_0",
                    "NULL",
                ),
                "https://dict.asia/jc/{}",
                RealSelectorString::default(),
            ),
        );
        assert(names(en@) =~= seq!["cambridge-zh"@, "oxford"@, "bing-cn"@]);
        assert(names(jp@) =~= seq!["weblio"@, "cambridge-en"@, "dict-asia"@]);
        Config {
            version: CONFIG_VERSION.to_owned(),
            default_language: "en".to_owned(),
            color: Word::new("red", "blue", "green", "yellow"),
            delimiter_between_words: "\n\n".to_owned(),
            delimiter_between_paragraphs: "\n".to_owned(),
            en,
            jp,
            other_languages: Vec::new(),
        }
    }
}

} // verus!
