//! Selector profiles: compiling their queries and extracting a record from a
//! parsed document.
use vstd::prelude::*;

use crate::text::{
    fill_template, fill_template_text, join, join_strings, normalize, trim, trim_text, views,
};
use crate::word::{Delimiter, Fields, Word};
use scraper::Selector as CssSelector;

verus! {

#[verifier::external_type_specification]
#[verifier::external_body]
pub struct ExHtml(scraper::Html);

#[verifier::external_type_specification]
#[verifier::external_body]
pub struct ExCssSelector(CssSelector);

/// Whether `query` is a well-formed CSS selector group.
pub uninterp spec fn query_is_valid(query: Seq<char>) -> bool;

/// The text content of each element of the HTML document `document` that the
/// selector group `query` matches, in the order in which scraper's
/// `Html::select` visits the parsed tree (the order in which the parser
/// created its nodes).
pub uninterp spec fn matched_texts(document: Seq<char>, query: Seq<char>) -> Seq<Seq<char>>;

/// A parsed HTML document, together with the text it was parsed from.
pub struct Document {
    source: String,
    html: scraper::Html,
}

impl View for Document {
    type V = Seq<char>;

    closed spec fn view(&self) -> Seq<char> {
        self.source@
    }
}

/// Relies on `scraper::Html::parse_document`, which accepts every input; the
/// parsed tree is opaque here.
#[verifier::external_body]
fn parse_html(source: &str) -> scraper::Html {
    scraper::Html::parse_document(source)
}

impl Document {
    /// Parses an HTML document.
    pub fn parse(source: &str) -> (r: Document)
        ensures
            r@ == source@,
    {
        Document { source: source.to_owned(), html: parse_html(source) }
    }
}

/// Relies on `scraper::Selector::parse`: it succeeds exactly on well-formed
/// selector groups; its error is rendered as text.
#[verifier::external_body]
fn parse_query(query: &str) -> (r: Result<CssSelector, String>)
    ensures
        r is Ok <==> query_is_valid(query@),
{
    match CssSelector::parse(query) {
        Ok(s) => Ok(s),
        Err(e) => Err(e.to_string()),
    }
}

/// A validated selector group, together with the text it was compiled from.
pub struct CompiledQuery {
    source: String,
    selector: CssSelector,
}

impl View for CompiledQuery {
    type V = Seq<char>;

    closed spec fn view(&self) -> Seq<char> {
        self.source@
    }
}

impl CompiledQuery {
    /// Compiles `query`; fails, with a description, on a malformed one.
    pub fn compile(query: &str) -> (r: Result<CompiledQuery, String>)
        ensures
            r is Ok <==> query_is_valid(query@),
            r matches Ok(c) ==> c@ == query@,
    {
        match parse_query(query) {
            Ok(selector) => Ok(CompiledQuery { source: query.to_owned(), selector }),
            Err(e) => Err(e),
        }
    }
}

/// Relies on `scraper::Html::select` and `scraper::ElementRef::text`: the
/// concatenated text of each matching element, in the order in which
/// `Html::select` visits the tree's nodes (their creation order). A
/// `Document` and a `CompiledQuery` are only made by parsing their own
/// source text, so the result depends on those texts alone.
#[verifier::external_body]
fn select_texts(document: &Document, query: &CompiledQuery) -> (r: Vec<String>)
    ensures
        views(r@) == matched_texts(document@, query@),
{
    document.html.select(&query.selector).map(|e| e.text().collect::<String>()).collect()
}

/// A field of a record made from its matched fragments: joined by the
/// field's delimiter, then normalized.
pub open spec fn field_from(texts: Seq<Seq<char>>, delimiter: Seq<char>) -> Seq<char> {
    normalize(join(texts, delimiter))
}

/// The headword made from its matched fragments: joined and trimmed, or the
/// query term where that leaves nothing, then normalized.
pub open spec fn headword_from(texts: Seq<Seq<char>>, delimiter: Seq<char>, term: Seq<char>) -> Seq<
    char,
> {
    let t = trim(join(texts, delimiter));
    normalize(if t.len() == 0 { term } else { t })
}

/// A field of a record as extracted from `document` with `query`.
pub open spec fn field_of(document: Seq<char>, query: Seq<char>, delimiter: Seq<char>) -> Seq<
    char,
> {
    field_from(matched_texts(document, query), delimiter)
}

/// The headword as extracted from `document` with `query`.
pub open spec fn headword_of(
    document: Seq<char>,
    query: Seq<char>,
    delimiter: Seq<char>,
    term: Seq<char>,
) -> Seq<char> {
    headword_from(matched_texts(document, query), delimiter, term)
}

/// The record made from the matched fragments of each field, the query term
/// and the delimiters.
pub fn record_from_matches(
    it: &Vec<String>,
    metadata: &Vec<String>,
    definition: &Vec<String>,
    example: &Vec<String>,
    term: &str,
    d: &Delimiter,
) -> (r: Word)
    ensures
        r.it@ == headword_from(views(it@), d.it@, term@),
        r.metadata@ == field_from(views(metadata@), d.metadata@),
        r.definition@ == field_from(views(definition@), d.definition@),
        r.example@ == field_from(views(example@), d.example@),
        r@.normalized(),
{
    let joined = join_strings(it, d.it.as_str());
    let mut head = trim_text(joined.as_str());
    if head.as_str().is_empty() {
        head = term.to_owned();
    }
    let metadata = join_strings(metadata, d.metadata.as_str());
    let definition = join_strings(definition, d.definition.as_str());
    let example = join_strings(example, d.example.as_str());
    Word::new(head.as_str(), metadata.as_str(), definition.as_str(), example.as_str())
}

/// The record extracted from `document` with the queries `q`, the query term
/// `term` and the delimiters `d`.
pub open spec fn extracted(document: Seq<char>, q: Fields, term: Seq<char>, d: Fields) -> Fields {
    Fields {
        it: headword_of(document, q.it, d.it, term),
        metadata: field_of(document, q.metadata, d.metadata),
        definition: field_of(document, q.definition, d.definition),
        example: field_of(document, q.example, d.example),
    }
}

/// The field of a record that a query belongs to.
#[derive(Clone, Copy, Debug, PartialEq, Eq, Structural)]
pub enum Field {
    It,
    Metadata,
    Definition,
    Example,
}

/// A malformed query in a profile: which field, and why.
#[derive(Clone, Debug)]
pub struct SelectorError {
    pub field: Field,
    pub message: String,
}

/// The name of a field, as written in profiles.
pub open spec fn field_name(f: Field) -> Seq<char> {
    match f {
        Field::It => "it"@,
        Field::Metadata => "metadata"@,
        Field::Definition => "definition"@,
        Field::Example => "example"@,
    }
}

impl SelectorError {
    /// A one-line description of the error, naming the field.
    pub fn describe(&self) -> (r: String)
        ensures
            r@ == "Selector construction error in field `"@ + field_name(self.field) + "`: "@
                + self.message@,
    {
        let mut s = "Selector construction error in field `".to_owned();
        let name = match self.field {
            Field::It => "it",
            Field::Metadata => "metadata",
            Field::Definition => "definition",
            Field::Example => "example",
        };
        s.append(name);
        s.append("`: ");
        s.append(self.message.as_str());
        s
    }
}

/// The first field, in record order, whose query is malformed.
pub open spec fn first_invalid(q: Fields) -> Option<Field> {
    if !query_is_valid(q.it) {
        Some(Field::It)
    } else if !query_is_valid(q.metadata) {
        Some(Field::Metadata)
    } else if !query_is_valid(q.definition) {
        Some(Field::Definition)
    } else if !query_is_valid(q.example) {
        Some(Field::Example)
    } else {
        None
    }
}

fn compile_field(query: &String, field: Field) -> (r: Result<CompiledQuery, SelectorError>)
    ensures
        r is Ok <==> query_is_valid(query@),
        r matches Ok(c) ==> c@ == query@,
        r matches Err(e) ==> e.field == field,
{
    match CompiledQuery::compile(query.as_str()) {
        Ok(c) => Ok(c),
        Err(message) => Err(SelectorError { field, message }),
    }
}

/// The compiled queries of a profile, one for each field of a record.
pub struct RealSelector {
    pub it: CompiledQuery,
    pub metadata: CompiledQuery,
    pub definition: CompiledQuery,
    pub example: CompiledQuery,
}

impl View for RealSelector {
    type V = Fields;

    open spec fn view(&self) -> Fields {
        Fields {
            it: self.it@,
            metadata: self.metadata@,
            definition: self.definition@,
            example: self.example@,
        }
    }
}

impl RealSelector {
    /// Compiles the four queries; fails on the first malformed one.
    pub fn try_from(value: &RealSelectorString) -> (r: Result<RealSelector, SelectorError>)
        ensures
            r is Ok <==> first_invalid(value@) is None,
            r matches Ok(c) ==> c@ == value@,
            r matches Err(e) ==> first_invalid(value@) == Some(e.field),
    {
        let it = compile_field(&value.it, Field::It)?;
        let metadata = compile_field(&value.metadata, Field::Metadata)?;
        let definition = compile_field(&value.definition, Field::Definition)?;
        let example = compile_field(&value.example, Field::Example)?;
        Ok(RealSelector { it, metadata, definition, example })
    }

    /// Extracts the record for `word` from `html`: each field's matched
    /// fragments joined by its delimiter and normalized; a blank headword is
    /// replaced by `word`.
    pub fn extract(&self, html: &Document, word: &str, d: &Delimiter) -> (r: Word)
        ensures
            r@ == extracted(html@, self@, word@, d@),
            r@.normalized(),
    {
        let it = select_texts(html, &self.it);
        let metadata = select_texts(html, &self.metadata);
        let definition = select_texts(html, &self.definition);
        let example = select_texts(html, &self.example);
        record_from_matches(&it, &metadata, &definition, &example, word, d)
    }
}

/// The query strings of a profile, one for each field of a record.
#[derive(Clone, Debug)]
pub struct RealSelectorString {
    pub it: String,
    pub metadata: String,
    pub definition: String,
    pub example: String,
}

impl View for RealSelectorString {
    type V = Fields;

    open spec fn view(&self) -> Fields {
        Fields {
            it: self.it@,
            metadata: self.metadata@,
            definition: self.definition@,
            example: self.example@,
        }
    }
}

impl RealSelectorString {
    pub fn new(it: &str, metadata: &str, definition: &str, example: &str) -> (r: RealSelectorString)
        ensures
            r.it@ == it@,
            r.metadata@ == metadata@,
            r.definition@ == definition@,
            r.example@ == example@,
    {
        RealSelectorString {
            it: it.to_owned(),
            metadata: metadata.to_owned(),
            definition: definition.to_owned(),
            example: example.to_owned(),
        }
    }

    /// Compiles these queries and extracts the record for `word` from `html`.
    pub fn select_one(&self, html: &Document, word: &str, d: &Delimiter) -> (r: Result<
        Word,
        SelectorError,
    >)
        ensures
            r is Ok <==> first_invalid(self@) is None,
            r matches Ok(w) ==> w@ == extracted(html@, self@, word@, d@),
            r matches Err(e) ==> first_invalid(self@) == Some(e.field),
    {
        let compiled = RealSelector::try_from(self)?;
        Ok(compiled.extract(html, word, d))
    }
}

impl Default for RealSelectorString {
    /// The default delimiters: a space for headword and metadata, `"; "`
    /// for definitions, a line feed for examples.
    fn default() -> (r: RealSelectorString)
        ensures
            r.it@ == " "@,
            r.metadata@ == " "@,
            r.definition@ == "; "@,
            r.example@ == "\n"@,
    {
        RealSelectorString::new(" ", " ", "; ", "\n")
    }
}

/// How a profile finds its fields in a page.
#[non_exhaustive]
#[derive(Clone, Copy, Debug, Default, PartialEq, Eq, Structural)]
pub enum SelectorType {
    /// Not implemented.
    Api,
    /// CSS selectors over the page's HTML.
    #[default]
    Css,
}

/// A selector profile: its name, the queries for each field, the URL template
/// to fetch (with one `{}` marker) and the delimiters for each field.
#[non_exhaustive]
#[derive(Clone, Debug, Default)]
pub struct Selector {
    /// The name of this profile.
    pub name: String,
    /// How this profile finds its fields.
    pub selector_type: SelectorType,
    /// The query strings, which compile to CSS selectors.
    pub selector: RealSelectorString,
    /// The URL template to fetch.
    pub url: String,
    /// The delimiters that join multiple matches of each field.
    pub delimiter: Delimiter,
}

impl Selector {
    pub fn new(name: &str, selector: RealSelectorString, url: &str, delimiter: Delimiter) -> (r:
        Selector)
        ensures
            r.name@ == name@,
            r.selector_type == SelectorType::Css,
            r.selector == selector,
            r.url@ == url@,
            r.delimiter == delimiter,
    {
        Selector {
            name: name.to_owned(),
            selector_type: SelectorType::Css,
            selector,
            url: url.to_owned(),
            delimiter,
        }
    }

    /// Compiles this profile's queries and extracts the record for `word`
    /// from `html` with this profile's delimiters.
    pub fn select_one(&self, html: &Document, word: &str) -> (r: Result<Word, SelectorError>)
        ensures
            r is Ok <==> first_invalid(self.selector@) is None,
            r matches Ok(w) ==> w@ == extracted(html@, self.selector@, word@, self.delimiter@),
            r matches Err(e) ==> first_invalid(self.selector@) == Some(e.field),
    {
        self.selector.select_one(html, word, &self.delimiter)
    }

    /// The URL to fetch for `term`: the template with `{}` replaced by `term`.
    pub fn url_for(&self, term: &str) -> (r: String)
        ensures
            r@ == fill_template(self.url@, term@),
    {
        fill_template_text(self.url.as_str(), term)
    }
}

/// Extraction is a function of its inputs: records extracted from the same
/// document with the same queries, term and delimiters are the same.
pub proof fn lemma_extraction_deterministic(
    r1: Word,
    r2: Word,
    document: Seq<char>,
    q: Fields,
    term: Seq<char>,
    d: Fields,
)
    requires
        r1@ == extracted(document, q, term, d),
        r2@ == extracted(document, q, term, d),
    ensures
        r1@ == r2@,
{
}

/// Two matched fragments `a` and `b` of a field are joined as `a`, the
/// field's delimiter, `b`.
pub proof fn lemma_two_fragments_join(
    document: Seq<char>,
    query: Seq<char>,
    delimiter: Seq<char>,
    a: Seq<char>,
    b: Seq<char>,
)
    requires
        matched_texts(document, query) == seq![a, b],
    ensures
        join(matched_texts(document, query), delimiter) == a + delimiter + b,
        field_of(document, query, delimiter) == normalize(a + delimiter + b),
{
    let parts = seq![a, b];
    assert(parts.drop_last() =~= seq![a]);
    assert(join(seq![a], delimiter) == a);
    assert(parts.last() == b);
    assert(join(parts, delimiter) == join(parts.drop_last(), delimiter) + delimiter + parts.last());
}

/// When the headword query matches nothing, the headword is the query term
/// itself, provided that term is already whitespace-normalized.
pub proof fn lemma_headword_fallback(
    document: Seq<char>,
    query: Seq<char>,
    delimiter: Seq<char>,
    term: Seq<char>,
)
    requires
        matched_texts(document, query).len() == 0,
        normalize(term) == term,
    ensures
        headword_of(document, query, delimiter, term) == term,
{
    let e = Seq::<char>::empty();
    assert(crate::text::trim_start(e) == e);
    assert(crate::text::trim_end(e) == e);
}

} // verus!
