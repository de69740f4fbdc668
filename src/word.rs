//! The record that a lookup produces, and the per-field delimiters.
use vstd::prelude::*;

use crate::selector::RealSelectorString;
use crate::text::{normalize, normalize_text, trim, trim_text};

verus! {

/// The delimiters that join the matched fragments of each field.
pub type Delimiter = RealSelectorString;

/// Four texts, one for each field of a record: headword, metadata,
/// definition and example.
pub struct Fields {
    pub it: Seq<char>,
    pub metadata: Seq<char>,
    pub definition: Seq<char>,
    pub example: Seq<char>,
}

impl Fields {
    /// Every field is whitespace-normalized.
    pub open spec fn normalized(self) -> bool {
        &&& normalize(self.it) == self.it
        &&& normalize(self.metadata) == self.metadata
        &&& normalize(self.definition) == self.definition
        &&& normalize(self.example) == self.example
    }
}

/// A word and its explanations. Two records are equal when their headwords are.
#[derive(Clone, Debug, Default)]
pub struct Word {
    /// The headword.
    pub it: String,
    /// Phonetic notation, kana readings, or other notes.
    pub metadata: String,
    pub definition: String,
    pub example: String,
}

impl View for Word {
    type V = Fields;

    open spec fn view(&self) -> Fields {
        Fields {
            it: self.it@,
            metadata: self.metadata@,
            definition: self.definition@,
            example: self.example@,
        }
    }
}

impl Word {
    /// The fields of the record that `new` makes from these texts.
    pub open spec fn new_spec(
        it: Seq<char>,
        metadata: Seq<char>,
        definition: Seq<char>,
        example: Seq<char>,
    ) -> Fields {
        Fields {
            it: normalize(it),
            metadata: normalize(metadata),
            definition: normalize(definition),
            example: normalize(example),
        }
    }

    /// Normalizes the whitespace of every field.
    fn preprocessing(self) -> (r: Word)
        ensures
            r.it@ == normalize(self.it@),
            r.metadata@ == normalize(self.metadata@),
            r.definition@ == normalize(self.definition@),
            r.example@ == normalize(self.example@),
    {
        Word {
            it: normalize_text(self.it.as_str()),
            metadata: normalize_text(self.metadata.as_str()),
            definition: normalize_text(self.definition.as_str()),
            example: normalize_text(self.example.as_str()),
        }
    }

    /// A record whose fields are the whitespace-normalized arguments.
    pub fn new(it: &str, metadata: &str, definition: &str, example: &str) -> (r: Word)
        ensures
            r.it@ == normalize(it@),
            r.metadata@ == normalize(metadata@),
            r.definition@ == normalize(definition@),
            r.example@ == normalize(example@),
            r@ == Word::new_spec(it@, metadata@, definition@, example@),
            r@.normalized(),
    {
        proof {
            crate::text::lemma_normalize_idempotent(it@);
            crate::text::lemma_normalize_idempotent(metadata@);
            crate::text::lemma_normalize_idempotent(definition@);
            crate::text::lemma_normalize_idempotent(example@);
        }
        Word {
            it: it.to_owned(),
            metadata: metadata.to_owned(),
            definition: definition.to_owned(),
            example: example.to_owned(),
        }.preprocessing()
    }

    /// Whether no definition was found: the definition is blank.
    pub fn is_empty(&self) -> (r: bool)
        ensures
            r == (trim(self.definition@).len() == 0),
    {
        trim_text(self.definition.as_str()).as_str().is_empty()
    }
}

impl PartialEq for Word {
    fn eq(&self, other: &Word) -> (r: bool) {
        crate::text::same_text(self.it.as_str(), other.it.as_str())
    }
}

impl vstd::std_specs::cmp::PartialEqSpecImpl for Word {
    open spec fn obeys_eq_spec() -> bool {
        true
    }

    open spec fn eq_spec(&self, other: &Word) -> bool {
        self.it@ == other.it@
    }
}

} // verus!
