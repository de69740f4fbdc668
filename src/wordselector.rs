//! Queries given in the shape of a record, one for each field.
use vstd::prelude::*;

use crate::selector::{first_invalid, CompiledQuery, Field, SelectorError};
use crate::word::Word;

verus! {

/// Compiled queries taken from the fields of a `Word`.
pub struct WordSelector {
    pub it: CompiledQuery,
    pub metadata: CompiledQuery,
    pub definition: CompiledQuery,
    pub example: CompiledQuery,
}

fn compile_one(query: &String, field: Field) -> (r: Result<CompiledQuery, SelectorError>)
    ensures
        r is Ok <==> crate::selector::query_is_valid(query@),
        r matches Ok(c) ==> c@ == query@,
        r matches Err(e) ==> e.field == field,
{
    match CompiledQuery::compile(query.as_str()) {
        Ok(c) => Ok(c),
        Err(message) => Err(SelectorError { field, message }),
    }
}

impl WordSelector {
    /// Compiles each field of `value` as a query; fails on the first
    /// malformed one.
    pub fn try_from(value: &Word) -> (r: Result<WordSelector, SelectorError>)
        ensures
            r is Ok <==> first_invalid(value@) is None,
            r matches Ok(c) ==> c.it@ == value.it@ && c.metadata@ == value.metadata@
                && c.definition@ == value.definition@ && c.example@ == value.example@,
            r matches Err(e) ==> first_invalid(value@) == Some(e.field),
    {
        let it = compile_one(&value.it, Field::It)?;
        let metadata = compile_one(&value.metadata, Field::Metadata)?;
        let definition = compile_one(&value.definition, Field::Definition)?;
        let example = compile_one(&value.example, Field::Example)?;
        Ok(WordSelector { it, metadata, definition, example })
    }
}

} // verus!
