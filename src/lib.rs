//! Extract typed records from text with a schema of named sub-patterns.
//!
//! A [`Schema`] is an ordered list of fields, each with a name, a target type
//! and a pattern fragment. The fragments are joined, in order, into one
//! composite pattern in which every capturing field is a named group; a field
//! whose name starts with `_` only takes part in matching. Extraction runs the
//! composite pattern once and parses each captured group into its field's type.
use vstd::prelude::*;

pub mod value;
pub mod engine;
pub mod schema;
pub mod record;
pub mod laws;

pub use value::{FieldType, Value, Datum};
pub use schema::{FieldSpec, PatternError, Schema};
pub use record::{Entry, ExtractError, Record};

use record::{extract_spec, outcome};

verus! {

/// Something that fills a record from the text it matches.
pub trait RegexStruct {
    /// What a call of `find` on this text may return.
    spec fn extracts(&self, text: Seq<char>, r: Result<Record, ExtractError>) -> bool;

    /// Finds the captures in the text and hands them out as a record.
    fn find(&self, text: &str) -> (r: Result<Record, ExtractError>)
        ensures
            self.extracts(text@, r),
    ;
}

impl RegexStruct for Schema {
    open spec fn extracts(&self, text: Seq<char>, r: Result<Record, ExtractError>) -> bool {
        outcome(r) == extract_spec(self.fields(), self.source(), text)
    }

    fn find(&self, text: &str) -> (r: Result<Record, ExtractError>) {
        self.extract(text)
    }
}

/// Holds the `fill` entry point.
pub struct Restruct;

impl Restruct {
    /// Fills a record from the text, through the given extractor.
    pub fn fill<T: RegexStruct>(regex_struct: &T, text: &str) -> (r: Result<Record, ExtractError>)
        ensures
            regex_struct.extracts(text@, r),
    {
        regex_struct.find(text)
    }
}

} // verus!
