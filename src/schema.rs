use vstd::prelude::*;

use crate::engine::{regex_accepts, Compiled};
use crate::record::{
    decode, extract_spec, lemma_decode_failure_persists, lemma_decode_step, outcome, Entry,
    ExtractError, Record,
};
use crate::value::{convert, default_value, FieldType};

verus! {

/// One declared field: its name, the type its text is parsed into, and the
/// pattern fragment that matches it.
#[derive(Clone, Debug)]
pub struct FieldSpec {
    pub name: String,
    pub kind: FieldType,
    pub pattern: String,
}

/// A field captures unless its name starts with `_`.
pub open spec fn is_capturing(name: Seq<char>) -> bool {
    !(name.len() > 0 && name[0] == '_')
}

/// The text that opens a named group, `(?P<`.
pub open spec fn group_open() -> Seq<char> {
    seq!['(', '?', 'P', '<']
}

/// A field's part of the composite pattern: its fragment as a named group
/// when the field captures, else the fragment as it is.
pub open spec fn piece(f: FieldSpec) -> Seq<char> {
    if is_capturing(f.name@) {
        group_open() + f.name@ + seq!['>'] + f.pattern@ + seq![')']
    } else {
        f.pattern@
    }
}

/// The pieces of all fields, joined in order with nothing between them.
pub open spec fn composite(fields: Seq<FieldSpec>) -> Seq<char>
    decreases fields.len(),
{
    if fields.len() == 0 {
        Seq::empty()
    } else {
        composite(fields.drop_last()) + piece(fields.last())
    }
}

/// No two capturing fields share a name.
pub open spec fn names_unique(fields: Seq<FieldSpec>) -> bool {
    forall|i: int, j: int|
        0 <= i < j < fields.len() && is_capturing(fields[i].name@) && is_capturing(
            fields[j].name@,
        ) ==> #[trigger] fields[i].name@ != #[trigger] fields[j].name@
}

/// Why a schema could not be built.
#[derive(Clone, Debug, PartialEq, Eq)]
pub enum PatternError {
    /// The schema has no fields.
    Empty,
    /// Two capturing fields carry this name.
    DuplicateName(String),
    /// The regex engine refused the composite pattern.
    Invalid,
}

impl FieldSpec {
    /// A field with this name, target type and pattern fragment.
    pub fn new(name: &str, kind: FieldType, pattern: &str) -> (r: FieldSpec)
        ensures
            r.name@ == name@,
            r.kind == kind,
            r.pattern@ == pattern@,
    {
        FieldSpec { name: name.to_string(), kind, pattern: pattern.to_string() }
    }

    /// Whether the field's text goes into the record.
    pub fn is_capturing(&self) -> (r: bool)
        ensures
            r == is_capturing(self.name@),
    {
        let s = self.name.as_str();
        if s.unicode_len() == 0 {
            true
        } else {
            s.get_char(0) != '_'
        }
    }
}

proof fn lemma_composite_step(fields: Seq<FieldSpec>, i: int)
    requires
        0 <= i < fields.len(),
    ensures
        composite(fields.subrange(0, i + 1)) == composite(fields.subrange(0, i)) + piece(
            fields[i],
        ),
{
    assert(fields.subrange(0, i + 1).drop_last() =~= fields.subrange(0, i));
}

/// Joins the fields' pieces into the composite pattern.
pub fn composite_pattern(fields: &Vec<FieldSpec>) -> (r: String)
    ensures
        r@ == composite(fields@),
{
    let mut out = String::new();
    let mut i: usize = 0;
    proof {
        assert(fields@.subrange(0, 0) =~= Seq::<FieldSpec>::empty());
    }
    while i < fields.len()
        invariant
            i <= fields@.len(),
            out@ == composite(fields@.subrange(0, i as int)),
        decreases fields.len() - i,
    {
        let f = &fields[i];
        proof {
            lemma_composite_step(fields@, i as int);
            reveal_strlit("(?P<");
            reveal_strlit(">");
            reveal_strlit(")");
        }
        if f.is_capturing() {
            out.append("(?P<");
            out.append(f.name.as_str());
            out.append(">");
            out.append(f.pattern.as_str());
            out.append(")");
        } else {
            out.append(f.pattern.as_str());
        }
        i = i + 1;
    }
    assert(fields@.subrange(0, fields@.len() as int) =~= fields@);
    out
}

/// Finds a name shared by two capturing fields, if there is one.
pub fn duplicate_name(fields: &Vec<FieldSpec>) -> (r: Option<String>)
    ensures
        r.is_none() == names_unique(fields@),
        r matches Some(n) ==> exists|i: int, j: int|
            0 <= i < j < fields@.len() && is_capturing(fields@[i].name@) && is_capturing(
                fields@[j].name@,
            ) && fields@[i].name@ == n@ && fields@[j].name@ == n@,
{
    let mut j: usize = 0;
    while j < fields.len()
        invariant
            j <= fields@.len(),
            forall|a: int, b: int|
                0 <= a < b < j && is_capturing(fields@[a].name@) && is_capturing(fields@[b].name@)
                    ==> #[trigger] fields@[a].name@ != #[trigger] fields@[b].name@,
        decreases fields.len() - j,
    {
        if fields[j].is_capturing() {
            let mut i: usize = 0;
            while i < j
                invariant
                    i <= j < fields@.len(),
                    is_capturing(fields@[j as int].name@),
                    forall|a: int, b: int|
                        0 <= a < b < j && is_capturing(fields@[a].name@) && is_capturing(
                            fields@[b].name@,
                        ) ==> #[trigger] fields@[a].name@ != #[trigger] fields@[b].name@,
                    forall|a: int|
                        0 <= a < i && is_capturing(fields@[a].name@) ==> #[trigger] fields@[a].name@
                            != fields@[j as int].name@,
                decreases j - i,
            {
                if fields[i].is_capturing() && fields[i].name == fields[j].name {
                    return Some(fields[j].name.clone());
                }
                i = i + 1;
            }
        }
        j = j + 1;
    }
    None
}

/// An ordered list of fields, compiled once into one composite pattern.
pub struct Schema {
    fields: Vec<FieldSpec>,
    compiled: Compiled,
}

impl Schema {
    /// The fields, in declaration order.
    pub closed spec fn fields(&self) -> Seq<FieldSpec> {
        self.fields@
    }

    /// The composite pattern that the schema was compiled from.
    pub closed spec fn source(&self) -> Seq<char> {
        self.compiled.source()
    }

    /// Builds and compiles a schema. Fails on an empty field list, on a name
    /// that two capturing fields share, and on a composite pattern that the
    /// regex engine refuses, in that order.
    pub fn new(fields: Vec<FieldSpec>) -> (r: Result<Schema, PatternError>)
        ensures
            (r matches Err(PatternError::Empty)) <==> fields@.len() == 0,
            (r matches Err(PatternError::DuplicateName(_))) <==> fields@.len() > 0
                && !names_unique(fields@),
            r matches Err(PatternError::DuplicateName(n)) ==> exists|i: int, j: int|
                0 <= i < j < fields@.len() && is_capturing(fields@[i].name@) && is_capturing(
                    fields@[j].name@,
                ) && fields@[i].name@ == n@ && fields@[j].name@ == n@,
            (r matches Err(PatternError::Invalid)) <==> fields@.len() > 0 && names_unique(fields@)
                && !regex_accepts(composite(fields@)),
            r is Ok <==> fields@.len() > 0 && names_unique(fields@) && regex_accepts(
                composite(fields@),
            ),
            r matches Ok(s) ==> s.fields() == fields@ && s.source() == composite(fields@),
    {
        if fields.len() == 0 {
            return Err(PatternError::Empty);
        }
        match duplicate_name(&fields) {
            Some(n) => {
                return Err(PatternError::DuplicateName(n));
            },
            None => {},
        }
        let pattern = composite_pattern(&fields);
        match Compiled::new(pattern.as_str()) {
            Ok(compiled) => Ok(Schema { fields, compiled }),
            Err(_) => Err(PatternError::Invalid),
        }
    }

    /// The composite pattern, as the regex engine received it.
    pub fn pattern(&self) -> (r: &str)
        ensures
            r@ == self.source(),
    {
        self.compiled.source_str()
    }

    /// Matches the composite pattern against a text and decodes the first
    /// match into a record: each capturing field, in order, gets the text of
    /// its named group parsed into its type, or its type's default where the
    /// group took no part in the match.
    pub fn extract(&self, text: &str) -> (r: Result<Record, ExtractError>)
        ensures
            outcome(r) == extract_spec(self.fields(), self.source(), text@),
    {
        if !self.compiled.finds(text) {
            return Err(ExtractError::NoMatch);
        }
        let ghost fields = self.fields@;
        let ghost source = self.source();
        let mut entries: Vec<Entry> = Vec::new();
        let mut i: usize = 0;
        proof {
            assert(fields.subrange(0, 0) =~= Seq::<FieldSpec>::empty());
            assert(entries@.map_values(|e: Entry| (e.name@, e.value@)) =~= Seq::empty());
        }
        while i < self.fields.len()
            invariant
                i <= fields.len(),
                fields == self.fields@,
                source == self.source(),
                crate::engine::regex_finds(source, text@),
                decode(fields.subrange(0, i as int), source, text@) == Ok::<
                    Seq<(Seq<char>, crate::value::Datum)>,
                    crate::record::Failure,
                >(entries@.map_values(|e: Entry| (e.name@, e.value@))),
            decreases self.fields.len() - i,
        {
            let f = &self.fields[i];
            proof {
                lemma_decode_step(fields, source, text@, i as int);
            }
            if f.is_capturing() {
                match self.compiled.group(text, f.name.as_str()) {
                    None => {
                        return Err(ExtractError::NoMatch);
                    },
                    Some(None) => {
                        let ghost prev = entries@;
                        entries.push(Entry { name: f.name.clone(), value: default_value(f.kind) });
                        proof {
                            assert(entries@.map_values(|e: Entry| (e.name@, e.value@)) =~= prev.map_values(
                                |e: Entry| (e.name@, e.value@),
                            ).push((f.name@, crate::value::default_datum(f.kind))));
                        }
                    },
                    Some(Some(raw)) => match convert(f.kind, raw.as_str()) {
                        Some(v) => {
                            let ghost prev = entries@;
                            let ghost d = v@;
                            entries.push(Entry { name: f.name.clone(), value: v });
                            proof {
                                assert(entries@.map_values(|e: Entry| (e.name@, e.value@)) =~= prev.map_values(
                                    |e: Entry| (e.name@, e.value@),
                                ).push((f.name@, d)));
                            }
                        },
                        None => {
                            proof {
                                lemma_decode_failure_persists(
                                    fields,
                                    source,
                                    text@,
                                    i + 1,
                                    fields.len() as int,
                                );
                                assert(fields.subrange(0, fields.len() as int) =~= fields);
                            }
                            return Err(
                                ExtractError::Conversion {
                                    field: f.name.clone(),
                                    raw_text: raw,
                                    target: f.kind,
                                },
                            );
                        },
                    },
                }
            }
            i = i + 1;
        }
        proof {
            assert(fields.subrange(0, fields.len() as int) =~= fields);
        }
        Ok(Record { entries })
    }

    /// The fields, in declaration order.
    pub fn field_specs(&self) -> (r: &Vec<FieldSpec>)
        ensures
            r@ == self.fields(),
    {
        &self.fields
    }
}

} // verus!
