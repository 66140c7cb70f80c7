use vstd::prelude::*;

use crate::engine::{regex_finds, regex_group};
use crate::schema::{is_capturing, FieldSpec};
use crate::value::{convert_spec, default_datum, Datum, FieldType, Value};

verus! {

/// One field of a record: the name of the capturing field and its value.
#[derive(Clone, Debug, PartialEq, Eq)]
pub struct Entry {
    pub name: String,
    pub value: Value,
}

/// What one extraction produced: the capturing fields, in declaration order,
/// each with its value.
#[derive(Clone, Debug, PartialEq, Eq)]
pub struct Record {
    pub entries: Vec<Entry>,
}

impl View for Record {
    type V = Seq<(Seq<char>, Datum)>;

    open spec fn view(&self) -> Seq<(Seq<char>, Datum)> {
        self.entries@.map_values(|e: Entry| (e.name@, e.value@))
    }
}

/// Why an extraction failed.
#[derive(Clone, Debug, PartialEq, Eq)]
pub enum ExtractError {
    /// The composite pattern matches nowhere in the text.
    NoMatch,
    /// The text that a capturing field matched does not parse into its type.
    Conversion { field: String, raw_text: String, target: FieldType },
}

/// The mathematical content of an [`ExtractError`].
pub enum Failure {
    NoMatch,
    Conversion(Seq<char>, Seq<char>, FieldType),
}

impl View for ExtractError {
    type V = Failure;

    open spec fn view(&self) -> Failure {
        match self {
            ExtractError::NoMatch => Failure::NoMatch,
            ExtractError::Conversion { field, raw_text, target } => Failure::Conversion(
                field@,
                raw_text@,
                *target,
            ),
        }
    }
}

/// The content of an extraction's result.
pub open spec fn outcome(r: Result<Record, ExtractError>) -> Result<
    Seq<(Seq<char>, Datum)>,
    Failure,
> {
    match r {
        Ok(rec) => Ok(rec@),
        Err(e) => Err(e@),
    }
}

/// The record that a match decodes to, field by field in declaration order:
/// a non-capturing field adds nothing; a capturing field whose group took no
/// part in the match gets its type's default; one whose text does not parse
/// ends the decoding with a conversion failure.
pub open spec fn decode(fields: Seq<FieldSpec>, source: Seq<char>, text: Seq<char>) -> Result<
    Seq<(Seq<char>, Datum)>,
    Failure,
>
    decreases fields.len(),
{
    if fields.len() == 0 {
        Ok(Seq::empty())
    } else {
        match decode(fields.drop_last(), source, text) {
            Err(e) => Err(e),
            Ok(rec) => {
                let f = fields.last();
                if !is_capturing(f.name@) {
                    Ok(rec)
                } else {
                    match regex_group(source, text, f.name@) {
                        None => Ok(rec.push((f.name@, default_datum(f.kind)))),
                        Some(raw) => match convert_spec(f.kind, raw) {
                            Some(d) => Ok(rec.push((f.name@, d))),
                            None => Err(Failure::Conversion(f.name@, raw, f.kind)),
                        },
                    }
                }
            },
        }
    }
}

/// What extracting from a text gives: no match, or the decoded match.
pub open spec fn extract_spec(fields: Seq<FieldSpec>, source: Seq<char>, text: Seq<char>) -> Result<
    Seq<(Seq<char>, Datum)>,
    Failure,
> {
    if !regex_finds(source, text) {
        Err(Failure::NoMatch)
    } else {
        decode(fields, source, text)
    }
}

pub proof fn lemma_decode_step(fields: Seq<FieldSpec>, source: Seq<char>, text: Seq<char>, i: int)
    requires
        0 <= i < fields.len(),
    ensures
        decode(fields.subrange(0, i + 1), source, text) == (match decode(
            fields.subrange(0, i),
            source,
            text,
        ) {
            Err(e) => Err(e),
            Ok(rec) => {
                let f = fields[i];
                if !is_capturing(f.name@) {
                    Ok(rec)
                } else {
                    match regex_group(source, text, f.name@) {
                        None => Ok(rec.push((f.name@, default_datum(f.kind)))),
                        Some(raw) => match convert_spec(f.kind, raw) {
                            Some(d) => Ok(rec.push((f.name@, d))),
                            None => Err(Failure::Conversion(f.name@, raw, f.kind)),
                        },
                    }
                }
            },
        }),
{
    assert(fields.subrange(0, i + 1).drop_last() =~= fields.subrange(0, i));
}

/// Once decoding a prefix of the fields fails, decoding any longer prefix
/// fails the same way.
pub proof fn lemma_decode_failure_persists(
    fields: Seq<FieldSpec>,
    source: Seq<char>,
    text: Seq<char>,
    k: int,
    m: int,
)
    requires
        0 <= k <= m <= fields.len(),
        decode(fields.subrange(0, k), source, text) is Err,
    ensures
        decode(fields.subrange(0, m), source, text) == decode(fields.subrange(0, k), source, text),
    decreases m - k,
{
    if m > k {
        lemma_decode_failure_persists(fields, source, text, k, m - 1);
        lemma_decode_step(fields, source, text, m - 1);
    }
}

impl Record {
    /// The value of the field with this name, if the record has one.
    pub fn get(&self, name: &str) -> (r: Option<&Value>)
        ensures
            match r {
                Some(v) => exists|i: int|
                    0 <= i < self.entries@.len() && self.entries@[i].name@ == name@
                        && self.entries@[i].value == *v,
                None => forall|i: int|
                    0 <= i < self.entries@.len() ==> self.entries@[i].name@ != name@,
            },
    {
        let key = name.to_string();
        let mut i: usize = 0;
        while i < self.entries.len()
            invariant
                i <= self.entries@.len(),
                key@ == name@,
                forall|k: int| 0 <= k < i ==> self.entries@[k].name@ != name@,
            decreases self.entries.len() - i,
        {
            if self.entries[i].name == key {
                return Some(&self.entries[i].value);
            }
            i = i + 1;
        }
        None
    }

    /// The number of fields in the record.
    pub fn len(&self) -> (r: usize)
        ensures
            r == self@.len(),
    {
        self.entries.len()
    }
}

} // verus!
