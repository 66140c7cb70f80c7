use vstd::prelude::*;

verus! {

/// The type that a captured fragment is parsed into.
#[derive(Clone, Copy, Debug, PartialEq, Eq, Structural)]
pub enum FieldType {
    Text,
    Int,
    Bool,
}

/// A typed value held by one field of a record.
#[derive(Clone, Debug, PartialEq, Eq)]
pub enum Value {
    Text(String),
    Int(i64),
    Bool(bool),
}

/// The mathematical content of a [`Value`].
pub enum Datum {
    Text(Seq<char>),
    Int(int),
    Bool(bool),
}

impl View for Value {
    type V = Datum;

    open spec fn view(&self) -> Datum {
        match self {
            Value::Text(s) => Datum::Text(s@),
            Value::Int(i) => Datum::Int(*i as int),
            Value::Bool(b) => Datum::Bool(*b),
        }
    }
}

pub open spec fn is_digit(c: char) -> bool {
    '0' <= c && c <= '9'
}

pub open spec fn all_digits(s: Seq<char>) -> bool {
    s.len() > 0 && forall|i: int| 0 <= i < s.len() ==> is_digit(#[trigger] s[i])
}

/// The number that a string of decimal digits denotes.
pub open spec fn digits_value(s: Seq<char>) -> int
    decreases s.len(),
{
    if s.len() == 0 {
        0
    } else {
        10 * digits_value(s.drop_last()) + (s.last() as int - '0' as int)
    }
}

/// The integer that a decimal text denotes: an optional `+` or `-`, then one
/// or more digits, and nothing else.
pub open spec fn decimal_value(s: Seq<char>) -> Option<int> {
    if s.len() > 0 && s[0] == '-' && all_digits(s.skip(1)) {
        Some(-digits_value(s.skip(1)))
    } else if s.len() > 0 && s[0] == '+' && all_digits(s.skip(1)) {
        Some(digits_value(s.skip(1)))
    } else if all_digits(s) {
        Some(digits_value(s))
    } else {
        None
    }
}

/// The `i64` that a text parses to, if it is decimal and in range.
pub open spec fn int_of(s: Seq<char>) -> Option<int> {
    match decimal_value(s) {
        Some(v) => if i64::MIN <= v && v <= i64::MAX { Some(v) } else { None },
        None => None,
    }
}

/// The boolean that a text parses to: exactly `true` or `false`.
pub open spec fn bool_of(s: Seq<char>) -> Option<bool> {
    if s == seq!['t', 'r', 'u', 'e'] {
        Some(true)
    } else if s == seq!['f', 'a', 'l', 's', 'e'] {
        Some(false)
    } else {
        None
    }
}

/// The value that a captured text becomes in a field of the given type.
pub open spec fn convert_spec(kind: FieldType, raw: Seq<char>) -> Option<Datum> {
    match kind {
        FieldType::Text => Some(Datum::Text(raw)),
        FieldType::Int => match int_of(raw) {
            Some(v) => Some(Datum::Int(v)),
            None => None,
        },
        FieldType::Bool => match bool_of(raw) {
            Some(b) => Some(Datum::Bool(b)),
            None => None,
        },
    }
}

/// The value that a field holds when its group took no part in the match.
pub open spec fn default_datum(kind: FieldType) -> Datum {
    match kind {
        FieldType::Text => Datum::Text(Seq::empty()),
        FieldType::Int => Datum::Int(0),
        FieldType::Bool => Datum::Bool(false),
    }
}

/// Relies on `<i64 as FromStr>::from_str`: it accepts an optional sign and
/// then only decimal digits, and fails on anything else or out of range.
#[verifier::external_body]
fn parse_i64(s: &str) -> (r: Option<i64>)
    ensures
        int_of(s@) == (match r {
            Some(v) => Some(v as int),
            None => None::<int>,
        }),
{
    s.parse::<i64>().ok()
}

/// Relies on `<bool as FromStr>::from_str`: only `true` and `false` parse.
#[verifier::external_body]
fn parse_bool(s: &str) -> (r: Option<bool>)
    ensures
        r == bool_of(s@),
{
    s.parse::<bool>().ok()
}

/// Parses a captured text into a value of the given type.
pub fn convert(kind: FieldType, raw: &str) -> (r: Option<Value>)
    ensures
        match r {
            Some(v) => convert_spec(kind, raw@) == Some(v@),
            None => convert_spec(kind, raw@).is_none(),
        },
{
    match kind {
        FieldType::Text => Some(Value::Text(raw.to_string())),
        FieldType::Int => match parse_i64(raw) {
            Some(v) => Some(Value::Int(v)),
            None => None,
        },
        FieldType::Bool => match parse_bool(raw) {
            Some(b) => Some(Value::Bool(b)),
            None => None,
        },
    }
}

/// The value of a field whose group took no part in the match.
pub fn default_value(kind: FieldType) -> (r: Value)
    ensures
        r@ == default_datum(kind),
{
    match kind {
        FieldType::Text => Value::Text(String::new()),
        FieldType::Int => Value::Int(0),
        FieldType::Bool => Value::Bool(false),
    }
}

} // verus!
