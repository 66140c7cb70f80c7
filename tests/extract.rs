use restructure::value::{convert, default_value};
use restructure::{
    ExtractError, FieldSpec, FieldType, PatternError, RegexStruct, Restruct, Schema, Value,
};

fn schema(fields: &[(&str, FieldType, &str)]) -> Schema {
    let specs: Vec<FieldSpec> =
        fields.iter().map(|(n, k, p)| FieldSpec::new(n, *k, p)).collect();
    Schema::new(specs).unwrap()
}

fn text_value(v: Option<&Value>) -> String {
    match v {
        Some(Value::Text(s)) => s.clone(),
        other => panic!("not a text value: {:?}", other),
    }
}

fn int_value(v: Option<&Value>) -> i64 {
    match v {
        Some(Value::Int(i)) => *i,
        other => panic!("not an integer value: {:?}", other),
    }
}

#[test]
fn single_struct_regex() {
    let version = schema(&[
        ("major", FieldType::Int, r"\d+"),
        ("__1", FieldType::Text, r"\."),
        ("minor", FieldType::Int, r"\d+"),
        ("__2", FieldType::Text, r"\."),
        ("patch", FieldType::Int, r"\d+"),
    ]);
    assert_eq!(r"(?P<major>\d+)\.(?P<minor>\d+)\.(?P<patch>\d+)", version.pattern());
}

#[test]
fn single_struct_with_same_types() {
    let host = schema(&[
        ("domain", FieldType::Text, r"\w+"),
        ("_dot", FieldType::Text, r"\."),
        ("tld", FieldType::Text, r"\w+"),
    ]);
    let filled_host = Restruct::fill(&host, "example.com").unwrap();
    assert_eq!("example", text_value(filled_host.get("domain")));
    assert_eq!("com", text_value(filled_host.get("tld")));
}

#[test]
fn single_struct_with_diff_types() {
    let movie = schema(&[
        ("title", FieldType::Text, r"'[^']+'"),
        ("_1", FieldType::Text, r"\s+\("),
        ("year", FieldType::Int, r"\d+"),
        ("_2", FieldType::Text, r"\)"),
    ]);
    let filled_movie =
        Restruct::fill(&movie, "Not my favorite movie: 'Citizen Kane' (1941).").unwrap();
    assert_eq!(r"'Citizen Kane'", text_value(filled_movie.get("title")));
    assert_eq!(1941, int_value(filled_movie.get("year")));
}

#[test]
fn single_struct() {
    let name = schema(&[
        ("first", FieldType::Text, r"\w+"),
        ("_1", FieldType::Text, r"\s+"),
        ("middle", FieldType::Text, r"\w+"),
        ("_2", FieldType::Text, r"\s+"),
        ("last", FieldType::Text, r"\w+"),
    ]);
    let user = Restruct::fill(&name, "Samuel Lee Jackson").unwrap();
    assert_eq!("Samuel", text_value(user.get("first")));
    assert!("L." != text_value(user.get("middle")));
    assert_eq!("Jackson", text_value(user.get("last")));
}

#[test]
fn round_trip_of_concatenated_samples() {
    let s = schema(&[
        ("word", FieldType::Text, r"[a-z]+"),
        ("num", FieldType::Int, r"[0-9]+"),
        ("flag", FieldType::Bool, r"true|false"),
    ]);
    let rec = s.extract("abc123true").unwrap();
    assert_eq!(3, rec.len());
    assert_eq!("abc", text_value(rec.get("word")));
    assert_eq!(123, int_value(rec.get("num")));
    assert_eq!(Some(&Value::Bool(true)), rec.get("flag"));
}

#[test]
fn field_order_changes_pattern_not_values() {
    let ab = schema(&[("word", FieldType::Text, r"[a-z]+"), ("num", FieldType::Int, r"[0-9]+")]);
    let ba = schema(&[("num", FieldType::Int, r"[0-9]+"), ("word", FieldType::Text, r"[a-z]+")]);
    assert_eq!("(?P<word>[a-z]+)(?P<num>[0-9]+)", ab.pattern());
    assert_eq!("(?P<num>[0-9]+)(?P<word>[a-z]+)", ba.pattern());
    assert_ne!(ab.pattern(), ba.pattern());
    let r1 = ab.extract("xyz42").unwrap();
    let r2 = ba.extract("42xyz").unwrap();
    assert_eq!(r1.get("word"), r2.get("word"));
    assert_eq!(r1.get("num"), r2.get("num"));
    assert_eq!("word", r1.entries[0].name);
    assert_eq!("num", r2.entries[0].name);
    assert_eq!(Err(ExtractError::NoMatch), ab.extract("42"));
}

#[test]
fn skipped_field_never_in_record() {
    let host = schema(&[
        ("domain", FieldType::Text, r"\w+"),
        ("_dot", FieldType::Text, r"\."),
        ("tld", FieldType::Text, r"\w+"),
    ]);
    let rec = host.extract("example.com").unwrap();
    assert_eq!(2, rec.len());
    assert!(rec.get("_dot").is_none());
    for e in &rec.entries {
        assert!(!e.name.starts_with('_'));
        assert_ne!(Value::Text(".".to_string()), e.value);
    }
    assert_eq!(Err(ExtractError::NoMatch), host.extract("example_com"));
}

#[test]
fn duplicate_capturing_name_is_refused() {
    let specs = vec![
        FieldSpec::new("year", FieldType::Int, r"\d+"),
        FieldSpec::new("_sep", FieldType::Text, r"-"),
        FieldSpec::new("year", FieldType::Int, r"\d+"),
    ];
    assert_eq!(Err(PatternError::DuplicateName("year".to_string())), Schema::new(specs).map(|_| ()));
}

#[test]
fn duplicate_skip_names_are_allowed() {
    let specs = vec![
        FieldSpec::new("a", FieldType::Text, r"x"),
        FieldSpec::new("_", FieldType::Text, r"-"),
        FieldSpec::new("b", FieldType::Text, r"y"),
        FieldSpec::new("_", FieldType::Text, r"-"),
    ];
    assert!(Schema::new(specs).is_ok());
}

#[test]
fn empty_schema_is_refused() {
    assert_eq!(Err(PatternError::Empty), Schema::new(Vec::new()).map(|_| ()));
}

#[test]
fn malformed_fragment_is_refused() {
    let specs = vec![FieldSpec::new("x", FieldType::Text, r"(unclosed")];
    assert_eq!(Err(PatternError::Invalid), Schema::new(specs).map(|_| ()));
}

#[test]
fn type_mismatch_is_a_conversion_error() {
    let s = schema(&[("count", FieldType::Int, r"[a-z]+")]);
    assert_eq!(
        Err(ExtractError::Conversion {
            field: "count".to_string(),
            raw_text: "abc".to_string(),
            target: FieldType::Int,
        }),
        s.extract("abc")
    );
}

#[test]
fn out_of_range_integer_is_a_conversion_error() {
    let s = schema(&[("n", FieldType::Int, r"\d+")]);
    assert_eq!(
        Err(ExtractError::Conversion {
            field: "n".to_string(),
            raw_text: "99999999999999999999".to_string(),
            target: FieldType::Int,
        }),
        s.extract("99999999999999999999")
    );
}

#[test]
fn signed_integer_and_bool_parse() {
    let s = schema(&[
        ("n", FieldType::Int, r"[-+]?\d+"),
        ("_s", FieldType::Text, r" "),
        ("b", FieldType::Bool, r"\w+"),
    ]);
    let rec = s.extract("-17 false").unwrap();
    assert_eq!(-17, int_value(rec.get("n")));
    assert_eq!(Some(&Value::Bool(false)), rec.get("b"));
    assert_eq!(
        Err(ExtractError::Conversion {
            field: "b".to_string(),
            raw_text: "yes".to_string(),
            target: FieldType::Bool,
        }),
        s.extract("+5 yes")
    );
}

#[test]
fn semver_scenario() {
    let s = schema(&[
        ("major", FieldType::Int, r"\d+"),
        ("_1", FieldType::Text, r"\."),
        ("minor", FieldType::Int, r"\d+"),
        ("_2", FieldType::Text, r"\."),
        ("patch", FieldType::Int, r"\d+"),
    ]);
    let rec = s.extract("12.4.1").unwrap();
    assert_eq!(12, int_value(rec.get("major")));
    assert_eq!(4, int_value(rec.get("minor")));
    assert_eq!(1, int_value(rec.get("patch")));
}

#[test]
fn movie_scenario() {
    let s = schema(&[
        ("title", FieldType::Text, r"'[^']+'"),
        ("_1", FieldType::Text, r"\s+\("),
        ("year", FieldType::Int, r"\d+"),
        ("_2", FieldType::Text, r"\)"),
    ]);
    let rec = s.find("Film: 'Citizen Kane' (1941).").unwrap();
    assert_eq!("'Citizen Kane'", text_value(rec.get("title")));
    assert_eq!(1941, int_value(rec.get("year")));
    assert_eq!(Err(ExtractError::NoMatch), s.extract("Film: 'Citizen Kane'."));
}

#[test]
fn absent_optional_group_gives_default() {
    let s = schema(&[
        ("word", FieldType::Text, r"[a-z]+"),
        ("_o", FieldType::Text, r"(?:"),
        ("num", FieldType::Int, r"[0-9]+"),
        ("_c", FieldType::Text, r")?"),
        ("label", FieldType::Text, r"(?:x"),
        ("_e", FieldType::Text, r")?;"),
    ]);
    let rec = s.extract("abc;").unwrap();
    assert_eq!("abc", text_value(rec.get("word")));
    assert_eq!(0, int_value(rec.get("num")));
    assert_eq!("", text_value(rec.get("label")));
}

#[test]
fn empty_text_does_not_match() {
    let s = schema(&[("w", FieldType::Text, r"\w+")]);
    assert_eq!(Err(ExtractError::NoMatch), s.extract(""));
}

#[test]
fn convert_parses_each_type() {
    assert_eq!(Some(Value::Int(42)), convert(FieldType::Int, "42"));
    assert_eq!(Some(Value::Int(-7)), convert(FieldType::Int, "-7"));
    assert_eq!(None, convert(FieldType::Int, "4 2"));
    assert_eq!(None, convert(FieldType::Int, ""));
    assert_eq!(Some(Value::Bool(true)), convert(FieldType::Bool, "true"));
    assert_eq!(None, convert(FieldType::Bool, "True"));
    assert_eq!(Some(Value::Text("x y".to_string())), convert(FieldType::Text, "x y"));
    assert_eq!(Value::Int(0), default_value(FieldType::Int));
    assert_eq!(Value::Text(String::new()), default_value(FieldType::Text));
}
