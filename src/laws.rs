use vstd::prelude::*;

use crate::engine::regex_group;
use crate::record::{decode, extract_spec, Failure};
use crate::schema::{composite, is_capturing, piece, FieldSpec, Schema};
use crate::value::{convert_spec, Datum};

verus! {

/// The names of the capturing fields, in declaration order.
pub open spec fn capturing_names(fields: Seq<FieldSpec>) -> Seq<Seq<char>>
    decreases fields.len(),
{
    if fields.len() == 0 {
        Seq::empty()
    } else if is_capturing(fields.last().name@) {
        capturing_names(fields.drop_last()).push(fields.last().name@)
    } else {
        capturing_names(fields.drop_last())
    }
}

/// The names that a decoded record carries, in order.
pub open spec fn record_names(rec: Seq<(Seq<char>, Datum)>) -> Seq<Seq<char>> {
    rec.map_values(|e: (Seq<char>, Datum)| e.0)
}

/// A record decoded from a match holds exactly the capturing fields, in
/// declaration order: no non-capturing field ever shows up in it, whatever
/// its pattern matched.
pub proof fn lemma_record_holds_capturing_fields_only(
    fields: Seq<FieldSpec>,
    source: Seq<char>,
    text: Seq<char>,
)
    ensures
        decode(fields, source, text) matches Ok(rec) ==> record_names(rec) == capturing_names(
            fields,
        ) && forall|i: int| 0 <= i < rec.len() ==> is_capturing(#[trigger] rec[i].0),
    decreases fields.len(),
{
    if fields.len() > 0 {
        lemma_record_holds_capturing_fields_only(fields.drop_last(), source, text);
        if let Ok(rec) = decode(fields, source, text) {
            let prev = decode(fields.drop_last(), source, text)->Ok_0;
            if is_capturing(fields.last().name@) {
                assert(rec == prev.push((fields.last().name@, rec.last().1)));
                assert(record_names(rec) =~= record_names(prev).push(fields.last().name@));
            }
        }
    } else {
        if let Ok(rec) = decode(fields, source, text) {
            assert(record_names(rec) =~= Seq::empty());
        }
    }
}

/// A successful extraction with a schema yields a record whose fields are
/// the schema's capturing fields, in order, and no non-capturing one.
pub proof fn lemma_extract_holds_capturing_fields_only(s: Schema, text: Seq<char>)
    ensures
        extract_spec(s.fields(), s.source(), text) matches Ok(rec) ==> record_names(rec)
            == capturing_names(s.fields()) && forall|i: int|
            0 <= i < rec.len() ==> is_capturing(#[trigger] rec[i].0),
{
    lemma_record_holds_capturing_fields_only(s.fields(), s.source(), text);
}

/// The composite pattern of fields joined one after the other is the
/// composite of the first followed by that of the second.
pub proof fn lemma_composite_concat(a: Seq<FieldSpec>, b: Seq<FieldSpec>)
    ensures
        composite(a + b) == composite(a) + composite(b),
    decreases b.len(),
{
    if b.len() == 0 {
        assert(a + b =~= a);
        assert(composite(a) + composite(b) =~= composite(a));
    } else {
        lemma_composite_concat(a, b.drop_last());
        assert((a + b).drop_last() =~= a + b.drop_last());
        assert(composite(a) + composite(b) =~= composite(a) + composite(b.drop_last()) + piece(
            b.last(),
        ));
    }
}

/// Field order decides the composite pattern: two fields in one order give
/// their pieces in that order, and in the other order the other way round.
pub proof fn lemma_field_order_sets_pattern(x: FieldSpec, y: FieldSpec)
    ensures
        composite(seq![x, y]) == piece(x) + piece(y),
        composite(seq![y, x]) == piece(y) + piece(x),
{
    assert(seq![x, y].drop_last() =~= seq![x]);
    assert(seq![y, x].drop_last() =~= seq![y]);
    assert(seq![x].drop_last() =~= Seq::<FieldSpec>::empty());
    assert(seq![y].drop_last() =~= Seq::<FieldSpec>::empty());
    assert(seq![x].last() == x);
    assert(seq![y].last() == y);
    assert(seq![x, y].last() == y);
    assert(seq![y, x].last() == x);
    assert(composite(Seq::<FieldSpec>::empty()) == Seq::<char>::empty());
    assert(composite(seq![x]) =~= piece(x));
    assert(composite(seq![y]) =~= piece(y));
}

/// Decoding round trip: where every field captures and the match gives each
/// field a sample text that parses into its type, the record holds those
/// samples, parsed, under the fields' names and in the fields' order.
pub proof fn lemma_decode_of_captured_samples(
    fields: Seq<FieldSpec>,
    source: Seq<char>,
    text: Seq<char>,
    samples: Seq<Seq<char>>,
)
    requires
        samples.len() == fields.len(),
        forall|i: int| 0 <= i < fields.len() ==> is_capturing(#[trigger] fields[i].name@),
        forall|i: int|
            0 <= i < fields.len() ==> regex_group(source, text, #[trigger] fields[i].name@)
                == Some(samples[i]),
        forall|i: int|
            0 <= i < fields.len() ==> (#[trigger] convert_spec(fields[i].kind, samples[i])) is Some,
    ensures
        decode(fields, source, text) == Ok::<Seq<(Seq<char>, Datum)>, Failure>(
            Seq::new(
                fields.len(),
                |i: int| (fields[i].name@, convert_spec(fields[i].kind, samples[i])->Some_0),
            ),
        ),
    decreases fields.len(),
{
    if fields.len() > 0 {
        let n = fields.len() - 1;
        let pre = fields.drop_last();
        assert forall|i: int| 0 <= i < pre.len() implies is_capturing(#[trigger] pre[i].name@) by {
            assert(pre[i] == fields[i]);
        }
        assert forall|i: int|
            0 <= i < pre.len() implies regex_group(source, text, #[trigger] pre[i].name@) == Some(
                samples.drop_last()[i],
            ) by {
            assert(pre[i] == fields[i]);
        }
        assert forall|i: int|
            0 <= i < pre.len() implies (#[trigger] convert_spec(
                pre[i].kind,
                samples.drop_last()[i],
            )) is Some by {
            assert(pre[i] == fields[i]);
            assert(convert_spec(fields[i].kind, samples[i]) is Some);
        }
        lemma_decode_of_captured_samples(pre, source, text, samples.drop_last());
        assert(is_capturing(fields[n].name@));
        assert(regex_group(source, text, fields[n].name@) == Some(samples[n]));
        assert(convert_spec(fields[n].kind, samples[n]) is Some);
        assert(Seq::new(
            pre.len(),
            |i: int| (pre[i].name@, convert_spec(pre[i].kind, samples.drop_last()[i])->Some_0),
        ).push((fields[n].name@, convert_spec(fields[n].kind, samples[n])->Some_0)) =~= Seq::new(
            fields.len(),
            |i: int| (fields[i].name@, convert_spec(fields[i].kind, samples[i])->Some_0),
        ));
    } else {
        assert(Seq::new(
            fields.len(),
            |i: int| (fields[i].name@, convert_spec(fields[i].kind, samples[i])->Some_0),
        ) =~= Seq::empty());
    }
}

/// A conversion failure always names a capturing field of the schema, with
/// the text its group captured and its declared type, and that text does not
/// parse into that type: a mismatched capture never becomes a default or a
/// partial value.
pub proof fn lemma_conversion_failure_names_field(
    fields: Seq<FieldSpec>,
    source: Seq<char>,
    text: Seq<char>,
)
    ensures
        decode(fields, source, text) matches Err(Failure::Conversion(name, raw, kind))
            ==> exists|i: int|
            0 <= i < fields.len() && #[trigger] fields[i].name@ == name && fields[i].kind == kind
                && is_capturing(name) && regex_group(source, text, name) == Some(raw)
                && convert_spec(kind, raw) is None,
    decreases fields.len(),
{
    if fields.len() > 0 {
        let pre = fields.drop_last();
        lemma_conversion_failure_names_field(pre, source, text);
        if let Err(Failure::Conversion(name, raw, kind)) = decode(fields, source, text) {
            if let Err(Failure::Conversion(n2, r2, k2)) = decode(pre, source, text) {
                let i = choose|i: int|
                    0 <= i < pre.len() && #[trigger] pre[i].name@ == n2 && pre[i].kind == k2
                        && is_capturing(n2) && regex_group(source, text, n2) == Some(r2)
                        && convert_spec(k2, r2) is None;
                assert(fields[i] == pre[i]);
            } else {
                assert(fields[fields.len() - 1] == fields.last());
            }
        }
    }
}

} // verus!
