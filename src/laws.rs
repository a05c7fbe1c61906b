use vstd::prelude::*;

use crate::record::{
    RecordField, FieldValue, pair_text, present, query_text, segment, segments, value_text, value_texts,
};
use crate::text::join;

verus! {

/// The text of a plain field, `name=value`; empty for other shapes.
pub open spec fn scalar_pair(f: RecordField) -> Seq<char> {
    match f.value {
        FieldValue::Scalar(v) => pair_text(f.name@, value_text(v)),
        _ => Seq::empty(),
    }
}

/// Each field is a plain value.
pub open spec fn all_scalar(fs: Seq<RecordField>) -> bool {
    forall|i: int| 0 <= i < fs.len() ==> #[trigger] fs[i].value is Scalar
}

/// Each field is an absent optional value.
pub open spec fn all_absent(fs: Seq<RecordField>) -> bool {
    forall|i: int| 0 <= i < fs.len() ==> #[trigger] fs[i].value == FieldValue::Optional(None)
}

/// Whether a field renders a segment.
pub open spec fn is_present(f: RecordField) -> bool {
    segment(f) is Some
}

/// The fields that render a segment, in declaration order.
pub open spec fn present_fields(fs: Seq<RecordField>) -> Seq<RecordField> {
    fs.filter(|f: RecordField| is_present(f))
}

/// The output buffer as it stands after every field was written: `?`, then
/// `segment&` for each present segment in order.
pub open spec fn buffer_fragments(s: Seq<Option<Seq<char>>>) -> Seq<char>
    decreases s.len(),
{
    if s.len() == 0 {
        Seq::empty()
    } else {
        buffer_fragments(s.drop_last()) + match s.last() {
            Some(t) => t + "&"@,
            None => Seq::empty(),
        }
    }
}

proof fn lemma_segments_drop_last(fs: Seq<RecordField>)
    requires
        fs.len() > 0,
    ensures
        segments(fs).drop_last() == segments(fs.drop_last()),
        segments(fs).last() == segment(fs.last()),
{
    assert(segments(fs).drop_last() =~= segments(fs.drop_last()));
}

proof fn lemma_present_scalar(fs: Seq<RecordField>)
    requires
        all_scalar(fs),
    ensures
        present(segments(fs)) == fs.map_values(|f: RecordField| scalar_pair(f)),
    decreases fs.len(),
{
    if fs.len() > 0 {
        lemma_segments_drop_last(fs);
        assert(all_scalar(fs.drop_last())) by {
            assert forall|i: int| 0 <= i < fs.drop_last().len() implies #[trigger] fs.drop_last()[i].value is Scalar by {
                assert(fs[i].value is Scalar);
            }
        }
        lemma_present_scalar(fs.drop_last());
        assert(fs[fs.len() - 1].value is Scalar);
        assert(fs.map_values(|f: RecordField| scalar_pair(f)) =~= fs.drop_last().map_values(
            |f: RecordField| scalar_pair(f),
        ).push(scalar_pair(fs.last())));
    } else {
        assert(fs.map_values(|f: RecordField| scalar_pair(f)) =~= Seq::empty());
    }
}

/// A record whose fields are all plain values renders as `?` followed by
/// `name=value` for every field in declaration order, joined by `&`.
pub proof fn lemma_scalar_record(fs: Seq<RecordField>)
    requires
        fs.len() > 0,
        all_scalar(fs),
    ensures
        query_text(fs) == "?"@ + join(fs.map_values(|f: RecordField| scalar_pair(f)), "&"@),
{
    lemma_present_scalar(fs);
}

/// A record without fields renders as the empty text.
pub proof fn lemma_empty_record()
    ensures
        query_text(Seq::<RecordField>::empty()) == Seq::<char>::empty(),
{
    assert(segments(Seq::<RecordField>::empty()).len() == 0);
}

/// A record whose optional fields are all absent renders as the empty text.
pub proof fn lemma_absent_record(fs: Seq<RecordField>)
    requires
        all_absent(fs),
    ensures
        query_text(fs) == Seq::<char>::empty(),
    decreases fs.len(),
{
    if fs.len() > 0 {
        lemma_segments_drop_last(fs);
        assert(all_absent(fs.drop_last())) by {
            assert forall|i: int| 0 <= i < fs.drop_last().len() implies #[trigger] fs.drop_last()[i].value
                == FieldValue::Optional(None) by {
                assert(fs[i].value == FieldValue::Optional(None));
            }
        }
        lemma_absent_record(fs.drop_last());
        assert(fs[fs.len() - 1].value == FieldValue::Optional(None));
    }
}

proof fn lemma_present_filter(fs: Seq<RecordField>)
    ensures
        present(segments(fs.filter(|f: RecordField| is_present(f)))) == present(segments(fs)),
    decreases fs.len(),
{
    reveal(Seq::filter);
    if fs.len() > 0 {
        let p = |f: RecordField| is_present(f);
        let rest = fs.drop_last().filter(p);
        lemma_present_filter(fs.drop_last());
        lemma_segments_drop_last(fs);
        if is_present(fs.last()) {
            lemma_segments_drop_last(rest.push(fs.last()));
            assert(rest.push(fs.last()).drop_last() =~= rest);
        }
    }
}

/// Only the fields that have a value appear, in declaration order, with
/// nothing in place of the others: a record renders as the record of its
/// present fields alone, each of which renders a segment.
pub proof fn lemma_absent_fields_leave_no_trace(fs: Seq<RecordField>)
    ensures
        query_text(fs) == query_text(present_fields(fs)),
        forall|i: int|
            0 <= i < present_fields(fs).len() ==> is_present(#[trigger] present_fields(fs)[i]),
{
    lemma_present_filter(fs);
    let p = |f: RecordField| is_present(f);
    assert forall|i: int| 0 <= i < present_fields(fs).len() implies is_present(
        #[trigger] present_fields(fs)[i],
    ) by {
        fs.lemma_filter_pred(p, i);
    }
}

proof fn lemma_present_append(s1: Seq<Option<Seq<char>>>, s2: Seq<Option<Seq<char>>>)
    ensures
        present(s1 + s2) == present(s1) + present(s2),
    decreases s2.len(),
{
    if s2.len() == 0 {
        assert(s1 + s2 =~= s1);
        assert(present(s1) + present(s2) =~= present(s1));
    } else {
        assert((s1 + s2).drop_last() =~= s1 + s2.drop_last());
        lemma_present_append(s1, s2.drop_last());
        match s2.last() {
            Some(t) => {
                assert(present(s1) + present(s2.drop_last()).push(t) =~= (present(s1) + present(
                    s2.drop_last(),
                )).push(t));
            },
            None => {},
        }
    }
}

/// A list field renders as `name=` and its values' texts joined by commas,
/// and that segment stands in the record's output between the segments of
/// the fields before it and those of the fields after it.
pub proof fn lemma_list_field(fs: Seq<RecordField>, i: int)
    requires
        0 <= i < fs.len(),
        fs[i].value is List,
    ensures
        segment(fs[i]) == Some(
            pair_text(fs[i].name@, join(value_texts(fs[i].value->List_0@), ","@)),
        ),
        present(segments(fs)) == present(segments(fs.take(i))).push(
            pair_text(fs[i].name@, join(value_texts(fs[i].value->List_0@), ","@)),
        ) + present(segments(fs.skip(i + 1))),
{
    let t = pair_text(fs[i].name@, join(value_texts(fs[i].value->List_0@), ","@));
    let s = segments(fs);
    assert(s =~= segments(fs.take(i)) + seq![Some(t)] + segments(fs.skip(i + 1)));
    lemma_present_append(segments(fs.take(i)) + seq![Some(t)], segments(fs.skip(i + 1)));
    lemma_present_append(segments(fs.take(i)), seq![Some(t)]);
    assert(seq![Some(t)].drop_last() =~= Seq::<Option<Seq<char>>>::empty());
    assert(seq![Some(t)].last() == Some(t));
    assert(present(Seq::<Option<Seq<char>>>::empty()) == Seq::<Seq<char>>::empty());
    assert(present(seq![Some(t)]) =~= seq![t]);
}

/// Determinism, as the model states it: the text is a function of the fields
/// alone, and `Record::to_query_params` returns `query_text` of its fields, so
/// two calls on one record give the same text.
pub proof fn lemma_deterministic(a: Seq<RecordField>, b: Seq<RecordField>)
    requires
        a == b,
    ensures
        query_text(a) == query_text(b),
{
}

/// Swapping two fields' declarations swaps their segments and leaves every
/// segment as it was.
pub proof fn lemma_swap_fields(fs: Seq<RecordField>, i: int, j: int)
    requires
        0 <= i < fs.len(),
        0 <= j < fs.len(),
    ensures
        segments(fs.update(i, fs[j]).update(j, fs[i])) == segments(fs).update(
            i,
            segment(fs[j]),
        ).update(j, segment(fs[i])),
{
    assert(segments(fs.update(i, fs[j]).update(j, fs[i])) =~= segments(fs).update(
        i,
        segment(fs[j]),
    ).update(j, segment(fs[i])));
}

proof fn lemma_fragments_join(s: Seq<Option<Seq<char>>>)
    ensures
        buffer_fragments(s) == if present(s).len() == 0 {
            Seq::empty()
        } else {
            join(present(s), "&"@) + "&"@
        },
    decreases s.len(),
{
    if s.len() > 0 {
        lemma_fragments_join(s.drop_last());
        match s.last() {
            Some(t) => {
                let p = present(s.drop_last());
                assert(p.push(t).drop_last() =~= p);
                if p.len() == 0 {
                    assert(buffer_fragments(s.drop_last()) =~= Seq::empty());
                    assert(Seq::<char>::empty() + (t + "&"@) =~= t + "&"@);
                } else {
                    assert(join(p, "&"@) + "&"@ + (t + "&"@) =~= join(p, "&"@) + "&"@ + t
                        + "&"@);
                }
            },
            None => {
                assert(buffer_fragments(s.drop_last()) + Seq::empty() =~= buffer_fragments(
                    s.drop_last(),
                ));
            },
        }
    }
}

/// The output is the buffer `?segment&segment&...&` with its last `&` taken
/// off, or the empty text when the buffer never grew past `?`.
pub proof fn lemma_trimmed_buffer(fs: Seq<RecordField>)
    ensures
        query_text(fs) == ({
            let b = "?"@ + buffer_fragments(segments(fs));
            if b.len() == 1 {
                Seq::empty()
            } else {
                b.drop_last()
            }
        }),
{
    reveal_strlit("?");
    reveal_strlit("&");
    let s = segments(fs);
    lemma_fragments_join(s);
    if present(s).len() > 0 {
        let x = join(present(s), "&"@);
        assert(("?"@ + (x + "&"@)).drop_last() =~= "?"@ + x);
    }
}

} // verus!
