//! Laws of the value model.

use crate::conversions::converts_to;
use crate::decimal::decimal_text;
use crate::value::{rendering, rendering_joined, Value, ValueView};
use vstd::prelude::*;
use vstd::std_specs::convert::FromSpec;

verus! {

/// The texts `parts` in order, with `separator` between neighbours.
pub open spec fn joined(parts: Seq<Seq<char>>, separator: Seq<char>) -> Seq<char>
    decreases parts.len(),
{
    if parts.len() == 0 {
        Seq::empty()
    } else if parts.len() == 1 {
        parts[0]
    } else {
        parts[0] + separator + joined(parts.drop_first(), separator)
    }
}

/// Joining can also be done from the back: the last text joins what comes
/// before it.
pub proof fn lemma_joined_last(parts: Seq<Seq<char>>, separator: Seq<char>)
    requires
        parts.len() >= 2,
    ensures
        joined(parts, separator) == joined(parts.drop_last(), separator) + separator
            + parts.last(),
    decreases parts.len(),
{
    if parts.len() == 2 {
        assert(parts.drop_first() =~= seq![parts[1]]);
        assert(parts.drop_last() =~= seq![parts[0]]);
        assert(joined(parts.drop_first(), separator) == parts[1]);
        assert(joined(parts.drop_last(), separator) == parts[0]);
    } else {
        let rest = parts.drop_first();
        lemma_joined_last(rest, separator);
        assert(rest.drop_last() =~= parts.drop_last().drop_first());
        assert(rest.last() == parts.last());
        assert(parts.drop_last()[0] == parts[0]);
        assert(joined(parts, separator) =~= joined(parts.drop_last(), separator) + separator
            + parts.last());
    }
}

/// The text of a sequence is the texts of its elements, each rendered by the
/// same rule, in order and joined by single spaces. This holds at every
/// depth: an element that is itself a sequence is rendered in the same way.
pub proof fn lemma_list_text(items: Seq<ValueView>)
    ensures
        rendering(ValueView::List(items)) == joined(
            items.map_values(|v: ValueView| rendering(v)),
            seq![' '],
        ),
    decreases items.len(),
{
    let texts = items.map_values(|v: ValueView| rendering(v));
    if items.len() >= 2 {
        lemma_list_text(items.drop_last());
        lemma_joined_last(texts, seq![' ']);
        assert(texts.drop_last() =~= items.drop_last().map_values(|v: ValueView| rendering(v)));
    }
}

/// The text of a sequence of two, three, four or five values is the texts
/// of the values in order, with one space between neighbours.
pub proof fn lemma_composite_text(
    a: ValueView,
    b: ValueView,
    c: ValueView,
    d: ValueView,
    e: ValueView,
)
    ensures
        rendering(ValueView::List(seq![a, b])) == rendering(a) + seq![' '] + rendering(b),
        rendering(ValueView::List(seq![a, b, c])) == rendering(a) + seq![' '] + rendering(b)
            + seq![' '] + rendering(c),
        rendering(ValueView::List(seq![a, b, c, d])) == rendering(a) + seq![' '] + rendering(b)
            + seq![' '] + rendering(c) + seq![' '] + rendering(d),
        rendering(ValueView::List(seq![a, b, c, d, e])) == rendering(a) + seq![' '] + rendering(
            b,
        ) + seq![' '] + rendering(c) + seq![' '] + rendering(d) + seq![' '] + rendering(e),
{
    assert(seq![a, b].drop_last() =~= seq![a]);
    assert(seq![a, b, c].drop_last() =~= seq![a, b]);
    assert(seq![a, b, c, d].drop_last() =~= seq![a, b, c]);
    assert(seq![a, b, c, d, e].drop_last() =~= seq![a, b, c, d]);
    assert(rendering_joined(seq![a]) == rendering(a));
    assert(rendering_joined(seq![a, b]) == rendering(a) + seq![' '] + rendering(b));
    assert(rendering_joined(seq![a, b, c]) == rendering_joined(seq![a, b]) + seq![' ']
        + rendering(c));
    assert(rendering_joined(seq![a, b, c, d]) == rendering_joined(seq![a, b, c]) + seq![' ']
        + rendering(d));
    assert(rendering_joined(seq![a, b, c, d, e]) == rendering_joined(seq![a, b, c, d]) + seq![
        ' ',
    ] + rendering(e));
}

/// The text of a converted scalar: `true` or `false` for a boolean, the
/// decimal text for an integer of any width, and the string itself for a
/// string.
pub proof fn lemma_scalar_text()
    ensures
        forall|v: bool|
            rendering((#[trigger] <Value as FromSpec<bool>>::from_spec(v))@) == if v {
                "true"@
            } else {
                "false"@
            },
        forall|v: u8|
            rendering((#[trigger] <Value as FromSpec<u8>>::from_spec(v))@) == decimal_text(
                v as int,
            ),
        forall|v: u16|
            rendering((#[trigger] <Value as FromSpec<u16>>::from_spec(v))@) == decimal_text(
                v as int,
            ),
        forall|v: u32|
            rendering((#[trigger] <Value as FromSpec<u32>>::from_spec(v))@) == decimal_text(
                v as int,
            ),
        forall|v: u64|
            rendering((#[trigger] <Value as FromSpec<u64>>::from_spec(v))@) == decimal_text(
                v as int,
            ),
        forall|v: u128|
            rendering((#[trigger] <Value as FromSpec<u128>>::from_spec(v))@) == decimal_text(
                v as int,
            ),
        forall|v: usize|
            rendering((#[trigger] <Value as FromSpec<usize>>::from_spec(v))@) == decimal_text(
                v as int,
            ),
        forall|v: i8|
            rendering((#[trigger] <Value as FromSpec<i8>>::from_spec(v))@) == decimal_text(
                v as int,
            ),
        forall|v: i16|
            rendering((#[trigger] <Value as FromSpec<i16>>::from_spec(v))@) == decimal_text(
                v as int,
            ),
        forall|v: i32|
            rendering((#[trigger] <Value as FromSpec<i32>>::from_spec(v))@) == decimal_text(
                v as int,
            ),
        forall|v: i64|
            rendering((#[trigger] <Value as FromSpec<i64>>::from_spec(v))@) == decimal_text(
                v as int,
            ),
        forall|v: i128|
            rendering((#[trigger] <Value as FromSpec<i128>>::from_spec(v))@) == decimal_text(
                v as int,
            ),
        forall|v: isize|
            rendering((#[trigger] <Value as FromSpec<isize>>::from_spec(v))@) == decimal_text(
                v as int,
            ),
        forall|v: String|
            rendering((#[trigger] <Value as FromSpec<String>>::from_spec(v))@) == v@,
        forall|s: &str, v: ValueView| #[trigger] converts_to(s, v) ==> rendering(v) == s@,
{
}

} // verus!
