//! What holds of the library as a whole, in terms of what goes in and what comes out.

pub mod boards;
pub mod commands;
pub mod config;
pub mod dashboard;
pub mod mcp;
pub mod network;
pub mod pages;
pub mod realtime;
pub mod requests;
pub mod routes;
pub mod rules;
pub mod texts;
pub mod timeline;
pub mod tools;
pub mod usage;
pub mod values;

use vstd::prelude::*;

use crate::order::{in_order, is_ranking, ranked, ranked_is_a_stable_sort};
use crate::split::{first_n, has_text, has_text_at};

verus! {

/// The sum of a figure over items.
pub open spec fn sum_over<T>(items: Seq<T>, figure: spec_fn(T) -> int) -> int
    decreases items.len(),
{
    if items.len() == 0 {
        0
    } else {
        sum_over(items.drop_last(), figure) + figure(items.last())
    }
}

/// The sum over one more item.
pub proof fn sum_over_push<T>(items: Seq<T>, item: T, figure: spec_fn(T) -> int)
    ensures
        sum_over(items.push(item), figure) == sum_over(items, figure) + figure(item),
{
    assert(items.push(item).drop_last() =~= items);
}

/// What filtering keeps of one more item.
pub proof fn filter_of_push<T>(items: Seq<T>, item: T, keep: spec_fn(T) -> bool)
    ensures
        items.push(item).filter(keep) == if keep(item) {
            items.filter(keep).push(item)
        } else {
            items.filter(keep)
        },
{
    reveal(Seq::filter);
    assert(items.push(item).drop_last() =~= items);
}

/// The first of the items that is picked stands at `i`.
pub open spec fn is_first<T>(items: Seq<T>, pick: spec_fn(T) -> bool, i: int) -> bool {
    &&& 0 <= i < items.len()
    &&& pick(items[i])
    &&& forall|j: int| 0 <= j < i ==> !pick(#[trigger] items[j])
}

/// The last of the items that is picked stands at `i`.
pub open spec fn is_last<T>(items: Seq<T>, pick: spec_fn(T) -> bool, i: int) -> bool {
    &&& 0 <= i < items.len()
    &&& pick(items[i])
    &&& forall|j: int| i < j < items.len() ==> !pick(#[trigger] items[j])
}

/// None of the items is picked.
pub open spec fn has_none<T>(items: Seq<T>, pick: spec_fn(T) -> bool) -> bool {
    forall|i: int| 0 <= i < items.len() ==> !pick(#[trigger] items[i])
}

/// Either none of the items is picked, or one of them is the first.
pub proof fn none_or_first<T>(items: Seq<T>, pick: spec_fn(T) -> bool)
    ensures
        has_none(items, pick) || exists|i: int| #[trigger] is_first(items, pick, i),
    decreases items.len(),
{
    if items.len() > 0 {
        if pick(items[0]) {
            assert(is_first(items, pick, 0));
        } else {
            let rest = items.drop_first();
            none_or_first(rest, pick);
            if has_none(rest, pick) {
                none_of_rest(items, pick);
            } else {
                let i = choose|i: int| #[trigger] is_first(rest, pick, i);
                first_of_rest(items, pick, i + 1);
            }
        }
    }
}

/// The first of the items is the first of the rest where the items begin with another.
pub proof fn first_of_rest<T>(items: Seq<T>, pick: spec_fn(T) -> bool, i: int)
    requires
        items.len() > 0,
        !pick(items[0]),
    ensures
        is_first(items, pick, i) <==> is_first(items.drop_first(), pick, i - 1),
{
    let rest = items.drop_first();
    if is_first(items, pick, i) {
        assert forall|j: int| 0 <= j < i - 1 implies !pick(#[trigger] rest[j]) by {
            assert(rest[j] == items[j + 1]);
        }
    }
    if is_first(rest, pick, i - 1) {
        assert forall|j: int| 0 <= j < i implies !pick(#[trigger] items[j]) by {
            if j > 0 {
                assert(rest[j - 1] == items[j]);
            }
        }
    }
}

/// None of the items is picked exactly if neither the first nor any of the rest is.
pub proof fn none_of_rest<T>(items: Seq<T>, pick: spec_fn(T) -> bool)
    requires
        items.len() > 0,
    ensures
        has_none(items, pick) <==> !pick(items[0]) && has_none(items.drop_first(), pick),
{
    let rest = items.drop_first();
    if has_none(items, pick) {
        assert(!pick(items[0]));
        assert forall|j: int| 0 <= j < rest.len() implies !pick(#[trigger] rest[j]) by {
            assert(rest[j] == items[j + 1]);
        }
    }
    if !pick(items[0]) && has_none(rest, pick) {
        assert forall|j: int| 0 <= j < items.len() implies !pick(#[trigger] items[j]) by {
            if j > 0 {
                assert(rest[j - 1] == items[j]);
            }
        }
    }
}

/// The text ends with another.
pub open spec fn ends_with(text: Seq<char>, tail: Seq<char>) -> bool {
    &&& tail.len() <= text.len()
    &&& text.skip(text.len() - tail.len()) == tail
}

/// The text begins with another.
pub open spec fn begins_with(text: Seq<char>, head: Seq<char>) -> bool {
    &&& head.len() <= text.len()
    &&& text.take(head.len() as int) == head
}

/// Sorting keeps each item.
pub proof fn ranked_keeps_items<T>(items: Seq<T>, less: spec_fn(T, T) -> bool)
    requires
        is_ranking(less),
    ensures
        in_order(ranked(items, less), less),
        ranked(items, less).len() == items.len(),
        ranked(items, less).to_multiset() == items.to_multiset(),
        forall|x: T| #[trigger] ranked(items, less).contains(x) <==> items.contains(x),
{
    ranked_is_a_stable_sort(items, less);
    let sorted = ranked(items, less);
    sorted.to_multiset_ensures();
    items.to_multiset_ensures();
    assert(sorted.to_multiset().len() == items.to_multiset().len());
    assert forall|x: T| #[trigger] sorted.contains(x) <==> items.contains(x) by {
        assert(sorted.to_multiset().count(x) > 0 <==> sorted.contains(x));
        assert(items.to_multiset().count(x) > 0 <==> items.contains(x));
    }
}

/// The first `n` of the sorted items are among the items, in order, and none of the others goes
/// before one of them.
pub proof fn top_items_lead<T>(items: Seq<T>, less: spec_fn(T, T) -> bool, n: int)
    requires
        is_ranking(less),
        0 <= n,
    ensures
        first_n(ranked(items, less), n).len() == if items.len() <= n {
            items.len() as int
        } else {
            n
        },
        in_order(first_n(ranked(items, less), n), less),
        forall|x: T|
            #[trigger] first_n(ranked(items, less), n).contains(x) ==> items.contains(x),
        forall|x: T, j: int|
            items.contains(x) && !first_n(ranked(items, less), n).contains(x) && 0 <= j
                < first_n(ranked(items, less), n).len() ==> !#[trigger] less(
                x,
                first_n(ranked(items, less), n)[j],
            ),
        items.len() <= n ==> forall|x: T|
            items.contains(x) ==> #[trigger] first_n(ranked(items, less), n).contains(x),
{
    ranked_keeps_items(items, less);
    let sorted = ranked(items, less);
    let rows = first_n(sorted, n);
    assert forall|i: int, j: int| 0 <= i < j < rows.len() implies !less(
        #[trigger] rows[j],
        #[trigger] rows[i],
    ) by {
        assert(rows[i] == sorted[i] && rows[j] == sorted[j]);
    }
    assert forall|x: T| #[trigger] rows.contains(x) implies items.contains(x) by {
        let i = choose|i: int| 0 <= i < rows.len() && rows[i] == x;
        assert(sorted[i] == x);
        assert(sorted.contains(x));
    }
    assert forall|x: T, j: int|
        items.contains(x) && !rows.contains(x) && 0 <= j < rows.len() implies !#[trigger] less(
        x,
        rows[j],
    ) by {
        assert(sorted.contains(x));
        let i = choose|i: int| 0 <= i < sorted.len() && sorted[i] == x;
        if i < rows.len() {
            assert(rows[i] == x);
        }
        assert(sorted[j] == rows[j]);
        assert(!less(sorted[i], sorted[j]));
    }
    if items.len() <= n {
        assert forall|x: T| items.contains(x) implies #[trigger] rows.contains(x) by {
            assert(sorted.contains(x));
        }
    }
}

// ---------------------------------------------------------------------------
// Pieces of texts
// ---------------------------------------------------------------------------

/// A piece of the first part is a piece of both parts together.
pub broadcast proof fn piece_of_left(a: Seq<char>, b: Seq<char>, piece: Seq<char>)
    requires
        has_text(a, piece),
    ensures
        #[trigger] has_text(a + b, piece),
{
    let i = choose|i: int| #[trigger] has_text_at(a, piece, i);
    assert((a + b).subrange(i, i + piece.len()) =~= a.subrange(i, i + piece.len()));
    assert(has_text_at(a + b, piece, i));
}

/// A text is a piece of itself.
pub broadcast proof fn piece_of_itself(a: Seq<char>)
    ensures
        #[trigger] has_text(a, a),
{
    assert(a.subrange(0, a.len() as int) =~= a);
    assert(has_text_at(a, a, 0));
}

/// The second part is a piece of both parts together.
pub broadcast proof fn piece_at_end(a: Seq<char>, piece: Seq<char>)
    ensures
        #[trigger] has_text(a + piece, piece),
{
    let i = a.len() as int;
    assert((a + piece).subrange(i, i + piece.len()) =~= piece);
    assert(has_text_at(a + piece, piece, i));
}

/// The last two parts together are a piece of all three.
pub broadcast proof fn pair_at_end(a: Seq<char>, b: Seq<char>, c: Seq<char>)
    ensures
        #[trigger] has_text(a + b + c, b + c),
{
    let i = a.len() as int;
    let piece = b + c;
    assert((a + b + c).subrange(i, i + piece.len()) =~= piece);
    assert(has_text_at(a + b + c, piece, i));
}

/// The last three parts together are a piece of all four.
pub broadcast proof fn triple_at_end(a: Seq<char>, b: Seq<char>, c: Seq<char>, d: Seq<char>)
    ensures
        #[trigger] has_text(a + b + c + d, b + c + d),
{
    let i = a.len() as int;
    let piece = b + c + d;
    assert((a + b + c + d).subrange(i, i + piece.len()) =~= piece);
    assert(has_text_at(a + b + c + d, piece, i));
}

} // verus!
