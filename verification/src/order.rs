//! The order of texts, maps with text keys, and stable sorting.

use vstd::prelude::*;

use crate::text::{chars_of, same_text};

verus! {

// ---------------------------------------------------------------------------
// The order of texts
// ---------------------------------------------------------------------------

/// `a` comes before `b` in the order of texts: at the first difference the smaller character
/// decides, and a text comes after its proper prefixes.
pub open spec fn text_less(a: Seq<char>, b: Seq<char>) -> bool
    decreases a.len(),
{
    if b.len() == 0 {
        false
    } else if a.len() == 0 {
        true
    } else if a[0] != b[0] {
        a[0] < b[0]
    } else {
        text_less(a.drop_first(), b.drop_first())
    }
}

/// No text comes before itself.
pub proof fn text_less_is_irreflexive(a: Seq<char>)
    ensures
        !text_less(a, a),
    decreases a.len(),
{
    if a.len() > 0 {
        text_less_is_irreflexive(a.drop_first());
    }
}

/// The order of texts is transitive.
pub proof fn text_less_is_transitive(a: Seq<char>, b: Seq<char>, c: Seq<char>)
    requires
        text_less(a, b),
        text_less(b, c),
    ensures
        text_less(a, c),
    decreases a.len(),
{
    if a.len() > 0 && a[0] == b[0] && b[0] == c[0] {
        text_less_is_transitive(a.drop_first(), b.drop_first(), c.drop_first());
    }
}

/// Of two different texts one comes before the other.
pub proof fn text_less_is_total(a: Seq<char>, b: Seq<char>)
    ensures
        text_less(a, b) || a == b || text_less(b, a),
    decreases a.len(),
{
    if a.len() == 0 || b.len() == 0 {
        if a.len() == b.len() {
            assert(a =~= b);
        }
    } else if a[0] == b[0] {
        text_less_is_total(a.drop_first(), b.drop_first());
        if a.drop_first() == b.drop_first() {
            assert(a =~= seq![a[0]] + a.drop_first());
            assert(b =~= seq![b[0]] + b.drop_first());
        }
    }
}

/// The order of texts is a ranking in which no two texts are level.
pub proof fn text_order_is_a_ranking()
    ensures
        forall|a: Seq<char>, b: Seq<char>| !(#[trigger] text_less(a, b) && text_less(b, a)),
        forall|a: Seq<char>, b: Seq<char>, c: Seq<char>|
            !(#[trigger] text_less(b, a)) && !(#[trigger] text_less(c, b)) ==> !text_less(c, a),
        forall|a: Seq<char>, b: Seq<char>| a == b || #[trigger] text_less(a, b) || text_less(b, a),
{
    assert forall|a: Seq<char>, b: Seq<char>| !(#[trigger] text_less(a, b) && text_less(b, a)) by {
        if text_less(a, b) && text_less(b, a) {
            text_less_is_transitive(a, b, a);
            text_less_is_irreflexive(a);
        }
    }
    assert forall|a: Seq<char>, b: Seq<char>, c: Seq<char>|
        !(#[trigger] text_less(b, a)) && !(#[trigger] text_less(c, b)) implies !text_less(
        c,
        a,
    ) by {
        text_less_is_total(a, b);
        text_less_is_total(b, c);
        if text_less(c, a) {
            text_less_is_irreflexive(a);
            if text_less(a, b) {
                text_less_is_transitive(c, a, b);
            }
        }
    }
    assert forall|a: Seq<char>, b: Seq<char>|
        a == b || #[trigger] text_less(a, b) || text_less(b, a) by {
        text_less_is_total(a, b);
    }
}

/// Whether `a` comes before `b` in the order of texts.
pub fn text_comes_before(a: &str, b: &str) -> (less: bool)
    ensures
        less == text_less(a@, b@),
{
    let left = chars_of(a);
    let right = chars_of(b);
    let mut at: usize = 0;
    assert(a@.skip(0) =~= a@);
    assert(b@.skip(0) =~= b@);
    while at < left.len() && at < right.len()
        invariant
            left@ == a@,
            right@ == b@,
            at <= left@.len(),
            at <= right@.len(),
            text_less(a@, b@) == text_less(a@.skip(at as int), b@.skip(at as int)),
        decreases left@.len() - at,
    {
        if left[at] != right[at] {
            return left[at] < right[at];
        }
        assert(a@.skip(at as int).drop_first() =~= a@.skip(at + 1));
        assert(b@.skip(at as int).drop_first() =~= b@.skip(at + 1));
        at = at + 1;
    }
    at < right.len()
}

// ---------------------------------------------------------------------------
// Maps with text keys
// ---------------------------------------------------------------------------

/// The keys of the items come one after the other in the order of texts.
pub open spec fn keys_ascend<V>(items: Seq<(String, V)>) -> bool {
    forall|i: int, j: int|
        0 <= i < j < items.len() ==> text_less(#[trigger] items[i].0@, #[trigger] items[j].0@)
}

/// The map that the items write down.
pub open spec fn items_map<V>(items: Seq<(String, V)>) -> Map<Seq<char>, V>
    decreases items.len(),
{
    if items.len() == 0 {
        Map::empty()
    } else {
        items_map(items.drop_last()).insert(items.last().0@, items.last().1)
    }
}

/// The keys of the items, in order.
pub open spec fn keys_of<V>(items: Seq<(String, V)>) -> Seq<Seq<char>> {
    items.map_values(|item: (String, V)| item.0@)
}

/// With ascending keys the map holds exactly the items, each under its own key.
pub proof fn items_map_holds_items<V>(items: Seq<(String, V)>)
    requires
        keys_ascend(items),
    ensures
        forall|i: int|
            0 <= i < items.len() ==> items_map(items).contains_key(#[trigger] items[i].0@)
                && items_map(items)[items[i].0@] == items[i].1,
        forall|k: Seq<char>|
            items_map(items).contains_key(k) ==> exists|i: int|
                0 <= i < items.len() && #[trigger] items[i].0@ == k,
    decreases items.len(),
{
    if items.len() > 0 {
        let before = items.drop_last();
        assert forall|i: int, j: int| 0 <= i < j < before.len() implies text_less(
            #[trigger] before[i].0@,
            #[trigger] before[j].0@,
        ) by {
            assert(before[i] == items[i] && before[j] == items[j]);
        }
        items_map_holds_items(before);
        assert forall|i: int| 0 <= i < items.len() implies items_map(items).contains_key(
            #[trigger] items[i].0@,
        ) && items_map(items)[items[i].0@] == items[i].1 by {
            if i < items.len() - 1 {
                assert(before[i] == items[i]);
                text_less_is_irreflexive(items[i].0@);
                assert(text_less(items[i].0@, items[items.len() - 1].0@));
            }
        }
        assert forall|k: Seq<char>| items_map(items).contains_key(k) implies exists|i: int|
            0 <= i < items.len() && #[trigger] items[i].0@ == k by {
            assert(items_map(items) == items_map(before).insert(items.last().0@, items.last().1));
            if k == items.last().0@ {
                assert(items[items.len() - 1].0@ == k);
            } else {
                assert(items_map(before).contains_key(k));
                let i = choose|i: int| 0 <= i < before.len() && #[trigger] before[i].0@ == k;
                assert(items[i].0@ == k);
            }
        }
    }
}

/// A map from texts to values that is walked in the order of its keys.
#[derive(Debug, PartialEq, Eq)]
pub struct StringMap<V> {
    pub(crate) entries: Vec<(String, V)>,
}

impl<V> StringMap<V> {
    /// The items of the map, in the order of their keys.
    pub closed spec fn items(&self) -> Seq<(String, V)> {
        self.entries@
    }

    #[verifier::type_invariant]
    spec fn ascends(&self) -> bool {
        keys_ascend(self.entries@)
    }

    pub(crate) proof fn items_are_entries(&self)
        ensures
            self.items() == self.entries@,
    {
    }

    /// The map without items.
    pub fn new() -> (map: Self)
        ensures
            map.items() == Seq::<(String, V)>::empty(),
            map@ == Map::<Seq<char>, V>::empty(),
    {
        StringMap { entries: Vec::new() }
    }

    /// How many items there are.
    pub fn len(&self) -> (n: usize)
        ensures
            n == self.items().len(),
    {
        self.entries.len()
    }

    /// Whether there are no items.
    pub fn is_empty(&self) -> (empty: bool)
        ensures
            empty == (self.items().len() == 0),
            empty == (self@ == Map::<Seq<char>, V>::empty()),
    {
        proof {
            use_type_invariant(self);
            items_map_holds_items(self.items());
            if self.items().len() > 0 {
                assert(self@.contains_key(self.items()[0].0@));
            }
        }
        self.entries.len() == 0
    }

    /// The items, in the order of their keys.
    pub fn as_items(&self) -> (items: &Vec<(String, V)>)
        ensures
            items@ == self.items(),
            keys_ascend(items@),
            self@ == items_map(items@),
    {
        proof {
            use_type_invariant(self);
        }
        &self.entries
    }

    /// The value under `key`, where there is one.
    pub fn get(&self, key: &str) -> (value: Option<&V>)
        ensures
            match value {
                Some(value) => self@.contains_key(key@) && self@[key@] == *value,
                None => !self@.contains_key(key@),
            },
    {
        proof {
            use_type_invariant(self);
            items_map_holds_items(self.items());
        }
        for i in 0..self.entries.len()
            invariant
                forall|j: int| 0 <= j < i ==> #[trigger] self.items()[j].0@ != key@,
                forall|j: int|
                    0 <= j < self.items().len() ==> self@.contains_key(
                        #[trigger] self.items()[j].0@,
                    ) && self@[self.items()[j].0@] == self.items()[j].1,
        {
            if same_text(self.entries[i].0.as_str(), key) {
                assert(self.items()[i as int].0@ == key@);
                return Some(&self.entries[i].1);
            }
        }
        None
    }

    /// Whether there is a value under `key`.
    pub fn contains_key(&self, key: &str) -> (yes: bool)
        ensures
            yes == self@.contains_key(key@),
    {
        self.get(key).is_some()
    }

    /// Puts `value` under `key`, in place of what was there.
    pub fn insert(&mut self, key: String, value: V)
        ensures
            final(self)@ == old(self)@.insert(key@, value),
            keys_ascend(final(self).items()),
    {
        proof {
            use_type_invariant(&*self);
        }
        let mut entries: Vec<(String, V)> = Vec::new();
        std::mem::swap(&mut entries, &mut self.entries);
        let ghost items = entries@;
        let mut at: usize = 0;
        while at < entries.len() && text_comes_before(entries[at].0.as_str(), key.as_str())
            invariant
                entries@ == items,
                at <= entries@.len(),
                forall|j: int| 0 <= j < at ==> text_less(#[trigger] items[j].0@, key@),
            decreases entries@.len() - at,
        {
            at = at + 1;
        }
        let replaces = at < entries.len() && same_text(entries[at].0.as_str(), key.as_str());
        if replaces {
            entries.remove(at);
        }
        let ghost kept = entries@;
        entries.insert(at, (key, value));
        proof {
            items_after_insert(items, kept, at as int, key, value, replaces);
        }
        self.entries = entries;
    }
}

impl<V> View for StringMap<V> {
    type V = Map<Seq<char>, V>;

    open spec fn view(&self) -> Map<Seq<char>, V> {
        items_map(self.items())
    }
}

proof fn items_after_insert<V>(
    items: Seq<(String, V)>,
    kept: Seq<(String, V)>,
    at: int,
    key: String,
    value: V,
    replaces: bool,
)
    requires
        keys_ascend(items),
        0 <= at <= kept.len(),
        forall|j: int| 0 <= j < at ==> text_less(#[trigger] items[j].0@, key@),
        replaces ==> at < items.len() && items[at].0@ == key@ && kept == items.remove(at),
        !replaces ==> kept == items && (at < items.len() ==> items[at].0@ != key@ && !text_less(
            items[at].0@,
            key@,
        )),
    ensures
        keys_ascend(kept.insert(at, (key, value))),
        items_map(kept.insert(at, (key, value))) == items_map(items).insert(key@, value),
{
    let out = kept.insert(at, (key, value));
    assert forall|j: int| at <= j < kept.len() implies text_less(key@, #[trigger] kept[j].0@) by {
        if replaces {
            assert(kept[j] == items[j + 1]);
            assert(text_less(items[at].0@, items[j + 1].0@));
        } else {
            text_less_is_total(items[at].0@, key@);
            if j > at {
                assert(text_less(items[at].0@, items[j].0@));
                text_less_is_transitive(key@, items[at].0@, items[j].0@);
            }
        }
    }
    assert forall|i: int, j: int| 0 <= i < j < out.len() implies text_less(
        #[trigger] out[i].0@,
        #[trigger] out[j].0@,
    ) by {
        let i0 = if i < at {
            i
        } else {
            i - 1
        };
        let j0 = if j < at {
            j
        } else {
            j - 1
        };
        if i < at {
            assert(out[i] == kept[i] && kept[i] == items[i]);
        } else if i > at {
            assert(out[i] == kept[i - 1]);
        }
        if j < at {
            assert(out[j] == kept[j] && kept[j] == items[j]);
        } else if j > at {
            assert(out[j] == kept[j - 1]);
            assert(kept[j - 1] == items[if replaces {
                j
            } else {
                j - 1
            }]);
        }
        if i < at && at < j {
            text_less_is_transitive(items[i].0@, key@, kept[j - 1].0@);
        } else if i > at {
            assert(kept[i - 1] == items[if replaces {
                i
            } else {
                i - 1
            }]);
        }
    }
    items_map_holds_items(items);
    items_map_holds_items(out);
    let left = items_map(out);
    let right = items_map(items).insert(key@, value);
    assert(out[at] == (key, value));
    assert forall|k: Seq<char>| left.contains_key(k) <==> right.contains_key(k) by {
        if k == key@ {
            assert(out[at].0@ == k);
        }
        if left.contains_key(k) && k != key@ {
            let i = choose|i: int| 0 <= i < out.len() && #[trigger] out[i].0@ == k;
            if i < at {
                assert(out[i] == items[i]);
            } else {
                assert(out[i] == kept[i - 1]);
                assert(kept[i - 1] == items[if replaces {
                    i
                } else {
                    i - 1
                }]);
            }
        }
        if right.contains_key(k) && k != key@ {
            let i = choose|i: int| 0 <= i < items.len() && #[trigger] items[i].0@ == k;
            if i < at {
                assert(out[i] == items[i]);
            } else if replaces {
                assert(out[i] == items[i]);
            } else {
                assert(out[i + 1] == items[i]);
            }
        }
    }
    assert forall|k: Seq<char>| left.contains_key(k) implies left[k] == right[k] by {
        if k == key@ {
            assert(out[at].0@ == k);
        } else {
            let i = choose|i: int| 0 <= i < items.len() && #[trigger] items[i].0@ == k;
            if i < at || replaces {
                assert(out[i] == items[i]);
            } else {
                assert(out[i + 1] == items[i]);
            }
        }
    }
    assert(left =~= right);
}

// ---------------------------------------------------------------------------
// Stable sorting
// ---------------------------------------------------------------------------

/// `less` orders items strictly; some items may be level with each other.
pub open spec fn is_ranking<T>(less: spec_fn(T, T) -> bool) -> bool {
    &&& forall|a: T, b: T| !(#[trigger] less(a, b) && less(b, a))
    &&& forall|a: T, b: T, c: T|
        !(#[trigger] less(b, a)) && !(#[trigger] less(c, b)) ==> !less(c, a)
}

/// The items with `item` put behind all those that it does not go before.
pub open spec fn ranked_insert<T>(items: Seq<T>, item: T, less: spec_fn(T, T) -> bool) -> Seq<T>
    decreases items.len(),
{
    if items.len() == 0 || !less(item, items.last()) {
        items.push(item)
    } else {
        ranked_insert(items.drop_last(), item, less).push(items.last())
    }
}

/// The items in order; those that are level keep the order in which they came.
pub open spec fn ranked<T>(items: Seq<T>, less: spec_fn(T, T) -> bool) -> Seq<T>
    decreases items.len(),
{
    if items.len() == 0 {
        items
    } else {
        ranked_insert(ranked(items.drop_last(), less), items.last(), less)
    }
}

/// No item goes before one that stands ahead of it.
pub open spec fn in_order<T>(items: Seq<T>, less: spec_fn(T, T) -> bool) -> bool {
    forall|i: int, j: int|
        0 <= i < j < items.len() ==> !less(#[trigger] items[j], #[trigger] items[i])
}

/// Neither of the two items goes before the other.
pub open spec fn level<T>(a: T, b: T, less: spec_fn(T, T) -> bool) -> bool {
    !less(a, b) && !less(b, a)
}

/// Those of the items that are level with `x`, in order.
pub open spec fn level_with<T>(items: Seq<T>, x: T, less: spec_fn(T, T) -> bool) -> Seq<T> {
    items.filter(|y: T| level(x, y, less))
}

/// Sorting puts the items in order, keeps each of them, and keeps the order of items that are
/// level with each other.
pub proof fn ranked_is_a_stable_sort<T>(items: Seq<T>, less: spec_fn(T, T) -> bool)
    requires
        is_ranking(less),
    ensures
        in_order(ranked(items, less), less),
        ranked(items, less).to_multiset() == items.to_multiset(),
        forall|x: T|
            #[trigger] level_with(ranked(items, less), x, less) == level_with(items, x, less),
    decreases items.len(),
{
    if items.len() > 0 {
        let before = items.drop_last();
        ranked_is_a_stable_sort(before, less);
        let sorted = ranked(before, less);
        ranked_insert_keeps_order(sorted, items.last(), less);
        assert(items =~= before.push(items.last()));
        before.to_multiset_ensures();
        assert forall|x: T|
            #[trigger] level_with(ranked(items, less), x, less) == level_with(items, x, less) by {
            assert(level_with(sorted, x, less) == level_with(before, x, less));
            ranked_insert_is_stable(sorted, items.last(), x, less);
            reveal(Seq::filter);
            assert(sorted.push(items.last()).drop_last() =~= sorted);
        }
    }
}

proof fn ranked_insert_keeps_order<T>(items: Seq<T>, item: T, less: spec_fn(T, T) -> bool)
    requires
        is_ranking(less),
        in_order(items, less),
    ensures
        in_order(ranked_insert(items, item, less), less),
        ranked_insert(items, item, less).to_multiset() == items.to_multiset().insert(item),
        forall|y: T|
            #[trigger] ranked_insert(items, item, less).contains(y) ==> y == item
                || items.contains(y),
    decreases items.len(),
{
    items.to_multiset_ensures();
    let out = ranked_insert(items, item, less);
    if items.len() == 0 || !less(item, items.last()) {
        assert forall|i: int, j: int| 0 <= i < j < out.len() implies !less(
            #[trigger] out[j],
            #[trigger] out[i],
        ) by {
            if j == items.len() {
                if i < items.len() - 1 {
                    assert(!less(items[items.len() - 1], items[i]));
                }
            } else {
                assert(items[i] == out[i] && items[j] == out[j]);
            }
        }
        assert forall|y: T| #[trigger] out.contains(y) implies y == item || items.contains(y) by {
            let i = choose|i: int| 0 <= i < out.len() && out[i] == y;
            if i < items.len() {
                assert(items[i] == y);
            }
        }
    } else {
        let rest = items.drop_last();
        let last = items.last();
        assert forall|i: int, j: int| 0 <= i < j < rest.len() implies !less(
            #[trigger] rest[j],
            #[trigger] rest[i],
        ) by {
            assert(items[i] == rest[i] && items[j] == rest[j]);
        }
        ranked_insert_keeps_order(rest, item, less);
        let kept = ranked_insert(rest, item, less);
        kept.to_multiset_ensures();
        rest.to_multiset_ensures();
        assert(items =~= rest.push(last));
        assert(out.to_multiset() =~= items.to_multiset().insert(item));
        assert(less(item, last));
        assert forall|i: int, j: int| 0 <= i < j < out.len() implies !less(
            #[trigger] out[j],
            #[trigger] out[i],
        ) by {
            if j < kept.len() {
                assert(kept[i] == out[i] && kept[j] == out[j]);
            } else {
                assert(kept.contains(kept[i]));
                assert(out[i] == kept[i] && out[j] == last);
                if out[i] != item {
                    assert(rest.contains(kept[i]));
                    let k = choose|k: int| 0 <= k < rest.len() && rest[k] == kept[i];
                    assert(items[k] == kept[i]);
                    assert(!less(items[items.len() - 1], items[k]));
                }
            }
        }
        assert forall|y: T| #[trigger] out.contains(y) implies y == item || items.contains(y) by {
            let i = choose|i: int| 0 <= i < out.len() && out[i] == y;
            if i < kept.len() {
                assert(kept[i] == y);
                assert(kept.contains(y));
                if y != item {
                    let k = choose|k: int| 0 <= k < rest.len() && rest[k] == y;
                    assert(items[k] == y);
                }
            } else {
                assert(items[items.len() - 1] == y);
            }
        }
    }
}

proof fn ranked_insert_is_stable<T>(items: Seq<T>, item: T, x: T, less: spec_fn(T, T) -> bool)
    requires
        is_ranking(less),
    ensures
        level_with(ranked_insert(items, item, less), x, less) == level_with(
            items.push(item),
            x,
            less,
        ),
    decreases items.len(),
{
    reveal(Seq::filter);
    let p = |y: T| level(x, y, less);
    if items.len() > 0 && less(item, items.last()) {
        let rest = items.drop_last();
        let last = items.last();
        ranked_insert_is_stable(rest, item, x, less);
        let kept = ranked_insert(rest, item, less);
        assert(kept.push(last).drop_last() =~= kept);
        assert(rest.push(item).drop_last() =~= rest);
        assert(items.push(item).drop_last() =~= items);
        if p(item) && p(last) {
            assert(!less(x, last) && !less(item, x));
        }
        assert(kept.filter(p) == rest.push(item).filter(p));
        assert(rest.push(item).filter(p) == if p(item) {
            rest.filter(p).push(item)
        } else {
            rest.filter(p)
        });
        assert(items.filter(p) == if p(last) {
            rest.filter(p).push(last)
        } else {
            rest.filter(p)
        });
        assert(kept.push(last).filter(p) =~= items.push(item).filter(p));
    }
}

proof fn ranked_insert_at<T>(items: Seq<T>, item: T, at: int, less: spec_fn(T, T) -> bool)
    requires
        0 <= at <= items.len(),
        at > 0 ==> !less(item, items[at - 1]),
        forall|j: int| at <= j < items.len() ==> less(item, #[trigger] items[j]),
    ensures
        ranked_insert(items, item, less) == items.insert(at, item),
    decreases items.len(),
{
    if at < items.len() {
        assert(less(item, items[items.len() - 1]));
        ranked_insert_at(items.drop_last(), item, at, less);
        assert(items.drop_last().insert(at, item).push(items.last()) =~= items.insert(at, item));
    } else {
        assert(items.insert(at, item) =~= items.push(item));
    }
}

proof fn ranked_insert_of_mapped<T, U>(
    items: Seq<T>,
    item: T,
    less: spec_fn(T, T) -> bool,
    f: spec_fn(T) -> U,
    mapped: spec_fn(U, U) -> bool,
)
    requires
        forall|a: T, b: T| #[trigger] less(a, b) == mapped(f(a), f(b)),
    ensures
        ranked_insert(items.map_values(f), f(item), mapped) == ranked_insert(
            items,
            item,
            less,
        ).map_values(f),
    decreases items.len(),
{
    if items.len() > 0 {
        let rest = items.drop_last();
        assert(items.map_values(f).drop_last() =~= rest.map_values(f));
        assert(less(item, items.last()) == mapped(f(item), f(items.last())));
        ranked_insert_of_mapped(rest, item, less, f, mapped);
        assert(ranked_insert(rest, item, less).push(items.last()).map_values(f)
            =~= ranked_insert(rest, item, less).map_values(f).push(f(items.last())));
    }
    assert(items.push(item).map_values(f) =~= items.map_values(f).push(f(item)));
}

/// Sorting by a rank that looks only at what `f` keeps of the items commutes with `f`.
pub proof fn ranked_of_mapped<T, U>(
    items: Seq<T>,
    less: spec_fn(T, T) -> bool,
    f: spec_fn(T) -> U,
    mapped: spec_fn(U, U) -> bool,
)
    requires
        forall|a: T, b: T| #[trigger] less(a, b) == mapped(f(a), f(b)),
    ensures
        ranked(items.map_values(f), mapped) == ranked(items, less).map_values(f),
    decreases items.len(),
{
    if items.len() > 0 {
        let rest = items.drop_last();
        ranked_of_mapped(rest, less, f, mapped);
        assert(items.map_values(f).drop_last() =~= rest.map_values(f));
        ranked_insert_of_mapped(ranked(rest, less), items.last(), less, f, mapped);
    } else {
        assert(items.map_values(f) =~= ranked(items, less).map_values(f));
    }
}

/// Where no two different items are level, the sorted order depends only on which items there
/// are, not on the order in which they came.
pub proof fn ranked_ignores_arrival<T>(a: Seq<T>, b: Seq<T>, less: spec_fn(T, T) -> bool)
    requires
        is_ranking(less),
        a.to_multiset() == b.to_multiset(),
        forall|x: T, y: T|
            a.contains(x) && a.contains(y) && #[trigger] level(x, y, less) ==> x == y,
    ensures
        ranked(a, less) == ranked(b, less),
{
    ranked_is_a_stable_sort(a, less);
    ranked_is_a_stable_sort(b, less);
    let sorted = ranked(a, less);
    assert forall|x: T| sorted.contains(x) implies a.contains(x) by {
        sorted.to_multiset_ensures();
        a.to_multiset_ensures();
        assert(sorted.to_multiset().count(x) > 0);
    }
    sorted_permutations_are_equal(sorted, ranked(b, less), less);
}

proof fn sorted_permutations_are_equal<T>(a: Seq<T>, b: Seq<T>, less: spec_fn(T, T) -> bool)
    requires
        is_ranking(less),
        in_order(a, less),
        in_order(b, less),
        a.to_multiset() == b.to_multiset(),
        forall|x: T, y: T|
            a.contains(x) && a.contains(y) && #[trigger] level(x, y, less) ==> x == y,
    ensures
        a == b,
    decreases a.len(),
{
    a.to_multiset_ensures();
    b.to_multiset_ensures();
    assert(a.len() == b.len());
    if a.len() == 0 {
        assert(a =~= b);
    } else {
        let n = a.len() - 1;
        assert(a.contains(a[n]));
        assert(b.contains(b[n]));
        assert(a.to_multiset().count(a[n]) > 0);
        assert(b.to_multiset().count(b[n]) > 0);
        assert(b.contains(a[n]));
        assert(a.contains(b[n]));
        let i = choose|i: int| 0 <= i < b.len() && b[i] == a[n];
        let j = choose|j: int| 0 <= j < a.len() && a[j] == b[n];
        assert(!less(b[n], a[n])) by {
            if i < n {
                assert(!less(b[n], b[i]));
            }
        }
        assert(!less(a[n], b[n])) by {
            if j < n {
                assert(!less(a[n], a[j]));
            }
        }
        assert(level(a[n], b[n], less));
        let rest_a = a.drop_last();
        let rest_b = b.drop_last();
        assert(a =~= rest_a.push(a[n]));
        assert(b =~= rest_b.push(b[n]));
        rest_a.to_multiset_ensures();
        rest_b.to_multiset_ensures();
        assert(rest_a.to_multiset() =~= a.to_multiset().remove(a[n]));
        assert(rest_b.to_multiset() =~= b.to_multiset().remove(b[n]));
        assert forall|p: int, q: int| 0 <= p < q < rest_a.len() implies !less(
            #[trigger] rest_a[q],
            #[trigger] rest_a[p],
        ) by {
            assert(rest_a[p] == a[p] && rest_a[q] == a[q]);
        }
        assert forall|p: int, q: int| 0 <= p < q < rest_b.len() implies !less(
            #[trigger] rest_b[q],
            #[trigger] rest_b[p],
        ) by {
            assert(rest_b[p] == b[p] && rest_b[q] == b[q]);
        }
        assert forall|x: T, y: T|
            rest_a.contains(x) && rest_a.contains(y) && #[trigger] level(x, y, less) implies x
            == y by {
            let p = choose|p: int| 0 <= p < rest_a.len() && rest_a[p] == x;
            let q = choose|q: int| 0 <= q < rest_a.len() && rest_a[q] == y;
            assert(a[p] == x && a[q] == y);
        }
        sorted_permutations_are_equal(rest_a, rest_b, less);
    }
}

/// A way to compare items.
pub trait Ranking<T> {
    /// What goes before what.
    spec fn less() -> spec_fn(T, T) -> bool;

    /// Whether `a` goes before `b`.
    fn goes_before(a: &T, b: &T) -> (yes: bool)
        ensures
            yes == Self::less()(*a, *b),
    ;
}

/// The items in order; those that are level keep the order in which they came.
pub fn stable_sort<T, R: Ranking<T>>(items: Vec<T>) -> (out: Vec<T>)
    ensures
        out@ == ranked(items@, R::less()),
        out@.len() == items@.len(),
{
    let mut rest = items;
    let mut out: Vec<T> = Vec::new();
    let ghost mut done: Seq<T> = seq![];
    assert(done + rest@ =~= items@);
    while rest.len() > 0
        invariant
            done + rest@ == items@,
            out@ == ranked(done, R::less()),
            out@.len() == done.len(),
        decreases rest@.len(),
    {
        let item = rest.remove(0);
        let mut at: usize = out.len();
        while at > 0 && R::goes_before(&item, &out[at - 1])
            invariant
                at <= out@.len(),
                forall|j: int| at <= j < out@.len() ==> R::less()(item, #[trigger] out@[j]),
            decreases at,
        {
            at = at - 1;
        }
        proof {
            ranked_insert_at(out@, item, at as int, R::less());
            assert(done.push(item).drop_last() =~= done);
            done = done.push(item);
            assert(done + rest@ =~= items@);
        }
        out.insert(at, item);
    }
    assert(done =~= items@);
    out
}

} // verus!
