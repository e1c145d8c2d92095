//! What the usage report says of the records.

use vstd::prelude::*;

use crate::laws::{
    filter_of_push, ranked_keeps_items, sum_over, sum_over_push, top_items_lead,
};
use crate::escape::html;
use crate::markup::{code, table_row};
use crate::model::{id_of, SideChannelContextRecord, SideChannelContextStatus};
use crate::number::{decimal, decimal_is_digits, integer, is_digit};
use crate::order::{ranked, text_less, text_order_is_a_ranking};
use crate::split::{concat, first_n};
use crate::time::ui_time;
use crate::token_usage::{
    add_to_group, add_to_group_at, context_cell, dearest_first, group_labels_are_distinct,
    hotspot_context, hotspot_row, is_latest, latest_of, most_pending_first, most_used_first,
    newest_first, panel_orders_are_rankings, pressure_order_is_a_ranking, pressure_panel,
    pressure_row, pressures, recent_row, repeated_reports_count_once, share_cell, status_count, top_groups,
    update_key, usage_groups, usage_report, usage_row, usage_rows, usage_total, usage_updates,
    ContextLevel, ContextShare, PressureView, SideChannelFile, TeamTokenUsageBreakdown,
    TeamTokenUsageRecord, UsageGrouping, PRESSURE_HEAD, PRESSURE_TAIL,
};

verus! {

// ---------------------------------------------------------------------------
// Sums
// ---------------------------------------------------------------------------

/// A counter holds the sum, or as much of it as a counter can hold.
pub open spec fn is_held(value: i64, sum: int) -> bool {
    &&& i64::MIN <= sum <= i64::MAX ==> value == sum
    &&& sum > i64::MAX ==> value == i64::MAX
    &&& sum < i64::MIN ==> value == i64::MIN
}

/// The distance of a number from zero.
pub open spec fn size_of_number(n: int) -> int {
    if n < 0 {
        -n
    } else {
        n
    }
}

/// The figure can be summed up one by one: it is never negative, or no part of the sum goes
/// beyond what a counter can hold.
pub open spec fn is_countable(
    items: Seq<TeamTokenUsageRecord>,
    figure: spec_fn(TeamTokenUsageRecord) -> int,
) -> bool {
    ||| forall|i: int| 0 <= i < items.len() ==> figure(#[trigger] items[i]) >= 0
    ||| sum_over(items, |r: TeamTokenUsageRecord| size_of_number(figure(r))) <= i64::MAX
}

/// The counter is the sum of the figure over the items.
pub open spec fn is_sum(
    value: i64,
    items: Seq<TeamTokenUsageRecord>,
    figure: spec_fn(TeamTokenUsageRecord) -> int,
) -> bool {
    is_countable(items, figure) ==> is_held(value, sum_over(items, figure))
}

/// Each counter is the sum of that counter over the model calls that the items report.
pub open spec fn adds_up(usage: TeamTokenUsageBreakdown, items: Seq<TeamTokenUsageRecord>) -> bool {
    &&& is_sum(usage.total_tokens, items, |r: TeamTokenUsageRecord| r.last.total_tokens as int)
    &&& is_sum(usage.input_tokens, items, |r: TeamTokenUsageRecord| r.last.input_tokens as int)
    &&& is_sum(
        usage.cached_input_tokens,
        items,
        |r: TeamTokenUsageRecord| r.last.cached_input_tokens as int,
    )
    &&& is_sum(usage.output_tokens, items, |r: TeamTokenUsageRecord| r.last.output_tokens as int)
    &&& is_sum(
        usage.reasoning_output_tokens,
        items,
        |r: TeamTokenUsageRecord| r.last.reasoning_output_tokens as int,
    )
}

proof fn sums_of_countable(
    items: Seq<TeamTokenUsageRecord>,
    figure: spec_fn(TeamTokenUsageRecord) -> int,
)
    ensures
        (forall|i: int| 0 <= i < items.len() ==> figure(#[trigger] items[i]) >= 0) ==> sum_over(
            items,
            figure,
        ) >= 0,
        size_of_number(sum_over(items, figure)) <= sum_over(
            items,
            |r: TeamTokenUsageRecord| size_of_number(figure(r)),
        ),
    decreases items.len(),
{
    if items.len() > 0 {
        let before = items.drop_last();
        sums_of_countable(before, figure);
        if forall|i: int| 0 <= i < items.len() ==> figure(#[trigger] items[i]) >= 0 {
            assert forall|i: int| 0 <= i < before.len() implies figure(#[trigger] before[i])
                >= 0 by {
                assert(before[i] == items[i]);
            }
            assert(figure(items[items.len() - 1]) >= 0);
        }
    }
}

proof fn sum_with_next(
    value: i64,
    next: i64,
    items: Seq<TeamTokenUsageRecord>,
    item: TeamTokenUsageRecord,
    figure: spec_fn(TeamTokenUsageRecord) -> int,
)
    requires
        is_sum(value, items, figure),
        next == crate::token_usage::counter(value + figure(item)),
    ensures
        is_sum(next, items.push(item), figure),
{
    let all = items.push(item);
    sum_over_push(items, item, figure);
    let size = |r: TeamTokenUsageRecord| size_of_number(figure(r));
    sum_over_push(items, item, size);
    sums_of_countable(items, figure);
    if is_countable(all, figure) {
        if forall|i: int| 0 <= i < all.len() ==> figure(#[trigger] all[i]) >= 0 {
            assert forall|i: int| 0 <= i < items.len() implies figure(#[trigger] items[i]) >= 0 by {
                assert(all[i] == items[i]);
            }
            assert(figure(all[items.len() as int]) >= 0);
        }
    }
}

proof fn adding_the_next(
    usage: TeamTokenUsageBreakdown,
    items: Seq<TeamTokenUsageRecord>,
    item: TeamTokenUsageRecord,
)
    requires
        adds_up(usage, items),
    ensures
        adds_up(crate::token_usage::usage_sum(usage, item.last), items.push(item)),
{
    let next = crate::token_usage::usage_sum(usage, item.last);
    sum_with_next(
        usage.total_tokens,
        next.total_tokens,
        items,
        item,
        |r: TeamTokenUsageRecord| r.last.total_tokens as int,
    );
    sum_with_next(
        usage.input_tokens,
        next.input_tokens,
        items,
        item,
        |r: TeamTokenUsageRecord| r.last.input_tokens as int,
    );
    sum_with_next(
        usage.cached_input_tokens,
        next.cached_input_tokens,
        items,
        item,
        |r: TeamTokenUsageRecord| r.last.cached_input_tokens as int,
    );
    sum_with_next(
        usage.output_tokens,
        next.output_tokens,
        items,
        item,
        |r: TeamTokenUsageRecord| r.last.output_tokens as int,
    );
    sum_with_next(
        usage.reasoning_output_tokens,
        next.reasoning_output_tokens,
        items,
        item,
        |r: TeamTokenUsageRecord| r.last.reasoning_output_tokens as int,
    );
}

proof fn nothing_adds_up(usage: TeamTokenUsageBreakdown)
    requires
        usage == crate::token_usage::no_usage(),
    ensures
        adds_up(usage, seq![]),
{
}

/// The total counts each model call once: every counter is the sum of that counter over the calls
/// that the updates report.
pub proof fn total_counts_every_call(updates: Seq<TeamTokenUsageRecord>)
    ensures
        adds_up(usage_total(updates), updates),
    decreases updates.len(),
{
    if updates.len() == 0 {
        nothing_adds_up(usage_total(updates));
        assert(updates =~= seq![]);
    } else {
        total_counts_every_call(updates.drop_last());
        adding_the_next(
            usage_total(updates.drop_last()),
            updates.drop_last(),
            updates.last(),
        );
        assert(updates.drop_last().push(updates.last()) =~= updates);
    }
}

// ---------------------------------------------------------------------------
// Tables
// ---------------------------------------------------------------------------

/// The update has the label.
pub open spec fn has_label(
    label: spec_fn(TeamTokenUsageRecord) -> Seq<char>,
    name: Seq<char>,
) -> spec_fn(TeamTokenUsageRecord) -> bool {
    |r: TeamTokenUsageRecord| label(r) == name
}

/// The updates with a label.
pub open spec fn labelled_updates(
    updates: Seq<TeamTokenUsageRecord>,
    label: spec_fn(TeamTokenUsageRecord) -> Seq<char>,
    name: Seq<char>,
) -> Seq<TeamTokenUsageRecord> {
    updates.filter(has_label(label, name))
}

/// The rows are groups of the updates, and every update is in one of them.
spec fn are_groups(
    rows: Seq<(Seq<char>, TeamTokenUsageBreakdown)>,
    updates: Seq<TeamTokenUsageRecord>,
    label: spec_fn(TeamTokenUsageRecord) -> Seq<char>,
) -> bool {
    &&& forall|i: int|
        0 <= i < rows.len() ==> adds_up(
            (#[trigger] rows[i]).1,
            labelled_updates(updates, label, rows[i].0),
        )
    &&& forall|i: int|
        0 <= i < rows.len() ==> labelled_updates(updates, label, (#[trigger] rows[i]).0).len() > 0
    &&& forall|k: int|
        0 <= k < updates.len() ==> has_row(rows, label(#[trigger] updates[k]))
}

/// A row has the label.
pub open spec fn has_row(rows: Seq<(Seq<char>, TeamTokenUsageBreakdown)>, name: Seq<char>) -> bool {
    exists|i: int| 0 <= i < rows.len() && (#[trigger] rows[i]).0 == name
}

proof fn groups_are_groups(
    updates: Seq<TeamTokenUsageRecord>,
    by: UsageGrouping,
    label: spec_fn(TeamTokenUsageRecord) -> Seq<char>,
)
    requires
        forall|r: TeamTokenUsageRecord| #[trigger] by.label(r) == label(r),
    ensures
        are_groups(usage_groups(updates, by), updates, label),
    decreases updates.len(),
{
    reveal(Seq::filter);
    if updates.len() > 0 {
        let before = updates.drop_last();
        let item = updates.last();
        let name = label(item);
        groups_are_groups(before, by, label);
        group_labels_are_distinct(before, by);
        let groups = usage_groups(before, by);
        let out = usage_groups(updates, by);
        assert(by.label(item) == name);
        assert(updates =~= before.push(item));
        assert forall|other: Seq<char>| #[trigger]
            labelled_updates(updates, label, other) == if other == name {
                labelled_updates(before, label, other).push(item)
            } else {
                labelled_updates(before, label, other)
            } by {
            filter_of_push(before, item, has_label(label, other));
        }
        let at = if has_row(groups, name) {
            choose|i: int| 0 <= i < groups.len() && (#[trigger] groups[i]).0 == name
        } else {
            groups.len() as int
        };
        assert forall|j: int| 0 <= j < at implies (#[trigger] groups[j]).0 != name by {
            if has_row(groups, name) {
                assert(groups[j].0 != groups[at].0);
            }
        }
        add_to_group_at(groups, name, item.last, at);
        assert(out == add_to_group(groups, name, item.last));
        if at == groups.len() {
            assert(labelled_updates(before, label, name) =~= seq![]) by {
                if labelled_updates(before, label, name).len() > 0 {
                    let keep = has_label(label, name);
                    let found = labelled_updates(before, label, name)[0];
                    assert(before.filter(keep).contains(found));
                    before.lemma_filter_contains_rev(keep, found);
                    before.lemma_filter_pred(keep, 0);
                    let k = choose|k: int| 0 <= k < before.len() && before[k] == found;
                    assert(has_row(groups, label(before[k])));
                }
            }
            nothing_adds_up(crate::token_usage::no_usage());
            adding_the_next(crate::token_usage::no_usage(), seq![], item);
        } else {
            adding_the_next(groups[at].1, labelled_updates(before, label, name), item);
        }
        assert forall|i: int| 0 <= i < out.len() implies adds_up(
            (#[trigger] out[i]).1,
            labelled_updates(updates, label, out[i].0),
        ) && labelled_updates(updates, label, out[i].0).len() > 0 by {
            if i != at {
                assert(out[i] == groups[i]);
                if i > at {
                    assert(groups[at].0 != groups[i].0);
                }
            }
        }
        assert forall|k: int| 0 <= k < updates.len() implies has_row(
            out,
            label(#[trigger] updates[k]),
        ) by {
            if label(updates[k]) == name {
                assert(out[at].0 == name);
            } else {
                assert(before[k] == updates[k]);
                assert(has_row(groups, label(before[k])));
                let i = choose|i: int|
                    0 <= i < groups.len() && (#[trigger] groups[i]).0 == label(before[k]);
                assert(out[i] == groups[i]);
            }
        }
    }
}

/// A row of a table goes before another: it has more tokens, or as many and the smaller label.
pub open spec fn leads(
    a: (Seq<char>, TeamTokenUsageBreakdown),
    b: (Seq<char>, TeamTokenUsageBreakdown),
) -> bool {
    ||| a.1.total_tokens > b.1.total_tokens
    ||| a.1.total_tokens == b.1.total_tokens && text_less(a.0, b.0)
}

/// The rows are a table of the updates with at most `limit` rows. Each row has the sums over
/// exactly the updates with its label, no label has two rows, the rows with the most tokens come
/// first, and a label without a row has no more tokens than any row of a full table.
pub open spec fn is_table(
    rows: Seq<(Seq<char>, TeamTokenUsageBreakdown)>,
    updates: Seq<TeamTokenUsageRecord>,
    label: spec_fn(TeamTokenUsageRecord) -> Seq<char>,
    limit: nat,
) -> bool {
    &&& rows.len() <= limit
    &&& forall|i: int|
        0 <= i < rows.len() ==> adds_up(
            (#[trigger] rows[i]).1,
            labelled_updates(updates, label, rows[i].0),
        )
    &&& forall|i: int|
        0 <= i < rows.len() ==> labelled_updates(updates, label, (#[trigger] rows[i]).0).len() > 0
    &&& forall|i: int, j: int|
        0 <= i < j < rows.len() ==> (#[trigger] rows[i]).0 != (#[trigger] rows[j]).0
    &&& forall|i: int, j: int|
        0 <= i < j < rows.len() ==> leads(#[trigger] rows[i], #[trigger] rows[j])
    &&& forall|k: int|
        0 <= k < updates.len() ==> has_row(rows, label(#[trigger] updates[k])) || (rows.len()
            == limit && exists|usage: TeamTokenUsageBreakdown|
            #[trigger] adds_up(usage, labelled_updates(updates, label, label(updates[k])))
                && forall|i: int|
                0 <= i < rows.len() ==> leads(#[trigger] rows[i], (label(updates[k]), usage)))
}

proof fn top_groups_are_a_table(
    updates: Seq<TeamTokenUsageRecord>,
    by: UsageGrouping,
    label: spec_fn(TeamTokenUsageRecord) -> Seq<char>,
    limit: nat,
)
    requires
        forall|r: TeamTokenUsageRecord| #[trigger] by.label(r) == label(r),
    ensures
        is_table(top_groups(updates, by, limit as int), updates, label, limit),
{
    groups_are_groups(updates, by, label);
    group_labels_are_distinct(updates, by);
    panel_orders_are_rankings();
    text_order_is_a_ranking();
    let groups = usage_groups(updates, by);
    let less = most_used_first();
    top_items_lead(groups, less, limit as int);
    let rows = top_groups(updates, by, limit as int);
    ranked_keeps_items(groups, less);
    let sorted = ranked(groups, less);
    assert(sorted.no_duplicates()) by {
        assert(groups.no_duplicates()) by {
            assert forall|i: int, j: int| 0 <= i < groups.len() && 0 <= j < groups.len() && i
                != j implies groups[i] != groups[j] by {
                if i < j {
                    assert(groups[i].0 != groups[j].0);
                } else {
                    assert(groups[j].0 != groups[i].0);
                }
            }
        }
        groups.lemma_multiset_has_no_duplicates();
        sorted.lemma_multiset_has_no_duplicates_conv();
    }
    assert forall|i: int| 0 <= i < rows.len() implies groups.contains(#[trigger] rows[i]) by {
        assert(rows.contains(rows[i]));
    }
    assert forall|i: int| 0 <= i < rows.len() implies adds_up(
        (#[trigger] rows[i]).1,
        labelled_updates(updates, label, rows[i].0),
    ) && labelled_updates(updates, label, rows[i].0).len() > 0 by {
        let g = choose|g: int| 0 <= g < groups.len() && groups[g] == rows[i];
        assert(adds_up(groups[g].1, labelled_updates(updates, label, groups[g].0)));
    }
    assert forall|i: int, j: int| 0 <= i < j < rows.len() implies (#[trigger] rows[i]).0 != (
    #[trigger] rows[j]).0 by {
        let g = choose|g: int| 0 <= g < groups.len() && groups[g] == rows[i];
        let h = choose|h: int| 0 <= h < groups.len() && groups[h] == rows[j];
        assert(sorted[i] == rows[i] && sorted[j] == rows[j]);
        assert(g != h);
        if g < h {
            assert(groups[g].0 != groups[h].0);
        } else {
            assert(groups[h].0 != groups[g].0);
        }
    }
    assert forall|i: int, j: int| 0 <= i < j < rows.len() implies leads(
        #[trigger] rows[i],
        #[trigger] rows[j],
    ) by {
        assert(!less(rows[j], rows[i]));
        assert(rows[i].0 != rows[j].0);
        assert(text_less(rows[i].0, rows[j].0) || text_less(rows[j].0, rows[i].0));
    }
    assert forall|k: int| 0 <= k < updates.len() && !has_row(rows, label(#[trigger] updates[k]))
        implies rows.len() == limit && exists|usage: TeamTokenUsageBreakdown|
        #[trigger] adds_up(usage, labelled_updates(updates, label, label(updates[k])))
            && forall|i: int|
            0 <= i < rows.len() ==> leads(#[trigger] rows[i], (label(updates[k]), usage)) by {
        let name = label(updates[k]);
        assert(has_row(groups, name));
        let g = choose|g: int| 0 <= g < groups.len() && (#[trigger] groups[g]).0 == name;
        assert(groups.contains(groups[g]));
        assert(!rows.contains(groups[g]));
        let usage = groups[g].1;
        assert(adds_up(usage, labelled_updates(updates, label, name)));
        assert forall|i: int| 0 <= i < rows.len() implies leads(#[trigger] rows[i], (name, usage)) by {
            assert(!less(groups[g], rows[i]));
            assert(rows[i].0 != name);
            assert(text_less(rows[i].0, name) || text_less(name, rows[i].0));
        }
    }
}

/// The four tables of the report: by feature, by member with its role, by both, and by node. Each
/// has the sums over exactly the updates with its labels.
pub proof fn tables_count_every_call(updates: Seq<TeamTokenUsageRecord>)
    ensures
        is_table(
            usage_report(updates).by_category,
            updates,
            |r: TeamTokenUsageRecord| r.category@,
            12,
        ),
        is_table(
            usage_report(updates).by_member,
            updates,
            |r: TeamTokenUsageRecord| r.member@ + " ("@ + r.role@ + ")"@,
            12,
        ),
        is_table(
            usage_report(updates).by_category_member,
            updates,
            |r: TeamTokenUsageRecord|
                r.category@ + " / "@ + r.member@ + " ("@ + r.role@ + ")"@,
            16,
        ),
        is_table(usage_report(updates).by_node, updates, |r: TeamTokenUsageRecord| r.node@, 8),
        adds_up(usage_report(updates).total, updates),
{
    top_groups_are_a_table(
        updates,
        UsageGrouping::Category,
        |r: TeamTokenUsageRecord| r.category@,
        12,
    );
    top_groups_are_a_table(
        updates,
        UsageGrouping::Member,
        |r: TeamTokenUsageRecord| r.member@ + " ("@ + r.role@ + ")"@,
        12,
    );
    top_groups_are_a_table(
        updates,
        UsageGrouping::CategoryMember,
        |r: TeamTokenUsageRecord| r.category@ + " / "@ + r.member@ + " ("@ + r.role@ + ")"@,
        16,
    );
    top_groups_are_a_table(updates, UsageGrouping::Node, |r: TeamTokenUsageRecord| r.node@, 8);
    total_counts_every_call(updates);
}

// ---------------------------------------------------------------------------
// Updates
// ---------------------------------------------------------------------------

/// The records report the same cumulative position: the same node, thread, turn and total.
pub open spec fn same_position(a: TeamTokenUsageRecord, b: TeamTokenUsageRecord) -> bool {
    &&& a.node@ == b.node@
    &&& a.thread@ == b.thread@
    &&& a.turn@ == b.turn@
    &&& a.total.total_tokens == b.total.total_tokens
}

/// The names of the record's node and thread hold no bar.
pub open spec fn is_plain(record: TeamTokenUsageRecord) -> bool {
    !record.node@.contains('|') && !record.thread@.contains('|')
}

proof fn cut_at_first_bar(a: Seq<char>, x: Seq<char>, b: Seq<char>, y: Seq<char>)
    requires
        !a.contains('|'),
        !b.contains('|'),
        a + seq!['|'] + x == b + seq!['|'] + y,
    ensures
        a == b,
        x == y,
{
    let left = a + seq!['|'] + x;
    let right = b + seq!['|'] + y;
    if a.len() < b.len() {
        assert(left[a.len() as int] == '|');
        assert(right[a.len() as int] == b[a.len() as int]);
        assert(b.contains(b[a.len() as int]));
    }
    if b.len() < a.len() {
        assert(right[b.len() as int] == '|');
        assert(left[b.len() as int] == a[b.len() as int]);
        assert(a.contains(a[b.len() as int]));
    }
    assert forall|i: int| 0 <= i < a.len() implies a[i] == b[i] by {
        assert(left[i] == a[i] && right[i] == b[i]);
    }
    assert(a =~= b);
    assert(x =~= left.skip(a.len() as int + 1));
    assert(y =~= right.skip(b.len() as int + 1));
}

proof fn char_behind_bar(a: Seq<char>, x: Seq<char>, k: int)
    requires
        0 <= k < x.len(),
    ensures
        (a + seq!['|'] + x)[a.len() + 1 + k] == x[k],
{
    let head = a + seq!['|'];
    assert(head.len() == a.len() + 1);
    assert((head + x)[head.len() + k] == x[k]);
}

proof fn cut_at_last_bar(a: Seq<char>, x: Seq<char>, b: Seq<char>, y: Seq<char>)
    requires
        !x.contains('|'),
        !y.contains('|'),
        a + seq!['|'] + x == b + seq!['|'] + y,
    ensures
        a == b,
        x == y,
{
    let left = a + seq!['|'] + x;
    let right = b + seq!['|'] + y;
    assert(left.len() == a.len() + 1 + x.len());
    assert(right.len() == b.len() + 1 + y.len());
    assert(left.len() == right.len());
    assert(left[a.len() as int] == '|');
    assert(right[b.len() as int] == '|');
    if a.len() < b.len() {
        let k = b.len() - a.len() - 1;
        char_behind_bar(a, x, k);
        assert(x.contains(x[k]));
    }
    if b.len() < a.len() {
        let k = a.len() - b.len() - 1;
        char_behind_bar(b, y, k);
        assert(y.contains(y[k]));
    }
    assert forall|i: int| 0 <= i < a.len() implies a[i] == b[i] by {
        assert(left[i] == a[i] && right[i] == b[i]);
    }
    assert(a =~= b);
    assert(x =~= left.skip(a.len() as int + 1));
    assert(y =~= right.skip(b.len() as int + 1));
}

proof fn integer_has_no_bar(n: int)
    ensures
        !integer(n).contains('|'),
{
    let size = if n < 0 {
        (-n) as nat
    } else {
        n as nat
    };
    decimal_is_digits(size);
    assert forall|i: int| 0 <= i < integer(n).len() implies integer(n)[i] != '|' by {
        if n < 0 {
            if i > 0 {
                assert(integer(n)[i] == decimal(size)[i - 1]);
                assert(is_digit(decimal(size)[i - 1]));
            }
        } else {
            assert(is_digit(decimal(size)[i]));
        }
    }
}

/// No two numbers are written in the same way.
pub proof fn integer_is_injective(a: int, b: int)
    requires
        integer(a) == integer(b),
    ensures
        a == b,
{
    let x = if a < 0 {
        (-a) as nat
    } else {
        a as nat
    };
    let y = if b < 0 {
        (-b) as nat
    } else {
        b as nat
    };
    decimal_is_digits(x);
    decimal_is_digits(y);
    assert(is_digit(decimal(x)[0]));
    assert(is_digit(decimal(y)[0]));
    if a < 0 {
        assert(integer(a)[0] == '-');
        assert(integer(a).skip(1) =~= decimal(x));
    }
    if b < 0 {
        assert(integer(b)[0] == '-');
        assert(integer(b).skip(1) =~= decimal(y));
    }
}

/// Two records have the same key exactly if they report the same position, as long as the names
/// of their nodes and threads hold no bar.
pub proof fn keys_tell_positions_apart(a: TeamTokenUsageRecord, b: TeamTokenUsageRecord)
    ensures
        same_position(a, b) ==> update_key(a) == update_key(b),
        is_plain(a) && is_plain(b) && update_key(a) == update_key(b) ==> same_position(a, b),
{
    if is_plain(a) && is_plain(b) && update_key(a) == update_key(b) {
        reveal_strlit("|");
        let bar = seq!['|'];
        assert("|"@ =~= bar);
        let m = integer(a.total.total_tokens as int);
        let n = integer(b.total.total_tokens as int);
        let x = a.thread@ + bar + (a.turn@ + bar + m);
        let y = b.thread@ + bar + (b.turn@ + bar + n);
        assert(update_key(a) =~= a.node@ + bar + x);
        assert(update_key(b) =~= b.node@ + bar + y);
        cut_at_first_bar(a.node@, x, b.node@, y);
        cut_at_first_bar(a.thread@, a.turn@ + bar + m, b.thread@, b.turn@ + bar + n);
        integer_has_no_bar(a.total.total_tokens as int);
        integer_has_no_bar(b.total.total_tokens as int);
        cut_at_last_bar(a.turn@, m, b.turn@, n);
        integer_is_injective(a.total.total_tokens as int, b.total.total_tokens as int);
    }
}

/// The last report on a position stands at `k`.
pub open spec fn is_last_report(records: Seq<TeamTokenUsageRecord>, k: int) -> bool {
    &&& 0 <= k < records.len()
    &&& forall|j: int|
        k < j < records.len() ==> !same_position(#[trigger] records[j], records[k])
}

/// The record is the last report on its position.
pub open spec fn is_some_last_report(
    records: Seq<TeamTokenUsageRecord>,
    record: TeamTokenUsageRecord,
) -> bool {
    exists|k: int| #[trigger] is_last_report(records, k) && records[k] == record
}

/// The updates are the last reports on the positions: exactly those are updates, and no position
/// has two. The latest come first.
pub proof fn updates_are_the_last_reports(records: Seq<TeamTokenUsageRecord>)
    requires
        forall|i: int| 0 <= i < records.len() ==> is_plain(#[trigger] records[i]),
    ensures
        forall|k: int| #[trigger]
            is_last_report(records, k) ==> usage_updates(records).contains(records[k]),
        forall|u: int|
            0 <= u < usage_updates(records).len() ==> is_some_last_report(
                records,
                #[trigger] usage_updates(records)[u],
            ),
        forall|u: int, v: int|
            0 <= u < v < usage_updates(records).len() ==> !same_position(
                #[trigger] usage_updates(records)[u],
                #[trigger] usage_updates(records)[v],
            ),
        forall|u: int, v: int|
            0 <= u < v < usage_updates(records).len() ==> !text_less(
                (#[trigger] usage_updates(records)[u]).timestamp@,
                (#[trigger] usage_updates(records)[v]).timestamp@,
            ),
{
    repeated_reports_count_once(records);
    panel_orders_are_rankings();
    let kept = latest_of(records);
    let updates = usage_updates(records);
    ranked_keeps_items(kept, newest_first());
    assert forall|k: int| #[trigger] is_latest(records, k) <==> is_last_report(records, k) by {
        latest_reports_are_last(records, k);
    }
    assert forall|k: int| #[trigger] is_last_report(records, k) implies updates.contains(
        records[k],
    ) by {
        assert(is_latest(records, k));
        assert(kept.contains(records[k]));
    }
    assert forall|u: int| 0 <= u < updates.len() implies is_some_last_report(
        records,
        #[trigger] updates[u],
    ) by {
        assert(updates.contains(updates[u]));
        assert(kept.contains(updates[u]));
        let k = choose|k: int| #[trigger] is_latest(records, k) && records[k] == updates[u];
        assert(is_last_report(records, k));
    }
    positions_differ(records);
    assert forall|u: int, v: int| 0 <= u < v < updates.len() implies !text_less(
        (#[trigger] updates[u]).timestamp@,
        (#[trigger] updates[v]).timestamp@,
    ) by {
        assert(!newest_first()(updates[v], updates[u]));
    }
}

proof fn latest_reports_are_last(records: Seq<TeamTokenUsageRecord>, k: int)
    requires
        forall|i: int| 0 <= i < records.len() ==> is_plain(#[trigger] records[i]),
    ensures
        is_latest(records, k) <==> is_last_report(records, k),
{
    if 0 <= k < records.len() {
        assert forall|j: int| k < j < records.len() implies (same_position(
            #[trigger] records[j],
            records[k],
        ) <==> update_key(records[j]) == update_key(records[k])) by {
            keys_tell_positions_apart(records[j], records[k]);
        }
    }
}

proof fn positions_differ(records: Seq<TeamTokenUsageRecord>)
    ensures
        forall|u: int, v: int|
            0 <= u < v < usage_updates(records).len() ==> !same_position(
                #[trigger] usage_updates(records)[u],
                #[trigger] usage_updates(records)[v],
            ),
{
    repeated_reports_count_once(records);
    panel_orders_are_rankings();
    let kept = latest_of(records);
    let updates = usage_updates(records);
    ranked_keeps_items(kept, newest_first());
    assert(kept.no_duplicates());
    kept.lemma_multiset_has_no_duplicates();
    updates.lemma_multiset_has_no_duplicates_conv();
    assert forall|u: int, v: int| 0 <= u < v < updates.len() implies !same_position(
        #[trigger] updates[u],
        #[trigger] updates[v],
    ) by {
        assert(updates.contains(updates[u]));
        assert(updates.contains(updates[v]));
        let p = choose|p: int| 0 <= p < kept.len() && kept[p] == updates[u];
        let q = choose|q: int| 0 <= q < kept.len() && kept[q] == updates[v];
        assert(p != q);
        if p < q {
            assert(update_key(kept[p]) != update_key(kept[q]));
        } else {
            assert(update_key(kept[q]) != update_key(kept[p]));
        }
        keys_tell_positions_apart(updates[u], updates[v]);
    }
}

// ---------------------------------------------------------------------------
// Single calls
// ---------------------------------------------------------------------------

/// The input of a call that did not come out of the cache.
pub open spec fn fresh_input(r: TeamTokenUsageRecord) -> int {
    let rest = r.last.input_tokens - r.last.cached_input_tokens;
    if rest < 0 {
        0
    } else if rest > i64::MAX {
        i64::MAX as int
    } else {
        rest
    }
}

/// A call goes before another among the bottlenecks: it used more tokens, or as many and more
/// input that was not cached, or as many of both and came later.
pub open spec fn is_dearer(a: TeamTokenUsageRecord, b: TeamTokenUsageRecord) -> bool {
    ||| a.last.total_tokens > b.last.total_tokens
    ||| a.last.total_tokens == b.last.total_tokens && fresh_input(a) > fresh_input(b)
    ||| a.last.total_tokens == b.last.total_tokens && fresh_input(a) == fresh_input(b)
        && text_less(b.timestamp@, a.timestamp@)
}

/// The bottlenecks are the twelve dearest calls in order, and the recent updates the first twenty.
pub proof fn bottlenecks_are_the_dearest_calls(updates: Seq<TeamTokenUsageRecord>)
    ensures
        usage_report(updates).hotspots.len() == if updates.len() <= 12 {
            updates.len()
        } else {
            12
        },
        forall|i: int|
            0 <= i < usage_report(updates).hotspots.len() ==> updates.contains(
                #[trigger] usage_report(updates).hotspots[i],
            ),
        forall|i: int, j: int|
            0 <= i < j < usage_report(updates).hotspots.len() ==> !is_dearer(
                #[trigger] usage_report(updates).hotspots[j],
                #[trigger] usage_report(updates).hotspots[i],
            ),
        forall|u: TeamTokenUsageRecord, j: int|
            updates.contains(u) && !usage_report(updates).hotspots.contains(u) && 0 <= j
                < usage_report(updates).hotspots.len() ==> !#[trigger] is_dearer(
                u,
                usage_report(updates).hotspots[j],
            ),
        updates.no_duplicates() ==> usage_report(updates).hotspots.no_duplicates(),
        usage_report(updates).recent.len() == if updates.len() <= 20 {
            updates.len()
        } else {
            20
        },
        forall|i: int|
            0 <= i < usage_report(updates).recent.len() ==> #[trigger] usage_report(
                updates,
            ).recent[i] == updates[i],
{
    panel_orders_are_rankings();
    let less = dearest_first();
    assert forall|a: TeamTokenUsageRecord, b: TeamTokenUsageRecord| #[trigger]
        is_dearer(a, b) == less(a, b) by {}
    top_items_lead(updates, less, 12);
    let sorted = ranked(updates, less);
    ranked_keeps_items(updates, less);
    let hot = usage_report(updates).hotspots;
    assert(hot == first_n(sorted, 12));
    assert forall|i: int| 0 <= i < hot.len() implies updates.contains(#[trigger] hot[i]) by {
        assert(hot.contains(hot[i]));
    }
    if updates.no_duplicates() {
        updates.lemma_multiset_has_no_duplicates();
        sorted.lemma_multiset_has_no_duplicates_conv();
        assert forall|i: int, j: int| 0 <= i < hot.len() && 0 <= j < hot.len() && i
            != j implies hot[i] != hot[j] by {
            assert(hot[i] == sorted[i] && hot[j] == sorted[j]);
        }
    }
    assert forall|u: TeamTokenUsageRecord, j: int|
        updates.contains(u) && !hot.contains(u) && 0 <= j < hot.len() implies !#[trigger] is_dearer(
        u,
        hot[j],
    ) by {
        assert(!less(u, hot[j]));
    }
}

// ---------------------------------------------------------------------------
// Side-channel pressure
// ---------------------------------------------------------------------------

/// The contexts with a status.
pub open spec fn has_status(status: SideChannelContextStatus) -> spec_fn(
    SideChannelContextRecord,
) -> bool {
    |context: SideChannelContextRecord| context.status == status
}

/// The member has contexts.
pub open spec fn has_contexts() -> spec_fn(SideChannelFile) -> bool {
    |file: SideChannelFile| file.contexts@.len() > 0
}

proof fn counted_by_status(
    contexts: Seq<SideChannelContextRecord>,
    status: SideChannelContextStatus,
)
    ensures
        status_count(contexts, status) == contexts.filter(has_status(status)).len(),
    decreases contexts.len(),
{
    reveal(Seq::filter);
    if contexts.len() > 0 {
        let before = contexts.drop_last();
        counted_by_status(before, status);
        assert(contexts =~= before.push(contexts.last()));
        filter_of_push(before, contexts.last(), has_status(status));
    }
}

/// The counts are those of a member's contexts.
pub open spec fn counts_contexts(p: PressureView, file: SideChannelFile) -> bool {
    &&& p.member == file.member@
    &&& p.total == file.contexts@.len()
    &&& p.pending == file.contexts@.filter(has_status(SideChannelContextStatus::Pending)).len()
    &&& p.injected == file.contexts@.filter(has_status(SideChannelContextStatus::Injected)).len()
    &&& p.acknowledged == file.contexts@.filter(
        has_status(SideChannelContextStatus::Acknowledged),
    ).len()
}

/// The counts are taken of exactly the members that have contexts, in order.
pub proof fn pressure_counts_contexts(files: Seq<SideChannelFile>)
    ensures
        pressures(files).len() == files.filter(has_contexts()).len(),
        forall|i: int|
            0 <= i < pressures(files).len() ==> counts_contexts(
                #[trigger] pressures(files)[i],
                files.filter(has_contexts())[i],
            ),
    decreases files.len(),
{
    reveal(Seq::filter);
    if files.len() > 0 {
        let before = files.drop_last();
        let file = files.last();
        pressure_counts_contexts(before);
        assert(files =~= before.push(file));
        filter_of_push(before, file, has_contexts());
        counted_by_status(file.contexts@, SideChannelContextStatus::Pending);
        counted_by_status(file.contexts@, SideChannelContextStatus::Injected);
        counted_by_status(file.contexts@, SideChannelContextStatus::Acknowledged);
        let out = pressures(files);
        let kept = files.filter(has_contexts());
        assert forall|i: int| 0 <= i < out.len() implies counts_contexts(
            #[trigger] out[i],
            kept[i],
        ) by {
            if i < pressures(before).len() {
                assert(out[i] == pressures(before)[i]);
                assert(kept[i] == before.filter(has_contexts())[i]);
            }
        }
    }
}

/// A member goes before another: with more pending contexts, or as many and more altogether, or
/// as many of both and the smaller name.
pub open spec fn is_under_more_pressure(a: PressureView, b: PressureView) -> bool {
    ||| a.pending > b.pending
    ||| a.pending == b.pending && a.total > b.total
    ||| a.pending == b.pending && a.total == b.total && text_less(a.member, b.member)
}

/// The panel has a row for each of the twelve members under the most pressure, in order, and is
/// left out where no member has contexts.
pub proof fn pressure_is_ranked(files: Seq<SideChannelFile>)
    ensures
        files.filter(has_contexts()).len() == 0 ==> pressure_panel(files).len() == 0,
        files.filter(has_contexts()).len() > 0 ==> exists|shown: Seq<PressureView>| {
            &&& pressure_panel(files) == PRESSURE_HEAD@ + #[trigger] pressure_rows(shown)
                + PRESSURE_TAIL@
            &&& shown.len() == if pressures(files).len() <= 12 {
                pressures(files).len()
            } else {
                12
            }
            &&& forall|i: int, j: int|
                0 <= i < j < shown.len() ==> !is_under_more_pressure(
                    #[trigger] shown[j],
                    #[trigger] shown[i],
                )
            &&& forall|i: int| 0 <= i < shown.len() ==> pressures(files).contains(
                #[trigger] shown[i],
            )
            &&& forall|p: PressureView, j: int|
                pressures(files).contains(p) && !shown.contains(p) && 0 <= j < shown.len()
                    ==> !#[trigger] is_under_more_pressure(p, shown[j])
        },
{
    pressure_counts_contexts(files);
    pressure_order_is_a_ranking();
    let all = pressures(files);
    let less = most_pending_first();
    assert forall|a: PressureView, b: PressureView| #[trigger]
        is_under_more_pressure(a, b) == less(a, b) by {}
    top_items_lead(all, less, 12);
    let shown = first_n(ranked(all, less), 12);
    assert forall|i: int| 0 <= i < shown.len() implies all.contains(#[trigger] shown[i]) by {
        assert(shown.contains(shown[i]));
    }
    assert forall|p: PressureView, j: int|
        all.contains(p) && !shown.contains(p) && 0 <= j < shown.len() implies
        !#[trigger] is_under_more_pressure(p, shown[j]) by {
        assert(!less(p, shown[j]));
    }
    if all.len() > 0 {
        assert(shown.map_values(|p: PressureView| pressure_row(p)) =~= shown.map_values(
            |p: PressureView| pressure_cells(p),
        ));
        assert(pressure_panel(files) == PRESSURE_HEAD@ + pressure_rows(shown) + PRESSURE_TAIL@);
    }
}

/// A row of the pressure table: the member, its counts, whether its prompt is capped at eight
/// contexts, and its file.
pub open spec fn pressure_cells(p: PressureView) -> Seq<char> {
    table_row(
        seq![
            html(p.member),
            html(decimal(p.total)),
            html(decimal(p.pending)),
            html(decimal(p.injected)),
            html(decimal(p.acknowledged)),
            if p.pending >= 8 {
                r#"<span class="pill warn">capped at "#@ + decimal(8) + "</span>"@
            } else {
                r#"<span class="pill">ok</span>"#@
            },
            html("side_channel_contexts/"@ + id_of(p.member) + ".jsonl"@),
        ],
    )
}

/// The rows of the pressure table.
pub open spec fn pressure_rows(shown: Seq<PressureView>) -> Seq<char> {
    concat(shown.map_values(|p: PressureView| pressure_cells(p)))
}

// ---------------------------------------------------------------------------
// Cells
// ---------------------------------------------------------------------------

/// A share is shown where there is something to divide, and as none where the value or the whole
/// is not positive.
pub proof fn shares_are_shown(value: i64, whole: i64, percent: Seq<char>)
    ensures
        value > 0 && whole > 0 ==> share_cell(value, whole, percent)
            == r#"<div class="usage-share"><span style="width:"#@ + percent + r#"%"></span><em>"#@
            + percent + "%</em></div>"@,
        value <= 0 || whole <= 0 ==> share_cell(value, whole, percent)
            == r#"<div class="usage-share"><span style="width:0%"></span><em>0.0%</em></div>"#@,
{
}

/// The share of a call in the context window is shown with its level where both are positive, and
/// as a dash otherwise.
pub proof fn context_shares_are_shown(
    value: i64,
    window: i64,
    percent: Seq<char>,
    level: ContextLevel,
)
    ensures
        value > 0 && window > 0 && level is Hot ==> context_cell(value, window, percent, level)
            == r#"<span class="usage-context "#@ + "hot"@ + r#"">"#@ + percent + "%</span>"@,
        value > 0 && window > 0 && level is Warn ==> context_cell(value, window, percent, level)
            == r#"<span class="usage-context "#@ + "warn"@ + r#"">"#@ + percent + "%</span>"@,
        value > 0 && window > 0 && level is Cool ==> context_cell(value, window, percent, level)
            == r#"<span class="usage-context "#@ + "ok"@ + r#"">"#@ + percent + "%</span>"@,
        value <= 0 || window <= 0 ==> context_cell(value, window, percent, level) == "-"@,
{
}

/// The input of a usage that did not come out of the cache.
pub open spec fn fresh_part(usage: TeamTokenUsageBreakdown) -> int {
    let rest = usage.input_tokens - usage.cached_input_tokens;
    if rest < 0 {
        0
    } else if rest > i64::MAX {
        i64::MAX as int
    } else {
        rest
    }
}

/// A row of a table shows the label, the share, and the total, the input, its cached and its
/// uncached part, the output and the reasoning, in this order.
pub proof fn rows_show_their_counters(
    label: Seq<char>,
    usage: TeamTokenUsageBreakdown,
    whole: i64,
    percent: Seq<char>,
)
    ensures
        usage_row(label, usage, whole, percent) == table_row(
            seq![
                html(label),
                share_cell(usage.total_tokens, whole, percent),
                html(integer(usage.total_tokens as int)),
                html(integer(usage.input_tokens as int)),
                html(integer(usage.cached_input_tokens as int)),
                html(integer(fresh_part(usage))),
                html(integer(usage.output_tokens as int)),
                html(integer(usage.reasoning_output_tokens as int)),
            ],
        ),
{
}

/// A row of the bottlenecks shows when, what for, by whom, where and in which turn a call was
/// made, and what it cost; a row of the recent updates shows its counters.
pub proof fn calls_show_their_counters(record: TeamTokenUsageRecord, context: Seq<char>)
    ensures
        hotspot_row(record, context) == table_row(
            seq![
                html(ui_time(record.timestamp@)),
                html(record.category@),
                html(record.member@),
                html(record.node@),
                code(record.turn@),
                html(integer(record.last.total_tokens as int)),
                html(integer(fresh_part(record.last))),
                context,
            ],
        ),
        recent_row(record) == table_row(
            seq![
                html(ui_time(record.timestamp@)),
                html(record.category@),
                html(record.member@),
                html(record.node@),
                code(record.turn@),
                html(integer(record.last.total_tokens as int)),
                html(integer(record.last.input_tokens as int)),
                html(integer(record.last.cached_input_tokens as int)),
                html(integer(fresh_part(record.last))),
                html(integer(record.last.output_tokens as int)),
            ],
        ),
{
}

/// A bottleneck shows its share of the model's window where the window is known.
pub proof fn bottlenecks_show_their_context(
    record: TeamTokenUsageRecord,
    shares: Seq<ContextShare>,
    i: int,
)
    ensures
        record.model_context_window is None ==> hotspot_context(record, shares, i) == "-"@,
        record.model_context_window is Some && 0 <= i < shares.len() ==> hotspot_context(
            record,
            shares,
            i,
        ) == context_cell(
            record.last.total_tokens,
            record.model_context_window->0,
            shares[i].percent@,
            shares[i].level,
        ),
{
}

/// Every row of a table shows its group with the share at the same place.
pub proof fn tables_show_every_group(
    groups: Seq<(Seq<char>, TeamTokenUsageBreakdown)>,
    whole: i64,
    shares: Seq<Seq<char>>,
)
    requires
        shares.len() == groups.len(),
    ensures
        exists|rows: Seq<Seq<char>>| {
            &&& usage_rows(groups, whole, shares) == #[trigger] concat(rows)
            &&& rows.len() == groups.len()
            &&& forall|i: int|
                0 <= i < rows.len() ==> #[trigger] rows[i] == usage_row(
                    groups[i].0,
                    groups[i].1,
                    whole,
                    shares[i],
                )
        },
{
    let rows = Seq::new(
        groups.len(),
        |i: int|
            usage_row(groups[i].0, groups[i].1, whole, crate::token_usage::share_at(shares, i)),
    );
    assert(usage_rows(groups, whole, shares) == concat(rows));
}

} // verus!
