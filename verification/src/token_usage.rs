//! The token usage panel.

use vstd::prelude::*;

use crate::escape::{html, html_escape};
use crate::markup::{code, render_code, render_row, table_row};
use crate::model::{id_of, sanitize_id, SideChannelContextRecord, SideChannelContextStatus};
use crate::number::{decimal, integer, integer_text, usize_text};
use crate::order::{
    is_ranking, level, ranked, ranked_ignores_arrival, ranked_is_a_stable_sort, ranked_of_mapped,
    stable_sort, text_comes_before, text_less, text_less_is_total, text_order_is_a_ranking, Ranking,
};
use crate::split::{concat, concat_all, first_n};
use crate::text::{same_text, views};
use crate::time::{timestamp_for_ui, ui_time};

verus! {

// ---------------------------------------------------------------------------
// Counting tokens
// ---------------------------------------------------------------------------

/// How many tokens of each kind were used.
#[derive(Clone, Copy, Debug, PartialEq, Eq, Structural)]
pub struct TeamTokenUsageBreakdown {
    pub total_tokens: i64,
    pub input_tokens: i64,
    pub cached_input_tokens: i64,
    pub output_tokens: i64,
    pub reasoning_output_tokens: i64,
}

impl Default for TeamTokenUsageBreakdown {
    fn default() -> (out: Self)
        ensures
            out == no_usage(),
    {
        TeamTokenUsageBreakdown {
            total_tokens: 0,
            input_tokens: 0,
            cached_input_tokens: 0,
            output_tokens: 0,
            reasoning_output_tokens: 0,
        }
    }
}

/// No tokens of any kind.
pub open spec fn no_usage() -> TeamTokenUsageBreakdown {
    TeamTokenUsageBreakdown {
        total_tokens: 0,
        input_tokens: 0,
        cached_input_tokens: 0,
        output_tokens: 0,
        reasoning_output_tokens: 0,
    }
}

/// The nearest number that a counter can hold.
pub open spec fn counter(n: int) -> i64 {
    if n > i64::MAX {
        i64::MAX
    } else if n < i64::MIN {
        i64::MIN
    } else {
        n as i64
    }
}

/// The counters of both usages together.
pub open spec fn usage_sum(
    a: TeamTokenUsageBreakdown,
    b: TeamTokenUsageBreakdown,
) -> TeamTokenUsageBreakdown {
    TeamTokenUsageBreakdown {
        total_tokens: counter(a.total_tokens + b.total_tokens),
        input_tokens: counter(a.input_tokens + b.input_tokens),
        cached_input_tokens: counter(a.cached_input_tokens + b.cached_input_tokens),
        output_tokens: counter(a.output_tokens + b.output_tokens),
        reasoning_output_tokens: counter(a.reasoning_output_tokens + b.reasoning_output_tokens),
    }
}

fn counter_sum(a: i64, b: i64) -> (out: i64)
    ensures
        out == counter(a + b),
{
    match a.checked_add(b) {
        Some(sum) => sum,
        None => if a > 0 {
            i64::MAX
        } else {
            i64::MIN
        },
    }
}

impl TeamTokenUsageBreakdown {
    /// Adds the counters of another usage.
    pub fn add_assign(&mut self, other: TeamTokenUsageBreakdown)
        ensures
            *final(self) == usage_sum(*old(self), other),
    {
        self.total_tokens = counter_sum(self.total_tokens, other.total_tokens);
        self.input_tokens = counter_sum(self.input_tokens, other.input_tokens);
        self.cached_input_tokens = counter_sum(
            self.cached_input_tokens,
            other.cached_input_tokens,
        );
        self.output_tokens = counter_sum(self.output_tokens, other.output_tokens);
        self.reasoning_output_tokens = counter_sum(
            self.reasoning_output_tokens,
            other.reasoning_output_tokens,
        );
    }

    /// The input tokens that did not come out of the cache.
    pub open spec fn uncached(self) -> i64 {
        if self.cached_input_tokens >= self.input_tokens {
            0
        } else {
            counter(self.input_tokens - self.cached_input_tokens)
        }
    }

    /// The input tokens that did not come out of the cache.
    pub fn uncached_input_tokens(&self) -> (out: i64)
        ensures
            out == self.uncached(),
    {
        if self.cached_input_tokens >= self.input_tokens {
            0
        } else {
            match self.input_tokens.checked_sub(self.cached_input_tokens) {
                Some(rest) => rest,
                None => i64::MAX,
            }
        }
    }
}

/// The input is what came out of the cache and what did not: the two counters add up to it.
pub proof fn cached_and_uncached_add_up(usage: TeamTokenUsageBreakdown)
    requires
        0 <= usage.cached_input_tokens <= usage.input_tokens,
    ensures
        usage.cached_input_tokens + usage.uncached() == usage.input_tokens,
{
}

/// A report of an app server on the tokens of a turn.
#[derive(Debug, PartialEq, Eq)]
pub struct TeamTokenUsageRecord {
    pub timestamp: String,
    pub member: String,
    pub role: String,
    pub node: String,
    pub thread: String,
    pub turn: String,
    pub category: String,
    pub source: String,
    pub total: TeamTokenUsageBreakdown,
    pub last: TeamTokenUsageBreakdown,
    pub model_context_window: Option<i64>,
}

impl Clone for TeamTokenUsageRecord {
    fn clone(&self) -> (out: Self)
        ensures
            out == *self,
    {
        TeamTokenUsageRecord {
            timestamp: self.timestamp.clone(),
            member: self.member.clone(),
            role: self.role.clone(),
            node: self.node.clone(),
            thread: self.thread.clone(),
            turn: self.turn.clone(),
            category: self.category.clone(),
            source: self.source.clone(),
            total: self.total,
            last: self.last,
            model_context_window: self.model_context_window,
        }
    }
}

// ---------------------------------------------------------------------------
// Updates
// ---------------------------------------------------------------------------

/// What tells updates apart: node, thread, turn and the thread's cumulative total.
pub open spec fn update_key(record: TeamTokenUsageRecord) -> Seq<char> {
    record.node@ + "|"@ + record.thread@ + "|"@ + record.turn@ + "|"@ + integer(
        record.total.total_tokens as int,
    )
}

fn update_key_of(record: &TeamTokenUsageRecord) -> (out: String)
    ensures
        out@ == update_key(*record),
{
    let mut out = record.node.clone();
    out.append("|");
    out.append(record.thread.as_str());
    out.append("|");
    out.append(record.turn.as_str());
    out.append("|");
    out.append(integer_text(record.total.total_tokens).as_str());
    out
}

/// The kept records with `record` in place of the one with the same key, or at the end where there
/// is none.
pub open spec fn keep_latest(
    kept: Seq<TeamTokenUsageRecord>,
    record: TeamTokenUsageRecord,
) -> Seq<TeamTokenUsageRecord>
    decreases kept.len(),
{
    if kept.len() == 0 {
        seq![record]
    } else if update_key(kept[0]) == update_key(record) {
        seq![record] + kept.drop_first()
    } else {
        seq![kept[0]] + keep_latest(kept.drop_first(), record)
    }
}

/// The last record with each key, in the order in which the keys first came.
pub open spec fn latest_of(records: Seq<TeamTokenUsageRecord>) -> Seq<TeamTokenUsageRecord>
    decreases records.len(),
{
    if records.len() == 0 {
        seq![]
    } else {
        keep_latest(latest_of(records.drop_last()), records.last())
    }
}

/// The usage updates: the last record with each key, the newest first.
pub open spec fn usage_updates(records: Seq<TeamTokenUsageRecord>) -> Seq<TeamTokenUsageRecord> {
    ranked(latest_of(records), newest_first())
}

/// Records with later timestamps go first.
pub open spec fn newest_first() -> spec_fn(TeamTokenUsageRecord, TeamTokenUsageRecord) -> bool {
    |a: TeamTokenUsageRecord, b: TeamTokenUsageRecord| text_less(b.timestamp@, a.timestamp@)
}

/// Ranks records by their timestamps, the latest first.
pub struct NewestFirst;

impl Ranking<TeamTokenUsageRecord> for NewestFirst {
    open spec fn less() -> spec_fn(TeamTokenUsageRecord, TeamTokenUsageRecord) -> bool {
        newest_first()
    }

    fn goes_before(a: &TeamTokenUsageRecord, b: &TeamTokenUsageRecord) -> (yes: bool) {
        text_comes_before(b.timestamp.as_str(), a.timestamp.as_str())
    }
}

proof fn keep_latest_at(kept: Seq<TeamTokenUsageRecord>, record: TeamTokenUsageRecord, at: int)
    requires
        0 <= at <= kept.len(),
        at < kept.len() ==> update_key(kept[at]) == update_key(record),
        forall|j: int| 0 <= j < at ==> update_key(#[trigger] kept[j]) != update_key(record),
    ensures
        at < kept.len() ==> keep_latest(kept, record) == kept.update(at, record),
        at == kept.len() ==> keep_latest(kept, record) == kept.push(record),
    decreases kept.len(),
{
    if kept.len() == 0 {
        assert(keep_latest(kept, record) =~= kept.push(record));
    } else if at == 0 {
        assert(keep_latest(kept, record) =~= kept.update(0, record));
    } else {
        let rest = kept.drop_first();
        assert forall|j: int| 0 <= j < at - 1 implies update_key(#[trigger] rest[j]) != update_key(
            record,
        ) by {
            assert(rest[j] == kept[j + 1]);
        }
        assert(update_key(kept[0]) != update_key(record));
        keep_latest_at(rest, record, at - 1);
        if at < kept.len() {
            assert(keep_latest(kept, record) =~= kept.update(at, record));
        } else {
            assert(keep_latest(kept, record) =~= kept.push(record));
        }
    }
}

/// Where a key stands among the kept records, or behind them where it does not.
spec fn place_of(kept: Seq<TeamTokenUsageRecord>, key: Seq<char>) -> int
    decreases kept.len(),
{
    if kept.len() == 0 || update_key(kept[0]) == key {
        0
    } else {
        1 + place_of(kept.drop_first(), key)
    }
}

proof fn place_is_first(kept: Seq<TeamTokenUsageRecord>, key: Seq<char>)
    ensures
        0 <= place_of(kept, key) <= kept.len(),
        place_of(kept, key) < kept.len() ==> update_key(kept[place_of(kept, key)]) == key,
        forall|j: int| 0 <= j < place_of(kept, key) ==> update_key(#[trigger] kept[j]) != key,
    decreases kept.len(),
{
    if kept.len() > 0 && update_key(kept[0]) != key {
        let rest = kept.drop_first();
        place_is_first(rest, key);
        assert forall|j: int| 0 <= j < place_of(kept, key) implies update_key(#[trigger] kept[j])
            != key by {
            if j > 0 {
                assert(rest[j - 1] == kept[j]);
            }
        }
    }
}

/// No two of the records have the same key.
pub open spec fn keys_differ(records: Seq<TeamTokenUsageRecord>) -> bool {
    forall|i: int, j: int|
        0 <= i < j < records.len() ==> update_key(#[trigger] records[i]) != update_key(
            #[trigger] records[j],
        )
}

/// Record `i` is the last one with its key.
pub open spec fn is_latest(records: Seq<TeamTokenUsageRecord>, i: int) -> bool {
    &&& 0 <= i < records.len()
    &&& forall|j: int|
        i < j < records.len() ==> update_key(#[trigger] records[j]) != update_key(records[i])
}

/// What is kept of the records with their keys: exactly the last record with each key.
proof fn latest_is_kept(records: Seq<TeamTokenUsageRecord>)
    ensures
        keys_differ(latest_of(records)),
        forall|i: int|
            #[trigger] is_latest(records, i) ==> latest_of(records).contains(records[i]),
        forall|p: int|
            0 <= p < latest_of(records).len() ==> exists|i: int|
                is_latest(records, i) && records[i] == #[trigger] latest_of(records)[p],
    decreases records.len(),
{
    if records.len() > 0 {
        let before = records.drop_last();
        let last = records.last();
        latest_is_kept(before);
        let kept = latest_of(before);
        let out = latest_of(records);
        let at = place_of(kept, update_key(last));
        place_is_first(kept, update_key(last));
        keep_latest_at(kept, last, at);
        assert(out[at] == last);
        assert forall|p: int, q: int| 0 <= p < q < out.len() implies update_key(#[trigger] out[p])
            != update_key(#[trigger] out[q]) by {
            if p != at && q != at {
                assert(out[p] == kept[p] && out[q] == kept[q]);
            } else if p == at {
                assert(out[q] == kept[q]);
                assert(update_key(kept[at]) != update_key(kept[q]));
            } else {
                assert(out[p] == kept[p]);
            }
        }
        assert forall|i: int| #[trigger] is_latest(records, i) implies out.contains(
            records[i],
        ) by {
            if i < before.len() {
                assert(is_latest(before, i)) by {
                    assert forall|j: int| i < j < before.len() implies update_key(
                        #[trigger] before[j],
                    ) != update_key(before[i]) by {
                        assert(before[j] == records[j]);
                    }
                }
                let p = choose|p: int| 0 <= p < kept.len() && kept[p] == before[i];
                assert(update_key(records[records.len() - 1]) != update_key(records[i]));
                assert(p != at);
                assert(out[p] == records[i]);
            } else {
                assert(out[at] == records[i]);
            }
        }
        assert forall|p: int| 0 <= p < out.len() implies exists|i: int|
            is_latest(records, i) && records[i] == #[trigger] out[p] by {
            if p == at {
                assert(is_latest(records, records.len() - 1));
            } else {
                assert(out[p] == kept[p]);
                let i = choose|i: int| is_latest(before, i) && before[i] == kept[p];
                assert(update_key(out[p]) != update_key(out[at])) by {
                    if p < at {
                        assert(update_key(out[p]) != update_key(out[at]));
                    } else {
                        assert(update_key(out[at]) != update_key(out[p]));
                    }
                }
                assert forall|j: int| i < j < records.len() implies update_key(
                    #[trigger] records[j],
                ) != update_key(records[i]) by {
                    if j < before.len() {
                        assert(before[j] == records[j]);
                    }
                }
                assert(is_latest(records, i));
            }
        }
    }
}

/// A cumulative position that was reported more than once is one update: the updates are exactly
/// the last records of the positions, each once.
pub proof fn repeated_reports_count_once(records: Seq<TeamTokenUsageRecord>)
    ensures
        keys_differ(latest_of(records)),
        forall|record: TeamTokenUsageRecord|
            #[trigger] latest_of(records).contains(record) <==> exists|i: int| #[trigger]
                is_latest(records, i) && records[i] == record,
        usage_updates(records).to_multiset() == latest_of(records).to_multiset(),
{
    latest_is_kept(records);
    let kept = latest_of(records);
    assert forall|record: TeamTokenUsageRecord| #[trigger]
        kept.contains(record) <==> exists|i: int| #[trigger]
            is_latest(records, i) && records[i] == record by {
        if kept.contains(record) {
            let p = choose|p: int| 0 <= p < kept.len() && kept[p] == record;
            let i = choose|i: int| is_latest(records, i) && records[i] == kept[p];
            assert(is_latest(records, i) && records[i] == record);
        }
    }
    panel_orders_are_rankings();
    ranked_is_a_stable_sort(latest_of(records), newest_first());
}

/// The key stands among the kept records exactly where one of the records has it.
proof fn kept_keys_are_keys(records: Seq<TeamTokenUsageRecord>, key: Seq<char>)
    ensures
        place_of(latest_of(records), key) < latest_of(records).len() <==> exists|i: int|
            0 <= i < records.len() && update_key(#[trigger] records[i]) == key,
    decreases records.len(),
{
    let kept = latest_of(records);
    place_is_first(kept, key);
    if records.len() > 0 {
        let before = records.drop_last();
        let last = records.last();
        kept_keys_are_keys(before, key);
        let old_kept = latest_of(before);
        let at = place_of(old_kept, update_key(last));
        place_is_first(old_kept, update_key(last));
        place_is_first(old_kept, key);
        keep_latest_at(old_kept, last, at);
        assert(kept[at] == last);
        let p = place_of(kept, key);
        if p < kept.len() {
            if p == at {
                assert(update_key(records[records.len() - 1]) == key);
            } else {
                assert(kept[p] == old_kept[p]);
                assert(place_of(old_kept, key) < old_kept.len());
                let i = choose|i: int| 0 <= i < before.len() && update_key(#[trigger] before[i])
                    == key;
                assert(update_key(records[i]) == key);
            }
        }
        if exists|i: int| 0 <= i < records.len() && update_key(#[trigger] records[i]) == key {
            let i = choose|i: int| 0 <= i < records.len() && update_key(#[trigger] records[i])
                == key;
            if i < before.len() {
                assert(update_key(before[i]) == key);
                let q = place_of(old_kept, key);
                if q != at {
                    assert(kept[q] == old_kept[q]);
                }
                assert(update_key(kept[q]) == key);
            } else {
                assert(update_key(kept[at]) == key);
            }
        }
    }
}

/// What is kept of more records only depends on what was kept of those before.
proof fn latest_continues(
    a: Seq<TeamTokenUsageRecord>,
    b: Seq<TeamTokenUsageRecord>,
    more: Seq<TeamTokenUsageRecord>,
)
    requires
        latest_of(a) == latest_of(b),
    ensures
        latest_of(a + more) == latest_of(b + more),
    decreases more.len(),
{
    if more.len() == 0 {
        assert(a + more =~= a);
        assert(b + more =~= b);
    } else {
        latest_continues(a, b, more.drop_last());
        assert((a + more).drop_last() =~= a + more.drop_last());
        assert((b + more).drop_last() =~= b + more.drop_last());
    }
}

/// Two lists of kept records that differ in one record give the same once its key comes again.
proof fn latest_converges(
    a: Seq<TeamTokenUsageRecord>,
    b: Seq<TeamTokenUsageRecord>,
    more: Seq<TeamTokenUsageRecord>,
    record: TeamTokenUsageRecord,
    p: int,
)
    requires
        0 <= p < latest_of(a).len(),
        update_key(latest_of(a)[p]) == update_key(record),
        latest_of(b) == latest_of(a).update(p, record),
        exists|j: int|
            0 <= j < more.len() && update_key(#[trigger] more[j]) == update_key(record),
    ensures
        latest_of(a + more) == latest_of(b + more),
    decreases more.len(),
{
    latest_is_kept(a);
    let next = more[0];
    let rest = more.drop_first();
    let kept = latest_of(a);
    let other = latest_of(b);
    let next_a = a.push(next);
    let next_b = b.push(next);
    assert(next_a.drop_last() =~= a);
    assert(next_b.drop_last() =~= b);
    assert(a + more =~= next_a + rest);
    assert(b + more =~= next_b + rest);
    let at = place_of(kept, update_key(next));
    place_is_first(kept, update_key(next));
    if update_key(next) == update_key(record) {
        if at < p {
            assert(update_key(kept[at]) != update_key(kept[p]));
        }
        if p < at {
            assert(update_key(kept[p]) != update_key(next));
        }
    }
    assert forall|j: int| 0 <= j < at implies update_key(#[trigger] other[j]) != update_key(
        next,
    ) by {
        assert(update_key(kept[j]) != update_key(next));
    }
    keep_latest_at(kept, next, at);
    keep_latest_at(other, next, at);
    if update_key(next) == update_key(record) {
        assert(latest_of(next_a) =~= latest_of(next_b));
        latest_continues(next_a, next_b, rest);
    } else {
        let j = choose|j: int|
            0 <= j < more.len() && update_key(#[trigger] more[j]) == update_key(record);
        assert(rest[j - 1] == more[j]);
        assert(latest_of(next_b) =~= latest_of(next_a).update(p, record));
        latest_converges(next_a, next_b, rest, record, p);
    }
}

/// A repeat of record `k` may stand at `at`: behind the record, and either no other report on the
/// same position came between, or one follows.
pub open spec fn may_repeat(records: Seq<TeamTokenUsageRecord>, k: int, at: int) -> bool {
    &&& 0 <= k < at <= records.len()
    &&& {
        ||| forall|j: int|
            k < j < at ==> update_key(#[trigger] records[j]) != update_key(records[k])
        ||| exists|j: int|
            at <= j < records.len() && update_key(#[trigger] records[j]) == update_key(records[k])
    }
}

/// A report that is repeated leaves the updates as they were, and with them the total and every
/// table of groups.
pub proof fn a_repeat_changes_nothing(records: Seq<TeamTokenUsageRecord>, k: int, at: int)
    requires
        may_repeat(records, k, at),
    ensures
        usage_updates(records.insert(at, records[k])) == usage_updates(records),
        usage_total(usage_updates(records.insert(at, records[k]))) == usage_total(
            usage_updates(records),
        ),
        forall|by: UsageGrouping, limit: int| #[trigger]
            top_groups(usage_updates(records.insert(at, records[k])), by, limit) == top_groups(
                usage_updates(records),
                by,
                limit,
            ),
        usage_report(usage_updates(records.insert(at, records[k]))) == usage_report(
            usage_updates(records),
        ),
{
    let record = records[k];
    let key = update_key(record);
    let a = records.take(at);
    let b = a.push(record);
    let more = records.skip(at);
    assert(a + more =~= records);
    assert(b + more =~= records.insert(at, record));
    assert(b.drop_last() =~= a);
    let kept = latest_of(a);
    latest_is_kept(a);
    place_is_first(kept, key);
    kept_keys_are_keys(a, key);
    assert(update_key(a[k]) == key);
    let p = place_of(kept, key);
    keep_latest_at(kept, record, p);
    assert(latest_of(b) == kept.update(p, record));
    if exists|j: int| at <= j < records.len() && update_key(#[trigger] records[j]) == key {
        let j = choose|j: int| at <= j < records.len() && update_key(#[trigger] records[j]) == key;
        assert(more[j - at] == records[j]);
        latest_converges(a, b, more, record, p);
    } else {
        assert(is_latest(a, k)) by {
            assert forall|j: int| k < j < a.len() implies update_key(#[trigger] a[j])
                != update_key(a[k]) by {
                assert(a[j] == records[j]);
            }
        }
        assert(kept.contains(a[k]));
        let q = choose|q: int| 0 <= q < kept.len() && kept[q] == a[k];
        if p < q {
            assert(update_key(kept[p]) != update_key(kept[q]));
        }
        if q < p {
            assert(update_key(kept[q]) != key);
        }
        assert(kept.update(p, record) =~= kept);
        latest_continues(a, b, more);
    }
}

/// The usage updates: the last record with each key, the newest first.
pub fn collect_usage_updates(records: &Vec<TeamTokenUsageRecord>) -> (out: Vec<
    TeamTokenUsageRecord,
>)
    ensures
        out@ == usage_updates(records@),
{
    let mut keys: Vec<String> = Vec::new();
    let mut latest: Vec<TeamTokenUsageRecord> = Vec::new();
    for i in 0..records.len()
        invariant
            keys@.len() == latest@.len(),
            forall|p: int|
                0 <= p < keys@.len() ==> (#[trigger] keys@[p])@ == update_key(latest@[p]),
            latest@ == latest_of(records@.take(i as int)),
    {
        assert(records@.take(i + 1).drop_last() =~= records@.take(i as int));
        let key = update_key_of(&records[i]);
        let mut at: usize = 0;
        while at < keys.len() && !same_text(keys[at].as_str(), key.as_str())
            invariant
                at <= keys@.len(),
                keys@.len() == latest@.len(),
                forall|p: int|
                    0 <= p < keys@.len() ==> (#[trigger] keys@[p])@ == update_key(latest@[p]),
                forall|p: int| 0 <= p < at ==> update_key(#[trigger] latest@[p]) != key@,
            decreases keys@.len() - at,
        {
            assert(keys@[at as int]@ == update_key(latest@[at as int]));
            at = at + 1;
        }
        proof {
            if at < keys@.len() {
                assert(keys@[at as int]@ == update_key(latest@[at as int]));
            }
            keep_latest_at(latest@, records@[i as int], at as int);
        }
        if at < keys.len() {
            latest.set(at, records[i].clone());
        } else {
            latest.push(records[i].clone());
            keys.push(key);
        }
    }
    assert(records@.take(records@.len() as int) =~= records@);
    stable_sort::<TeamTokenUsageRecord, NewestFirst>(latest)
}

// ---------------------------------------------------------------------------
// Sums
// ---------------------------------------------------------------------------

/// What the updates used altogether.
pub open spec fn usage_total(updates: Seq<TeamTokenUsageRecord>) -> TeamTokenUsageBreakdown
    decreases updates.len(),
{
    if updates.len() == 0 {
        no_usage()
    } else {
        usage_sum(usage_total(updates.drop_last()), updates.last().last)
    }
}

/// The groups with `usage` added to the group `label`, which is put at the end where it is new.
pub open spec fn add_to_group(
    groups: Seq<(Seq<char>, TeamTokenUsageBreakdown)>,
    label: Seq<char>,
    usage: TeamTokenUsageBreakdown,
) -> Seq<(Seq<char>, TeamTokenUsageBreakdown)>
    decreases groups.len(),
{
    if groups.len() == 0 {
        seq![(label, usage_sum(no_usage(), usage))]
    } else if groups[0].0 == label {
        seq![(label, usage_sum(groups[0].1, usage))] + groups.drop_first()
    } else {
        seq![groups[0]] + add_to_group(groups.drop_first(), label, usage)
    }
}

/// By what updates are grouped.
#[derive(Clone, Copy, Debug, PartialEq, Eq, Structural)]
pub enum UsageGrouping {
    Category,
    Member,
    CategoryMember,
    Node,
}

impl UsageGrouping {
    /// The group of an update.
    pub open spec fn label(self, record: TeamTokenUsageRecord) -> Seq<char> {
        match self {
            UsageGrouping::Category => record.category@,
            UsageGrouping::Member => record.member@ + " ("@ + record.role@ + ")"@,
            UsageGrouping::CategoryMember => record.category@ + " / "@ + record.member@ + " ("@
                + record.role@ + ")"@,
            UsageGrouping::Node => record.node@,
        }
    }

    fn label_of(self, record: &TeamTokenUsageRecord) -> (out: String)
        ensures
            out@ == self.label(*record),
    {
        match self {
            UsageGrouping::Category => record.category.clone(),
            UsageGrouping::Member => {
                let mut out = record.member.clone();
                out.append(" (");
                out.append(record.role.as_str());
                out.append(")");
                out
            },
            UsageGrouping::CategoryMember => {
                let mut out = record.category.clone();
                out.append(" / ");
                out.append(record.member.as_str());
                out.append(" (");
                out.append(record.role.as_str());
                out.append(")");
                out
            },
            UsageGrouping::Node => record.node.clone(),
        }
    }
}

/// The usage of each group, in the order in which the groups first come.
pub open spec fn usage_groups(
    updates: Seq<TeamTokenUsageRecord>,
    by: UsageGrouping,
) -> Seq<(Seq<char>, TeamTokenUsageBreakdown)>
    decreases updates.len(),
{
    if updates.len() == 0 {
        seq![]
    } else {
        add_to_group(
            usage_groups(updates.drop_last(), by),
            by.label(updates.last()),
            updates.last().last,
        )
    }
}

/// A group with its label as text.
pub open spec fn group_view(group: (String, TeamTokenUsageBreakdown)) -> (
    Seq<char>,
    TeamTokenUsageBreakdown,
) {
    (group.0@, group.1)
}

/// Groups with their labels as texts.
pub open spec fn groups_view(groups: Seq<(String, TeamTokenUsageBreakdown)>) -> Seq<
    (Seq<char>, TeamTokenUsageBreakdown),
> {
    groups.map_values(|group: (String, TeamTokenUsageBreakdown)| group_view(group))
}

/// Where the label stands at `at`, or nowhere, the usage is added there, or at the end.
pub proof fn add_to_group_at(
    groups: Seq<(Seq<char>, TeamTokenUsageBreakdown)>,
    label: Seq<char>,
    usage: TeamTokenUsageBreakdown,
    at: int,
)
    requires
        0 <= at <= groups.len(),
        at < groups.len() ==> groups[at].0 == label,
        forall|j: int| 0 <= j < at ==> (#[trigger] groups[j]).0 != label,
    ensures
        at < groups.len() ==> add_to_group(groups, label, usage) == groups.update(
            at,
            (label, usage_sum(groups[at].1, usage)),
        ),
        at == groups.len() ==> add_to_group(groups, label, usage) == groups.push(
            (label, usage_sum(no_usage(), usage)),
        ),
    decreases groups.len(),
{
    if groups.len() == 0 {
        assert(add_to_group(groups, label, usage) =~= groups.push(
            (label, usage_sum(no_usage(), usage)),
        ));
    } else if at == 0 {
        assert(add_to_group(groups, label, usage) =~= groups.update(
            0,
            (label, usage_sum(groups[0].1, usage)),
        ));
    } else {
        let rest = groups.drop_first();
        assert forall|j: int| 0 <= j < at - 1 implies (#[trigger] rest[j]).0 != label by {
            assert(rest[j] == groups[j + 1]);
        }
        add_to_group_at(rest, label, usage, at - 1);
        assert(groups[0].0 != label);
        if at < groups.len() {
            assert(add_to_group(groups, label, usage) =~= groups.update(
                at,
                (label, usage_sum(groups[at].1, usage)),
            ));
        } else {
            assert(add_to_group(groups, label, usage) =~= groups.push(
                (label, usage_sum(no_usage(), usage)),
            ));
        }
    }
}

fn collect_usage_groups(updates: &Vec<TeamTokenUsageRecord>, by: UsageGrouping) -> (out: Vec<
    (String, TeamTokenUsageBreakdown),
>)
    ensures
        groups_view(out@) == usage_groups(updates@, by),
{
    let mut groups: Vec<(String, TeamTokenUsageBreakdown)> = Vec::new();
    assert(groups_view(groups@) =~= usage_groups(updates@.take(0), by));
    for i in 0..updates.len()
        invariant
            groups_view(groups@) == usage_groups(updates@.take(i as int), by),
    {
        let label = by.label_of(&updates[i]);
        let usage = updates[i].last;
        let ghost before = groups_view(groups@);
        assert(updates@.take(i + 1).drop_last() =~= updates@.take(i as int));
        let mut at: usize = 0;
        while at < groups.len() && !same_text(groups[at].0.as_str(), label.as_str())
            invariant
                at <= groups@.len(),
                before == groups_view(groups@),
                forall|j: int| 0 <= j < at ==> (#[trigger] before[j]).0 != label@,
            decreases groups@.len() - at,
        {
            assert(before[at as int].0 == groups@[at as int].0@);
            at = at + 1;
        }
        proof {
            if at < groups@.len() {
                assert(before[at as int].0 == groups@[at as int].0@);
            }
            add_to_group_at(before, label@, usage, at as int);
        }
        if at < groups.len() {
            let mut sum = groups[at].1;
            sum.add_assign(usage);
            groups.set(at, (label, sum));
            assert(groups_view(groups@) =~= before.update(
                at as int,
                (label@, usage_sum(before[at as int].1, usage)),
            ));
        } else {
            let mut sum = TeamTokenUsageBreakdown::default();
            sum.add_assign(usage);
            groups.push((label, sum));
            assert(groups_view(groups@) =~= before.push(
                (label@, usage_sum(no_usage(), usage)),
            ));
        }
    }
    assert(updates@.take(updates@.len() as int) =~= updates@);
    groups
}

fn total_of(updates: &Vec<TeamTokenUsageRecord>) -> (total: TeamTokenUsageBreakdown)
    ensures
        total == usage_total(updates@),
{
    let mut total = TeamTokenUsageBreakdown::default();
    for i in 0..updates.len()
        invariant
            total == usage_total(updates@.take(i as int)),
    {
        assert(updates@.take(i + 1).drop_last() =~= updates@.take(i as int));
        total.add_assign(updates[i].last);
    }
    assert(updates@.take(updates@.len() as int) =~= updates@);
    total
}

// ---------------------------------------------------------------------------
// Orders
// ---------------------------------------------------------------------------

/// Groups with more tokens go first, then those with the smaller label.
pub open spec fn most_used_first() -> spec_fn(
    (Seq<char>, TeamTokenUsageBreakdown),
    (Seq<char>, TeamTokenUsageBreakdown),
) -> bool {
    |a: (Seq<char>, TeamTokenUsageBreakdown), b: (Seq<char>, TeamTokenUsageBreakdown)|
        a.1.total_tokens > b.1.total_tokens || (a.1.total_tokens == b.1.total_tokens && text_less(
            a.0,
            b.0,
        ))
}

/// Ranks groups by their tokens, then by their labels.
pub struct MostUsedFirst;

impl Ranking<(String, TeamTokenUsageBreakdown)> for MostUsedFirst {
    open spec fn less() -> spec_fn(
        (String, TeamTokenUsageBreakdown),
        (String, TeamTokenUsageBreakdown),
    ) -> bool {
        |a: (String, TeamTokenUsageBreakdown), b: (String, TeamTokenUsageBreakdown)|
            most_used_first()(group_view(a), group_view(b))
    }

    fn goes_before(
        a: &(String, TeamTokenUsageBreakdown),
        b: &(String, TeamTokenUsageBreakdown),
    ) -> (yes: bool) {
        a.1.total_tokens > b.1.total_tokens || (a.1.total_tokens == b.1.total_tokens
            && text_comes_before(a.0.as_str(), b.0.as_str()))
    }
}

/// Dearer model calls go first, then those with more uncached input, then the later ones.
pub open spec fn dearest_first() -> spec_fn(TeamTokenUsageRecord, TeamTokenUsageRecord) -> bool {
    |a: TeamTokenUsageRecord, b: TeamTokenUsageRecord|
        a.last.total_tokens > b.last.total_tokens || (a.last.total_tokens == b.last.total_tokens
            && (a.last.uncached() > b.last.uncached() || (a.last.uncached() == b.last.uncached()
            && text_less(b.timestamp@, a.timestamp@))))
}

/// Ranks model calls by their cost.
pub struct DearestFirst;

impl Ranking<TeamTokenUsageRecord> for DearestFirst {
    open spec fn less() -> spec_fn(TeamTokenUsageRecord, TeamTokenUsageRecord) -> bool {
        dearest_first()
    }

    fn goes_before(a: &TeamTokenUsageRecord, b: &TeamTokenUsageRecord) -> (yes: bool) {
        let left = a.last.uncached_input_tokens();
        let right = b.last.uncached_input_tokens();
        a.last.total_tokens > b.last.total_tokens || (a.last.total_tokens == b.last.total_tokens
            && (left > right || (left == right && text_comes_before(
            b.timestamp.as_str(),
            a.timestamp.as_str(),
        ))))
    }
}

/// The orders of the panel are orders: sorting by them is a stable sort.
pub proof fn panel_orders_are_rankings()
    ensures
        is_ranking(newest_first()),
        is_ranking(most_used_first()),
        is_ranking(dearest_first()),
{
    text_order_is_a_ranking();
}

/// No two groups with different labels are level, so the order of the rows does not depend on the
/// order in which the groups were collected.
pub proof fn group_rows_ignore_arrival(
    a: Seq<(Seq<char>, TeamTokenUsageBreakdown)>,
    b: Seq<(Seq<char>, TeamTokenUsageBreakdown)>,
)
    requires
        a.to_multiset() == b.to_multiset(),
        forall|i: int, j: int|
            0 <= i < j < a.len() ==> (#[trigger] a[i]).0 != (#[trigger] a[j]).0,
    ensures
        ranked(a, most_used_first()) == ranked(b, most_used_first()),
{
    panel_orders_are_rankings();
    assert forall|x: (Seq<char>, TeamTokenUsageBreakdown), y: (Seq<char>, TeamTokenUsageBreakdown)|
        a.contains(x) && a.contains(y) && #[trigger] level(x, y, most_used_first())
        implies x == y by {
        let i = choose|i: int| 0 <= i < a.len() && a[i] == x;
        let j = choose|j: int| 0 <= j < a.len() && a[j] == y;
        text_less_is_total(x.0, y.0);
        if i < j {
            assert(a[i].0 != a[j].0);
        } else if j < i {
            assert(a[j].0 != a[i].0);
        }
    }
    ranked_ignores_arrival(a, b, most_used_first());
}

proof fn add_to_group_keeps_labels_distinct(
    groups: Seq<(Seq<char>, TeamTokenUsageBreakdown)>,
    label: Seq<char>,
    usage: TeamTokenUsageBreakdown,
)
    requires
        forall|i: int, j: int|
            0 <= i < j < groups.len() ==> (#[trigger] groups[i]).0 != (#[trigger] groups[j]).0,
    ensures
        forall|i: int, j: int|
            0 <= i < j < add_to_group(groups, label, usage).len() ==> (#[trigger] add_to_group(
                groups,
                label,
                usage,
            )[i]).0 != (#[trigger] add_to_group(groups, label, usage)[j]).0,
{
    if exists|at: int| 0 <= at < groups.len() && (#[trigger] groups[at]).0 == label {
        let at = choose|at: int| 0 <= at < groups.len() && (#[trigger] groups[at]).0 == label;
        assert forall|j: int| 0 <= j < at implies (#[trigger] groups[j]).0 != label by {
            assert(groups[j].0 != groups[at].0);
        }
        add_to_group_at(groups, label, usage, at);
    } else {
        add_to_group_at(groups, label, usage, groups.len() as int);
    }
}

/// Every group has a label of its own.
pub proof fn group_labels_are_distinct(updates: Seq<TeamTokenUsageRecord>, by: UsageGrouping)
    ensures
        forall|i: int, j: int|
            0 <= i < j < usage_groups(updates, by).len() ==> (#[trigger] usage_groups(
                updates,
                by,
            )[i]).0 != (#[trigger] usage_groups(updates, by)[j]).0,
    decreases updates.len(),
{
    if updates.len() > 0 {
        group_labels_are_distinct(updates.drop_last(), by);
        add_to_group_keeps_labels_distinct(
            usage_groups(updates.drop_last(), by),
            by.label(updates.last()),
            updates.last().last,
        );
    }
}

/// The tokens of the updates, counted without limit.
pub open spec fn tokens_in(updates: Seq<TeamTokenUsageRecord>) -> int
    decreases updates.len(),
{
    if updates.len() == 0 {
        0
    } else {
        tokens_in(updates.drop_last()) + updates.last().last.total_tokens
    }
}

/// The tokens of the groups, counted without limit.
pub open spec fn tokens_in_groups(groups: Seq<(Seq<char>, TeamTokenUsageBreakdown)>) -> int
    decreases groups.len(),
{
    if groups.len() == 0 {
        0
    } else {
        groups[0].1.total_tokens + tokens_in_groups(groups.drop_first())
    }
}

proof fn add_to_group_adds(
    groups: Seq<(Seq<char>, TeamTokenUsageBreakdown)>,
    label: Seq<char>,
    usage: TeamTokenUsageBreakdown,
)
    requires
        usage.total_tokens >= 0,
        forall|i: int| 0 <= i < groups.len() ==> (#[trigger] groups[i]).1.total_tokens >= 0,
        tokens_in_groups(groups) + usage.total_tokens <= i64::MAX,
    ensures
        tokens_in_groups(groups) >= 0,
        tokens_in_groups(add_to_group(groups, label, usage)) == tokens_in_groups(groups)
            + usage.total_tokens,
        forall|i: int|
            0 <= i < add_to_group(groups, label, usage).len() ==> (#[trigger] add_to_group(
                groups,
                label,
                usage,
            )[i]).1.total_tokens >= 0,
    decreases groups.len(),
{
    let out = add_to_group(groups, label, usage);
    if groups.len() == 0 {
        assert(out.drop_first() =~= seq![]);
        assert(tokens_in_groups(out.drop_first()) == 0);
    } else {
        let rest = groups.drop_first();
        assert forall|i: int| 0 <= i < rest.len() implies (#[trigger] rest[i]).1.total_tokens
            >= 0 by {
            assert(rest[i] == groups[i + 1]);
        }
        assert(groups[0].1.total_tokens >= 0);
        add_to_group_adds(rest, label, usage);
        if groups[0].0 == label {
            assert(out.drop_first() =~= rest);
            assert forall|i: int| 0 <= i < out.len() implies (#[trigger] out[i]).1.total_tokens
                >= 0 by {
                if i > 0 {
                    assert(out[i] == groups[i]);
                }
            }
        } else {
            let more = add_to_group(rest, label, usage);
            assert(out.drop_first() =~= more);
            assert forall|i: int| 0 <= i < out.len() implies (#[trigger] out[i]).1.total_tokens
                >= 0 by {
                if i > 0 {
                    assert(out[i] == more[i - 1]);
                }
            }
        }
    }
}

/// One counter of the updates, counted without limit.
pub open spec fn sum_of(
    updates: Seq<TeamTokenUsageRecord>,
    pick: spec_fn(TeamTokenUsageBreakdown) -> i64,
) -> int
    decreases updates.len(),
{
    if updates.len() == 0 {
        0
    } else {
        sum_of(updates.drop_last(), pick) + pick(updates.last().last)
    }
}

/// No counter is negative.
pub open spec fn is_count(usage: TeamTokenUsageBreakdown) -> bool {
    &&& usage.total_tokens >= 0
    &&& usage.input_tokens >= 0
    &&& usage.cached_input_tokens >= 0
    &&& usage.output_tokens >= 0
    &&& usage.reasoning_output_tokens >= 0
}

/// Each total is the sum over the updates, as far as a counter can hold it.
pub proof fn totals_are_sums(updates: Seq<TeamTokenUsageRecord>)
    requires
        forall|i: int| 0 <= i < updates.len() ==> is_count((#[trigger] updates[i]).last),
    ensures
        is_count(usage_total(updates)),
        usage_total(updates).total_tokens == counter(
            sum_of(updates, |u: TeamTokenUsageBreakdown| u.total_tokens),
        ),
        usage_total(updates).input_tokens == counter(
            sum_of(updates, |u: TeamTokenUsageBreakdown| u.input_tokens),
        ),
        usage_total(updates).cached_input_tokens == counter(
            sum_of(updates, |u: TeamTokenUsageBreakdown| u.cached_input_tokens),
        ),
        usage_total(updates).output_tokens == counter(
            sum_of(updates, |u: TeamTokenUsageBreakdown| u.output_tokens),
        ),
        usage_total(updates).reasoning_output_tokens == counter(
            sum_of(updates, |u: TeamTokenUsageBreakdown| u.reasoning_output_tokens),
        ),
        sum_of(updates, |u: TeamTokenUsageBreakdown| u.total_tokens) >= 0,
        sum_of(updates, |u: TeamTokenUsageBreakdown| u.input_tokens) >= 0,
        sum_of(updates, |u: TeamTokenUsageBreakdown| u.cached_input_tokens) >= 0,
        sum_of(updates, |u: TeamTokenUsageBreakdown| u.output_tokens) >= 0,
        sum_of(updates, |u: TeamTokenUsageBreakdown| u.reasoning_output_tokens) >= 0,
    decreases updates.len(),
{
    if updates.len() > 0 {
        let before = updates.drop_last();
        assert forall|i: int| 0 <= i < before.len() implies is_count(
            (#[trigger] before[i]).last,
        ) by {
            assert(before[i] == updates[i]);
        }
        assert(is_count(updates[updates.len() - 1].last));
        totals_are_sums(before);
    }
}

/// Every update is counted once, in the total and in one group of each table: while the counters
/// can hold the sum, the groups add up to the total, and both to the tokens of the updates.
pub proof fn groups_add_up_to_total(updates: Seq<TeamTokenUsageRecord>, by: UsageGrouping)
    requires
        forall|i: int| 0 <= i < updates.len() ==> (#[trigger] updates[i]).last.total_tokens >= 0,
        tokens_in(updates) <= i64::MAX,
    ensures
        0 <= tokens_in(updates),
        usage_total(updates).total_tokens == tokens_in(updates),
        tokens_in_groups(usage_groups(updates, by)) == tokens_in(updates),
        forall|i: int|
            0 <= i < usage_groups(updates, by).len() ==> (#[trigger] usage_groups(
                updates,
                by,
            )[i]).1.total_tokens >= 0,
    decreases updates.len(),
{
    if updates.len() > 0 {
        let before = updates.drop_last();
        assert forall|i: int| 0 <= i < before.len() implies (#[trigger] before[i]).last.total_tokens
            >= 0 by {
            assert(before[i] == updates[i]);
        }
        assert(updates[updates.len() - 1].last.total_tokens >= 0);
        groups_add_up_to_total(before, by);
        add_to_group_adds(
            usage_groups(before, by),
            by.label(updates.last()),
            updates.last().last,
        );
    }
}

// ---------------------------------------------------------------------------
// The report
// ---------------------------------------------------------------------------

/// What the panel shows.
pub struct TokenUsageReport {
    pub total: TeamTokenUsageBreakdown,
    pub by_category: Vec<(String, TeamTokenUsageBreakdown)>,
    pub by_member: Vec<(String, TeamTokenUsageBreakdown)>,
    pub by_category_member: Vec<(String, TeamTokenUsageBreakdown)>,
    pub by_node: Vec<(String, TeamTokenUsageBreakdown)>,
    pub hotspots: Vec<TeamTokenUsageRecord>,
    pub recent: Vec<TeamTokenUsageRecord>,
}

/// The groups that a table shows: the `limit` most used.
pub open spec fn top_groups(
    updates: Seq<TeamTokenUsageRecord>,
    by: UsageGrouping,
    limit: int,
) -> Seq<(Seq<char>, TeamTokenUsageBreakdown)> {
    first_n(ranked(usage_groups(updates, by), most_used_first()), limit)
}

/// What the panel shows.
#[verifier::ext_equal]
pub struct UsageReportView {
    pub total: TeamTokenUsageBreakdown,
    pub by_category: Seq<(Seq<char>, TeamTokenUsageBreakdown)>,
    pub by_member: Seq<(Seq<char>, TeamTokenUsageBreakdown)>,
    pub by_category_member: Seq<(Seq<char>, TeamTokenUsageBreakdown)>,
    pub by_node: Seq<(Seq<char>, TeamTokenUsageBreakdown)>,
    pub hotspots: Seq<TeamTokenUsageRecord>,
    pub recent: Seq<TeamTokenUsageRecord>,
}

impl View for TokenUsageReport {
    type V = UsageReportView;

    open spec fn view(&self) -> UsageReportView {
        UsageReportView {
            total: self.total,
            by_category: groups_view(self.by_category@),
            by_member: groups_view(self.by_member@),
            by_category_member: groups_view(self.by_category_member@),
            by_node: groups_view(self.by_node@),
            hotspots: self.hotspots@,
            recent: self.recent@,
        }
    }
}

/// The report on updates.
pub open spec fn usage_report(updates: Seq<TeamTokenUsageRecord>) -> UsageReportView {
    UsageReportView {
        total: usage_total(updates),
        by_category: top_groups(updates, UsageGrouping::Category, 12),
        by_member: top_groups(updates, UsageGrouping::Member, 12),
        by_category_member: top_groups(updates, UsageGrouping::CategoryMember, 16),
        by_node: top_groups(updates, UsageGrouping::Node, 8),
        hotspots: first_n(ranked(updates, dearest_first()), 12),
        recent: first_n(updates, 20),
    }
}

fn top_groups_of(
    updates: &Vec<TeamTokenUsageRecord>,
    by: UsageGrouping,
    limit: usize,
) -> (out: Vec<(String, TeamTokenUsageBreakdown)>)
    ensures
        groups_view(out@) == top_groups(updates@, by, limit as int),
{
    let groups = collect_usage_groups(updates, by);
    let ghost f = |group: (String, TeamTokenUsageBreakdown)| group_view(group);
    proof {
        ranked_of_mapped(groups@, MostUsedFirst::less(), f, most_used_first());
    }
    let mut sorted = stable_sort::<(String, TeamTokenUsageBreakdown), MostUsedFirst>(groups);
    let ghost all = sorted@;
    while sorted.len() > limit
        invariant
            sorted@ == all.take(sorted@.len() as int),
            sorted@.len() <= all.len(),
            all.len() <= limit ==> sorted@.len() == all.len(),
            all.len() >= limit ==> sorted@.len() >= limit,
        decreases sorted@.len(),
    {
        sorted.pop();
        assert(sorted@ =~= all.take(sorted@.len() as int));
    }
    assert(groups_view(sorted@) =~= first_n(all.map_values(f), limit as int));
    sorted
}

fn copy_first(records: &Vec<TeamTokenUsageRecord>, limit: usize) -> (out: Vec<
    TeamTokenUsageRecord,
>)
    ensures
        out@ == first_n(records@, limit as int),
{
    let mut out: Vec<TeamTokenUsageRecord> = Vec::new();
    while out.len() < records.len() && out.len() < limit
        invariant
            out@.len() <= records@.len(),
            out@.len() <= limit,
            out@ == records@.take(out@.len() as int),
        decreases records@.len() - out@.len(),
    {
        let ghost before = out@;
        let record = records[out.len()].clone();
        out.push(record);
        assert(out@ =~= records@.take(out@.len() as int));
    }
    assert(out@ =~= first_n(records@, limit as int));
    out
}

/// The report on a team's usage records.
pub fn token_usage_report(records: &Vec<TeamTokenUsageRecord>) -> (report: TokenUsageReport)
    ensures
        report@ == usage_report(usage_updates(records@)),
{
    let updates = collect_usage_updates(records);
    let all = copy_first(&updates, updates.len());
    let ranked_calls = stable_sort::<TeamTokenUsageRecord, DearestFirst>(all);
    TokenUsageReport {
        total: total_of(&updates),
        by_category: top_groups_of(&updates, UsageGrouping::Category, 12),
        by_member: top_groups_of(&updates, UsageGrouping::Member, 12),
        by_category_member: top_groups_of(&updates, UsageGrouping::CategoryMember, 16),
        by_node: top_groups_of(&updates, UsageGrouping::Node, 8),
        hotspots: copy_first(&ranked_calls, 12),
        recent: copy_first(&updates, 20),
    }
}

// ---------------------------------------------------------------------------
// Cells and rows
// ---------------------------------------------------------------------------

/// A token count on the dashboard.
pub open spec fn tokens_text(tokens: i64) -> Seq<char> {
    integer(tokens as int)
}

/// A token count on the dashboard.
pub fn format_tokens(tokens: i64) -> (out: String)
    ensures
        out@ == tokens_text(tokens),
{
    integer_text(tokens)
}

fn token_cell(tokens: i64) -> (out: String)
    ensures
        out@ == html(tokens_text(tokens)),
{
    html_escape(format_tokens(tokens).as_str())
}

/// A bar that shows the share of `value` in `grand_total`, where `percent` is that share in
/// percent with one decimal place. Where there is nothing to divide, the share is none.
pub open spec fn share_cell(value: i64, grand_total: i64, percent: Seq<char>) -> Seq<char> {
    if grand_total <= 0 || value <= 0 {
        r#"<div class="usage-share"><span style="width:0%"></span><em>0.0%</em></div>"#@
    } else {
        r#"<div class="usage-share"><span style="width:"#@ + percent + r#"%"></span><em>"#@
            + percent + "%</em></div>"@
    }
}

/// A bar that shows the share of `value` in `grand_total`.
pub fn token_usage_share_cell(value: i64, grand_total: i64, percent: &str) -> (out: String)
    ensures
        out@ == share_cell(value, grand_total, percent@),
{
    if grand_total <= 0 || value <= 0 {
        r#"<div class="usage-share"><span style="width:0%"></span><em>0.0%</em></div>"#.to_string()
    } else {
        let mut out = r#"<div class="usage-share"><span style="width:"#.to_string();
        out.append(percent);
        out.append(r#"%"></span><em>"#);
        out.append(percent);
        out.append("%</em></div>");
        out
    }
}

/// How much of a model's context a call filled.
#[derive(Clone, Copy, Debug, PartialEq, Eq, Structural)]
pub enum ContextLevel {
    Hot,
    Warn,
    Cool,
}

impl ContextLevel {
    /// The style class of the level.
    pub open spec fn class(self) -> Seq<char> {
        match self {
            ContextLevel::Hot => "hot"@,
            ContextLevel::Warn => "warn"@,
            ContextLevel::Cool => "ok"@,
        }
    }

    /// The style class of the level.
    pub fn css_class(self) -> (out: &'static str)
        ensures
            out@ == self.class(),
    {
        match self {
            ContextLevel::Hot => "hot",
            ContextLevel::Warn => "warn",
            ContextLevel::Cool => "ok",
        }
    }
}

/// A share of the context, in percent with one decimal place, and its level.
#[derive(Clone, Debug, PartialEq, Eq)]
pub struct ContextShare {
    pub percent: String,
    pub level: ContextLevel,
}

/// The share of a call in the context window, or a dash where there is nothing to divide.
pub open spec fn context_cell(
    value: i64,
    context_window: i64,
    percent: Seq<char>,
    level: ContextLevel,
) -> Seq<char> {
    if value <= 0 || context_window <= 0 {
        "-"@
    } else {
        r#"<span class="usage-context "#@ + level.class() + r#"">"#@ + percent + "%</span>"@
    }
}

/// The share of a call in the context window.
pub fn token_context_share_cell(value: i64, context_window: i64, share: &ContextShare) -> (out:
    String)
    ensures
        out@ == context_cell(value, context_window, share.percent@, share.level),
{
    if value <= 0 || context_window <= 0 {
        "-".to_string()
    } else {
        let mut out = r#"<span class="usage-context "#.to_string();
        out.append(share.level.css_class());
        out.append(r#"">"#);
        out.append(share.percent.as_str());
        out.append("%</span>");
        out
    }
}

/// The share at a position; none where there is no such position.
pub open spec fn share_at(shares: Seq<Seq<char>>, i: int) -> Seq<char> {
    if 0 <= i < shares.len() {
        shares[i]
    } else {
        "0.0"@
    }
}

/// The row of a group.
pub open spec fn usage_row(
    label: Seq<char>,
    usage: TeamTokenUsageBreakdown,
    grand_total: i64,
    percent: Seq<char>,
) -> Seq<char> {
    table_row(
        seq![
            html(label),
            share_cell(usage.total_tokens, grand_total, percent),
            html(tokens_text(usage.total_tokens)),
            html(tokens_text(usage.input_tokens)),
            html(tokens_text(usage.cached_input_tokens)),
            html(tokens_text(usage.uncached())),
            html(tokens_text(usage.output_tokens)),
            html(tokens_text(usage.reasoning_output_tokens)),
        ],
    )
}

/// The rows of a table of groups.
pub open spec fn usage_rows(
    groups: Seq<(Seq<char>, TeamTokenUsageBreakdown)>,
    grand_total: i64,
    shares: Seq<Seq<char>>,
) -> Seq<char> {
    concat(
        Seq::new(
            groups.len(),
            |i: int| usage_row(groups[i].0, groups[i].1, grand_total, share_at(shares, i)),
        ),
    )
}

/// The rows of a table of groups; `shares` are the groups' shares in the grand total, in percent.
pub fn render_token_usage_rows(
    groups: &Vec<(String, TeamTokenUsageBreakdown)>,
    grand_total: i64,
    shares: &Vec<String>,
) -> (out: String)
    ensures
        out@ == usage_rows(groups_view(groups@), grand_total, views(shares@)),
{
    let ghost view = groups_view(groups@);
    let ghost wanted = Seq::new(
        view.len(),
        |i: int| usage_row(view[i].0, view[i].1, grand_total, share_at(views(shares@), i)),
    );
    let mut rows: Vec<String> = Vec::new();
    for i in 0..groups.len()
        invariant
            view == groups_view(groups@),
            wanted == Seq::new(
                view.len(),
                |i: int| usage_row(view[i].0, view[i].1, grand_total, share_at(views(shares@), i)),
            ),
            views(rows@) == wanted.take(i as int),
    {
        let ghost before = views(rows@);
        let usage = groups[i].1;
        let percent = if i < shares.len() {
            shares[i].as_str()
        } else {
            "0.0"
        };
        assert(percent@ == share_at(views(shares@), i as int));
        let mut cells: Vec<String> = Vec::new();
        cells.push(html_escape(groups[i].0.as_str()));
        cells.push(token_usage_share_cell(usage.total_tokens, grand_total, percent));
        cells.push(token_cell(usage.total_tokens));
        cells.push(token_cell(usage.input_tokens));
        cells.push(token_cell(usage.cached_input_tokens));
        cells.push(token_cell(usage.uncached_input_tokens()));
        cells.push(token_cell(usage.output_tokens));
        cells.push(token_cell(usage.reasoning_output_tokens));
        let row = render_row(&cells);
        assert(views(cells@) =~= seq![
            html(view[i as int].0),
            share_cell(usage.total_tokens, grand_total, percent@),
            html(tokens_text(usage.total_tokens)),
            html(tokens_text(usage.input_tokens)),
            html(tokens_text(usage.cached_input_tokens)),
            html(tokens_text(usage.uncached())),
            html(tokens_text(usage.output_tokens)),
            html(tokens_text(usage.reasoning_output_tokens)),
        ]);
        assert(row@ == wanted[i as int]);
        rows.push(row);
        assert(views(rows@) =~= before.push(row@));
        assert(views(rows@) =~= wanted.take(i + 1));
    }
    assert(wanted.take(groups@.len() as int) =~= wanted);
    concat_all(&rows)
}

/// The context cell of a call; a dash where the size of the window is not known.
pub open spec fn hotspot_context(
    record: TeamTokenUsageRecord,
    shares: Seq<ContextShare>,
    i: int,
) -> Seq<char> {
    match record.model_context_window {
        Some(window) => if 0 <= i < shares.len() {
            context_cell(record.last.total_tokens, window, shares[i].percent@, shares[i].level)
        } else {
            "-"@
        },
        None => "-"@,
    }
}

/// The row of a dear model call.
pub open spec fn hotspot_row(record: TeamTokenUsageRecord, context: Seq<char>) -> Seq<char> {
    table_row(
        seq![
            html(ui_time(record.timestamp@)),
            html(record.category@),
            html(record.member@),
            html(record.node@),
            code(record.turn@),
            html(tokens_text(record.last.total_tokens)),
            html(tokens_text(record.last.uncached())),
            context,
        ],
    )
}

/// The rows of the dearest model calls.
pub open spec fn hotspot_rows(
    records: Seq<TeamTokenUsageRecord>,
    shares: Seq<ContextShare>,
) -> Seq<char> {
    concat(
        Seq::new(
            records.len(),
            |i: int| hotspot_row(records[i], hotspot_context(records[i], shares, i)),
        ),
    )
}

/// The rows of the dearest model calls; `shares` are the calls' shares in their context windows.
pub fn render_token_usage_hotspot_rows(
    records: &Vec<TeamTokenUsageRecord>,
    shares: &Vec<ContextShare>,
) -> (out: String)
    ensures
        out@ == hotspot_rows(records@, shares@),
{
    let ghost wanted = Seq::new(
        records@.len(),
        |i: int| hotspot_row(records@[i], hotspot_context(records@[i], shares@, i)),
    );
    let mut rows: Vec<String> = Vec::new();
    for i in 0..records.len()
        invariant
            wanted == Seq::new(
                records@.len(),
                |i: int| hotspot_row(records@[i], hotspot_context(records@[i], shares@, i)),
            ),
            views(rows@) == wanted.take(i as int),
    {
        let ghost before = views(rows@);
        let record = &records[i];
        let context = match record.model_context_window {
            Some(window) => if i < shares.len() {
                token_context_share_cell(record.last.total_tokens, window, &shares[i])
            } else {
                "-".to_string()
            },
            None => "-".to_string(),
        };
        let mut cells: Vec<String> = Vec::new();
        cells.push(html_escape(timestamp_for_ui(record.timestamp.as_str()).as_str()));
        cells.push(html_escape(record.category.as_str()));
        cells.push(html_escape(record.member.as_str()));
        cells.push(html_escape(record.node.as_str()));
        cells.push(render_code(record.turn.as_str()));
        cells.push(token_cell(record.last.total_tokens));
        cells.push(token_cell(record.last.uncached_input_tokens()));
        cells.push(context);
        let row = render_row(&cells);
        assert(views(cells@) =~= seq![
            html(ui_time(record.timestamp@)),
            html(record.category@),
            html(record.member@),
            html(record.node@),
            code(record.turn@),
            html(tokens_text(record.last.total_tokens)),
            html(tokens_text(record.last.uncached())),
            context@,
        ]);
        assert(row@ == wanted[i as int]);
        rows.push(row);
        assert(views(rows@) =~= before.push(row@));
        assert(views(rows@) =~= wanted.take(i + 1));
    }
    assert(wanted.take(records@.len() as int) =~= wanted);
    concat_all(&rows)
}

/// The row of a recent update.
pub open spec fn recent_row(record: TeamTokenUsageRecord) -> Seq<char> {
    table_row(
        seq![
            html(ui_time(record.timestamp@)),
            html(record.category@),
            html(record.member@),
            html(record.node@),
            code(record.turn@),
            html(tokens_text(record.last.total_tokens)),
            html(tokens_text(record.last.input_tokens)),
            html(tokens_text(record.last.cached_input_tokens)),
            html(tokens_text(record.last.uncached())),
            html(tokens_text(record.last.output_tokens)),
        ],
    )
}

/// The rows of the recent updates.
pub open spec fn recent_rows(records: Seq<TeamTokenUsageRecord>) -> Seq<char> {
    concat(records.map_values(|record: TeamTokenUsageRecord| recent_row(record)))
}

fn render_recent_rows(records: &Vec<TeamTokenUsageRecord>) -> (out: String)
    ensures
        out@ == recent_rows(records@),
{
    let ghost wanted = records@.map_values(|record: TeamTokenUsageRecord| recent_row(record));
    let mut rows: Vec<String> = Vec::new();
    for i in 0..records.len()
        invariant
            wanted == records@.map_values(|record: TeamTokenUsageRecord| recent_row(record)),
            views(rows@) == wanted.take(i as int),
    {
        let ghost before = views(rows@);
        let record = &records[i];
        let mut cells: Vec<String> = Vec::new();
        cells.push(html_escape(timestamp_for_ui(record.timestamp.as_str()).as_str()));
        cells.push(html_escape(record.category.as_str()));
        cells.push(html_escape(record.member.as_str()));
        cells.push(html_escape(record.node.as_str()));
        cells.push(render_code(record.turn.as_str()));
        cells.push(token_cell(record.last.total_tokens));
        cells.push(token_cell(record.last.input_tokens));
        cells.push(token_cell(record.last.cached_input_tokens));
        cells.push(token_cell(record.last.uncached_input_tokens()));
        cells.push(token_cell(record.last.output_tokens));
        let row = render_row(&cells);
        assert(views(cells@) =~= seq![
            html(ui_time(record.timestamp@)),
            html(record.category@),
            html(record.member@),
            html(record.node@),
            code(record.turn@),
            html(tokens_text(record.last.total_tokens)),
            html(tokens_text(record.last.input_tokens)),
            html(tokens_text(record.last.cached_input_tokens)),
            html(tokens_text(record.last.uncached())),
            html(tokens_text(record.last.output_tokens)),
        ]);
        rows.push(row);
        assert(views(rows@) =~= before.push(row@));
        assert(views(rows@) =~= wanted.take(i + 1));
    }
    assert(wanted.take(records@.len() as int) =~= wanted);
    concat_all(&rows)
}

// ---------------------------------------------------------------------------
// Side-channel context pressure
// ---------------------------------------------------------------------------

/// The most side-channel contexts that a prompt takes.
pub const MAX_SIDE_CHANNEL_CONTEXTS_PER_PROMPT: usize = 8;

/// The side-channel contexts of one member, with the name of the member's file.
pub struct SideChannelFile {
    pub member: String,
    pub contexts: Vec<SideChannelContextRecord>,
}

/// How many of a member's side-channel contexts are in each state.
#[verifier::ext_equal]
pub struct PressureView {
    pub member: Seq<char>,
    pub total: nat,
    pub pending: nat,
    pub injected: nat,
    pub acknowledged: nat,
}

/// How many of the contexts have a status.
pub open spec fn status_count(
    contexts: Seq<SideChannelContextRecord>,
    status: SideChannelContextStatus,
) -> nat
    decreases contexts.len(),
{
    if contexts.len() == 0 {
        0
    } else {
        status_count(contexts.drop_last(), status) + if contexts.last().status == status {
            1nat
        } else {
            0nat
        }
    }
}

/// The counts of one member.
pub open spec fn pressure_of(file: SideChannelFile) -> PressureView {
    PressureView {
        member: file.member@,
        total: file.contexts@.len(),
        pending: status_count(file.contexts@, SideChannelContextStatus::Pending),
        injected: status_count(file.contexts@, SideChannelContextStatus::Injected),
        acknowledged: status_count(file.contexts@, SideChannelContextStatus::Acknowledged),
    }
}

/// The counts of the members that have contexts.
pub open spec fn pressures(files: Seq<SideChannelFile>) -> Seq<PressureView>
    decreases files.len(),
{
    if files.len() == 0 {
        seq![]
    } else if files.last().contexts@.len() == 0 {
        pressures(files.drop_last())
    } else {
        pressures(files.drop_last()).push(pressure_of(files.last()))
    }
}

/// Members with more pending contexts go first, then those with more contexts, then by name.
pub open spec fn most_pending_first() -> spec_fn(PressureView, PressureView) -> bool {
    |a: PressureView, b: PressureView|
        a.pending > b.pending || (a.pending == b.pending && (a.total > b.total || (a.total
            == b.total && text_less(a.member, b.member))))
}

/// The order of the pressure table is an order.
pub proof fn pressure_order_is_a_ranking()
    ensures
        is_ranking(most_pending_first()),
{
    text_order_is_a_ranking();
}

struct Pressure {
    member: String,
    total: usize,
    pending: usize,
    injected: usize,
    acknowledged: usize,
}

impl View for Pressure {
    type V = PressureView;

    closed spec fn view(&self) -> PressureView {
        PressureView {
            member: self.member@,
            total: self.total as nat,
            pending: self.pending as nat,
            injected: self.injected as nat,
            acknowledged: self.acknowledged as nat,
        }
    }
}

struct MostPendingFirst;

impl Ranking<Pressure> for MostPendingFirst {
    closed spec fn less() -> spec_fn(Pressure, Pressure) -> bool {
        |a: Pressure, b: Pressure| most_pending_first()(a@, b@)
    }

    fn goes_before(a: &Pressure, b: &Pressure) -> (yes: bool) {
        a.pending > b.pending || (a.pending == b.pending && (a.total > b.total || (a.total
            == b.total && text_comes_before(a.member.as_str(), b.member.as_str()))))
    }
}

fn count_status(contexts: &Vec<SideChannelContextRecord>, status: SideChannelContextStatus) -> (n:
    usize)
    ensures
        n == status_count(contexts@, status),
{
    let mut n: usize = 0;
    for i in 0..contexts.len()
        invariant
            n == status_count(contexts@.take(i as int), status),
            n <= i,
    {
        assert(contexts@.take(i + 1).drop_last() =~= contexts@.take(i as int));
        if contexts[i].status == status {
            n = n + 1;
        }
    }
    assert(contexts@.take(contexts@.len() as int) =~= contexts@);
    n
}

/// The row of a member's counts.
pub open spec fn pressure_row(p: PressureView) -> Seq<char> {
    table_row(
        seq![
            html(p.member),
            html(decimal(p.total)),
            html(decimal(p.pending)),
            html(decimal(p.injected)),
            html(decimal(p.acknowledged)),
            if p.pending >= MAX_SIDE_CHANNEL_CONTEXTS_PER_PROMPT {
                r#"<span class="pill warn">capped at "#@ + decimal(
                    MAX_SIDE_CHANNEL_CONTEXTS_PER_PROMPT as nat,
                ) + "</span>"@
            } else {
                r#"<span class="pill">ok</span>"#@
            },
            html("side_channel_contexts/"@ + id_of(p.member) + ".jsonl"@),
        ],
    )
}

/// The panel on side-channel contexts; nothing where no member has any.
pub open spec fn pressure_panel(files: Seq<SideChannelFile>) -> Seq<char> {
    let shown = first_n(ranked(pressures(files), most_pending_first()), 12);
    if pressures(files).len() == 0 {
        seq![]
    } else {
        PRESSURE_HEAD@ + concat(shown.map_values(|p: PressureView| pressure_row(p)))
            + PRESSURE_TAIL@
    }
}

/// What stands before the rows of the pressure table.
pub const PRESSURE_HEAD: &'static str = r#"<details><summary>Side-channel Context Pressure</summary><table><tr><th>Member</th><th>Total</th><th>Pending</th><th>Injected</th><th>Acknowledged</th><th>Prompt</th><th>Source</th></tr>"#;

/// What stands behind the rows of the pressure table.
pub const PRESSURE_TAIL: &'static str = r#"</table><p class="hint">Pending side-channel context is now capped before prompt reinjection. High pending counts are still shown here because they explain historical token spikes and may require a human audit of older commitments.</p></details>"#;

fn render_pressure_row(p: &Pressure) -> (out: String)
    ensures
        out@ == pressure_row(p@),
{
    let prompt = if p.pending >= MAX_SIDE_CHANNEL_CONTEXTS_PER_PROMPT {
        let mut prompt = r#"<span class="pill warn">capped at "#.to_string();
        prompt.append(usize_text(MAX_SIDE_CHANNEL_CONTEXTS_PER_PROMPT).as_str());
        prompt.append("</span>");
        prompt
    } else {
        r#"<span class="pill">ok</span>"#.to_string()
    };
    let mut source = "side_channel_contexts/".to_string();
    source.append(sanitize_id(p.member.as_str()).as_str());
    source.append(".jsonl");
    let mut cells: Vec<String> = Vec::new();
    cells.push(html_escape(p.member.as_str()));
    cells.push(html_escape(usize_text(p.total).as_str()));
    cells.push(html_escape(usize_text(p.pending).as_str()));
    cells.push(html_escape(usize_text(p.injected).as_str()));
    cells.push(html_escape(usize_text(p.acknowledged).as_str()));
    cells.push(prompt);
    cells.push(html_escape(source.as_str()));
    assert(views(cells@) =~= seq![
        html(p@.member),
        html(decimal(p@.total)),
        html(decimal(p@.pending)),
        html(decimal(p@.injected)),
        html(decimal(p@.acknowledged)),
        prompt@,
        html("side_channel_contexts/"@ + id_of(p@.member) + ".jsonl"@),
    ]);
    render_row(&cells)
}

/// The panel on side-channel contexts.
pub fn render_side_channel_context_pressure_rows(files: &Vec<SideChannelFile>) -> (out: String)
    ensures
        out@ == pressure_panel(files@),
{
    let ghost f = |p: Pressure| p@;
    let mut rows: Vec<Pressure> = Vec::new();
    assert(rows@.map_values(f) =~= pressures(files@.take(0)));
    for i in 0..files.len()
        invariant
            f == (|p: Pressure| p@),
            rows@.map_values(f) == pressures(files@.take(i as int)),
    {
        assert(files@.take(i + 1).drop_last() =~= files@.take(i as int));
        let file = &files[i];
        if file.contexts.len() > 0 {
            let ghost before = rows@.map_values(f);
            let pressure = Pressure {
                member: file.member.clone(),
                total: file.contexts.len(),
                pending: count_status(&file.contexts, SideChannelContextStatus::Pending),
                injected: count_status(&file.contexts, SideChannelContextStatus::Injected),
                acknowledged: count_status(
                    &file.contexts,
                    SideChannelContextStatus::Acknowledged,
                ),
            };
            assert(pressure@ =~= pressure_of(files@[i as int]));
            rows.push(pressure);
            assert(rows@.map_values(f) =~= before.push(pressure@));
        }
    }
    assert(files@.take(files@.len() as int) =~= files@);
    if rows.len() == 0 {
        return String::new();
    }
    proof {
        ranked_of_mapped(rows@, MostPendingFirst::less(), f, most_pending_first());
    }
    let sorted = stable_sort::<Pressure, MostPendingFirst>(rows);
    let ghost all = sorted@.map_values(f);
    let ghost wanted = first_n(all, 12).map_values(|p: PressureView| pressure_row(p));
    let mut parts: Vec<String> = Vec::new();
    while parts.len() < sorted.len() && parts.len() < 12
        invariant
            f == (|p: Pressure| p@),
            all == sorted@.map_values(f),
            wanted == first_n(all, 12).map_values(|p: PressureView| pressure_row(p)),
            parts@.len() <= sorted@.len(),
            parts@.len() <= 12,
            views(parts@) == wanted.take(parts@.len() as int),
        decreases sorted@.len() - parts@.len(),
    {
        let ghost before = views(parts@);
        let ghost n = parts@.len() as int;
        let row = render_pressure_row(&sorted[parts.len()]);
        assert(row@ == wanted[n]);
        parts.push(row);
        assert(views(parts@) =~= before.push(row@));
        assert(views(parts@) =~= wanted.take(n + 1));
    }
    assert(views(parts@) =~= wanted);
    let mut out = PRESSURE_HEAD.to_string();
    out.append(concat_all(&parts).as_str());
    out.append(PRESSURE_TAIL);
    out
}

// ---------------------------------------------------------------------------
// The panel
// ---------------------------------------------------------------------------

/// The panel where no usage was recorded.
pub const EMPTY_USAGE_PANEL: &'static str = r#"<section class="usage-panel"><h3>Token Usage</h3><p class="hint">No token usage records yet. New app-server turns will populate this panel.</p></section>"#;

/// The heads of the columns of a table of groups.
pub const USAGE_COLUMNS: &'static str = "<th>Share</th><th>Total</th><th>Input</th><th>Cached</th><th>Uncached</th><th>Output</th><th>Reasoning</th></tr>";

/// What stands before the rows of the dearest model calls.
pub const HOTSPOT_HEAD: &'static str = "<details open><summary>Token Bottlenecks</summary><table><tr><th>Time</th><th>Feature</th><th>Member</th><th>Node</th><th>Turn</th><th>Last Total</th><th>Uncached</th><th>Context</th></tr>";

/// What stands before the rows of the recent updates.
pub const RECENT_HEAD: &'static str = "<details><summary>Recent Usage Updates</summary><table><tr><th>Time</th><th>Feature</th><th>Member</th><th>Node</th><th>Turn</th><th>Total</th><th>Input</th><th>Cached</th><th>Uncached</th><th>Output</th></tr>";

/// How the panel ends.
pub const USAGE_TAIL: &'static str = r#"<p class="hint">Aggregation deduplicates repeated cumulative app-server notifications, then sums each model-call `last` usage by the active Teams feature category. Bottlenecks are sorted by single model-call cost. Uncached input and context share are the quickest signals for prompt bloat that is not being served from cache.</p>
</section>"#;

/// The shares that the panel shows, in percent with one decimal place, for the rows of the report
/// in their order.
pub struct TokenUsageShares {
    pub by_category: Vec<String>,
    pub by_member: Vec<String>,
    pub by_category_member: Vec<String>,
    pub by_node: Vec<String>,
    pub hotspots: Vec<ContextShare>,
}

/// One figure of the summary.
pub open spec fn summary_figure(tokens: i64, title: Seq<char>) -> Seq<char> {
    "  <div><strong>"@ + html(tokens_text(tokens)) + "</strong><span>"@ + title
        + "</span></div>\n"@
}

fn render_summary_figure(tokens: i64, title: &str) -> (out: String)
    ensures
        out@ == summary_figure(tokens, title@),
{
    let mut out = "  <div><strong>".to_string();
    out.append(token_cell(tokens).as_str());
    out.append("</strong><span>");
    out.append(title);
    out.append("</span></div>\n");
    out
}

/// One table of groups.
pub open spec fn usage_table(
    open: Seq<char>,
    title: Seq<char>,
    column: Seq<char>,
    rows: Seq<char>,
) -> Seq<char> {
    "  <details"@ + open + "><summary>"@ + title + "</summary><table><tr><th>"@ + column + "</th>"@
        + USAGE_COLUMNS@ + rows + "</table></details>\n"@
}

fn render_usage_table(open: &str, title: &str, column: &str, rows: &str) -> (out: String)
    ensures
        out@ == usage_table(open@, title@, column@, rows@),
{
    let mut out = "  <details".to_string();
    out.append(open);
    out.append("><summary>");
    out.append(title);
    out.append("</summary><table><tr><th>");
    out.append(column);
    out.append("</th>");
    out.append(USAGE_COLUMNS);
    out.append(rows);
    out.append("</table></details>\n");
    out
}

/// The panel for a report on at least one record.
pub open spec fn usage_panel(
    report: UsageReportView,
    shares: TokenUsageShares,
    side_rows: Seq<char>,
) -> Seq<char> {
    let total = report.total.total_tokens;
    "<section class=\"usage-panel\"><h3>Token Usage</h3>\n<div class=\"usage-summary\">\n"@
        + summary_figure(total, "Total"@) + summary_figure(report.total.input_tokens, "Input"@)
        + summary_figure(report.total.cached_input_tokens, "Cached Input"@) + summary_figure(
        report.total.uncached(),
        "Uncached Input"@,
    ) + summary_figure(report.total.output_tokens, "Output"@) + summary_figure(
        report.total.reasoning_output_tokens,
        "Reasoning"@,
    ) + "</div>\n<div class=\"usage-grid\">\n"@ + usage_table(
        " open"@,
        "By Feature"@,
        "Feature"@,
        usage_rows(report.by_category, total, views(shares.by_category@)),
    ) + usage_table(
        ""@,
        "By Member"@,
        "Member"@,
        usage_rows(report.by_member, total, views(shares.by_member@)),
    ) + usage_table(
        ""@,
        "By Feature x Member"@,
        "Feature / Member"@,
        usage_rows(report.by_category_member, total, views(shares.by_category_member@)),
    ) + usage_table(
        ""@,
        "By Node"@,
        "Node"@,
        usage_rows(report.by_node, total, views(shares.by_node@)),
    ) + "</div>\n"@ + HOTSPOT_HEAD@ + hotspot_rows(report.hotspots, shares.hotspots@)
        + "</table></details>\n"@ + side_rows + "\n"@ + RECENT_HEAD@ + recent_rows(report.recent)
        + "</table></details>\n"@ + USAGE_TAIL@
}

/// The panel on a team's usage records and side-channel contexts; the empty panel where there are
/// no records. `shares` are the shares of the rows of the records' report.
pub open spec fn usage_section(
    records: Seq<TeamTokenUsageRecord>,
    shares: TokenUsageShares,
    side_channel: Seq<SideChannelFile>,
) -> Seq<char> {
    if records.len() == 0 {
        EMPTY_USAGE_PANEL@
    } else {
        usage_panel(usage_report(usage_updates(records)), shares, pressure_panel(side_channel))
    }
}

/// The panel on a team's usage records and side-channel contexts.
pub fn render_token_usage_panel(
    records: &Vec<TeamTokenUsageRecord>,
    shares: &TokenUsageShares,
    side_channel: &Vec<SideChannelFile>,
) -> (out: String)
    ensures
        out@ == usage_section(records@, *shares, side_channel@),
{
    if records.len() == 0 {
        return EMPTY_USAGE_PANEL.to_string();
    }
    let report = token_usage_report(records);
    let total = report.total.total_tokens;
    let category_rows = render_token_usage_rows(&report.by_category, total, &shares.by_category);
    let member_rows = render_token_usage_rows(&report.by_member, total, &shares.by_member);
    let category_member_rows = render_token_usage_rows(
        &report.by_category_member,
        total,
        &shares.by_category_member,
    );
    let node_rows = render_token_usage_rows(&report.by_node, total, &shares.by_node);
    let mut out = "<section class=\"usage-panel\"><h3>Token Usage</h3>\n<div class=\"usage-summary\">\n".to_string();
    out.append(render_summary_figure(total, "Total").as_str());
    out.append(render_summary_figure(report.total.input_tokens, "Input").as_str());
    out.append(render_summary_figure(report.total.cached_input_tokens, "Cached Input").as_str());
    out.append(
        render_summary_figure(report.total.uncached_input_tokens(), "Uncached Input").as_str(),
    );
    out.append(render_summary_figure(report.total.output_tokens, "Output").as_str());
    out.append(render_summary_figure(report.total.reasoning_output_tokens, "Reasoning").as_str());
    out.append("</div>\n<div class=\"usage-grid\">\n");
    out.append(
        render_usage_table(" open", "By Feature", "Feature", category_rows.as_str()).as_str(),
    );
    out.append(render_usage_table("", "By Member", "Member", member_rows.as_str()).as_str());
    out.append(
        render_usage_table(
            "",
            "By Feature x Member",
            "Feature / Member",
            category_member_rows.as_str(),
        ).as_str(),
    );
    out.append(render_usage_table("", "By Node", "Node", node_rows.as_str()).as_str());
    out.append("</div>\n");
    out.append(HOTSPOT_HEAD);
    out.append(render_token_usage_hotspot_rows(&report.hotspots, &shares.hotspots).as_str());
    out.append("</table></details>\n");
    out.append(render_side_channel_context_pressure_rows(side_channel).as_str());
    out.append("\n");
    out.append(RECENT_HEAD);
    out.append(render_recent_rows(&report.recent).as_str());
    out.append("</table></details>\n");
    out.append(USAGE_TAIL);
    out
}

} // verus!
