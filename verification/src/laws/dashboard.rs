//! What the dashboard says of members, journals and messages.

use vstd::prelude::*;

use crate::escape::html;
use crate::journal::{
    digest_part, entry_body, first_worker, history_row, history_rows, journal_body, journal_list,
    journal_owner, journal_panel, member_named, member_tabs, output_excerpt, shown_entry, tail_of,
    JournalSource, NO_DIGEST, NO_ENTRIES, NO_MEMBER, NO_STATE,
};
use crate::json::{strings_in, JsonView};
use crate::laws::boards::{can_go_on, is_called, is_node, is_not_the_lead};
use crate::laws::timeline::{is_text_value, keeps_quiet, strings_are_the_texts, tells};
use crate::laws::{
    filter_of_push, first_of_rest, has_none, is_first, none_of_rest, pair_at_end, piece_at_end,
    piece_of_left, triple_at_end,
};
use crate::messages::{
    articles_or, board_article, board_articles, chat_article, chat_articles, data_text,
    is_lead_chat, is_translation_plan, known_language, label_in, label_or_code, language_label,
    language_option, language_options, languages, last_lines, lead_thread, log_line, log_lines,
    recipients_text, stage_event, status_text, translation_args, translation_file,
    translation_label, translation_panel, translation_source, NOTHING_TO_TRANSLATE, PROMPT_OPENING,
    PROMPT_RULES, TranslationJob, TranslationStage,
};
use crate::markup::table_row;
use crate::model::{
    duration_text, id_of, one_line, MailMessage, MemberJournalEntry, MemberStatus, TaskStatus,
    TeamEventRecord, TeamJobStatus, TeamMember, TeamNode, TeamNodeStatus, TeamTask, TeamWaitStatus,
    UiTeamRunStatus,
};
use crate::number::decimal;
use crate::split::{concat, has_text, join, last_n, lines};
use crate::status::{
    age_text, count_open, count_with, direct_unread_in, has_local_added, is_stale, node_status_text,
    open_task_notes, task_counts_text, task_summary, unread_in,
};
use crate::text::{is_blank, opt_view, trim, views};
use crate::time::ui_time;

verus! {

// ---------------------------------------------------------------------------
// Members and nodes
// ---------------------------------------------------------------------------

/// The member owns the task, and the task can go on.
pub open spec fn is_open_for(member: Seq<char>) -> spec_fn(TeamTask) -> bool {
    |task: TeamTask| task.owner is Some && task.owner->0@ == member && can_go_on()(task)
}

/// The name of a status.
pub open spec fn task_word(status: TaskStatus) -> Seq<char> {
    match status {
        TaskStatus::Pending => "pending"@,
        TaskStatus::Ready => "ready"@,
        TaskStatus::Waiting => "waiting"@,
        TaskStatus::InProgress => "in_progress"@,
        TaskStatus::Review => "review"@,
        TaskStatus::Blocked => "blocked"@,
        TaskStatus::Failed => "failed"@,
        TaskStatus::Completed => "completed"@,
        TaskStatus::Cancelled => "cancelled"@,
    }
}

/// A member's summary names every task that the member owns and that can go on, with its status,
/// and no other; it says so where there is none.
pub proof fn summaries_name_open_tasks(tasks: Seq<TeamTask>, member: Seq<char>)
    ensures
        tasks.filter(is_open_for(member)).len() == 0 ==> task_summary(tasks, member)
            == "no_open_tasks"@,
        tasks.filter(is_open_for(member)).len() > 0 ==> task_summary(tasks, member) == join(
            tasks.filter(is_open_for(member)).map_values(
                |task: TeamTask| task.id@ + ":"@ + task_word(task.status),
            ),
            ","@,
        ),
{
    notes_are_those_of_open_tasks(tasks, member);
}

proof fn notes_are_those_of_open_tasks(tasks: Seq<TeamTask>, member: Seq<char>)
    ensures
        open_task_notes(tasks, member) == tasks.filter(is_open_for(member)).map_values(
            |task: TeamTask| task.id@ + ":"@ + task_word(task.status),
        ),
    decreases tasks.len(),
{
    reveal(Seq::filter);
    let f = |task: TeamTask| task.id@ + ":"@ + task_word(task.status);
    if tasks.len() > 0 {
        let before = tasks.drop_last();
        notes_are_those_of_open_tasks(before, member);
        assert(tasks =~= before.push(tasks.last()));
        filter_of_push(before, tasks.last(), is_open_for(member));
    }
    assert(open_task_notes(tasks, member) =~= tasks.filter(is_open_for(member)).map_values(f));
}

/// The task has the status.
pub open spec fn is_in(status: TaskStatus) -> spec_fn(TeamTask) -> bool {
    |task: TeamTask| task.status == status
}

proof fn counted_by_status(tasks: Seq<TeamTask>, status: TaskStatus)
    ensures
        count_with(tasks, status) == tasks.filter(is_in(status)).len(),
        count_open(tasks) == tasks.filter(can_go_on()).len(),
    decreases tasks.len(),
{
    reveal(Seq::filter);
    if tasks.len() > 0 {
        let before = tasks.drop_last();
        counted_by_status(before, status);
        assert(tasks =~= before.push(tasks.last()));
        filter_of_push(before, tasks.last(), is_in(status));
        filter_of_push(before, tasks.last(), can_go_on());
    }
}

/// The counts say how many tasks are completed, can go on, are cancelled and have failed, and how
/// many there are.
pub proof fn counts_are_those_of_tasks(tasks: Seq<TeamTask>)
    ensures
        task_counts_text(tasks) == decimal(tasks.filter(is_in(TaskStatus::Completed)).len())
            + " completed, "@ + decimal(tasks.filter(can_go_on()).len()) + " open, "@ + decimal(
            tasks.filter(is_in(TaskStatus::Cancelled)).len(),
        ) + " cancelled, "@ + decimal(tasks.filter(is_in(TaskStatus::Failed)).len())
            + " failed, "@ + decimal(tasks.len()) + " total"@,
{
    counted_by_status(tasks, TaskStatus::Completed);
    counted_by_status(tasks, TaskStatus::Cancelled);
    counted_by_status(tasks, TaskStatus::Failed);
}

/// The message is not read.
pub open spec fn is_unread() -> spec_fn(MailMessage) -> bool {
    |message: MailMessage| !message.read
}

/// The message is not read and goes to the member alone.
pub open spec fn is_unread_by(member: Seq<char>) -> spec_fn(MailMessage) -> bool {
    |message: MailMessage| !message.read && message.to@ == member
}

/// The counts of a mailbox are those of its unread messages, and of those among them that are
/// addressed to the member.
pub proof fn unread_messages_are_counted(messages: Seq<MailMessage>, member: Seq<char>)
    ensures
        unread_in(messages) == messages.filter(is_unread()).len(),
        direct_unread_in(messages, member) == messages.filter(is_unread_by(member)).len(),
    decreases messages.len(),
{
    reveal(Seq::filter);
    if messages.len() > 0 {
        let before = messages.drop_last();
        unread_messages_are_counted(before, member);
        assert(messages =~= before.push(messages.last()));
        filter_of_push(before, messages.last(), is_unread());
        filter_of_push(before, messages.last(), is_unread_by(member));
    }
}

/// A node is stale once it was not seen for more than five minutes, or where nobody knows when it
/// was; then its status is shown as what it last said.
pub proof fn nodes_go_stale(age: Option<u64>, status: TeamNodeStatus)
    ensures
        is_stale(age) <==> age is None || age->0 > 300,
        age is None ==> age_text(age) == "unknown"@,
        age is Some ==> age_text(age) == duration_text(age->0 as nat),
        status is Online ==> node_status_text(status, false) == "Online"@,
        status is Offline ==> node_status_text(status, false) == "Offline"@,
        node_status_text(status, true) == "Stale(raw="@ + node_status_text(status, false) + ")"@,
{
}

/// A length of time is written in its two largest units.
pub proof fn durations_have_two_units(days: nat, hours: nat, minutes: nat, seconds: nat)
    requires
        hours < 24,
        minutes < 60,
        seconds < 60,
    ensures
        ({
            let text = duration_text(
                days * 86400 + hours * 3600 + minutes * 60 + seconds,
            );
            &&& days > 0 ==> text == decimal(days) + "d"@ + decimal(hours) + "h"@
            &&& days == 0 && hours > 0 ==> text == decimal(hours) + "h"@ + decimal(minutes) + "m"@
            &&& days == 0 && hours == 0 && minutes > 0 ==> text == decimal(minutes) + "m"@
                + decimal(seconds) + "s"@
            &&& days == 0 && hours == 0 && minutes == 0 ==> text == decimal(seconds) + "s"@
        }),
{
    let all = days * 86400 + hours * 3600 + minutes * 60 + seconds;
    let rest = hours * 3600 + minutes * 60 + seconds;
    let small = minutes * 60 + seconds;
    assert(rest < 86400);
    assert(small < 3600);
    assert(all / 86400 == days && all % 86400 == rest) by (nonlinear_arith)
        requires
            all == days * 86400 + rest,
            rest < 86400,
    ;
    assert(rest / 3600 == hours && rest % 3600 == small) by (nonlinear_arith)
        requires
            rest == hours * 3600 + small,
            small < 3600,
    ;
    assert(small / 60 == minutes && small % 60 == seconds) by (nonlinear_arith)
        requires
            small == minutes * 60 + seconds,
            seconds < 60,
    ;
}

/// Every status has its name.
pub proof fn statuses_have_their_names(
    task: TaskStatus,
    job: TeamJobStatus,
    wait: TeamWaitStatus,
    member: MemberStatus,
)
    ensures
        task.text() == task_word(task),
        job.text() == match job {
            TeamJobStatus::Running => "Running"@,
            TeamJobStatus::Completed => "Completed"@,
            TeamJobStatus::Failed => "Failed"@,
            TeamJobStatus::Stopped => "Stopped"@,
            TeamJobStatus::Unknown => "Unknown"@,
        },
        wait.text() == match wait {
            TeamWaitStatus::Waiting => "waiting"@,
            TeamWaitStatus::Running => "running"@,
            TeamWaitStatus::Polling => "polling"@,
            TeamWaitStatus::Blocked => "blocked"@,
            TeamWaitStatus::Failed => "failed"@,
            TeamWaitStatus::Completed => "completed"@,
            TeamWaitStatus::Cancelled => "cancelled"@,
        },
        member.text() == match member {
            MemberStatus::Online => "Online"@,
            MemberStatus::Running => "Running"@,
            MemberStatus::Standby => "Standby"@,
            MemberStatus::Completed => "Completed"@,
            MemberStatus::Failed => "Failed"@,
            MemberStatus::Offline => "Offline"@,
        },
{
}

/// Every state of a runtime has its label and its style.
pub proof fn runtimes_have_their_labels(status: UiTeamRunStatus)
    ensures
        status is Running ==> status.text() == "running"@ && status.class() == "run-running"@,
        status is Waiting ==> status.text() == "waiting"@ && status.class() == "run-waiting"@,
        status is Idle ==> status.text() == "stop(idle)"@ && status.class() == "run-stop"@,
        status is Exiting ==> status.text() == "exiting"@ && status.class() == "run-stopped"@,
        status is Unknown ==> status.text() == "unknown"@ && status.class() == "run-unknown"@,
{
}

// ---------------------------------------------------------------------------
// Journals
// ---------------------------------------------------------------------------

/// The journal is that of the first member with the selected name, or of the first member who is
/// not the lead where nobody has the name.
pub proof fn the_right_journal_is_shown(members: Seq<TeamMember>, selected: Seq<char>, i: int)
    ensures
        is_first(members, is_called(selected), i) ==> journal_owner(members, selected) == Some(
            members[i],
        ),
        has_none(members, is_called(selected)) && is_first(members, is_not_the_lead(), i)
            ==> journal_owner(members, selected) == Some(members[i]),
        has_none(members, is_called(selected)) && has_none(members, is_not_the_lead())
            ==> journal_owner(members, selected) is None,
{
    named_members_are_found(members, selected, i);
    first_workers_are_found(members, i);
}

proof fn named_members_are_found(members: Seq<TeamMember>, name: Seq<char>, i: int)
    ensures
        is_first(members, is_called(name), i) ==> member_named(members, name) == Some(members[i]),
        has_none(members, is_called(name)) ==> member_named(members, name) is None,
    decreases members.len(),
{
    if members.len() > 0 {
        none_of_rest(members, is_called(name));
        if members[0].name@ != name {
            first_of_rest(members, is_called(name), i);
            named_members_are_found(members.drop_first(), name, i - 1);
        } else if i > 0 {
            assert(is_called(name)(members[0]));
        }
    }
}

proof fn first_workers_are_found(members: Seq<TeamMember>, i: int)
    ensures
        is_first(members, is_not_the_lead(), i) ==> first_worker(members) == Some(members[i]),
        has_none(members, is_not_the_lead()) ==> first_worker(members) is None,
    decreases members.len(),
{
    if members.len() > 0 {
        none_of_rest(members, is_not_the_lead());
        if !is_not_the_lead()(members[0]) {
            first_of_rest(members, is_not_the_lead(), i);
            first_workers_are_found(members.drop_first(), i - 1);
        } else if i > 0 {
            assert(is_not_the_lead()(members[0]));
        }
    }
}

/// A list shows its values up to the limit, in order, and says so where there are none.
pub proof fn lists_show_their_first_values(values: Seq<Seq<char>>, limit: nat)
    ensures
        values.len() == 0 ==> journal_list(values, limit)
            == r#"<ul class="journal-list"><li>none</li></ul>"#@,
        0 < values.len() <= limit ==> journal_list(values, limit) == r#"<ul class="journal-list">"#@
            + concat(values.map_values(|value: Seq<char>| "<li>"@ + html(value) + "</li>"@))
            + "</ul>"@,
        limit > 0 && values.len() > limit ==> journal_list(values, limit) == journal_list(
            values.take(limit as int),
            limit,
        ),
{
}

/// The history shows the last eight entries, the newest first.
pub proof fn history_shows_the_newest(entries: Seq<MemberJournalEntry>)
    ensures
        exists|rows: Seq<Seq<char>>| {
            &&& history_rows(entries) == #[trigger] concat(rows)
            &&& rows.len() == if entries.len() <= 8 {
                entries.len()
            } else {
                8
            }
            &&& forall|i: int|
                0 <= i < rows.len() ==> #[trigger] rows[i] == history_row(
                    entries[entries.len() - 1 - i],
                )
        },
{
    let shown = crate::split::first_n(entries.reverse(), 8);
    let rows = shown.map_values(|entry: MemberJournalEntry| history_row(entry));
    assert(history_rows(entries) == concat(rows));
    assert forall|i: int| 0 <= i < rows.len() implies #[trigger] rows[i] == history_row(
        entries[entries.len() - 1 - i],
    ) by {
        assert(shown[i] == entries.reverse()[i]);
    }
}

/// A row of the history shows when an entry was made and its summary on one line.
pub proof fn history_rows_show_the_entry(entry: MemberJournalEntry)
    ensures
        history_row(entry) == table_row(
            seq![html(ui_time(entry.timestamp@)), html(one_line(entry.summary@, 160))],
        ),
{
}

/// The entry that is shown is the last one of the journal, or the current one where the journal is
/// empty; where there is neither, the panel says so.
pub proof fn the_latest_entry_is_shown(source: JournalSource)
    ensures
        source.entries@.len() > 0 ==> shown_entry(source) == Some(
            source.entries@[source.entries@.len() - 1],
        ),
        source.entries@.len() == 0 ==> shown_entry(source) == source.current,
        shown_entry(source) is None ==> journal_body(source) == NO_ENTRIES@,
{
}

/// The panel shows the tabs of the members, the path of the journal, its digest and its entries.
pub proof fn journals_hold_their_parts(
    source: JournalSource,
    members: Seq<TeamMember>,
    selected: Seq<char>,
)
    requires
        journal_owner(members, selected) is Some,
    ensures
        ({
            let text = journal_panel(Some(source), members, selected);
            &&& has_text(text, concat(member_tabs(members, selected, "Member "@)))
            &&& has_text(text, html(source.journal_path@) + "</code></p>"@)
            &&& has_text(text, digest_part(source.digest_path@, opt_view(source.digest)))
            &&& has_text(text, journal_body(source) + "</div>"@)
            &&& shown_entry(source) is Some ==> journal_body(source) == entry_body(
                shown_entry(source)->0,
                history_rows(source.entries@),
            )
        }),
{
    broadcast use {piece_of_left, piece_at_end, pair_at_end, triple_at_end};

}

/// Without team state, or without a member to show, the panel says so.
pub proof fn journals_need_a_member(
    source: JournalSource,
    members: Seq<TeamMember>,
    selected: Seq<char>,
)
    ensures
        journal_panel(None, members, selected) == NO_STATE@,
        journal_owner(members, selected) is None ==> journal_panel(
            Some(source),
            members,
            selected,
        ) == NO_MEMBER@,
{
}

/// An entry shows its state, its node, its time and its summary, and under each title the list that
/// belongs there.
pub proof fn entries_show_their_lists(entry: MemberJournalEntry, history: Seq<char>)
    ensures
        ({
            let body = entry_body(entry, history);
            &&& has_text(body, html(entry.status@) + "</span><span>"@ + html(entry.node@))
            &&& has_text(body, html(ui_time(entry.timestamp@)))
            &&& has_text(body, html(entry.summary@))
            &&& has_text(
                body,
                "</p>\n<details open><summary>Tasks</summary>"@ + journal_list(
                    views(entry.tasks@),
                    5,
                ),
            )
            &&& has_text(
                body,
                "</details>\n<details><summary>Jobs</summary>"@ + journal_list(
                    views(entry.jobs@),
                    4,
                ),
            )
            &&& has_text(
                body,
                "</details>\n<details><summary>Waits</summary>"@ + journal_list(
                    views(entry.waits@),
                    4,
                ),
            )
            &&& has_text(
                body,
                "</details>\n<details open><summary>Received</summary>"@ + journal_list(
                    views(entry.messages_received@),
                    5,
                ),
            )
            &&& has_text(
                body,
                "</details>\n<details><summary>Sent</summary>"@ + journal_list(
                    views(entry.messages_sent@),
                    5,
                ),
            )
            &&& has_text(
                body,
                "</details>\n<details><summary>Events</summary>"@ + journal_list(
                    views(entry.events@),
                    5,
                ),
            )
            &&& has_text(body, output_excerpt(entry.last_output_excerpt@))
            &&& history.len() > 0 ==> has_text(body, history)
        }),
{
    broadcast use {piece_of_left, piece_at_end, pair_at_end, triple_at_end};

}

/// A digest is shown where it is not blank, without white space around it and with no more than its
/// last six thousand characters; an excerpt is shown where it is not blank.
pub proof fn digests_are_shown(path: Seq<char>, text: Seq<char>)
    ensures
        digest_part(path, None) == NO_DIGEST@,
        is_blank(text) ==> digest_part(path, Some(text)) == NO_DIGEST@,
        !is_blank(text) ==> digest_part(path, Some(text))
            == r#"<details open><summary>AI Digest</summary><p class="hint">Digest: <code>"#@
            + html(path) + "</code></p><pre>"@ + html(tail_of(trim(text), 6000))
            + "</pre></details>"@,
        is_blank(text) ==> output_excerpt(text).len() == 0,
        !is_blank(text) ==> output_excerpt(text)
            == "<details><summary>Last Output Excerpt</summary><pre>"@ + html(text)
            + "</pre></details>"@,
{
    reveal_strlit("");
}

/// The end of a text is all of it, or as many of its last characters as fit behind a note.
pub proof fn tails_keep_the_end(text: Seq<char>, max: nat)
    ensures
        text.len() <= max ==> tail_of(text, max) == text,
        text.len() > max ==> tail_of(text, max) == "... trimmed ...\n"@ + text.subrange(
            text.len() - max,
            text.len() as int,
        ),
{
    if text.len() > max {
        assert(text.skip(text.len() - max) =~= text.subrange(
            text.len() - max,
            text.len() as int,
        ));
    }
}

// ---------------------------------------------------------------------------
// Messages
// ---------------------------------------------------------------------------

/// The event records that a message was sent.
pub open spec fn sends_a_message() -> spec_fn(TeamEventRecord) -> bool {
    |event: TeamEventRecord| event.event@ == "message_sent"@
}

/// The event records a message from the user or the lead, or to one of them.
pub open spec fn belongs_to_lead_chat() -> spec_fn(TeamEventRecord) -> bool {
    |event: TeamEventRecord|
        {
            let data = event.data@;
            &&& event.event@ == "message_sent"@
            &&& {
                ||| tells(data, "from"@, "user"@)
                ||| tells(data, "from"@, "lead"@)
                ||| tells(data, "to"@, "user"@)
                ||| tells(data, "to"@, "lead"@)
                ||| is_listed(data, "to"@, "user"@)
                ||| is_listed(data, "to"@, "lead"@)
            }
        }
}

/// The value has a member that is a list with this text.
pub open spec fn is_listed(data: JsonView, key: Seq<char>, text: Seq<char>) -> bool {
    &&& data is Object
    &&& data->Object_0.contains_key(key)
    &&& data->Object_0[key] is Array
    &&& data->Object_0[key]->Array_0.contains(JsonView::Text(text))
}

proof fn texts_in_lists(items: Seq<JsonView>, text: Seq<char>)
    ensures
        strings_in(items).contains(text) <==> items.contains(JsonView::Text(text)),
    decreases items.len(),
{
    if items.len() > 0 {
        let before = items.drop_last();
        let n = items.len() - 1;
        texts_in_lists(before, text);
        let head = strings_in(before);
        let out = strings_in(items);
        if before.contains(JsonView::Text(text)) {
            let i = choose|i: int| 0 <= i < before.len() && before[i] == JsonView::Text(text);
            assert(items[i] == JsonView::Text(text));
            let j = choose|j: int| 0 <= j < head.len() && head[j] == text;
            assert(out[j] == text);
        }
        if items.contains(JsonView::Text(text)) {
            let i = choose|i: int| 0 <= i < items.len() && items[i] == JsonView::Text(text);
            if i < n {
                assert(before[i] == JsonView::Text(text));
            } else {
                assert(out[out.len() - 1] == text);
            }
        }
        if out.contains(text) {
            let j = choose|j: int| 0 <= j < out.len() && out[j] == text;
            if j < head.len() {
                assert(head[j] == text);
                assert(head.contains(text));
            } else {
                assert(items[n] == JsonView::Text(text));
            }
        }
    }
}

proof fn lead_chat_is_told_by_names(event: TeamEventRecord)
    ensures
        is_lead_chat(event) <==> belongs_to_lead_chat()(event),
{
    reveal_strlit("");
    reveal_strlit("user");
    reveal_strlit("lead");
    let data = event.data@;
    assert(""@.len() == 0 && "user"@.len() == 4 && "lead"@.len() == 4);
    if data.member("to"@) is Some {
        if let JsonView::Array(names) = data.member("to"@)->0 {
            texts_in_lists(names, "user"@);
            texts_in_lists(names, "lead"@);
            let texts = strings_in(names);
            if texts.contains("user"@) {
                let i = choose|i: int| 0 <= i < texts.len() && texts[i] == "user"@;
                assert(crate::messages::is_user_or_lead(texts[i]));
            }
            if texts.contains("lead"@) {
                let i = choose|i: int| 0 <= i < texts.len() && texts[i] == "lead"@;
                assert(crate::messages::is_user_or_lead(texts[i]));
            }
            if crate::messages::reaches_user_or_lead(data.member("to"@)) {
                let i = choose|i: int|
                    0 <= i < texts.len() && crate::messages::is_user_or_lead(#[trigger] texts[i]);
                assert(texts.contains(texts[i]));
            }
        }
    }
}

/// The message board shows the messages that were sent, and the chat with the lead those among
/// them that come from the user or the lead or go to one of them, all in order.
pub proof fn boards_show_their_messages(events: Seq<TeamEventRecord>)
    ensures
        board_articles(events) == events.filter(sends_a_message()).map_values(
            |event: TeamEventRecord| board_article(event),
        ),
        log_lines(events) == events.filter(sends_a_message()).map_values(
            |event: TeamEventRecord| log_line(event),
        ),
        chat_articles(events) == events.filter(belongs_to_lead_chat()).map_values(
            |event: TeamEventRecord| chat_article(event),
        ),
    decreases events.len(),
{
    reveal(Seq::filter);
    let f = |event: TeamEventRecord| board_article(event);
    let g = |event: TeamEventRecord| chat_article(event);
    let h = |event: TeamEventRecord| log_line(event);
    if events.len() > 0 {
        let before = events.drop_last();
        boards_show_their_messages(before);
        assert(events =~= before.push(events.last()));
        filter_of_push(before, events.last(), sends_a_message());
        filter_of_push(before, events.last(), belongs_to_lead_chat());
        lead_chat_is_told_by_names(events.last());
    }
    assert(board_articles(events) =~= events.filter(sends_a_message()).map_values(f));
    assert(log_lines(events) =~= events.filter(sends_a_message()).map_values(h));
    assert(chat_articles(events) =~= events.filter(belongs_to_lead_chat()).map_values(g));
}

/// A text of an event is the one that it tells, or the default where it tells none.
pub proof fn events_tell_their_texts(data: JsonView, key: Seq<char>, default: Seq<char>)
    ensures
        forall|text: Seq<char>| #[trigger]
            tells(data, key, text) ==> data_text(data, key, default) == text,
        keeps_quiet(data, key) ==> data_text(data, key, default) == default,
{
    if data.text_member(key) is Some {
        assert(tells(data, key, data.text_member(key)->0));
    }
}

/// Recipients are shown as the one name, or as the names of the list with the separator between
/// them, and not at all where neither is given.
pub proof fn recipients_are_shown(value: JsonView, sep: Seq<char>)
    ensures
        value is Text ==> recipients_text(Some(value), sep) == value->Text_0,
        value is Array ==> recipients_text(Some(value), sep) == join(
            value->Array_0.filter(is_text_value()).map_values(|item: JsonView| item->Text_0),
            sep,
        ),
        !(value is Text) && !(value is Array) ==> recipients_text(Some(value), sep).len() == 0,
        recipients_text(None, sep).len() == 0,
{
    reveal_strlit("");
    if value is Array {
        strings_are_the_texts(value->Array_0);
    }
}

/// A list of articles is cut to the last of them, and a note stands for none.
pub proof fn the_last_articles_are_shown(articles: Seq<Seq<char>>, n: nat, note: Seq<char>)
    requires
        n > 0,
    ensures
        articles.len() == 0 ==> articles_or(last_n(articles, n as int), note) == note,
        0 < articles.len() <= n ==> articles_or(last_n(articles, n as int), note) == concat(
            articles,
        ),
        articles.len() > n ==> articles_or(last_n(articles, n as int), note) == concat(
            articles.subrange(articles.len() - n, articles.len() as int),
        ),
{
    if articles.len() > n {
        assert(last_n(articles, n as int) =~= articles.subrange(
            articles.len() - n,
            articles.len() as int,
        ));
    }
}

/// The live thread of the lead is shown where it is not blank, with its last eighty lines.
pub proof fn the_lead_thread_is_shown(text: Seq<char>)
    ensures
        lead_thread(None).len() == 0,
        is_blank(text) ==> lead_thread(Some(text)).len() == 0,
        !is_blank(text) ==> lead_thread(Some(text))
            == r#"<details class="lead-live"><summary>Lead Thread</summary><pre>"#@ + html(
            last_lines(text, 80),
        ) + "</pre></details>"@,
        forall|n: nat|
            lines(text).len() <= n ==> #[trigger] last_lines(text, n) == join(
                lines(text),
                "\n"@,
            ),
        forall|n: nat|
            lines(text).len() > n ==> #[trigger] last_lines(text, n) == join(
                lines(text).subrange(lines(text).len() - n, lines(text).len() as int),
                "\n"@,
            ),
{
    reveal_strlit("");
    assert forall|n: nat| lines(text).len() > n implies #[trigger] last_lines(text, n) == join(
        lines(text).subrange(lines(text).len() - n, lines(text).len() as int),
        "\n"@,
    ) by {
        assert(last_n(lines(text), n as int) =~= lines(text).subrange(
            lines(text).len() - n,
            lines(text).len() as int,
        ));
    }
}

// ---------------------------------------------------------------------------
// Translations
// ---------------------------------------------------------------------------

proof fn language_codes_differ()
    ensures
        "ja"@ != "en"@,
        "ja"@ != "ko"@,
        "ja"@ != "zh"@,
        "ja"@ != "es"@,
        "ja"@ != "fr"@,
        "ja"@ != "de"@,
        "en"@ != "ko"@,
        "en"@ != "zh"@,
        "en"@ != "es"@,
        "en"@ != "fr"@,
        "en"@ != "de"@,
        "ko"@ != "zh"@,
        "ko"@ != "es"@,
        "ko"@ != "fr"@,
        "ko"@ != "de"@,
        "zh"@ != "es"@,
        "zh"@ != "fr"@,
        "zh"@ != "de"@,
        "es"@ != "fr"@,
        "es"@ != "de"@,
        "fr"@ != "de"@,
{
    reveal_strlit("ja");
    reveal_strlit("en");
    reveal_strlit("ko");
    reveal_strlit("zh");
    reveal_strlit("es");
    reveal_strlit("fr");
    reveal_strlit("de");
    assert("ja"@[0] == 'j' && "en"@[0] == 'e' && "ko"@[0] == 'k' && "zh"@[0] == 'z' && "fr"@[0]
        == 'f' && "de"@[0] == 'd' && "es"@[0] == 'e');
    assert("en"@[1] == 'n' && "es"@[1] == 's');
}

/// The languages have their names, and no other code has one.
pub proof fn languages_have_their_names(code: Seq<char>)
    ensures
        language_label("ja"@) == Some("Japanese"@),
        language_label("en"@) == Some("English"@),
        language_label("ko"@) == Some("Korean"@),
        language_label("zh"@) == Some("Chinese"@),
        language_label("es"@) == Some("Spanish"@),
        language_label("fr"@) == Some("French"@),
        language_label("de"@) == Some("German"@),
        language_label(code) is Some ==> code == "ja"@ || code == "en"@ || code == "ko"@ || code
            == "zh"@ || code == "es"@ || code == "fr"@ || code == "de"@,
{
    language_codes_differ();
    let list = languages();
    let a = list.drop_first();
    let b = a.drop_first();
    let c = b.drop_first();
    let d = c.drop_first();
    let e = d.drop_first();
    let f = e.drop_first();
    let g = f.drop_first();
    assert(g =~= seq![]);
    assert forall|x: Seq<char>| #[trigger]
        label_in(list, x) == if x == "ja"@ {
            Some("Japanese"@)
        } else if x == "en"@ {
            Some("English"@)
        } else if x == "ko"@ {
            Some("Korean"@)
        } else if x == "zh"@ {
            Some("Chinese"@)
        } else if x == "es"@ {
            Some("Spanish"@)
        } else if x == "fr"@ {
            Some("French"@)
        } else if x == "de"@ {
            Some("German"@)
        } else {
            None
        } by {
        assert(label_in(g, x) is None);
        assert(f[0] == list[6] && e[0] == list[5] && d[0] == list[4] && c[0] == list[3] && b[0]
            == list[2] && a[0] == list[1]);
        assert(label_in(f, x) == if x == "de"@ {
            Some("German"@)
        } else {
            None
        });
        assert(label_in(e, x) == if x == "fr"@ {
            Some("French"@)
        } else {
            label_in(f, x)
        });
        assert(label_in(d, x) == if x == "es"@ {
            Some("Spanish"@)
        } else {
            label_in(e, x)
        });
        assert(label_in(c, x) == if x == "zh"@ {
            Some("Chinese"@)
        } else {
            label_in(d, x)
        });
        assert(label_in(b, x) == if x == "ko"@ {
            Some("Korean"@)
        } else {
            label_in(c, x)
        });
        assert(label_in(a, x) == if x == "en"@ {
            Some("English"@)
        } else {
            label_in(b, x)
        });
    }
}

/// A language that is known is taken as it is, and any other as Japanese.
pub proof fn unknown_languages_are_japanese(language: Seq<char>)
    ensures
        language_label(id_of(language)) is Some ==> known_language(language) == id_of(language)
            && Some(translation_label(language)) == language_label(id_of(language)),
        language_label(id_of(language)) is None ==> known_language(language) == "ja"@
            && translation_label(language) == "Japanese"@,
{
    languages_have_their_names(id_of(language));
    languages_have_their_names(known_language(language));
}

/// A translation is shown once it is there. Until then its state is shown, and nothing before it
/// was asked for.
pub proof fn translations_are_shown(
    output: Option<Seq<char>>,
    status: Seq<char>,
    team: Seq<char>,
    language: Seq<char>,
    label: Seq<char>,
)
    requires
        language_label(language) == Some(label),
    ensures
        output is Some ==> translation_panel(output, Some(status), team, language)
            == r#"<details open class="translation"><summary>Translated Team Messages: "#@ + html(
            label,
        ) + "</summary><pre>"@ + html(output->0) + "</pre></details>"@,
        output is Some ==> translation_panel(output, None, team, language) == translation_panel(
            output,
            Some(status),
            team,
            language,
        ),
        translation_panel(None, Some(status), team, language)
            == r#"<details open class="translation"><summary>Translation Status: "#@ + html(label)
            + "</summary><pre>"@ + html(status) + r#"</pre><p><a href="/?team="#@
            + crate::escape::query_text(team) + "&translation="@ + crate::escape::query_text(
            language,
        ) + r#"">Refresh translation</a></p></details>"#@,
        translation_panel(None, None, team, language).len() == 0,
{
    reveal_strlit("");
}

/// What is translated are the last messages that were sent, one on a line.
pub proof fn the_last_messages_are_translated(events: Seq<TeamEventRecord>, limit: nat)
    ensures
        log_lines(events).len() <= limit ==> translation_source(events, limit) == join(
            log_lines(events),
            "\n"@,
        ),
        log_lines(events).len() > limit ==> translation_source(events, limit) == join(
            log_lines(events).subrange(
                log_lines(events).len() - limit,
                log_lines(events).len() as int,
            ),
            "\n"@,
        ),
{
    let all = log_lines(events);
    if all.len() > limit {
        assert(last_n(all, limit as int) =~= all.subrange(all.len() - limit, all.len() as int));
    }
}

/// Each stage of a translation has its event and says what it is in.
pub proof fn stages_are_told(
    stage: TranslationStage,
    label: Seq<char>,
    time: Seq<char>,
    path: Seq<char>,
)
    ensures
        stage is Queued ==> stage_event(stage) == "ui_translation_queued"@ && status_text(
            stage,
            label,
            time,
            path,
        ) == "queued translation to "@ + label + "\nqueued_at="@ + time + "\nlog="@ + path + "\n"@,
        stage is Running ==> stage_event(stage) == "ui_translation_started"@ && status_text(
            stage,
            label,
            time,
            path,
        ) == "running translation to "@ + label + "\nstarted_at="@ + time + "\nlog="@ + path
            + "\n"@,
        stage is Completed ==> stage_event(stage) == "ui_translation_completed"@ && status_text(
            stage,
            label,
            time,
            path,
        ) == "completed translation to "@ + label + "\ncompleted_at="@ + time + "\noutput="@ + path
            + "\n"@,
        stage is Failed || stage is Exited ==> stage_event(stage) == "ui_translation_failed"@,
{
}

/// What is translated are the last hundred and twenty messages, into the language that is asked for
/// where it is known; where there are none, nothing is.
pub proof fn translations_are_planned(
    job: Result<TranslationJob, &'static str>,
    events: Seq<TeamEventRecord>,
    language: Seq<char>,
)
    requires
        is_translation_plan(job, events, language),
    ensures
        job is Ok <==> !is_blank(translation_source(events, 120)),
        job is Err ==> job->Err_0@ == NOTHING_TO_TRANSLATE@,
        job is Ok ==> {
            &&& job->Ok_0.language@ == known_language(language)
            &&& job->Ok_0.label@ == translation_label(language)
            &&& has_text(job->Ok_0.prompt@, PROMPT_OPENING@ + translation_label(language))
            &&& has_text(job->Ok_0.prompt@, PROMPT_RULES@ + translation_source(events, 120))
        },
{
    broadcast use {piece_of_left, piece_at_end, pair_at_end, triple_at_end};

    if job is Ok {
        let label = translation_label(language);
        let source = translation_source(events, 120);
        let prompt = PROMPT_OPENING@ + label + PROMPT_RULES@ + source + "\n"@;
        assert(has_text(PROMPT_OPENING@ + label, PROMPT_OPENING@ + label)) by {
            let a = PROMPT_OPENING@ + label;
            assert(a.subrange(0, a.len() as int) =~= a);
            assert(crate::split::has_text_at(a, a, 0));
        }
        assert(job->Ok_0.prompt@ == prompt);
    }
}

/// A translation has its files in the directory of translations, named by its language, and its
/// command writes to the file that it is given.
pub proof fn translations_have_their_files(
    language: Seq<char>,
    extension: Seq<char>,
    cwd: Seq<char>,
    output: Seq<char>,
    prompt: Seq<char>,
)
    ensures
        translation_file(language, extension) == "translations"@ + "/messages-"@ + known_language(
            language,
        ) + extension,
        translation_args(cwd, output, prompt) == seq![
            "exec"@,
            "--skip-git-repo-check"@,
            "-C"@,
            cwd,
            "-o"@,
            output,
            prompt,
        ],
        language_label(language) is None ==> label_or_code(language) == language,
        language_label(language) is Some ==> label_or_code(language) == language_label(language)->0,
{
}

/// Every language can be chosen, and the one that is shown is marked.
pub proof fn every_language_can_be_chosen(selected: Seq<char>)
    ensures
        languages().len() == 7,
        language_options(selected) == concat(
            Seq::new(
                7,
                |i: int| language_option(languages()[i].0, languages()[i].1, selected),
            ),
        ),
{
    assert(languages().map_values(
        |language: (Seq<char>, Seq<char>)| language_option(language.0, language.1, selected),
    ) =~= Seq::new(
        7,
        |i: int| language_option(languages()[i].0, languages()[i].1, selected),
    ));
}

/// The local machine is a node of every team: it is put before the others where it is not there,
/// as an online node without an address, and nothing else changes.
pub proof fn the_local_machine_is_a_node(
    before: Seq<TeamNode>,
    after: Seq<TeamNode>,
    time: Seq<char>,
    i: int,
)
    requires
        has_local_added(before, after, time),
    ensures
        0 <= i < before.len() && before[i].id@ == "local"@ ==> after == before,
        has_none(before, is_node("local"@)) ==> {
            let local = after[0];
            &&& after.len() == before.len() + 1
            &&& after.subrange(1, after.len() as int) == before
            &&& local.id@ == "local"@
            &&& local.kind is Local
            &&& local.status is Online
            &&& local.url is None && local.host is None && local.container is None
                && local.cwd is None
            &&& local.created_at@ == time && local.updated_at@ == time
        },
{
    if has_none(before, is_node("local"@)) {
        assert forall|j: int| 0 <= j < before.len() implies (#[trigger] before[j]).id@
            != "local"@ by {
            assert(!is_node("local"@)(before[j]));
        }
        assert(after.skip(1) =~= after.subrange(1, after.len() as int));
    }
}

} // verus!
