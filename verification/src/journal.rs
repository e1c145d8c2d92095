//! The member journal panel.

use vstd::prelude::*;

use crate::escape::{html, html_escape};
use crate::markup::{render_row, table_row};
use crate::model::{compact_one_line, one_line, MemberJournalEntry, TeamConfig, TeamMember};
use crate::split::{concat, concat_all, first_n};
use crate::text::{
    chars_of, is_blank, opt_view, same_text, string_between, text_is_blank, trim, trimmed, views,
};
use crate::time::{timestamp_for_ui, ui_time};

verus! {

/// The end of a text: all of it, or its last `max` characters behind a line that says that the
/// rest was trimmed.
pub open spec fn tail_of(text: Seq<char>, max: nat) -> Seq<char> {
    if text.len() <= max {
        text
    } else {
        "... trimmed ...\n"@ + text.skip(text.len() - max)
    }
}

/// The end of a text.
pub fn tail_chars(text: &str, max: usize) -> (out: String)
    ensures
        out@ == tail_of(text@, max as nat),
{
    let chars = chars_of(text);
    if chars.len() <= max {
        return text.to_string();
    }
    let tail = string_between(&chars, chars.len() - max, chars.len());
    assert(tail@ =~= text@.skip(text@.len() - max));
    let mut out = "... trimmed ...\n".to_string();
    out.append(tail.as_str());
    out
}

/// A list of a journal entry: at most `limit` items.
pub open spec fn journal_list(values: Seq<Seq<char>>, limit: nat) -> Seq<char> {
    if values.len() == 0 {
        r#"<ul class="journal-list"><li>none</li></ul>"#@
    } else {
        r#"<ul class="journal-list">"#@ + concat(
            first_n(values, limit as int).map_values(
                |value: Seq<char>| "<li>"@ + html(value) + "</li>"@,
            ),
        ) + "</ul>"@
    }
}

/// A list of a journal entry: at most `limit` items.
pub fn render_member_journal_list(values: &Vec<String>, limit: usize) -> (out: String)
    ensures
        out@ == journal_list(views(values@), limit as nat),
{
    if values.len() == 0 {
        return r#"<ul class="journal-list"><li>none</li></ul>"#.to_string();
    }
    let ghost f = |value: Seq<char>| "<li>"@ + html(value) + "</li>"@;
    let ghost wanted = first_n(views(values@), limit as int).map_values(f);
    let mut items: Vec<String> = Vec::new();
    while items.len() < values.len() && items.len() < limit
        invariant
            f == (|value: Seq<char>| "<li>"@ + html(value) + "</li>"@),
            wanted == first_n(views(values@), limit as int).map_values(f),
            items@.len() <= values@.len(),
            items@.len() <= limit,
            views(items@) == wanted.take(items@.len() as int),
        decreases values@.len() - items@.len(),
    {
        let ghost before = views(items@);
        let ghost n = items@.len() as int;
        let mut item = "<li>".to_string();
        item.append(html_escape(values[items.len()].as_str()).as_str());
        item.append("</li>");
        assert(item@ == wanted[n]);
        items.push(item);
        assert(views(items@) =~= before.push(item@));
        assert(views(items@) =~= wanted.take(n + 1));
    }
    assert(views(items@) =~= wanted);
    let mut out = r#"<ul class="journal-list">"#.to_string();
    out.append(concat_all(&items).as_str());
    out.append("</ul>");
    out
}

/// The member is not the lead.
pub open spec fn is_worker(member: TeamMember) -> bool {
    member.role@ != "lead"@
}

/// Tabs for the members other than the lead, each behind `prefix`.
pub open spec fn member_tabs(
    members: Seq<TeamMember>,
    selected: Seq<char>,
    prefix: Seq<char>,
) -> Seq<Seq<char>>
    decreases members.len(),
{
    if members.len() == 0 {
        seq![]
    } else {
        let before = member_tabs(members.drop_last(), selected, prefix);
        let member = members.last();
        if is_worker(member) {
            before.push(
                r#"<span class="member-tab "#@ + (if member.name@ == selected {
                    "active"@
                } else {
                    ""@
                }) + r#"">"#@ + prefix + html(member.name@) + "</span>"@,
            )
        } else {
            before
        }
    }
}

/// Tabs for the members other than the lead, each behind `prefix`.
pub fn render_member_tabs(members: &Vec<TeamMember>, selected: &str, prefix: &str) -> (out: String)
    ensures
        out@ == concat(member_tabs(members@, selected@, prefix@)),
{
    let mut tabs: Vec<String> = Vec::new();
    assert(views(tabs@) =~= member_tabs(members@.take(0), selected@, prefix@));
    for i in 0..members.len()
        invariant
            views(tabs@) == member_tabs(members@.take(i as int), selected@, prefix@),
    {
        let ghost before = views(tabs@);
        assert(members@.take(i + 1).drop_last() =~= members@.take(i as int));
        let member = &members[i];
        if !same_text(member.role.as_str(), "lead") {
            let mut tab = r#"<span class="member-tab "#.to_string();
            if same_text(member.name.as_str(), selected) {
                tab.append("active");
            } else {
                tab.append("");
            }
            tab.append(r#"">"#);
            tab.append(prefix);
            tab.append(html_escape(member.name.as_str()).as_str());
            tab.append("</span>");
            tabs.push(tab);
            assert(views(tabs@) =~= before.push(tab@));
        }
    }
    assert(members@.take(members@.len() as int) =~= members@);
    concat_all(&tabs)
}

/// The first member with a name.
pub open spec fn member_named(members: Seq<TeamMember>, name: Seq<char>) -> Option<TeamMember>
    decreases members.len(),
{
    if members.len() == 0 {
        None
    } else if members[0].name@ == name {
        Some(members[0])
    } else {
        member_named(members.drop_first(), name)
    }
}

/// The first member other than the lead.
pub open spec fn first_worker(members: Seq<TeamMember>) -> Option<TeamMember>
    decreases members.len(),
{
    if members.len() == 0 {
        None
    } else if is_worker(members[0]) {
        Some(members[0])
    } else {
        first_worker(members.drop_first())
    }
}

/// The member whose journal is shown: the selected one, or the first other than the lead.
pub open spec fn journal_owner(members: Seq<TeamMember>, selected: Seq<char>) -> Option<TeamMember> {
    match member_named(members, selected) {
        Some(member) => Some(member),
        None => first_worker(members),
    }
}

/// The member behind an optional reference.
pub open spec fn member_ref(member: Option<&TeamMember>) -> Option<TeamMember> {
    match member {
        Some(member) => Some(*member),
        None => None,
    }
}

/// The first member with a name.
pub fn find_member<'a>(members: &'a Vec<TeamMember>, name: &str) -> (out: Option<&'a TeamMember>)
    ensures
        member_ref(out) == member_named(members@, name@),
{
    assert(members@.skip(0) =~= members@);
    for i in 0..members.len()
        invariant
            member_named(members@, name@) == member_named(members@.skip(i as int), name@),
    {
        assert(members@.skip(i as int).drop_first() =~= members@.skip(i + 1));
        if same_text(members[i].name.as_str(), name) {
            return Some(&members[i]);
        }
    }
    None
}

/// The first member other than the lead.
pub fn find_worker(members: &Vec<TeamMember>) -> (out: Option<&TeamMember>)
    ensures
        member_ref(out) == first_worker(members@),
{
    assert(members@.skip(0) =~= members@);
    for i in 0..members.len()
        invariant
            first_worker(members@) == first_worker(members@.skip(i as int)),
    {
        assert(members@.skip(i as int).drop_first() =~= members@.skip(i + 1));
        if !same_text(members[i].role.as_str(), "lead") {
            return Some(&members[i]);
        }
    }
    None
}

/// The member whose journal is shown.
pub fn journal_member<'a>(config: &'a TeamConfig, selected: &str) -> (out: Option<&'a TeamMember>)
    ensures
        member_ref(out) == journal_owner(config.members@, selected@),
{
    match find_member(&config.members, selected) {
        Some(member) => Some(member),
        None => find_worker(&config.members),
    }
}

/// What was read of a member's journal.
pub struct JournalSource {
    /// The entries, the oldest first.
    pub entries: Vec<MemberJournalEntry>,
    /// The entry to show where there are none.
    pub current: Option<MemberJournalEntry>,
    /// The path of the journal.
    pub journal_path: String,
    /// The path of the digest.
    pub digest_path: String,
    /// The digest, where there is one.
    pub digest: Option<String>,
}

/// The row of an entry in the history.
pub open spec fn history_row(entry: MemberJournalEntry) -> Seq<char> {
    table_row(seq![html(ui_time(entry.timestamp@)), html(one_line(entry.summary@, 160))])
}

/// The rows of the last eight entries, the newest first.
pub open spec fn history_rows(entries: Seq<MemberJournalEntry>) -> Seq<char> {
    concat(
        first_n(entries.reverse(), 8).map_values(|entry: MemberJournalEntry| history_row(entry)),
    )
}

fn render_history_rows(entries: &Vec<MemberJournalEntry>) -> (out: String)
    ensures
        out@ == history_rows(entries@),
{
    let ghost f = |entry: MemberJournalEntry| history_row(entry);
    let ghost wanted = first_n(entries@.reverse(), 8).map_values(f);
    let total = entries.len();
    let mut rows: Vec<String> = Vec::new();
    while rows.len() < total && rows.len() < 8
        invariant
            total == entries@.len(),
            f == (|entry: MemberJournalEntry| history_row(entry)),
            wanted == first_n(entries@.reverse(), 8).map_values(f),
            rows@.len() <= total,
            rows@.len() <= 8,
            views(rows@) == wanted.take(rows@.len() as int),
        decreases total - rows@.len(),
    {
        let ghost before = views(rows@);
        let ghost n = rows@.len() as int;
        let entry = &entries[total - 1 - rows.len()];
        let mut cells: Vec<String> = Vec::new();
        cells.push(html_escape(timestamp_for_ui(entry.timestamp.as_str()).as_str()));
        cells.push(html_escape(compact_one_line(entry.summary.as_str(), 160).as_str()));
        let row = render_row(&cells);
        assert(views(cells@) =~= seq![
            html(ui_time(entry.timestamp@)),
            html(one_line(entry.summary@, 160)),
        ]);
        assert(*entry == entries@.reverse()[n]);
        assert(row@ == wanted[n]);
        rows.push(row);
        assert(views(rows@) =~= before.push(row@));
        assert(views(rows@) =~= wanted.take(n + 1));
    }
    assert(views(rows@) =~= wanted);
    concat_all(&rows)
}

/// The excerpt of a member's last output, where that is not blank.
pub open spec fn output_excerpt(excerpt: Seq<char>) -> Seq<char> {
    if is_blank(excerpt) {
        ""@
    } else {
        "<details><summary>Last Output Excerpt</summary><pre>"@ + html(excerpt)
            + "</pre></details>"@
    }
}

/// The body of the panel for an entry.
pub open spec fn entry_body(entry: MemberJournalEntry, history: Seq<char>) -> Seq<char> {
    r#"<div class="journal-summary"><span class="status-badge active">"#@ + html(entry.status@)
        + "</span><span>"@ + html(entry.node@) + "</span><span>"@ + html(ui_time(entry.timestamp@))
        + "</span></div>\n<p class=\"kanban-note\">"@ + html(entry.summary@)
        + "</p>\n<details open><summary>Tasks</summary>"@ + journal_list(views(entry.tasks@), 5)
        + "</details>\n<details><summary>Jobs</summary>"@ + journal_list(views(entry.jobs@), 4)
        + "</details>\n<details><summary>Waits</summary>"@ + journal_list(views(entry.waits@), 4)
        + "</details>\n<details open><summary>Received</summary>"@ + journal_list(
        views(entry.messages_received@),
        5,
    ) + "</details>\n<details><summary>Sent</summary>"@ + journal_list(
        views(entry.messages_sent@),
        5,
    ) + "</details>\n<details><summary>Events</summary>"@ + journal_list(views(entry.events@), 5)
        + "</details>\n"@ + output_excerpt(entry.last_output_excerpt@)
        + "\n<details><summary>Snapshot History</summary><table><tr><th>Time</th><th>Summary</th></tr>"@
        + (if history.len() == 0 {
        r#"<tr><td colspan="2">No snapshots yet</td></tr>"#@
    } else {
        history
    }) + "</table></details>"@
}

fn render_entry_body(entry: &MemberJournalEntry, history: &str) -> (out: String)
    ensures
        out@ == entry_body(*entry, history@),
{
    let mut out = r#"<div class="journal-summary"><span class="status-badge active">"#.to_string();
    out.append(html_escape(entry.status.as_str()).as_str());
    out.append("</span><span>");
    out.append(html_escape(entry.node.as_str()).as_str());
    out.append("</span><span>");
    out.append(html_escape(timestamp_for_ui(entry.timestamp.as_str()).as_str()).as_str());
    out.append("</span></div>\n<p class=\"kanban-note\">");
    out.append(html_escape(entry.summary.as_str()).as_str());
    out.append("</p>\n<details open><summary>Tasks</summary>");
    out.append(render_member_journal_list(&entry.tasks, 5).as_str());
    out.append("</details>\n<details><summary>Jobs</summary>");
    out.append(render_member_journal_list(&entry.jobs, 4).as_str());
    out.append("</details>\n<details><summary>Waits</summary>");
    out.append(render_member_journal_list(&entry.waits, 4).as_str());
    out.append("</details>\n<details open><summary>Received</summary>");
    out.append(render_member_journal_list(&entry.messages_received, 5).as_str());
    out.append("</details>\n<details><summary>Sent</summary>");
    out.append(render_member_journal_list(&entry.messages_sent, 5).as_str());
    out.append("</details>\n<details><summary>Events</summary>");
    out.append(render_member_journal_list(&entry.events, 5).as_str());
    out.append("</details>\n");
    let excerpt = if text_is_blank(entry.last_output_excerpt.as_str()) {
        "".to_string()
    } else {
        let mut excerpt = "<details><summary>Last Output Excerpt</summary><pre>".to_string();
        excerpt.append(html_escape(entry.last_output_excerpt.as_str()).as_str());
        excerpt.append("</pre></details>");
        excerpt
    };
    out.append(excerpt.as_str());
    out.append(
        "\n<details><summary>Snapshot History</summary><table><tr><th>Time</th><th>Summary</th></tr>",
    );
    if history.is_empty() {
        out.append(r#"<tr><td colspan="2">No snapshots yet</td></tr>"#);
    } else {
        out.append(history);
    }
    out.append("</table></details>");
    out
}

/// The entry that is shown: the last one, or the current one where there are none.
pub open spec fn shown_entry(source: JournalSource) -> Option<MemberJournalEntry> {
    if source.entries@.len() > 0 {
        Some(source.entries@.last())
    } else {
        source.current
    }
}

/// The body of the panel.
pub open spec fn journal_body(source: JournalSource) -> Seq<char> {
    match shown_entry(source) {
        Some(entry) => entry_body(entry, history_rows(source.entries@)),
        None => NO_ENTRIES@,
    }
}

/// The body of the panel where there is no entry.
pub const NO_ENTRIES: &'static str = r#"<p class="kanban-empty">No journal entries yet. The runtime writes this periodically while the team is active.</p>"#;

/// The digest part of the panel where there is no digest.
pub const NO_DIGEST: &'static str = r#"<details><summary>AI Digest</summary><p class="hint">No AI digest yet. It is generated after task/job/wait/member milestone changes.</p></details>"#;

/// The panel where no team state is loaded.
pub const NO_STATE: &'static str = r#"<div class="member-panel"><div class="panel-title"><h4>Member Journal</h4><p>No team state loaded.</p></div></div>"#;

/// The panel where no member is selected.
pub const NO_MEMBER: &'static str = r#"<div class="member-panel"><div class="panel-title"><h4>Member Journal</h4><p>No member selected.</p></div></div>"#;

/// The digest part of the panel.
pub open spec fn digest_part(path: Seq<char>, digest: Option<Seq<char>>) -> Seq<char> {
    match digest {
        Some(text) => if is_blank(text) {
            NO_DIGEST@
        } else {
            r#"<details open><summary>AI Digest</summary><p class="hint">Digest: <code>"#@ + html(
                path,
            ) + "</code></p><pre>"@ + html(tail_of(trim(text), 6000)) + "</pre></details>"@
        },
        None => NO_DIGEST@,
    }
}

fn render_digest_part(path: &str, digest: &Option<String>) -> (out: String)
    ensures
        out@ == digest_part(path@, opt_view(*digest)),
{
    match digest {
        Some(text) => if text_is_blank(text.as_str()) {
            NO_DIGEST.to_string()
        } else {
            let mut out = r#"<details open><summary>AI Digest</summary><p class="hint">Digest: <code>"#.to_string();
            out.append(html_escape(path).as_str());
            out.append("</code></p><pre>");
            let kept = trimmed(text.as_str());
            out.append(html_escape(tail_chars(kept.as_str(), 6000).as_str()).as_str());
            out.append("</pre></details>");
            out
        },
        None => NO_DIGEST.to_string(),
    }
}

/// The member journal panel.
pub open spec fn journal_panel(
    source: Option<JournalSource>,
    members: Seq<TeamMember>,
    selected: Seq<char>,
) -> Seq<char> {
    match source {
        None => NO_STATE@,
        Some(source) => match journal_owner(members, selected) {
            None => NO_MEMBER@,
            Some(_) => {
                r#"<div class="member-panel journal-panel"><div class="panel-title"><h4>Member Journal</h4><p>Periodic department activity diary for the selected member.</p><div class="member-tabs">"#@
                    + concat(member_tabs(members, selected, "Member "@))
                    + r#"</div></div><p class="hint">Machine Markdown: <code>"#@ + html(
                    source.journal_path@,
                ) + "</code></p>"@ + digest_part(source.digest_path@, opt_view(source.digest))
                    + journal_body(source) + "</div>"@
            },
        },
    }
}

/// The journal source behind an optional reference.
pub open spec fn source_ref(source: Option<&JournalSource>) -> Option<JournalSource> {
    match source {
        Some(source) => Some(*source),
        None => None,
    }
}

/// The member journal panel; `source` is what was read of the journal of the member that is shown,
/// where team state is loaded.
pub fn render_member_journal_panel(
    source: Option<&JournalSource>,
    config: &TeamConfig,
    selected: &str,
) -> (out: String)
    ensures
        out@ == journal_panel(source_ref(source), config.members@, selected@),
{
    let source = match source {
        Some(source) => source,
        None => {
            return NO_STATE.to_string();
        },
    };
    if journal_member(config, selected).is_none() {
        return NO_MEMBER.to_string();
    }
    let mut out = r#"<div class="member-panel journal-panel"><div class="panel-title"><h4>Member Journal</h4><p>Periodic department activity diary for the selected member.</p><div class="member-tabs">"#.to_string();
    out.append(render_member_tabs(&config.members, selected, "Member ").as_str());
    out.append(r#"</div></div><p class="hint">Machine Markdown: <code>"#);
    out.append(html_escape(source.journal_path.as_str()).as_str());
    out.append("</code></p>");
    out.append(render_digest_part(source.digest_path.as_str(), &source.digest).as_str());
    let history = render_history_rows(&source.entries);
    let body = if source.entries.len() > 0 {
        render_entry_body(&source.entries[source.entries.len() - 1], history.as_str())
    } else {
        match &source.current {
            Some(entry) => render_entry_body(entry, history.as_str()),
            None => NO_ENTRIES.to_string(),
        }
    };
    out.append(body.as_str());
    out.append("</div>");
    out
}

} // verus!
