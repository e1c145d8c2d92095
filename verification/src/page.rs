//! The dashboard's page.

use vstd::prelude::*;

use crate::escape::{html, html_escape, query_text, url_encode};
use crate::journal::{find_member, member_named, tail_chars, tail_of, JournalSource};
use crate::kanban::{find_location, location_of, render_team_kanban_boards, team_boards};
use crate::markup::{code, render_code, render_row, table_row};
use crate::messages::{
    known_language, lead_chat, message_board, normalize_translation_language, render_lead_chat,
    render_message_board, render_translation_panel, translation_panel,
};
use crate::model::{
    id_of, sanitize_id, TeamConfig, TeamEventRecord, TeamJob, TeamMember, TeamNode, TeamTask,
    TeamWait, UiTeamRunStatus,
};
use crate::number::{decimal, usize_text};
use crate::order::{
    is_ranking, ranked, stable_sort, text_comes_before, text_less, text_order_is_a_ranking, Ranking,
};
use crate::split::{
    concat, concat_all, first_n, join, join_with, keep_last, last_n, lines, lines_of, strip_prefix,
    without_prefix,
};
use crate::status::{
    age_text, format_node_display_status, format_node_last_seen_age, is_stale, node_status_text,
    member_task_status_summary, task_summary,
};
use crate::template::{
    DEBUG_HEAD, DEBUG_TAIL, FLOW_HEAD, FLOW_TAIL, PAGE_DIRECTORY, PAGE_FORM, PAGE_HEAD, PAGE_MAIN,
    PAGE_OPTIONS, PAGE_REFRESH, PAGE_SERVER, PAGE_TAIL, REALTIME_HEAD, REALTIME_MEMBER,
    REALTIME_TAIL, RUNTIME_HEAD, RUNTIME_LABEL, RUNTIME_RESUME, RUNTIME_STOP, RUNTIME_TAIL,
};
use crate::text::{
    is_blank, is_text, opt_view, same_text, str_or, text_is_blank, text_or, views,
};
use crate::time::{timestamp_for_ui, ui_time};
use crate::timeline::{
    cooldown_text, events_ref, events_text, format_cooldown, infer_member_node_for_ui,
    inferred_node, render_events_for_ui, MemberStanding,
};
use crate::token_usage::{
    render_token_usage_panel, usage_section, SideChannelFile, TeamTokenUsageRecord,
    TokenUsageShares,
};

verus! {

// ---------------------------------------------------------------------------
// Fixed views
// ---------------------------------------------------------------------------

/// The name of the first member called `lead`, or of the first member, or `lead`.
pub open spec fn realtime_default(members: Seq<TeamMember>) -> Seq<char> {
    match member_named(members, "lead"@) {
        Some(member) => member.name@,
        None => if members.len() > 0 {
            members[0].name@
        } else {
            "lead"@
        },
    }
}

/// The realtime view.
pub fn render_realtime_view(team: &str, config: &TeamConfig) -> (out: String)
    ensures
        out@ == REALTIME_HEAD@ + html(team@) + REALTIME_MEMBER@ + html(
            realtime_default(config.members@),
        ) + REALTIME_TAIL@,
{
    let first = match find_member(&config.members, "lead") {
        Some(member) => member.name.as_str(),
        None => if config.members.len() > 0 {
            config.members[0].name.as_str()
        } else {
            "lead"
        },
    };
    let mut out = REALTIME_HEAD.to_string();
    out.append(html_escape(team).as_str());
    out.append(REALTIME_MEMBER);
    out.append(html_escape(first).as_str());
    out.append(REALTIME_TAIL);
    out
}

/// The debug timeline, which the page fills.
pub fn render_debug_timeline_view(team: &str) -> (out: String)
    ensures
        out@ == DEBUG_HEAD@ + html(team@) + DEBUG_TAIL@,
{
    let mut out = DEBUG_HEAD.to_string();
    out.append(html_escape(team).as_str());
    out.append(DEBUG_TAIL);
    out
}

/// The agent flow console, which the page fills.
pub fn render_agent_flow_console_view(team: &str) -> (out: String)
    ensures
        out@ == FLOW_HEAD@ + html(team@) + FLOW_TAIL@,
{
    let mut out = FLOW_HEAD.to_string();
    out.append(html_escape(team).as_str());
    out.append(FLOW_TAIL);
    out
}

/// The runtime controls.
pub fn render_team_runtime_controls(team: &str, status: UiTeamRunStatus) -> (out: String)
    ensures
        out@ == RUNTIME_HEAD@ + status.class() + RUNTIME_LABEL@ + status.text() + RUNTIME_RESUME@
            + html(team@) + RUNTIME_STOP@ + html(team@) + RUNTIME_TAIL@,
{
    let mut out = RUNTIME_HEAD.to_string();
    out.append(status.css_class());
    out.append(RUNTIME_LABEL);
    out.append(status.label());
    out.append(RUNTIME_RESUME);
    out.append(html_escape(team).as_str());
    out.append(RUNTIME_STOP);
    out.append(html_escape(team).as_str());
    out.append(RUNTIME_TAIL);
    out
}

// ---------------------------------------------------------------------------
// Directories
// ---------------------------------------------------------------------------

/// The link to a directory in the directory picker.
pub open spec fn directory_href(path: Seq<char>, team: Option<Seq<char>>) -> Seq<char> {
    match team {
        Some(team) => "/?team="@ + query_text(team) + "&cwd="@ + query_text(path),
        None => "/?cwd="@ + query_text(path),
    }
}

/// The link to a directory in the directory picker.
pub fn directory_picker_href(path: &str, team: &Option<String>) -> (out: String)
    ensures
        out@ == directory_href(path@, opt_view(*team)),
{
    match team {
        Some(team) => {
            let mut out = "/?team=".to_string();
            out.append(url_encode(team.as_str()).as_str());
            out.append("&cwd=");
            out.append(url_encode(path).as_str());
            out
        },
        None => {
            let mut out = "/?cwd=".to_string();
            out.append(url_encode(path).as_str());
            out
        },
    }
}

/// A directory: its path and its name.
pub struct DirectoryEntry {
    pub path: String,
    pub name: String,
}

/// What is in a directory.
pub struct DirectoryListing {
    pub path: String,
    pub parent: Option<String>,
    /// The directories in it, in the order in which they were found.
    pub entries: Vec<DirectoryEntry>,
}

/// Directories go by their names.
pub open spec fn by_name() -> spec_fn(DirectoryEntry, DirectoryEntry) -> bool {
    |a: DirectoryEntry, b: DirectoryEntry| text_less(a.name@, b.name@)
}

/// Ranks directories by their names.
pub struct ByName;

impl Ranking<DirectoryEntry> for ByName {
    open spec fn less() -> spec_fn(DirectoryEntry, DirectoryEntry) -> bool {
        by_name()
    }

    fn goes_before(a: &DirectoryEntry, b: &DirectoryEntry) -> (yes: bool) {
        text_comes_before(a.name.as_str(), b.name.as_str())
    }
}

/// The link to the parent directory, where there is one.
pub open spec fn parent_link(parent: Option<Seq<char>>, team: Option<Seq<char>>) -> Seq<char> {
    match parent {
        Some(parent) => r#"<a href=""#@ + directory_href(parent, team) + r#"">../</a>"#@,
        None => ""@,
    }
}

/// The link to a directory.
pub open spec fn directory_link(entry: DirectoryEntry, team: Option<Seq<char>>) -> Seq<char> {
    r#"<a href=""#@ + directory_href(entry.path@, team) + r#"">"#@ + html(entry.name@) + "/</a>"@
}

/// The directory picker: the current directory, its parent, and the first eighty directories in
/// it.
pub open spec fn directory_picker(
    current: Seq<char>,
    parent: Option<Seq<char>>,
    entries: Seq<DirectoryEntry>,
    team: Option<Seq<char>>,
) -> Seq<char> {
    r#"<div class="dir-picker"><div class="dir-current">"#@ + html(current) + "</div>"@
        + parent_link(parent, team) + concat(
        first_n(ranked(entries, by_name()), 80).map_values(
            |entry: DirectoryEntry| directory_link(entry, team),
        ),
    ) + "</div>"@
}

/// The directory picker; `entries` are the directories in the current one.
pub fn render_directory_picker(
    current: &str,
    parent: &Option<String>,
    entries: Vec<DirectoryEntry>,
    team: &Option<String>,
) -> (out: String)
    ensures
        out@ == directory_picker(current@, opt_view(*parent), entries@, opt_view(*team)),
{
    let sorted = stable_sort::<DirectoryEntry, ByName>(entries);
    let ghost f = |entry: DirectoryEntry| directory_link(entry, opt_view(*team));
    let ghost wanted = first_n(sorted@, 80).map_values(f);
    let mut links: Vec<String> = Vec::new();
    while links.len() < sorted.len() && links.len() < 80
        invariant
            f == (|entry: DirectoryEntry| directory_link(entry, opt_view(*team))),
            wanted == first_n(sorted@, 80).map_values(f),
            links@.len() <= sorted@.len(),
            links@.len() <= 80,
            views(links@) == wanted.take(links@.len() as int),
        decreases sorted@.len() - links@.len(),
    {
        let ghost before = views(links@);
        let ghost n = links@.len() as int;
        let entry = &sorted[links.len()];
        let mut link = r#"<a href=""#.to_string();
        link.append(directory_picker_href(entry.path.as_str(), team).as_str());
        link.append(r#"">"#);
        link.append(html_escape(entry.name.as_str()).as_str());
        link.append("/</a>");
        assert(link@ == wanted[n]);
        links.push(link);
        assert(views(links@) =~= before.push(link@));
        assert(views(links@) =~= wanted.take(n + 1));
    }
    assert(views(links@) =~= wanted);
    let mut out = r#"<div class="dir-picker"><div class="dir-current">"#.to_string();
    out.append(html_escape(current).as_str());
    out.append("</div>");
    let up = match parent {
        Some(parent) => {
            let mut up = r#"<a href=""#.to_string();
            up.append(directory_picker_href(parent.as_str(), team).as_str());
            up.append(r#"">../</a>"#);
            up
        },
        None => "".to_string(),
    };
    out.append(up.as_str());
    out.append(concat_all(&links).as_str());
    out.append("</div>");
    out
}

/// A path with the home directory in place of a leading tilde.
pub open spec fn expanded(path: Seq<char>, home: Seq<char>) -> Seq<char> {
    if path == "~"@ {
        home
    } else {
        match without_prefix(path, "~/"@) {
            Some(rest) => home + "/"@ + rest,
            None => path,
        }
    }
}

/// A path with the home directory in place of a leading tilde.
pub fn expand_home(path: &str, home: &str) -> (out: String)
    ensures
        out@ == expanded(path@, home@),
{
    if same_text(path, "~") {
        return home.to_string();
    }
    match strip_prefix(path, "~/") {
        Some(rest) => {
            let mut out = home.to_string();
            out.append("/");
            out.append(rest.as_str());
            out
        },
        None => path.to_string(),
    }
}

/// The directory in which new teams start: the configured one, or the home directory.
pub fn default_ui_cwd(default_cwd: &Option<String>, home: &str) -> (out: String)
    ensures
        out@ == text_or(*default_cwd, home@),
{
    str_or(default_cwd, home).to_string()
}

/// The directory that the page shows: the one that was asked for, or the one in which new teams
/// start.
pub open spec fn shown_cwd(
    asked: Option<Seq<char>>,
    default_cwd: Option<String>,
    home: Seq<char>,
) -> Seq<char> {
    match asked {
        Some(path) => expanded(path, home),
        None => text_or(default_cwd, home),
    }
}

/// The directory that the page shows.
pub fn selected_cwd(asked: &Option<String>, default_cwd: &Option<String>, home: &str) -> (out:
    String)
    ensures
        out@ == shown_cwd(opt_view(*asked), *default_cwd, home@),
{
    match asked {
        Some(path) => expand_home(path.as_str(), home),
        None => default_ui_cwd(default_cwd, home),
    }
}

// ---------------------------------------------------------------------------
// Logs
// ---------------------------------------------------------------------------

/// The last `n` lines of a text, escaped.
pub open spec fn escaped_tail(text: Seq<char>, n: nat) -> Seq<char> {
    join(last_n(lines(text), n as int).map_values(|line: Seq<char>| html(line)), "\n"@)
}

fn render_escaped_tail(text: &str, n: usize) -> (out: String)
    ensures
        out@ == escaped_tail(text@, n as nat),
{
    let all = lines_of(text);
    let kept = keep_last(all, n);
    let ghost f = |line: Seq<char>| html(line);
    let ghost wanted = views(kept@).map_values(f);
    let mut escaped: Vec<String> = Vec::new();
    for i in 0..kept.len()
        invariant
            f == (|line: Seq<char>| html(line)),
            wanted == views(kept@).map_values(f),
            views(escaped@) == wanted.take(i as int),
    {
        let ghost before = views(escaped@);
        let line = html_escape(kept[i].as_str());
        escaped.push(line);
        assert(views(escaped@) =~= before.push(line@));
        assert(views(escaped@) =~= wanted.take(i + 1));
    }
    assert(wanted.take(kept@.len() as int) =~= wanted);
    join_with(&escaped, "\n")
}

/// The log of runs that were started from the page, where there is something in it.
pub open spec fn runs_log(log: Option<Seq<char>>) -> Seq<char> {
    match log {
        Some(log) => if is_blank(escaped_tail(log, 80)) {
            ""@
        } else {
            "<details><summary>UI Run Log</summary><pre>"@ + escaped_tail(log, 80)
                + "</pre></details>"@
        },
        None => ""@,
    }
}

fn render_runs_log(log: &Option<String>) -> (out: String)
    ensures
        out@ == runs_log(opt_view(*log)),
{
    match log {
        Some(log) => {
            let tail = render_escaped_tail(log.as_str(), 80);
            if text_is_blank(tail.as_str()) {
                "".to_string()
            } else {
                let mut out = "<details><summary>UI Run Log</summary><pre>".to_string();
                out.append(tail.as_str());
                out.append("</pre></details>");
                out
            }
        },
        None => "".to_string(),
    }
}

// ---------------------------------------------------------------------------
// Teams
// ---------------------------------------------------------------------------

/// A team in the list of teams.
pub struct TeamSummary {
    pub id: String,
    pub goal: String,
    pub updated_at: String,
    pub run_status: UiTeamRunStatus,
}

/// Teams that were changed later go first.
pub open spec fn last_changed_first() -> spec_fn(TeamSummary, TeamSummary) -> bool {
    |a: TeamSummary, b: TeamSummary| text_less(b.updated_at@, a.updated_at@)
}

/// Ranks teams by the time of their last change, the latest first.
pub struct LastChangedFirst;

impl Ranking<TeamSummary> for LastChangedFirst {
    open spec fn less() -> spec_fn(TeamSummary, TeamSummary) -> bool {
        last_changed_first()
    }

    fn goes_before(a: &TeamSummary, b: &TeamSummary) -> (yes: bool) {
        text_comes_before(b.updated_at.as_str(), a.updated_at.as_str())
    }
}

/// The lists of the page are ordered by orders.
pub proof fn page_orders_are_rankings()
    ensures
        is_ranking(by_name()),
        is_ranking(last_changed_first()),
{
    text_order_is_a_ranking();
}

/// The teams, the last changed first.
pub fn sort_teams(teams: Vec<TeamSummary>) -> (out: Vec<TeamSummary>)
    ensures
        out@ == ranked(teams@, last_changed_first()),
{
    stable_sort::<TeamSummary, LastChangedFirst>(teams)
}

/// The identifier of the selected team: the one that was asked for, or the first of the list.
pub open spec fn selected_team(teams: Seq<TeamSummary>, asked: Option<Seq<char>>) -> Option<
    Seq<char>,
> {
    match asked {
        Some(raw) => Some(id_of(raw)),
        None => if teams.len() > 0 {
            Some(teams[0].id@)
        } else {
            None
        },
    }
}

/// The identifier of the selected team; `teams` is the sorted list.
pub fn selected_team_id(teams: &Vec<TeamSummary>, asked: &Option<String>) -> (out: Option<String>)
    ensures
        opt_view(out) == selected_team(teams@, opt_view(*asked)),
{
    match asked {
        Some(raw) => Some(sanitize_id(raw.as_str())),
        None => if teams.len() > 0 {
            Some(teams[0].id.clone())
        } else {
            None
        },
    }
}

/// The link to a team.
pub open spec fn team_link(team: TeamSummary, selected: Option<Seq<char>>) -> Seq<char> {
    r#"<div class="team-wrap" data-team=""#@ + html(team.id@) + r#""><a class="team "#@ + (
    if selected == Some(team.id@) {
        "active"@
    } else {
        ""@
    }) + r#"" href="/?team="#@ + html(team.id@) + r#""><strong>"#@ + html(team.id@)
        + "</strong><span>"@ + html(team.goal@) + "</span><small>"@ + html(ui_time(team.updated_at@))
        + r#"</small><em class="run-state "#@ + team.run_status.class() + r#"">"#@
        + team.run_status.text() + "</em></a></div>"@
}

fn render_team_link(team: &TeamSummary, selected: &Option<String>) -> (out: String)
    ensures
        out@ == team_link(*team, opt_view(*selected)),
{
    let id = html_escape(team.id.as_str());
    let mut out = r#"<div class="team-wrap" data-team=""#.to_string();
    out.append(id.as_str());
    out.append(r#""><a class="team "#);
    if is_text(selected, team.id.as_str()) {
        out.append("active");
    } else {
        out.append("");
    }
    out.append(r#"" href="/?team="#);
    out.append(id.as_str());
    out.append(r#""><strong>"#);
    out.append(id.as_str());
    out.append("</strong><span>");
    out.append(html_escape(team.goal.as_str()).as_str());
    out.append("</span><small>");
    out.append(html_escape(timestamp_for_ui(team.updated_at.as_str()).as_str()).as_str());
    out.append(r#"</small><em class="run-state "#);
    out.append(team.run_status.css_class());
    out.append(r#"">"#);
    out.append(team.run_status.label());
    out.append("</em></a></div>");
    out
}

/// The links to the teams.
pub open spec fn team_links(teams: Seq<TeamSummary>, selected: Option<Seq<char>>) -> Seq<char> {
    concat(teams.map_values(|team: TeamSummary| team_link(team, selected)))
}

fn render_team_links(teams: &Vec<TeamSummary>, selected: &Option<String>) -> (out: String)
    ensures
        out@ == team_links(teams@, opt_view(*selected)),
{
    let ghost f = |team: TeamSummary| team_link(team, opt_view(*selected));
    let ghost wanted = teams@.map_values(f);
    let mut links: Vec<String> = Vec::new();
    for i in 0..teams.len()
        invariant
            f == (|team: TeamSummary| team_link(team, opt_view(*selected))),
            wanted == teams@.map_values(f),
            views(links@) == wanted.take(i as int),
    {
        let ghost before = views(links@);
        let link = render_team_link(&teams[i], selected);
        links.push(link);
        assert(views(links@) =~= before.push(link@));
        assert(views(links@) =~= wanted.take(i + 1));
    }
    assert(wanted.take(teams@.len() as int) =~= wanted);
    concat_all(&links)
}

// ---------------------------------------------------------------------------
// Tables of a team
// ---------------------------------------------------------------------------

/// A text, or a dash where it is empty.
pub open spec fn or_dash(text: Seq<char>) -> Seq<char> {
    if text.len() == 0 {
        "-"@
    } else {
        text
    }
}

/// The mail of a member and how long it waits until it may use the model again.
pub open spec fn mail_cell(standing: Option<MemberStanding>) -> Seq<char> {
    match standing {
        Some(standing) => decimal(standing.unread as nat) + "/"@ + decimal(
            standing.direct_unread as nat,
        ),
        None => "0/0"@,
    }
}

/// The cooldown of a member.
pub open spec fn cooldown_cell(standing: Option<MemberStanding>) -> Seq<char> {
    match standing {
        Some(standing) => or_dash(cooldown_text(standing.cooldown)),
        None => "-"@,
    }
}

/// The standing at a position, where there is one.
pub open spec fn standing_at(standings: Seq<MemberStanding>, i: int) -> Option<MemberStanding> {
    if 0 <= i < standings.len() {
        Some(standings[i])
    } else {
        None
    }
}

/// The row of a member.
pub open spec fn member_row(
    member: TeamMember,
    standing: Option<MemberStanding>,
    tasks: Seq<TeamTask>,
    nodes: Seq<TeamNode>,
    events: Option<Seq<TeamEventRecord>>,
) -> Seq<char> {
    let node = inferred_node(events, member.name@, text_or(member.node, "local"@));
    table_row(
        seq![
            html(member.name@),
            html(member.role@),
            member.status.text(),
            html(task_summary(tasks, member.name@)),
            html(node),
            html(location_of(nodes, node)),
            html(mail_cell(standing)),
            html(cooldown_cell(standing)),
            code(text_or(member.thread_id, ""@)),
        ],
    )
}

/// The standing behind an optional reference.
pub open spec fn standing_ref(standing: Option<&MemberStanding>) -> Option<MemberStanding> {
    match standing {
        Some(standing) => Some(*standing),
        None => None,
    }
}

fn render_member_row(
    member: &TeamMember,
    standing: Option<&MemberStanding>,
    tasks: &Vec<TeamTask>,
    nodes: &Vec<TeamNode>,
    events: Option<&Vec<TeamEventRecord>>,
) -> (out: String)
    ensures
        out@ == member_row(*member, standing_ref(standing), tasks@, nodes@, events_ref(events)),
{
    let node = infer_member_node_for_ui(events, member, str_or(&member.node, "local"));
    let mail = match standing {
        Some(standing) => {
            let mut mail = usize_text(standing.unread);
            mail.append("/");
            mail.append(usize_text(standing.direct_unread).as_str());
            mail
        },
        None => "0/0".to_string(),
    };
    let cooldown = match standing {
        Some(standing) => {
            let text = format_cooldown(standing.cooldown);
            if text.as_str().is_empty() {
                "-".to_string()
            } else {
                text
            }
        },
        None => "-".to_string(),
    };
    let mut cells: Vec<String> = Vec::new();
    cells.push(html_escape(member.name.as_str()));
    cells.push(html_escape(member.role.as_str()));
    cells.push(member.status.label().to_string());
    cells.push(html_escape(member_task_status_summary(tasks, member.name.as_str()).as_str()));
    cells.push(html_escape(node.as_str()));
    cells.push(html_escape(find_location(nodes, node.as_str()).as_str()));
    cells.push(html_escape(mail.as_str()));
    cells.push(html_escape(cooldown.as_str()));
    cells.push(render_code(str_or(&member.thread_id, "")));
    assert(views(cells@) =~= seq![
        html(member.name@),
        html(member.role@),
        member.status.text(),
        html(task_summary(tasks@, member.name@)),
        html(node@),
        html(location_of(nodes@, node@)),
        html(mail_cell(standing_ref(standing))),
        html(cooldown_cell(standing_ref(standing))),
        code(text_or(member.thread_id, ""@)),
    ]);
    render_row(&cells)
}

/// The rows of the members.
pub open spec fn member_rows(
    members: Seq<TeamMember>,
    standings: Seq<MemberStanding>,
    tasks: Seq<TeamTask>,
    nodes: Seq<TeamNode>,
    events: Option<Seq<TeamEventRecord>>,
) -> Seq<char> {
    concat(
        Seq::new(
            members.len(),
            |i: int| member_row(members[i], standing_at(standings, i), tasks, nodes, events),
        ),
    )
}

fn render_member_rows(
    members: &Vec<TeamMember>,
    standings: &Vec<MemberStanding>,
    tasks: &Vec<TeamTask>,
    nodes: &Vec<TeamNode>,
    events: Option<&Vec<TeamEventRecord>>,
) -> (out: String)
    ensures
        out@ == member_rows(members@, standings@, tasks@, nodes@, events_ref(events)),
{
    let ghost wanted = Seq::new(
        members@.len(),
        |i: int|
            member_row(
                members@[i],
                standing_at(standings@, i),
                tasks@,
                nodes@,
                events_ref(events),
            ),
    );
    let mut rows: Vec<String> = Vec::new();
    for i in 0..members.len()
        invariant
            wanted == Seq::new(
                members@.len(),
                |i: int|
                    member_row(
                        members@[i],
                        standing_at(standings@, i),
                        tasks@,
                        nodes@,
                        events_ref(events),
                    ),
            ),
            views(rows@) == wanted.take(i as int),
    {
        let ghost before = views(rows@);
        let standing = if i < standings.len() {
            Some(&standings[i])
        } else {
            None
        };
        let row = render_member_row(&members[i], standing, tasks, nodes, events);
        assert(row@ == wanted[i as int]);
        rows.push(row);
        assert(views(rows@) =~= before.push(row@));
        assert(views(rows@) =~= wanted.take(i + 1));
    }
    assert(wanted.take(members@.len() as int) =~= wanted);
    concat_all(&rows)
}

/// The age at a position, where there is one.
pub open spec fn age_at(ages: Seq<Option<u64>>, i: int) -> Option<u64> {
    if 0 <= i < ages.len() {
        ages[i]
    } else {
        None
    }
}

/// The row of a node.
pub open spec fn node_row(node: TeamNode, age: Option<u64>) -> Seq<char> {
    table_row(
        seq![
            html(node.id@),
            node.kind.text(),
            html(node_status_text(node.status, is_stale(age))),
            code(text_or(node.url, ""@)),
            html(ui_time(node.updated_at@)),
            html(age_text(age)),
            if is_stale(age) {
                r#"<span class="pill warn">stale</span>"#@
            } else {
                "-"@
            },
            html(text_or(node.host, ""@)),
            html(text_or(node.container, ""@)),
            html(text_or(node.cwd, ""@)),
        ],
    )
}

fn render_node_row(node: &TeamNode, age: Option<u64>) -> (out: String)
    ensures
        out@ == node_row(*node, age),
{
    let (seen, stale) = format_node_last_seen_age(age);
    let status = format_node_display_status(node.status, stale);
    let health = if stale {
        r#"<span class="pill warn">stale</span>"#.to_string()
    } else {
        "-".to_string()
    };
    let mut cells: Vec<String> = Vec::new();
    cells.push(html_escape(node.id.as_str()));
    cells.push(node.kind.label().to_string());
    cells.push(html_escape(status.as_str()));
    cells.push(render_code(str_or(&node.url, "")));
    cells.push(html_escape(timestamp_for_ui(node.updated_at.as_str()).as_str()));
    cells.push(html_escape(seen.as_str()));
    cells.push(health);
    cells.push(html_escape(str_or(&node.host, "")));
    cells.push(html_escape(str_or(&node.container, "")));
    cells.push(html_escape(str_or(&node.cwd, "")));
    assert(views(cells@) =~= seq![
        html(node.id@),
        node.kind.text(),
        html(node_status_text(node.status, is_stale(age))),
        code(text_or(node.url, ""@)),
        html(ui_time(node.updated_at@)),
        html(age_text(age)),
        health@,
        html(text_or(node.host, ""@)),
        html(text_or(node.container, ""@)),
        html(text_or(node.cwd, ""@)),
    ]);
    render_row(&cells)
}

/// The rows of the nodes.
pub open spec fn node_rows(nodes: Seq<TeamNode>, ages: Seq<Option<u64>>) -> Seq<char> {
    concat(Seq::new(nodes.len(), |i: int| node_row(nodes[i], age_at(ages, i))))
}

fn render_node_rows(nodes: &Vec<TeamNode>, ages: &Vec<Option<u64>>) -> (out: String)
    ensures
        out@ == node_rows(nodes@, ages@),
{
    let ghost wanted = Seq::new(nodes@.len(), |i: int| node_row(nodes@[i], age_at(ages@, i)));
    let mut rows: Vec<String> = Vec::new();
    for i in 0..nodes.len()
        invariant
            wanted == Seq::new(nodes@.len(), |i: int| node_row(nodes@[i], age_at(ages@, i))),
            views(rows@) == wanted.take(i as int),
    {
        let ghost before = views(rows@);
        let age = if i < ages.len() {
            ages[i]
        } else {
            None
        };
        let row = render_node_row(&nodes[i], age);
        assert(row@ == wanted[i as int]);
        rows.push(row);
        assert(views(rows@) =~= before.push(row@));
        assert(views(rows@) =~= wanted.take(i + 1));
    }
    assert(wanted.take(nodes@.len() as int) =~= wanted);
    concat_all(&rows)
}

/// The row of a task.
pub open spec fn task_row(task: TeamTask) -> Seq<char> {
    table_row(
        seq![
            html(task.id@),
            html(task.status.text()),
            html(text_or(task.owner, ""@)),
            html(task.subject@),
        ],
    )
}

/// The rows of the tasks.
pub open spec fn task_rows(tasks: Seq<TeamTask>) -> Seq<char> {
    concat(tasks.map_values(|task: TeamTask| task_row(task)))
}

fn render_task_rows(tasks: &Vec<TeamTask>) -> (out: String)
    ensures
        out@ == task_rows(tasks@),
{
    let ghost wanted = tasks@.map_values(|task: TeamTask| task_row(task));
    let mut rows: Vec<String> = Vec::new();
    for i in 0..tasks.len()
        invariant
            wanted == tasks@.map_values(|task: TeamTask| task_row(task)),
            views(rows@) == wanted.take(i as int),
    {
        let ghost before = views(rows@);
        let task = &tasks[i];
        let mut cells: Vec<String> = Vec::new();
        cells.push(html_escape(task.id.as_str()));
        cells.push(html_escape(task.status.label()));
        cells.push(html_escape(str_or(&task.owner, "")));
        cells.push(html_escape(task.subject.as_str()));
        let row = render_row(&cells);
        assert(views(cells@) =~= seq![
            html(task.id@),
            html(task.status.text()),
            html(text_or(task.owner, ""@)),
            html(task.subject@),
        ]);
        rows.push(row);
        assert(views(rows@) =~= before.push(row@));
        assert(views(rows@) =~= wanted.take(i + 1));
    }
    assert(wanted.take(tasks@.len() as int) =~= wanted);
    concat_all(&rows)
}

// ---------------------------------------------------------------------------
// Threads
// ---------------------------------------------------------------------------

/// The live thread of a member.
pub open spec fn live_text(standing: Option<MemberStanding>) -> Seq<char> {
    match standing {
        Some(standing) => standing.live@,
        None => ""@,
    }
}

/// The last message of a member.
pub open spec fn last_text(standing: Option<MemberStanding>) -> Seq<char> {
    match standing {
        Some(standing) => standing.last@,
        None => ""@,
    }
}

/// The thread of a member.
pub open spec fn thread_item(
    member: TeamMember,
    standing: Option<MemberStanding>,
    tasks: Seq<TeamTask>,
    nodes: Seq<TeamNode>,
    events: Option<Seq<TeamEventRecord>>,
) -> Seq<char> {
    let node = inferred_node(events, member.name@, text_or(member.node, "local"@));
    "<details><summary>"@ + html(member.name@) + " ("@ + html(member.role@) + ") - session "@
        + member.status.text() + " - tasks "@ + html(task_summary(tasks, member.name@)) + " - "@
        + html(location_of(nodes, node))
        + "</summary>\n<p><strong>Thread:</strong> <code>"@ + html(
        text_or(member.thread_id, ""@),
    ) + "</code></p>\n<h4>Live Stream</h4><pre>"@ + html(tail_of(live_text(standing), 8000))
        + "</pre>\n<h4>Last Message</h4><pre>"@ + html(tail_of(last_text(standing), 8000))
        + "</pre>\n</details>"@
}

fn render_thread_item(
    member: &TeamMember,
    standing: Option<&MemberStanding>,
    tasks: &Vec<TeamTask>,
    nodes: &Vec<TeamNode>,
    events: Option<&Vec<TeamEventRecord>>,
) -> (out: String)
    ensures
        out@ == thread_item(*member, standing_ref(standing), tasks@, nodes@, events_ref(events)),
{
    let node = infer_member_node_for_ui(events, member, str_or(&member.node, "local"));
    let live = match standing {
        Some(standing) => standing.live.as_str(),
        None => "",
    };
    let last = match standing {
        Some(standing) => standing.last.as_str(),
        None => "",
    };
    let mut out = "<details><summary>".to_string();
    out.append(html_escape(member.name.as_str()).as_str());
    out.append(" (");
    out.append(html_escape(member.role.as_str()).as_str());
    out.append(") - session ");
    out.append(member.status.label());
    out.append(" - tasks ");
    out.append(
        html_escape(member_task_status_summary(tasks, member.name.as_str()).as_str()).as_str(),
    );
    out.append(" - ");
    out.append(html_escape(find_location(nodes, node.as_str()).as_str()).as_str());
    out.append("</summary>\n<p><strong>Thread:</strong> <code>");
    out.append(html_escape(str_or(&member.thread_id, "")).as_str());
    out.append("</code></p>\n<h4>Live Stream</h4><pre>");
    out.append(html_escape(tail_chars(live, 8000).as_str()).as_str());
    out.append("</pre>\n<h4>Last Message</h4><pre>");
    out.append(html_escape(tail_chars(last, 8000).as_str()).as_str());
    out.append("</pre>\n</details>");
    out
}

/// The threads of the members.
pub open spec fn thread_board(
    members: Seq<TeamMember>,
    standings: Seq<MemberStanding>,
    tasks: Seq<TeamTask>,
    nodes: Seq<TeamNode>,
    events: Option<Seq<TeamEventRecord>>,
) -> Seq<char> {
    r#"<div class="threads">"#@ + concat(
        Seq::new(
            members.len(),
            |i: int| thread_item(members[i], standing_at(standings, i), tasks, nodes, events),
        ),
    ) + "</div>"@
}

/// The threads of the members.
pub fn render_thread_board(
    config: &TeamConfig,
    standings: &Vec<MemberStanding>,
    tasks: &Vec<TeamTask>,
    nodes: &Vec<TeamNode>,
    events: Option<&Vec<TeamEventRecord>>,
) -> (out: String)
    ensures
        out@ == thread_board(config.members@, standings@, tasks@, nodes@, events_ref(events)),
{
    let members = &config.members;
    let ghost wanted = Seq::new(
        members@.len(),
        |i: int|
            thread_item(
                members@[i],
                standing_at(standings@, i),
                tasks@,
                nodes@,
                events_ref(events),
            ),
    );
    let mut items: Vec<String> = Vec::new();
    for i in 0..members.len()
        invariant
            wanted == Seq::new(
                members@.len(),
                |i: int|
                    thread_item(
                        members@[i],
                        standing_at(standings@, i),
                        tasks@,
                        nodes@,
                        events_ref(events),
                    ),
            ),
            views(items@) == wanted.take(i as int),
    {
        let ghost before = views(items@);
        let standing = if i < standings.len() {
            Some(&standings[i])
        } else {
            None
        };
        let item = render_thread_item(&members[i], standing, tasks, nodes, events);
        assert(item@ == wanted[i as int]);
        items.push(item);
        assert(views(items@) =~= before.push(item@));
        assert(views(items@) =~= wanted.take(i + 1));
    }
    assert(wanted.take(members@.len() as int) =~= wanted);
    let mut out = r#"<div class="threads">"#.to_string();
    out.append(concat_all(&items).as_str());
    out.append("</div>");
    out
}

// ---------------------------------------------------------------------------
// The detail of a team
// ---------------------------------------------------------------------------

/// What was read of the selected team.
pub struct TeamDetail {
    pub config: TeamConfig,
    pub run_status: UiTeamRunStatus,
    pub tasks: Vec<TeamTask>,
    pub jobs: Vec<TeamJob>,
    pub waits: Vec<TeamWait>,
    pub nodes: Vec<TeamNode>,
    /// For each node the seconds since it was last seen, where they are known.
    pub node_ages: Vec<Option<u64>>,
    pub events: Vec<TeamEventRecord>,
    /// For each member what was read of its mail and threads.
    pub standings: Vec<MemberStanding>,
    pub journal: JournalSource,
    pub lead_live: Option<String>,
    pub translation_output: Option<String>,
    pub translation_status: Option<String>,
    pub usage: Vec<TeamTokenUsageRecord>,
    pub usage_shares: TokenUsageShares,
    /// The side-channel contexts of the members that have any.
    pub side_channel: Vec<SideChannelFile>,
}

/// The heads of the columns of the members table.
pub const MEMBERS_HEAD: &'static str = "<h3>Members</h3><table><tr><th>Name</th><th>Role</th><th>Session</th><th>Tasks</th><th>Node</th><th>Location</th><th>Unread/Direct</th><th>Cooldown</th><th>Thread</th></tr>";

/// The heads of the columns of the nodes table.
pub const NODES_HEAD: &'static str = "<h3>Nodes</h3><table><tr><th>ID</th><th>Kind</th><th>Status</th><th>URL</th><th>Last Seen</th><th>Age</th><th>Health</th><th>Host</th><th>Container</th><th>CWD</th></tr>";

/// The heads of the columns of the tasks table.
pub const TASKS_HEAD: &'static str = "<h3>Tasks</h3><table><tr><th>ID</th><th>Status</th><th>Owner</th><th>Subject</th></tr>";

/// The detail of a team.
pub open spec fn team_detail(
    detail: TeamDetail,
    asked_task: Option<Seq<char>>,
    asked_language: Option<Seq<char>>,
    cwd: Seq<char>,
) -> Seq<char> {
    let id = detail.config.id@;
    let members = detail.config.members@;
    let tasks = detail.tasks@;
    let nodes = detail.nodes@;
    let events = Some(detail.events@);
    let language = match asked_language {
        Some(language) => language,
        None => "ja"@,
    };
    "<section><h2>"@ + html(id) + "</h2><p>"@ + html(detail.config.goal@) + "</p>\n"@ + (
    RUNTIME_HEAD@ + detail.run_status.class() + RUNTIME_LABEL@ + detail.run_status.text()
        + RUNTIME_RESUME@ + html(id) + RUNTIME_STOP@ + html(id) + RUNTIME_TAIL@) + "\n"@
        + team_boards(
        detail.config,
        tasks,
        detail.jobs@,
        detail.waits@,
        nodes,
        Some(detail.journal),
        asked_task,
        cwd,
    ) + "\n<h3>Lead Chat</h3>"@ + lead_chat(detail.events@, id, opt_view(detail.lead_live))
        + "\n"@ + (REALTIME_HEAD@ + html(id) + REALTIME_MEMBER@ + html(realtime_default(members))
        + REALTIME_TAIL@) + "\n"@ + (FLOW_HEAD@ + html(id) + FLOW_TAIL@) + "\n"@ + (DEBUG_HEAD@
        + html(id) + DEBUG_TAIL@) + "\n"@ + usage_section(
        detail.usage@,
        detail.usage_shares,
        detail.side_channel@,
    ) + "\n"@ + MEMBERS_HEAD@ + member_rows(members, detail.standings@, tasks, nodes, events)
        + "</table>\n"@ + NODES_HEAD@ + node_rows(nodes, detail.node_ages@) + "</table>\n"@ + TASKS_HEAD@
        + task_rows(tasks) + "</table>\n<h3>Team Messages</h3>"@ + message_board(
        detail.events@,
        id,
        language,
        translation_panel(
            opt_view(detail.translation_output),
            opt_view(detail.translation_status),
            id,
            known_language(language),
        ),
    ) + "\n<h3>Thread Contents</h3>"@ + thread_board(
        members,
        detail.standings@,
        tasks,
        nodes,
        events,
    ) + "\n<h3>Events</h3><pre>"@ + escaped_tail(events_text(detail.events@), 40)
        + "</pre></section>"@
}

/// The detail of a team.
pub fn render_team_detail(
    detail: &TeamDetail,
    asked_task: &Option<String>,
    asked_language: &Option<String>,
    cwd: &str,
) -> (out: String)
    ensures
        out@ == team_detail(*detail, opt_view(*asked_task), opt_view(*asked_language), cwd@),
{
    let config = &detail.config;
    let id = config.id.as_str();
    let language = str_or(asked_language, "ja");
    let known = normalize_translation_language(language);
    let translation = render_translation_panel(
        &detail.translation_output,
        &detail.translation_status,
        id,
        known.as_str(),
    );
    let events = Some(&detail.events);
    let mut out = "<section><h2>".to_string();
    out.append(html_escape(id).as_str());
    out.append("</h2><p>");
    out.append(html_escape(config.goal.as_str()).as_str());
    out.append("</p>\n");
    out.append(render_team_runtime_controls(id, detail.run_status).as_str());
    out.append("\n");
    out.append(
        render_team_kanban_boards(
            config,
            &detail.tasks,
            &detail.jobs,
            &detail.waits,
            &detail.nodes,
            Some(&detail.journal),
            asked_task,
            cwd,
        ).as_str(),
    );
    out.append("\n<h3>Lead Chat</h3>");
    out.append(render_lead_chat(&detail.events, id, &detail.lead_live).as_str());
    out.append("\n");
    out.append(render_realtime_view(id, config).as_str());
    out.append("\n");
    out.append(render_agent_flow_console_view(id).as_str());
    out.append("\n");
    out.append(render_debug_timeline_view(id).as_str());
    out.append("\n");
    out.append(
        render_token_usage_panel(
            &detail.usage,
            &detail.usage_shares,
            &detail.side_channel,
        ).as_str(),
    );
    out.append("\n");
    out.append(MEMBERS_HEAD);
    out.append(
        render_member_rows(
            &config.members,
            &detail.standings,
            &detail.tasks,
            &detail.nodes,
            events,
        ).as_str(),
    );
    out.append("</table>\n");
    out.append(NODES_HEAD);
    out.append(render_node_rows(&detail.nodes, &detail.node_ages).as_str());
    out.append("</table>\n");
    out.append(TASKS_HEAD);
    out.append(render_task_rows(&detail.tasks).as_str());
    out.append("</table>\n<h3>Team Messages</h3>");
    out.append(
        render_message_board(&detail.events, id, language, translation.as_str()).as_str(),
    );
    out.append("\n<h3>Thread Contents</h3>");
    out.append(
        render_thread_board(
            config,
            &detail.standings,
            &detail.tasks,
            &detail.nodes,
            events,
        ).as_str(),
    );
    out.append("\n<h3>Events</h3><pre>");
    let log = render_events_for_ui(&detail.events);
    out.append(render_escaped_tail(log.as_str(), 40).as_str());
    out.append("</pre></section>");
    out
}

// ---------------------------------------------------------------------------
// The page
// ---------------------------------------------------------------------------

/// What the page shows.
pub struct TeamUi {
    /// The teams, in the order in which they were found.
    pub teams: Vec<TeamSummary>,
    /// The team that was asked for.
    pub asked_team: Option<String>,
    /// The task that was asked for.
    pub asked_task: Option<String>,
    /// The language of the translation that was asked for.
    pub asked_language: Option<String>,
    /// The current directory for a new team.
    pub cwd: String,
    /// The directory that the picker shows.
    pub directory: DirectoryListing,
    pub registered_app_server_url: String,
    pub ui_runs_log: Option<String>,
    /// The selected team, where it could be read.
    pub detail: Option<TeamDetail>,
}

/// The detail of the selected team, or a note where none could be read.
pub open spec fn detail_or_note(ui: TeamUi) -> Seq<char> {
    match ui.detail {
        Some(detail) => team_detail(
            detail,
            opt_view(ui.asked_task),
            opt_view(ui.asked_language),
            ui.cwd@,
        ),
        None => "<section><h2>No team selected</h2></section>"@,
    }
}

/// The page.
pub open spec fn team_page(ui: TeamUi) -> Seq<char> {
    let teams = ranked(ui.teams@, last_changed_first());
    let selected = selected_team(teams, opt_view(ui.asked_team));
    PAGE_HEAD@ + team_links(teams, selected) + PAGE_REFRESH@ + directory_href(ui.cwd@, selected)
        + PAGE_FORM@ + html(ui.cwd@) + PAGE_DIRECTORY@ + directory_picker(
        ui.directory.path@,
        opt_view(ui.directory.parent),
        ui.directory.entries@,
        selected,
    ) + PAGE_SERVER@ + html(ui.registered_app_server_url@) + PAGE_OPTIONS@ + runs_log(
        opt_view(ui.ui_runs_log),
    ) + PAGE_MAIN@ + detail_or_note(ui) + PAGE_TAIL@
}

/// The page.
pub fn render_team_ui(ui: TeamUi) -> (out: String)
    ensures
        out@ == team_page(ui),
{
    let teams = sort_teams(ui.teams);
    let selected = selected_team_id(&teams, &ui.asked_team);
    let cwd = ui.cwd.as_str();
    let mut out = PAGE_HEAD.to_string();
    out.append(render_team_links(&teams, &selected).as_str());
    out.append(PAGE_REFRESH);
    out.append(directory_picker_href(cwd, &selected).as_str());
    out.append(PAGE_FORM);
    out.append(html_escape(cwd).as_str());
    out.append(PAGE_DIRECTORY);
    let directory = ui.directory;
    out.append(
        render_directory_picker(
            directory.path.as_str(),
            &directory.parent,
            directory.entries,
            &selected,
        ).as_str(),
    );
    out.append(PAGE_SERVER);
    out.append(html_escape(ui.registered_app_server_url.as_str()).as_str());
    out.append(PAGE_OPTIONS);
    out.append(render_runs_log(&ui.ui_runs_log).as_str());
    out.append(PAGE_MAIN);
    match &ui.detail {
        Some(detail) => {
            out.append(
                render_team_detail(detail, &ui.asked_task, &ui.asked_language, cwd).as_str(),
            );
        },
        None => {
            out.append("<section><h2>No team selected</h2></section>");
        },
    }
    out.append(PAGE_TAIL);
    out
}

} // verus!
