//! What the page shows, and where.

use vstd::prelude::*;

use crate::escape::{html, query_text};
use crate::journal::{journal_panel, member_tabs, tail_of, JournalSource};
use crate::kanban::{
    assignee, assignment_row, assignment_rows, badge, evidence_text, exit_text, initial, job_card,
    job_class, jobs_board, jobs_board_head, kanban_column, location_of, member_board, member_class,
    member_task_row, member_task_rows, result_note, role_of, selected_member, selected_task,
    selected_task_id, task_card, task_class, tasks_board, team_boards, wait_card, wait_class,
};
use crate::laws::boards::{given, is_called};
use crate::laws::{
    has_none, is_first, pair_at_end, piece_at_end, piece_of_itself, piece_of_left,
    ranked_keeps_items, top_items_lead, triple_at_end,
};
use crate::markup::{code, table_row};
use crate::messages::{
    articles_or, board_article, board_articles, chat_article, chat_articles, data_text,
    known_language, language_option, language_options, lead_chat, lead_thread, log_line,
    message_board, recipients_text, translation_panel,
};
use crate::model::{
    id_of, one_line, TeamConfig, TeamEventRecord, TeamJob, TeamMember, TeamNode, TeamTask, TeamWait,
};
use crate::number::decimal;
use crate::order::{ranked, text_less};
use crate::page::{
    by_name, directory_href, directory_link, directory_picker, escaped_tail, last_changed_first,
    member_row, member_rows, node_row, node_rows, page_orders_are_rankings, parent_link,
    realtime_default, runs_log, selected_team, task_row, task_rows, team_detail, team_link,
    team_links, team_page, thread_board, thread_item, DirectoryEntry, TeamDetail, TeamSummary,
    TeamUi, MEMBERS_HEAD, NODES_HEAD, TASKS_HEAD,
};
use crate::split::{concat, first_n, has_text, join, last_n, lines};
use crate::status::{is_stale, task_summary};
use crate::text::{is_blank, opt_view};
use crate::time::ui_time;
use crate::timeline::{events_text, inferred_node, MemberStanding};
use crate::token_usage::{
    pressure_panel, summary_figure, usage_panel, usage_report, usage_rows, usage_section,
    usage_table, usage_updates, SideChannelFile, TeamTokenUsageRecord, TokenUsageShares,
    UsageReportView, EMPTY_USAGE_PANEL,
};

verus! {

// ---------------------------------------------------------------------------
// The page
// ---------------------------------------------------------------------------

/// The page shows the teams, the directory for a new one, the app server, the log of its runs and
/// the selected team.
pub proof fn pages_hold_their_parts(ui: TeamUi)
    ensures
        ({
            let page = team_page(ui);
            let teams = ranked(ui.teams@, last_changed_first());
            let selected = selected_team(teams, opt_view(ui.asked_team));
            &&& has_text(page, team_links(teams, selected))
            &&& has_text(page, directory_href(ui.cwd@, selected))
            &&& has_text(page, html(ui.cwd@))
            &&& has_text(
                page,
                directory_picker(
                    ui.directory.path@,
                    opt_view(ui.directory.parent),
                    ui.directory.entries@,
                    selected,
                ),
            )
            &&& has_text(page, html(ui.registered_app_server_url@))
            &&& has_text(page, runs_log(opt_view(ui.ui_runs_log)))
            &&& ui.detail is Some ==> has_text(
                page,
                team_detail(
                    ui.detail->0,
                    opt_view(ui.asked_task),
                    opt_view(ui.asked_language),
                    ui.cwd@,
                ),
            )
            &&& ui.detail is None ==> has_text(
                page,
                "<section><h2>No team selected</h2></section>"@,
            )
        }),
{
    broadcast use {piece_of_itself, piece_of_left, piece_at_end, pair_at_end, triple_at_end};

}

/// The language of the translation: the one that is asked for, or Japanese.
pub open spec fn shown_language(asked: Option<Seq<char>>) -> Seq<char> {
    if asked is Some {
        asked->0
    } else {
        "ja"@
    }
}

/// The detail of a team shows its goal, its boards and its chat with the lead.
pub proof fn details_show_the_work(
    detail: TeamDetail,
    asked_task: Option<Seq<char>>,
    asked_language: Option<Seq<char>>,
    cwd: Seq<char>,
)
    ensures
        ({
            let text = team_detail(detail, asked_task, asked_language, cwd);
            let id = detail.config.id@;
            let members = detail.config.members@;
            let language = shown_language(asked_language);
            &&& has_text(text, "<section><h2>"@ + html(id) + "</h2><p>"@)
            &&& has_text(text, html(detail.config.goal@) + "</p>\n"@)
            &&& has_text(
                text,
                team_boards(
                    detail.config,
                    detail.tasks@,
                    detail.jobs@,
                    detail.waits@,
                    detail.nodes@,
                    Some(detail.journal),
                    asked_task,
                    cwd,
                ),
            )
            &&& has_text(
                text,
                "\n<h3>Lead Chat</h3>"@ + lead_chat(
                    detail.events@,
                    id,
                    opt_view(detail.lead_live),
                ),
            )
        }),
{
    broadcast use {piece_of_itself, piece_of_left, piece_at_end, pair_at_end, triple_at_end};

}

/// The detail of a team shows its usage, its members, its nodes and its tasks.
pub proof fn details_show_the_tables(
    detail: TeamDetail,
    asked_task: Option<Seq<char>>,
    asked_language: Option<Seq<char>>,
    cwd: Seq<char>,
)
    ensures
        ({
            let text = team_detail(detail, asked_task, asked_language, cwd);
            let id = detail.config.id@;
            let members = detail.config.members@;
            let language = shown_language(asked_language);
            &&& has_text(
                text,
                usage_section(detail.usage@, detail.usage_shares, detail.side_channel@),
            )
            &&& has_text(
                text,
                MEMBERS_HEAD@ + member_rows(
                    members,
                    detail.standings@,
                    detail.tasks@,
                    detail.nodes@,
                    Some(detail.events@),
                ),
            )
            &&& has_text(text, NODES_HEAD@ + node_rows(detail.nodes@, detail.node_ages@))
            &&& has_text(text, TASKS_HEAD@ + task_rows(detail.tasks@))
        }),
{
    broadcast use {piece_of_itself, piece_of_left, piece_at_end, pair_at_end, triple_at_end};

}

/// The detail of a team shows its messages with their translation, its threads, and the last forty
/// lines of its events.
pub proof fn details_show_the_messages(
    detail: TeamDetail,
    asked_task: Option<Seq<char>>,
    asked_language: Option<Seq<char>>,
    cwd: Seq<char>,
)
    ensures
        ({
            let text = team_detail(detail, asked_task, asked_language, cwd);
            let id = detail.config.id@;
            let members = detail.config.members@;
            let language = shown_language(asked_language);
            &&& has_text(
                text,
                "</table>\n<h3>Team Messages</h3>"@ + message_board(
                    detail.events@,
                    id,
                    language,
                    translation_panel(
                        opt_view(detail.translation_output),
                        opt_view(detail.translation_status),
                        id,
                        known_language(language),
                    ),
                ),
            )
            &&& has_text(
                text,
                "\n<h3>Thread Contents</h3>"@ + thread_board(
                    members,
                    detail.standings@,
                    detail.tasks@,
                    detail.nodes@,
                    Some(detail.events@),
                ),
            )
            &&& has_text(
                text,
                "\n<h3>Events</h3><pre>"@ + escaped_tail(events_text(detail.events@), 40),
            )
        }),
{
    broadcast use {piece_of_itself, piece_of_left, piece_at_end, pair_at_end, triple_at_end};

}

/// A team goes before another on the list where it was changed later; those that were changed at
/// the same time keep their order. All teams are listed.
pub proof fn teams_are_listed_newest_first(teams: Seq<TeamSummary>)
    ensures
        ranked(teams, last_changed_first()).len() == teams.len(),
        forall|team: TeamSummary| #[trigger]
            ranked(teams, last_changed_first()).contains(team) <==> teams.contains(team),
        forall|i: int, j: int|
            0 <= i < j < teams.len() ==> !text_less(
                (#[trigger] ranked(teams, last_changed_first())[i]).updated_at@,
                (#[trigger] ranked(teams, last_changed_first())[j]).updated_at@,
            ),
{
    page_orders_are_rankings();
    ranked_keeps_items(teams, last_changed_first());
    let sorted = ranked(teams, last_changed_first());
    assert forall|i: int, j: int| 0 <= i < j < teams.len() implies !text_less(
        (#[trigger] sorted[i]).updated_at@,
        (#[trigger] sorted[j]).updated_at@,
    ) by {
        assert(!last_changed_first()(sorted[j], sorted[i]));
    }
}

/// The selected team is the one that is asked for, or the first of the list, where there is one.
pub proof fn the_right_team_is_selected(teams: Seq<TeamSummary>, asked: Seq<char>)
    ensures
        selected_team(teams, Some(asked)) == Some(id_of(asked)),
        teams.len() > 0 ==> selected_team(teams, None) == Some(teams[0].id@),
        teams.len() == 0 ==> selected_team(teams, None) is None,
{
}

/// The link of a team names it and shows its goal, its last change and its state; that of the
/// selected team is marked.
pub proof fn team_links_show_the_team(team: TeamSummary, selected: Option<Seq<char>>)
    ensures
        has_text(team_link(team, selected), html(team.id@) + "</strong><span>"@ + html(team.goal@)),
        has_text(team_link(team, selected), html(ui_time(team.updated_at@))),
        has_text(
            team_link(team, selected),
            team.run_status.class() + r#"">"#@ + team.run_status.text(),
        ),
        selected == Some(team.id@) ==> has_text(
            team_link(team, selected),
            r#""><a class="team "#@ + "active"@ + r#"" href="/?team="#@,
        ),
        selected != Some(team.id@) ==> has_text(
            team_link(team, selected),
            r#""><a class="team "#@ + ""@ + r#"" href="/?team="#@,
        ),
{
    broadcast use {piece_of_itself, piece_of_left, piece_at_end, pair_at_end, triple_at_end};

}

/// The directory picker links to the parent directory, where there is one, and to the first eighty
/// directories by name.
pub proof fn directories_are_listed(
    current: Seq<char>,
    parent: Option<Seq<char>>,
    entries: Seq<DirectoryEntry>,
    team: Option<Seq<char>>,
)
    ensures
        has_text(directory_picker(current, parent, entries, team), html(current)),
        parent is Some ==> has_text(
            directory_picker(current, parent, entries, team),
            parent_link(parent, team),
        ) && parent_link(parent, team) == r#"<a href=""#@ + directory_href(parent->0, team)
            + r#"">../</a>"#@,
        parent is None ==> parent_link(parent, team).len() == 0,
        exists|shown: Seq<DirectoryEntry>| {
            &&& has_text(
                directory_picker(current, parent, entries, team),
                #[trigger] directory_links(shown, team),
            )
            &&& shown.len() == if entries.len() <= 80 {
                entries.len()
            } else {
                80
            }
            &&& forall|i: int| 0 <= i < shown.len() ==> entries.contains(#[trigger] shown[i])
            &&& forall|i: int, j: int|
                0 <= i < j < shown.len() ==> !text_less(
                    (#[trigger] shown[j]).name@,
                    (#[trigger] shown[i]).name@,
                )
            &&& forall|entry: DirectoryEntry, j: int|
                #[trigger] entries.contains(entry) && !shown.contains(entry) && 0 <= j
                    < shown.len() ==> !text_less(entry.name@, (#[trigger] shown[j]).name@)
        },
{
    broadcast use {piece_of_itself, piece_of_left, piece_at_end, pair_at_end, triple_at_end};

    reveal_strlit("");
    page_orders_are_rankings();
    let less = by_name();
    top_items_lead(entries, less, 80);
    let shown = first_n(ranked(entries, less), 80);
    assert(shown.map_values(|entry: DirectoryEntry| directory_link(entry, team))
        =~= shown.map_values(
        |entry: DirectoryEntry|
            r#"<a href=""#@ + directory_href(entry.path@, team) + r#"">"#@ + html(entry.name@)
                + "/</a>"@,
    ));
    assert(has_text(
        directory_picker(current, parent, entries, team),
        directory_links(shown, team),
    ));
    assert forall|i: int| 0 <= i < shown.len() implies entries.contains(#[trigger] shown[i]) by {
        assert(shown.contains(shown[i]));
    }
    assert forall|i: int, j: int| 0 <= i < j < shown.len() implies !text_less(
        (#[trigger] shown[j]).name@,
        (#[trigger] shown[i]).name@,
    ) by {
        assert(!less(shown[j], shown[i]));
    }
    assert forall|entry: DirectoryEntry, j: int|
        #[trigger] entries.contains(entry) && !shown.contains(entry) && 0 <= j
            < shown.len() implies !text_less(entry.name@, (#[trigger] shown[j]).name@) by {
        assert(!less(entry, shown[j]));
    }
}

/// The links to directories, each with its path and its name.
pub open spec fn directory_links(shown: Seq<DirectoryEntry>, team: Option<Seq<char>>) -> Seq<char> {
    concat(
        shown.map_values(
            |entry: DirectoryEntry|
                r#"<a href=""#@ + directory_href(entry.path@, team) + r#"">"#@ + html(entry.name@)
                    + "/</a>"@,
        ),
    )
}

/// A link to a directory keeps the selected team.
pub proof fn links_keep_the_team(path: Seq<char>, team: Seq<char>)
    ensures
        directory_href(path, Some(team)) == "/?team="@ + query_text(team) + "&cwd="@ + query_text(
            path,
        ),
        directory_href(path, None) == "/?cwd="@ + query_text(path),
{
}

/// The log of the page's runs shows its last eighty lines, and is left out where there is nothing
/// to show.
pub proof fn run_logs_show_their_end(log: Seq<char>)
    ensures
        runs_log(None).len() == 0,
        is_blank(escaped_tail(log, 80)) ==> runs_log(Some(log)).len() == 0,
        !is_blank(escaped_tail(log, 80)) ==> runs_log(Some(log))
            == "<details><summary>UI Run Log</summary><pre>"@ + escaped_tail(log, 80)
            + "</pre></details>"@,
        forall|n: nat|
            lines(log).len() <= n ==> #[trigger] escaped_tail(log, n) == join(
                lines(log).map_values(|line: Seq<char>| html(line)),
                "\n"@,
            ),
        forall|n: nat|
            lines(log).len() > n ==> #[trigger] escaped_tail(log, n) == join(
                lines(log).subrange(lines(log).len() - n, lines(log).len() as int).map_values(
                    |line: Seq<char>| html(line),
                ),
                "\n"@,
            ),
{
    reveal_strlit("");
    assert forall|n: nat| lines(log).len() > n implies #[trigger] escaped_tail(log, n) == join(
        lines(log).subrange(lines(log).len() - n, lines(log).len() as int).map_values(
            |line: Seq<char>| html(line),
        ),
        "\n"@,
    ) by {
        assert(last_n(lines(log), n as int) =~= lines(log).subrange(
            lines(log).len() - n,
            lines(log).len() as int,
        ));
    }
}

/// The realtime view starts with the member called `lead`, or with the first member, or with a
/// member of that name where there are none.
pub proof fn realtime_starts_with_the_lead(members: Seq<TeamMember>, i: int)
    ensures
        is_first(members, is_called("lead"@), i) ==> realtime_default(members) == "lead"@,
        has_none(members, is_called("lead"@)) && members.len() > 0 ==> realtime_default(members)
            == members[0].name@,
        members.len() == 0 ==> realtime_default(members) == "lead"@,
{
    crate::laws::dashboard::the_right_journal_is_shown(members, "lead"@, i);
    named_or_not(members, "lead"@, i);
}

proof fn named_or_not(members: Seq<TeamMember>, name: Seq<char>, i: int)
    ensures
        is_first(members, is_called(name), i) ==> crate::journal::member_named(members, name)
            == Some(members[i]),
        has_none(members, is_called(name)) ==> crate::journal::member_named(members, name) is None,
    decreases members.len(),
{
    if members.len() > 0 {
        crate::laws::none_of_rest(members, is_called(name));
        if members[0].name@ != name {
            crate::laws::first_of_rest(members, is_called(name), i);
            named_or_not(members.drop_first(), name, i - 1);
        } else if i > 0 {
            assert(is_called(name)(members[0]));
        }
    }
}

// ---------------------------------------------------------------------------
// Rows
// ---------------------------------------------------------------------------

/// The row of a member shows its name, role and session, its open tasks, its node and where that
/// is, its mail, how long it waits and its thread, in this order.
pub proof fn member_rows_show_the_member(
    member: TeamMember,
    standing: MemberStanding,
    tasks: Seq<TeamTask>,
    nodes: Seq<TeamNode>,
    events: Option<Seq<TeamEventRecord>>,
)
    ensures
        ({
            let node = inferred_node(
                events,
                member.name@,
                if member.node is Some {
                    member.node->0@
                } else {
                    "local"@
                },
            );
            let cells = |mail: Seq<char>, wait: Seq<char>|
                seq![
                    html(member.name@),
                    html(member.role@),
                    member.status.text(),
                    html(task_summary(tasks, member.name@)),
                    html(node),
                    html(location_of(nodes, node)),
                    html(mail),
                    html(wait),
                    code(given(member.thread_id)),
                ];
            &&& standing.cooldown is None ==> member_row(
                member,
                Some(standing),
                tasks,
                nodes,
                events,
            ) == table_row(
                cells(
                    decimal(standing.unread as nat) + "/"@ + decimal(
                        standing.direct_unread as nat,
                    ),
                    "-"@,
                ),
            )
            &&& standing.cooldown is Some ==> member_row(
                member,
                Some(standing),
                tasks,
                nodes,
                events,
            ) == table_row(
                cells(
                    decimal(standing.unread as nat) + "/"@ + decimal(
                        standing.direct_unread as nat,
                    ),
                    crate::model::duration_text(standing.cooldown->0 as nat),
                ),
            )
            &&& member_row(member, None, tasks, nodes, events) == table_row(cells("0/0"@, "-"@))
        }),
{
    reveal_strlit("");
    assert(""@ =~= Seq::<char>::empty());
    if standing.cooldown is Some {
        let seconds = standing.cooldown->0 as nat;
        assert(crate::model::duration_text(seconds).len() > 0) by {
            reveal_strlit("s");
            reveal_strlit("m");
            reveal_strlit("h");
            assert("s"@.len() == 1 && "m"@.len() == 1 && "h"@.len() == 1);
        }
    }
}

/// The row of a node shows its name, kind and status, its address, when it was last seen and how
/// long that is ago, whether it is stale, and its host, container and directory, in this order.
pub proof fn node_rows_show_the_node(node: TeamNode, age: Option<u64>)
    ensures
        node_row(node, age) == table_row(
            seq![
                html(node.id@),
                node.kind.text(),
                html(crate::status::node_status_text(node.status, is_stale(age))),
                code(given(node.url)),
                html(ui_time(node.updated_at@)),
                html(crate::status::age_text(age)),
                if is_stale(age) {
                    r#"<span class="pill warn">stale</span>"#@
                } else {
                    "-"@
                },
                html(given(node.host)),
                html(given(node.container)),
                html(given(node.cwd)),
            ],
        ),
        node.kind is Local ==> node.kind.text() == "Local"@,
        node.kind is Manual ==> node.kind.text() == "Manual"@,
        node.kind is Ssh ==> node.kind.text() == "Ssh"@,
        node.kind is Docker ==> node.kind.text() == "Docker"@,
        node.kind is SshDocker ==> node.kind.text() == "SshDocker"@,
{
    reveal_strlit("");
    assert(""@ =~= Seq::<char>::empty());
}

/// The row of a task shows its name, status, owner and subject.
pub proof fn task_rows_show_the_task(task: TeamTask)
    ensures
        task_row(task) == table_row(
            seq![
                html(task.id@),
                html(task.status.text()),
                html(given(task.owner)),
                html(task.subject@),
            ],
        ),
{
    reveal_strlit("");
    assert(""@ =~= Seq::<char>::empty());
}

/// Every member, node and task has its row, in order, with what was read for it.
pub proof fn tables_have_every_row(
    members: Seq<TeamMember>,
    standings: Seq<MemberStanding>,
    tasks: Seq<TeamTask>,
    nodes: Seq<TeamNode>,
    ages: Seq<Option<u64>>,
    events: Option<Seq<TeamEventRecord>>,
)
    requires
        standings.len() == members.len(),
        ages.len() == nodes.len(),
    ensures
        member_rows(members, standings, tasks, nodes, events) == concat(
            Seq::new(
                members.len(),
                |i: int| member_row(members[i], Some(standings[i]), tasks, nodes, events),
            ),
        ),
        node_rows(nodes, ages) == concat(
            Seq::new(nodes.len(), |i: int| node_row(nodes[i], ages[i])),
        ),
        task_rows(tasks) == concat(Seq::new(tasks.len(), |i: int| task_row(tasks[i]))),
        thread_board(members, standings, tasks, nodes, events) == r#"<div class="threads">"#@
            + concat(
            Seq::new(
                members.len(),
                |i: int| thread_item(members[i], Some(standings[i]), tasks, nodes, events),
            ),
        ) + "</div>"@,
{
    assert(Seq::new(
        members.len(),
        |i: int|
            member_row(
                members[i],
                crate::page::standing_at(standings, i),
                tasks,
                nodes,
                events,
            ),
    ) =~= Seq::new(
        members.len(),
        |i: int| member_row(members[i], Some(standings[i]), tasks, nodes, events),
    ));
    assert(Seq::new(
        members.len(),
        |i: int|
            thread_item(
                members[i],
                crate::page::standing_at(standings, i),
                tasks,
                nodes,
                events,
            ),
    ) =~= Seq::new(
        members.len(),
        |i: int| thread_item(members[i], Some(standings[i]), tasks, nodes, events),
    ));
    assert(Seq::new(
        nodes.len(),
        |i: int| node_row(nodes[i], crate::page::age_at(ages, i)),
    ) =~= Seq::new(nodes.len(), |i: int| node_row(nodes[i], ages[i])));
    assert(tasks.map_values(|task: TeamTask| task_row(task)) =~= Seq::new(
        tasks.len(),
        |i: int| task_row(tasks[i]),
    ));
}

/// The threads of a member are shown under its name, role, session, tasks and place: what it writes
/// now and what it wrote last, each with no more than its last eight thousand characters.
pub proof fn threads_are_shown(
    member: TeamMember,
    standing: MemberStanding,
    tasks: Seq<TeamTask>,
    nodes: Seq<TeamNode>,
    events: Option<Seq<TeamEventRecord>>,
)
    ensures
        ({
            let text = thread_item(member, Some(standing), tasks, nodes, events);
            let node = inferred_node(
                events,
                member.name@,
                if member.node is Some {
                    member.node->0@
                } else {
                    "local"@
                },
            );
            &&& has_text(text, html(member.name@) + " ("@ + html(member.role@))
            &&& has_text(text, ") - session "@ + member.status.text())
            &&& has_text(text, " - tasks "@ + html(task_summary(tasks, member.name@)) + " - "@)
            &&& has_text(text, html(location_of(nodes, node)))
            &&& has_text(
                text,
                "</code></p>\n<h4>Live Stream</h4><pre>"@ + html(tail_of(standing.live@, 8000)),
            )
            &&& has_text(
                text,
                "</pre>\n<h4>Last Message</h4><pre>"@ + html(tail_of(standing.last@, 8000)),
            )
        }),
{
    broadcast use {piece_of_itself, piece_of_left, piece_at_end, pair_at_end, triple_at_end};

}

// ---------------------------------------------------------------------------
// Cards
// ---------------------------------------------------------------------------

/// The boards are those of the selected task and the selected member.
pub proof fn boards_are_those_of_the_selection(
    config: TeamConfig,
    tasks: Seq<TeamTask>,
    jobs: Seq<TeamJob>,
    waits: Seq<TeamWait>,
    nodes: Seq<TeamNode>,
    journal: Option<JournalSource>,
    asked: Option<Seq<char>>,
    cwd: Seq<char>,
)
    ensures
        ({
            let text = team_boards(config, tasks, jobs, waits, nodes, journal, asked, cwd);
            &&& has_text(text, tasks_board(config, tasks, selected_task_id(tasks, asked), cwd))
            &&& has_text(text, jobs_board(config, selected_task(tasks, asked), jobs, waits))
            &&& has_text(
                text,
                member_board(
                    config,
                    tasks,
                    nodes,
                    selected_member(config.members@, tasks, asked),
                    journal,
                ),
            )
        }),
{
    broadcast use {piece_of_itself, piece_of_left, piece_at_end, pair_at_end, triple_at_end};

}

/// A column shows its title, what it is for, how many cards it has, and the cards, or a note where
/// it has none.
pub proof fn columns_show_their_cards(
    class: Seq<char>,
    title: Seq<char>,
    subtitle: Seq<char>,
    cards: Seq<Seq<char>>,
    add: Seq<char>,
)
    ensures
        ({
            let text = kanban_column(class, title, subtitle, cards, add);
            &&& has_text(text, html(title) + "</strong><span>"@ + html(subtitle))
            &&& has_text(text, "</span></div><em>"@ + decimal(cards.len()))
            &&& cards.len() > 0 ==> has_text(text, concat(cards))
            &&& cards.len() == 0 ==> has_text(text, r#"<p class="kanban-empty">No items</p>"#@)
            &&& has_text(text, add)
        }),
{
    broadcast use {piece_of_itself, piece_of_left, piece_at_end, pair_at_end, triple_at_end};

}

/// The card of a task links to the task and shows its name, status, subject, owner and result; that
/// of the selected task is marked.
pub proof fn task_cards_show_the_task(
    config: TeamConfig,
    task: TeamTask,
    selected: Option<Seq<char>>,
    cwd: Seq<char>,
)
    ensures
        ({
            let text = task_card(config, task, selected, cwd);
            let owner = if task.owner is Some {
                task.owner->0@
            } else {
                "unassigned"@
            };
            &&& selected == Some(task.id@) ==> has_text(
                text,
                r#"<a class="kanban-card"#@ + " selected"@,
            )
            &&& selected != Some(task.id@) ==> has_text(
                text,
                r#"<a class="kanban-card"#@ + ""@ + r#"" href=""#@,
            )
            &&& has_text(
                text,
                html(
                    "/?team="@ + query_text(config.id@) + "&cwd="@ + query_text(cwd) + "&task="@
                        + query_text(task.id@),
                ),
            )
            &&& has_text(text, html(task.id@) + "</code>"@)
            &&& has_text(text, badge(task_class(task.status), html(task.status.text())))
            &&& has_text(text, "</div>\n<strong>"@ + html(one_line(task.subject@, 160)))
            &&& has_text(text, assignee(config.members@, owner))
            &&& has_text(text, result_note(opt_view(task.result)))
            &&& task.result is Some && !is_blank(task.result->0@) ==> has_text(
                text,
                r#"<p class="kanban-note">"#@ + html(one_line(task.result->0@, 180)) + "</p>"@,
            )
        }),
{
    broadcast use {piece_of_itself, piece_of_left, piece_at_end, pair_at_end, triple_at_end};

}

/// The card of a job shows its name, status, command and owner, where it runs and how it ended.
pub proof fn job_cards_show_the_job(members: Seq<TeamMember>, job: TeamJob)
    ensures
        ({
            let text = job_card(members, job);
            let owner = if job.owner is Some {
                job.owner->0@
            } else {
                "unassigned"@
            };
            &&& has_text(text, html(job.id@) + "</code>"@)
            &&& has_text(text, badge(job_class(job.status), job.status.text()))
            &&& has_text(text, "</div><strong>"@ + html(one_line(job.command@, 150)))
            &&& has_text(text, assignee(members, owner))
            &&& has_text(text, r#"<p class="kanban-note">node="#@ + html(job.node@) + " cwd="@)
            &&& has_text(text, " cwd="@ + html(job.cwd@) + " exit="@)
            &&& has_text(text, " exit="@ + exit_text(job.exit_code) + "</p></article>"@)
        }),
{
    broadcast use {piece_of_itself, piece_of_left, piece_at_end, pair_at_end, triple_at_end};

}

/// The card of a wait shows its name, status, title and owner, how far it is and its evidence.
pub proof fn wait_cards_show_the_wait(members: Seq<TeamMember>, wait: TeamWait)
    ensures
        ({
            let text = wait_card(members, wait);
            let owner = if wait.owner is Some {
                wait.owner->0@
            } else {
                "unassigned"@
            };
            &&& has_text(text, html(wait.id@) + "</code>"@)
            &&& has_text(text, badge(wait_class(wait.status), html(wait.status.text())))
            &&& has_text(text, "</div><strong>"@ + html(one_line(wait.title@, 150)))
            &&& has_text(text, assignee(members, owner))
            &&& has_text(
                text,
                r#"<p class="kanban-note">"#@ + html(one_line(wait.progress@, 170)),
            )
            &&& has_text(
                text,
                r#"</p><p class="kanban-note">evidence="#@ + html(
                    one_line(evidence_text(opt_view(wait.evidence)), 120),
                ) + "</p></article>"@,
            )
        }),
{
    broadcast use {piece_of_itself, piece_of_left, piece_at_end, pair_at_end, triple_at_end};

}

/// A badge has the style of a status and shows its name.
pub proof fn badges_show_the_status(class: Seq<char>, status: Seq<char>)
    ensures
        badge(class, status) == r#"<span class="status-badge "#@ + class + r#"">"#@ + status
            + "</span>"@,
{
}

/// Who works on something is shown with an initial, the name and the role.
pub proof fn assignees_are_shown(members: Seq<TeamMember>, owner: Seq<char>)
    ensures
        has_text(assignee(members, owner), html(initial(owner)) + "</span><span>"@ + html(owner)),
        has_text(
            assignee(members, owner),
            "</span><small>"@ + html(role_of(members, owner)) + "</small></div>"@,
        ),
{
    broadcast use {piece_of_itself, piece_of_left, piece_at_end, pair_at_end, triple_at_end};

}

/// The head of the jobs board shows the task with its status, subject, description and owner, and
/// leads back to the team.
pub proof fn jobs_boards_show_the_task(config: TeamConfig, task: TeamTask)
    ensures
        ({
            let text = jobs_board_head(config, task);
            let owner = if task.owner is Some {
                task.owner->0@
            } else {
                "unassigned"@
            };
            &&& has_text(text, html(task.id@) + "</div><div>"@)
            &&& has_text(
                text,
                r#"</p><h4>Jobs Board</h4></div><a class="board-back" href="/?team="#@
                    + query_text(config.id@),
            )
            &&& has_text(text, badge(task_class(task.status), html(task.status.text())) + "<h4>"@)
            &&& has_text(text, "<h4>"@ + html(one_line(task.subject@, 180)) + "</h4><p>"@)
            &&& has_text(text, "</h4><p>"@ + html(one_line(task.description@, 220)))
            &&& has_text(text, html(initial(owner)) + "</span>"@ + html(owner))
            &&& has_text(text, "</strong><small>"@ + html(role_of(config.members@, owner)))
        }),
{
    broadcast use {piece_of_itself, piece_of_left, piece_at_end, pair_at_end, triple_at_end};

}

/// The row of a member shows its name, role, status and place; that of the selected one is marked.
pub proof fn assignment_rows_show_the_member(
    member: TeamMember,
    nodes: Seq<TeamNode>,
    selected: Seq<char>,
)
    ensures
        ({
            let text = assignment_row(member, nodes, selected);
            let node = if member.node is Some {
                member.node->0@
            } else {
                "local"@
            };
            &&& member.name@ == selected ==> has_text(text, r#"<tr class=""#@ + "selected"@)
            &&& member.name@ != selected ==> has_text(
                text,
                r#"<tr class=""#@ + ""@ + r#""><td><span class="avatar">"#@,
            )
            &&& has_text(
                text,
                html(initial(member.name@)) + "</span><strong>"@ + html(member.name@),
            )
            &&& has_text(text, "</strong></td><td>"@ + html(member.role@) + "</td><td>"@)
            &&& has_text(text, badge(member_class(member.status), member.status.text()))
            &&& has_text(text, html(location_of(nodes, node)) + "</td></tr>"@)
        }),
{
    broadcast use {piece_of_itself, piece_of_left, piece_at_end, pair_at_end, triple_at_end};

}

/// The board of members shows the assignment table, the tabs, the tasks of the selected member and
/// the journal; a note stands for no tasks.
pub proof fn member_boards_hold_their_parts(
    config: TeamConfig,
    tasks: Seq<TeamTask>,
    nodes: Seq<TeamNode>,
    selected: Seq<char>,
    journal: Option<JournalSource>,
)
    ensures
        ({
            let text = member_board(config, tasks, nodes, selected, journal);
            let rows = member_task_rows(tasks, selected);
            &&& has_text(text, concat(assignment_rows(config.members@, nodes, selected)))
            &&& has_text(text, concat(member_tabs(config.members@, selected, ""@)))
            &&& rows.len() > 0 ==> has_text(text, concat(rows))
            &&& rows.len() == 0 ==> has_text(
                text,
                r#"<tr><td colspan="3">No assigned tasks</td></tr>"#@,
            )
            &&& has_text(text, journal_panel(journal, config.members@, selected))
        }),
{
    broadcast use {piece_of_itself, piece_of_left, piece_at_end, pair_at_end, triple_at_end};

}

/// The row of a task in a member's list shows its name, subject and status.
pub proof fn member_tasks_are_shown(task: TeamTask)
    ensures
        has_text(
            member_task_row(task),
            "<tr><td>T"@ + html(task.id@) + "</td><td>"@,
        ),
        has_text(member_task_row(task), html(one_line(task.subject@, 120)) + "</td><td>"@),
        has_text(
            member_task_row(task),
            badge(task_class(task.status), html(task.status.text())) + "</td></tr>"@,
        ),
{
    broadcast use {piece_of_itself, piece_of_left, piece_at_end, pair_at_end, triple_at_end};

}

// ---------------------------------------------------------------------------
// Messages
// ---------------------------------------------------------------------------

/// The message board shows the last eighty messages that were sent, and the translation; its form
/// translates to the language that is shown.
pub proof fn message_boards_hold_their_parts(
    events: Seq<TeamEventRecord>,
    team: Seq<char>,
    language: Seq<char>,
    translation: Seq<char>,
)
    ensures
        ({
            let text = message_board(events, team, language, translation);
            &&& has_text(text, html(team))
            &&& has_text(text, language_options(known_language(language)))
            &&& has_text(text, translation + "\n<div class=\"messages\">"@)
            &&& has_text(
                text,
                articles_or(
                    last_n(board_articles(events), 80),
                    "<p>No team messages yet.</p>"@,
                ),
            )
        }),
{
    broadcast use {piece_of_itself, piece_of_left, piece_at_end, pair_at_end, triple_at_end};

}

/// The chat with the lead shows the last thirty messages of the chat, and the lead's live thread.
pub proof fn lead_chats_hold_their_parts(
    events: Seq<TeamEventRecord>,
    team: Seq<char>,
    live: Option<Seq<char>>,
)
    ensures
        ({
            let text = lead_chat(events, team, live);
            &&& has_text(text, html(team))
            &&& has_text(
                text,
                articles_or(last_n(chat_articles(events), 30), "<p>No lead chat yet.</p>"@),
            )
            &&& has_text(text, lead_thread(live))
        }),
{
    broadcast use {piece_of_itself, piece_of_left, piece_at_end, pair_at_end, triple_at_end};

}

/// A message is shown with its time, its sender and its recipients, where it came from, and its
/// text.
pub proof fn messages_are_shown(event: TeamEventRecord)
    ensures
        ({
            let data = event.data@;
            let from = data_text(data, "from"@, ""@);
            let to = recipients_text(data.member("to"@), ", "@);
            let message = data_text(data, "message"@, ""@);
            let source = data_text(data, "source"@, "mailbox"@);
            &&& has_text(board_article(event), html(ui_time(event.timestamp@)))
            &&& has_text(board_article(event), html(from) + " -> "@ + html(to))
            &&& has_text(
                board_article(event),
                html(source) + "</span></div><div>"@ + html(message),
            )
            &&& has_text(chat_article(event), html(ui_time(event.timestamp@)))
            &&& has_text(chat_article(event), html(from) + " -> "@ + html(to))
            &&& has_text(
                chat_article(event),
                "</span></div><div>"@ + html(message) + "</div></article>"@,
            )
            &&& from == "user"@ ==> has_text(
                chat_article(event),
                r#"<article class="msg chat-"#@ + "user"@,
            )
            &&& from != "user"@ ==> has_text(
                chat_article(event),
                r#"<article class="msg chat-"#@ + "lead"@,
            )
            &&& log_line(event) == "- ["@ + event.timestamp@ + "] "@ + from + " -> "@ + to + " ("@
                + source + "): "@ + message
        }),
{
    broadcast use {piece_of_itself, piece_of_left, piece_at_end, pair_at_end, triple_at_end};

}

/// An option offers a language under its name, and the selected one is marked.
pub proof fn options_offer_languages(code_text: Seq<char>, label: Seq<char>, selected: Seq<char>)
    ensures
        code_text == selected ==> language_option(code_text, label, selected)
            == r#"<option value=""#@ + html(code_text) + r#"""#@ + " selected"@ + ">"@ + html(label)
            + "</option>"@,
        code_text != selected ==> language_option(code_text, label, selected)
            == r#"<option value=""#@ + html(code_text) + r#"""#@ + ""@ + ">"@ + html(label)
            + "</option>"@,
{
}

// ---------------------------------------------------------------------------
// Usage
// ---------------------------------------------------------------------------

/// Without records the panel says so; otherwise it is that of their report.
pub proof fn usage_is_shown(
    records: Seq<TeamTokenUsageRecord>,
    shares: TokenUsageShares,
    side_channel: Seq<SideChannelFile>,
)
    ensures
        records.len() == 0 ==> usage_section(records, shares, side_channel) == EMPTY_USAGE_PANEL@,
        records.len() > 0 ==> usage_section(records, shares, side_channel) == usage_panel(
            usage_report(usage_updates(records)),
            shares,
            pressure_panel(side_channel),
        ),
{
}

/// The panel shows each counter of the total under its name, each table under its title, the
/// bottlenecks, the side channel and the recent updates.
pub proof fn usage_panels_hold_their_parts(
    report: UsageReportView,
    shares: TokenUsageShares,
    side_rows: Seq<char>,
)
    ensures
        ({
            let text = usage_panel(report, shares, side_rows);
            let total = report.total.total_tokens;
            &&& has_text(text, summary_figure(total, "Total"@))
            &&& has_text(text, summary_figure(report.total.input_tokens, "Input"@))
            &&& has_text(text, summary_figure(report.total.cached_input_tokens, "Cached Input"@))
            &&& has_text(text, summary_figure(report.total.uncached(), "Uncached Input"@))
            &&& has_text(text, summary_figure(report.total.output_tokens, "Output"@))
            &&& has_text(text, summary_figure(report.total.reasoning_output_tokens, "Reasoning"@))
            &&& has_text(
                text,
                usage_table(
                    " open"@,
                    "By Feature"@,
                    "Feature"@,
                    usage_rows(
                        report.by_category,
                        total,
                        crate::text::views(shares.by_category@),
                    ),
                ),
            )
            &&& has_text(
                text,
                usage_table(
                    ""@,
                    "By Member"@,
                    "Member"@,
                    usage_rows(report.by_member, total, crate::text::views(shares.by_member@)),
                ),
            )
            &&& has_text(
                text,
                usage_table(
                    ""@,
                    "By Feature x Member"@,
                    "Feature / Member"@,
                    usage_rows(
                        report.by_category_member,
                        total,
                        crate::text::views(shares.by_category_member@),
                    ),
                ),
            )
            &&& has_text(
                text,
                usage_table(
                    ""@,
                    "By Node"@,
                    "Node"@,
                    usage_rows(report.by_node, total, crate::text::views(shares.by_node@)),
                ),
            )
            &&& has_text(
                text,
                crate::token_usage::hotspot_rows(report.hotspots, shares.hotspots@),
            )
            &&& has_text(text, side_rows + "\n"@)
            &&& has_text(text, crate::token_usage::recent_rows(report.recent))
        }),
{
    broadcast use {piece_of_itself, piece_of_left, piece_at_end, pair_at_end, triple_at_end};

}

} // verus!
