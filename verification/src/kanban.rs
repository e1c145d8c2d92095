//! The work boards: tasks, jobs and waits, and member assignment.

use vstd::prelude::*;

use crate::escape::{html, html_escape, query_text, url_encode};
use crate::journal::{
    find_worker, first_worker, is_worker, journal_panel, member_tabs, render_member_journal_panel,
    render_member_tabs, source_ref, JournalSource,
};
use crate::model::{
    compact_one_line, id_of, one_line, sanitize_id, MemberStatus, TaskStatus, TeamConfig, TeamJob,
    TeamJobStatus, TeamMember, TeamNode, TeamNodeKind, TeamTask, TeamWait, TeamWaitStatus,
};
use crate::number::{decimal, integer, integer_text, usize_text};
use crate::split::{concat, concat_all, first_n};
use crate::text::{
    chars_of, is_blank, is_text, opt_view, same_text, str_or, text_is_blank, text_or, views,
};

verus! {

// ---------------------------------------------------------------------------
// Styles
// ---------------------------------------------------------------------------

/// The column of the jobs board in which a job stands.
pub open spec fn job_bucket_name(status: TeamJobStatus) -> Seq<char> {
    match status {
        TeamJobStatus::Running => "progress"@,
        TeamJobStatus::Completed => "done"@,
        TeamJobStatus::Failed => "review"@,
        TeamJobStatus::Stopped | TeamJobStatus::Unknown => "todo"@,
    }
}

/// The column of the jobs board in which a job stands.
pub fn job_bucket(status: TeamJobStatus) -> (out: &'static str)
    ensures
        out@ == job_bucket_name(status),
{
    match status {
        TeamJobStatus::Running => "progress",
        TeamJobStatus::Completed => "done",
        TeamJobStatus::Failed => "review",
        TeamJobStatus::Stopped | TeamJobStatus::Unknown => "todo",
    }
}

/// The column of the jobs board in which a wait stands.
pub open spec fn wait_bucket_name(status: TeamWaitStatus) -> Seq<char> {
    match status {
        TeamWaitStatus::Waiting => "todo"@,
        TeamWaitStatus::Running | TeamWaitStatus::Polling => "progress"@,
        TeamWaitStatus::Blocked | TeamWaitStatus::Failed => "review"@,
        TeamWaitStatus::Completed | TeamWaitStatus::Cancelled => "done"@,
    }
}

/// The column of the jobs board in which a wait stands.
pub fn wait_bucket(status: TeamWaitStatus) -> (out: &'static str)
    ensures
        out@ == wait_bucket_name(status),
{
    match status {
        TeamWaitStatus::Waiting => "todo",
        TeamWaitStatus::Running | TeamWaitStatus::Polling => "progress",
        TeamWaitStatus::Blocked | TeamWaitStatus::Failed => "review",
        TeamWaitStatus::Completed | TeamWaitStatus::Cancelled => "done",
    }
}

/// The style class of a task status.
pub open spec fn task_class(status: TaskStatus) -> Seq<char> {
    match status {
        TaskStatus::Pending | TaskStatus::Ready | TaskStatus::Waiting => "todo"@,
        TaskStatus::InProgress => "active"@,
        TaskStatus::Review => "review"@,
        TaskStatus::Blocked | TaskStatus::Failed => "blocked"@,
        TaskStatus::Completed => "completed"@,
        TaskStatus::Cancelled => "muted"@,
    }
}

/// The style class of a task status.
pub fn task_status_css(status: TaskStatus) -> (out: &'static str)
    ensures
        out@ == task_class(status),
{
    match status {
        TaskStatus::Pending | TaskStatus::Ready | TaskStatus::Waiting => "todo",
        TaskStatus::InProgress => "active",
        TaskStatus::Review => "review",
        TaskStatus::Blocked | TaskStatus::Failed => "blocked",
        TaskStatus::Completed => "completed",
        TaskStatus::Cancelled => "muted",
    }
}

/// The style class of a job status.
pub open spec fn job_class(status: TeamJobStatus) -> Seq<char> {
    match status {
        TeamJobStatus::Running => "active"@,
        TeamJobStatus::Completed => "completed"@,
        TeamJobStatus::Failed => "blocked"@,
        TeamJobStatus::Stopped | TeamJobStatus::Unknown => "todo"@,
    }
}

/// The style class of a job status.
pub fn job_status_css(status: TeamJobStatus) -> (out: &'static str)
    ensures
        out@ == job_class(status),
{
    match status {
        TeamJobStatus::Running => "active",
        TeamJobStatus::Completed => "completed",
        TeamJobStatus::Failed => "blocked",
        TeamJobStatus::Stopped | TeamJobStatus::Unknown => "todo",
    }
}

/// The style class of a wait status.
pub open spec fn wait_class(status: TeamWaitStatus) -> Seq<char> {
    match status {
        TeamWaitStatus::Waiting => "todo"@,
        TeamWaitStatus::Running | TeamWaitStatus::Polling => "active"@,
        TeamWaitStatus::Blocked | TeamWaitStatus::Failed => "blocked"@,
        TeamWaitStatus::Completed => "completed"@,
        TeamWaitStatus::Cancelled => "muted"@,
    }
}

/// The style class of a wait status.
pub fn wait_status_css(status: TeamWaitStatus) -> (out: &'static str)
    ensures
        out@ == wait_class(status),
{
    match status {
        TeamWaitStatus::Waiting => "todo",
        TeamWaitStatus::Running | TeamWaitStatus::Polling => "active",
        TeamWaitStatus::Blocked | TeamWaitStatus::Failed => "blocked",
        TeamWaitStatus::Completed => "completed",
        TeamWaitStatus::Cancelled => "muted",
    }
}

/// The style class of a member status.
pub open spec fn member_class(status: MemberStatus) -> Seq<char> {
    match status {
        MemberStatus::Online | MemberStatus::Running => "active"@,
        MemberStatus::Standby => "todo"@,
        MemberStatus::Completed => "completed"@,
        MemberStatus::Failed | MemberStatus::Offline => "blocked"@,
    }
}

/// The style class of a member status.
pub fn member_status_css(status: MemberStatus) -> (out: &'static str)
    ensures
        out@ == member_class(status),
{
    match status {
        MemberStatus::Online | MemberStatus::Running => "active",
        MemberStatus::Standby => "todo",
        MemberStatus::Completed => "completed",
        MemberStatus::Failed | MemberStatus::Offline => "blocked",
    }
}

/// An ASCII letter or digit.
pub open spec fn is_ascii_alphanumeric(ch: char) -> bool {
    'a' <= ch <= 'z' || 'A' <= ch <= 'Z' || '0' <= ch <= '9'
}

/// A character that Unicode counts as a letter or a number.
pub uninterp spec fn is_alphanumeric(ch: char) -> bool;

/// The capital form of a character.
pub uninterp spec fn uppercase(ch: char) -> Seq<char>;

/// `char::is_alphanumeric`. Of the ASCII characters, letters and digits are alphanumeric.
#[verifier::external_body]
fn char_is_alphanumeric(ch: char) -> (yes: bool)
    ensures
        yes == is_alphanumeric(ch),
        ch < '\u{80}' ==> yes == is_ascii_alphanumeric(ch),
{
    ch.is_alphanumeric()
}

/// `char::to_uppercase`. Of the ASCII characters, small letters become their capitals, and the
/// others stay as they are.
#[verifier::external_body]
fn char_to_uppercase(ch: char) -> (out: String)
    ensures
        out@ == uppercase(ch),
        'a' <= ch <= 'z' ==> out@ == seq![(ch as u32 - 32) as char],
        ch < '\u{80}' && !('a' <= ch <= 'z') ==> out@ == seq![ch],
{
    ch.to_uppercase().collect()
}

/// The letter that stands for a name: the capital form of its first letter or number, or a
/// question mark where it has none.
pub open spec fn initial(name: Seq<char>) -> Seq<char>
    decreases name.len(),
{
    if name.len() == 0 {
        "?"@
    } else if is_alphanumeric(name[0]) {
        uppercase(name[0])
    } else {
        initial(name.drop_first())
    }
}

/// Every character is an ASCII character.
pub open spec fn is_ascii_text(text: Seq<char>) -> bool {
    forall|i: int| 0 <= i < text.len() ==> #[trigger] text[i] < '\u{80}'
}

/// The letter that stands for an ASCII name.
pub open spec fn ascii_initial(name: Seq<char>) -> Seq<char>
    decreases name.len(),
{
    if name.len() == 0 {
        "?"@
    } else if 'a' <= name[0] <= 'z' {
        seq![(name[0] as u32 - 32) as char]
    } else if is_ascii_alphanumeric(name[0]) {
        seq![name[0]]
    } else {
        ascii_initial(name.drop_first())
    }
}

/// The letter that stands for a name.
pub fn avatar_initial(name: &str) -> (out: String)
    ensures
        out@ == initial(name@),
        is_ascii_text(name@) ==> out@ == ascii_initial(name@),
{
    let chars = chars_of(name);
    assert(name@.skip(0) =~= name@);
    for i in 0..chars.len()
        invariant
            chars@ == name@,
            initial(name@) == initial(name@.skip(i as int)),
            is_ascii_text(name@) ==> ascii_initial(name@) == ascii_initial(name@.skip(i as int)),
    {
        assert(name@.skip(i as int)[0] == name@[i as int]);
        assert(name@.skip(i as int).drop_first() =~= name@.skip(i + 1));
        if char_is_alphanumeric(chars[i]) {
            return char_to_uppercase(chars[i]);
        }
    }
    "?".to_string()
}

/// A status badge.
pub open spec fn badge(class: Seq<char>, status: Seq<char>) -> Seq<char> {
    r#"<span class="status-badge "#@ + class + r#"">"#@ + status + "</span>"@
}

/// A status badge.
pub fn render_badge(class: &str, status: &str) -> (out: String)
    ensures
        out@ == badge(class@, status@),
{
    let mut out = r#"<span class="status-badge "#.to_string();
    out.append(class);
    out.append(r#"">"#);
    out.append(status);
    out.append("</span>");
    out
}

// ---------------------------------------------------------------------------
// Looking up members and nodes
// ---------------------------------------------------------------------------

/// The role of the first member with a name; nothing where there is none.
pub open spec fn role_of(members: Seq<TeamMember>, name: Seq<char>) -> Seq<char>
    decreases members.len(),
{
    if members.len() == 0 {
        ""@
    } else if members[0].name@ == name {
        members[0].role@
    } else {
        role_of(members.drop_first(), name)
    }
}

fn find_role<'a>(members: &'a Vec<TeamMember>, name: &str) -> (out: &'a str)
    ensures
        out@ == role_of(members@, name@),
{
    assert(members@.skip(0) =~= members@);
    for i in 0..members.len()
        invariant
            role_of(members@, name@) == role_of(members@.skip(i as int), name@),
    {
        assert(members@.skip(i as int).drop_first() =~= members@.skip(i + 1));
        if same_text(members[i].name.as_str(), name) {
            return members[i].role.as_str();
        }
    }
    ""
}

/// Where a node is.
pub open spec fn node_place(node: TeamNode) -> Seq<char> {
    match node.kind {
        TeamNodeKind::Local => "local machine"@,
        TeamNodeKind::Manual => text_or(node.url, "manual"@),
        TeamNodeKind::Ssh => "ssh:"@ + text_or(node.host, ""@) + " cwd="@ + text_or(node.cwd, ""@),
        TeamNodeKind::Docker => "docker:"@ + text_or(node.container, ""@) + " cwd="@ + text_or(
            node.cwd,
            ""@,
        ),
        TeamNodeKind::SshDocker => "ssh:"@ + text_or(node.host, ""@) + " docker:"@ + text_or(
            node.container,
            ""@,
        ) + " cwd="@ + text_or(node.cwd, ""@),
    }
}

/// Where a node is.
pub fn format_node_location(node: &TeamNode) -> (out: String)
    ensures
        out@ == node_place(*node),
{
    match node.kind {
        TeamNodeKind::Local => "local machine".to_string(),
        TeamNodeKind::Manual => str_or(&node.url, "manual").to_string(),
        TeamNodeKind::Ssh => {
            let mut out = "ssh:".to_string();
            out.append(str_or(&node.host, ""));
            out.append(" cwd=");
            out.append(str_or(&node.cwd, ""));
            out
        },
        TeamNodeKind::Docker => {
            let mut out = "docker:".to_string();
            out.append(str_or(&node.container, ""));
            out.append(" cwd=");
            out.append(str_or(&node.cwd, ""));
            out
        },
        TeamNodeKind::SshDocker => {
            let mut out = "ssh:".to_string();
            out.append(str_or(&node.host, ""));
            out.append(" docker:");
            out.append(str_or(&node.container, ""));
            out.append(" cwd=");
            out.append(str_or(&node.cwd, ""));
            out
        },
    }
}

/// Where the node with an identifier is, by the last such node; the identifier itself where there
/// is none.
pub open spec fn location_of(nodes: Seq<TeamNode>, id: Seq<char>) -> Seq<char>
    decreases nodes.len(),
{
    if nodes.len() == 0 {
        id
    } else if nodes.last().id@ == id {
        node_place(nodes.last())
    } else {
        location_of(nodes.drop_last(), id)
    }
}

/// Where the node with an identifier is.
pub fn find_location(nodes: &Vec<TeamNode>, id: &str) -> (out: String)
    ensures
        out@ == location_of(nodes@, id@),
{
    let mut n: usize = nodes.len();
    assert(nodes@.take(n as int) =~= nodes@);
    while n > 0
        invariant
            n <= nodes@.len(),
            location_of(nodes@, id@) == location_of(nodes@.take(n as int), id@),
        decreases n,
    {
        assert(nodes@.take(n as int).drop_last() =~= nodes@.take(n - 1));
        if same_text(nodes[n - 1].id.as_str(), id) {
            return format_node_location(&nodes[n - 1]);
        }
        n = n - 1;
    }
    id.to_string()
}

// ---------------------------------------------------------------------------
// The tasks board
// ---------------------------------------------------------------------------

/// The columns of the tasks board.
#[derive(Clone, Copy, Debug, PartialEq, Eq, Structural)]
pub enum TaskColumn {
    Todo,
    InProgress,
    Blocked,
    Completed,
}

impl TaskColumn {
    /// The title of the column.
    pub open spec fn title(self) -> Seq<char> {
        match self {
            TaskColumn::Todo => "Todo"@,
            TaskColumn::InProgress => "In Progress"@,
            TaskColumn::Blocked => "Blocked"@,
            TaskColumn::Completed => "Completed"@,
        }
    }

    fn title_text(self) -> (out: &'static str)
        ensures
            out@ == self.title(),
    {
        match self {
            TaskColumn::Todo => "Todo",
            TaskColumn::InProgress => "In Progress",
            TaskColumn::Blocked => "Blocked",
            TaskColumn::Completed => "Completed",
        }
    }

    /// What the column is for.
    pub open spec fn subtitle(self) -> Seq<char> {
        match self {
            TaskColumn::Todo => "Queued or waiting work"@,
            TaskColumn::InProgress => "Active execution and review"@,
            TaskColumn::Blocked => "Needs unblock or repair"@,
            TaskColumn::Completed => "Accepted or cancelled work"@,
        }
    }

    fn subtitle_text(self) -> (out: &'static str)
        ensures
            out@ == self.subtitle(),
    {
        match self {
            TaskColumn::Todo => "Queued or waiting work",
            TaskColumn::InProgress => "Active execution and review",
            TaskColumn::Blocked => "Needs unblock or repair",
            TaskColumn::Completed => "Accepted or cancelled work",
        }
    }

    /// Tasks with the status stand in the column.
    pub open spec fn holds(self, status: TaskStatus) -> bool {
        match self {
            TaskColumn::Todo => status is Pending || status is Ready || status is Waiting,
            TaskColumn::InProgress => status is InProgress || status is Review,
            TaskColumn::Blocked => status is Blocked || status is Failed,
            TaskColumn::Completed => status is Completed || status is Cancelled,
        }
    }

    fn has(self, status: TaskStatus) -> (yes: bool)
        ensures
            yes == self.holds(status),
    {
        match self {
            TaskColumn::Todo => matches!(
                status,
                TaskStatus::Pending | TaskStatus::Ready | TaskStatus::Waiting
            ),
            TaskColumn::InProgress => matches!(status, TaskStatus::InProgress | TaskStatus::Review),
            TaskColumn::Blocked => matches!(status, TaskStatus::Blocked | TaskStatus::Failed),
            TaskColumn::Completed => matches!(
                status,
                TaskStatus::Completed | TaskStatus::Cancelled
            ),
        }
    }
}

/// Every status stands in exactly one column of the tasks board.
pub proof fn columns_partition_statuses(status: TaskStatus)
    ensures
        exists|column: TaskColumn| column.holds(status),
        forall|a: TaskColumn, b: TaskColumn|
            #[trigger] a.holds(status) && #[trigger] b.holds(status) ==> a == b,
{
    assert(TaskColumn::Todo.holds(status) || TaskColumn::InProgress.holds(status)
        || TaskColumn::Blocked.holds(status) || TaskColumn::Completed.holds(status));
}

/// Who works on something, with the role that the name has in the team.
pub open spec fn assignee(members: Seq<TeamMember>, owner: Seq<char>) -> Seq<char> {
    r#"<div class="assignee"><span class="avatar">"#@ + html(initial(owner)) + "</span><span>"@
        + html(owner) + "</span><small>"@ + html(role_of(members, owner)) + "</small></div>"@
}

fn render_assignee(members: &Vec<TeamMember>, owner: &str) -> (out: String)
    ensures
        out@ == assignee(members@, owner@),
{
    let mut out = r#"<div class="assignee"><span class="avatar">"#.to_string();
    out.append(html_escape(avatar_initial(owner).as_str()).as_str());
    out.append("</span><span>");
    out.append(html_escape(owner).as_str());
    out.append("</span><small>");
    out.append(html_escape(find_role(members, owner)).as_str());
    out.append("</small></div>");
    out
}

/// The note with a task's result, where that is not blank.
pub open spec fn result_note(result: Option<Seq<char>>) -> Seq<char> {
    match result {
        Some(result) => if is_blank(result) {
            ""@
        } else {
            r#"<p class="kanban-note">"#@ + html(one_line(result, 180)) + "</p>"@
        },
        None => ""@,
    }
}

/// The card of a task.
pub open spec fn task_card(
    config: TeamConfig,
    task: TeamTask,
    selected: Option<Seq<char>>,
    cwd: Seq<char>,
) -> Seq<char> {
    r#"<a class="kanban-card"#@ + (if selected == Some(task.id@) {
        " selected"@
    } else {
        ""@
    }) + r#"" href=""#@ + html(
        "/?team="@ + query_text(config.id@) + "&cwd="@ + query_text(cwd) + "&task="@ + query_text(
            task.id@,
        ),
    ) + "\">\n<div class=\"card-line\"><code>T"@ + html(task.id@) + "</code>"@ + badge(
        task_class(task.status),
        html(task.status.text()),
    ) + "</div>\n<strong>"@ + html(one_line(task.subject@, 160)) + "</strong>\n"@ + assignee(
        config.members@,
        text_or(task.owner, "unassigned"@),
    ) + "\n"@ + result_note(opt_view(task.result)) + "\n</a>"@
}

/// The card of a task.
pub fn render_task_kanban_card(
    config: &TeamConfig,
    task: &TeamTask,
    selected: &Option<String>,
    cwd: &str,
) -> (out: String)
    ensures
        out@ == task_card(*config, *task, opt_view(*selected), cwd@),
{
    let owner = str_or(&task.owner, "unassigned");
    let mut href = "/?team=".to_string();
    href.append(url_encode(config.id.as_str()).as_str());
    href.append("&cwd=");
    href.append(url_encode(cwd).as_str());
    href.append("&task=");
    href.append(url_encode(task.id.as_str()).as_str());
    let mut out = r#"<a class="kanban-card"#.to_string();
    if is_text(selected, task.id.as_str()) {
        out.append(" selected");
    } else {
        out.append("");
    }
    out.append(r#"" href=""#);
    out.append(html_escape(href.as_str()).as_str());
    out.append("\">\n<div class=\"card-line\"><code>T");
    out.append(html_escape(task.id.as_str()).as_str());
    out.append("</code>");
    out.append(
        render_badge(
            task_status_css(task.status),
            html_escape(task.status.label()).as_str(),
        ).as_str(),
    );
    out.append("</div>\n<strong>");
    out.append(html_escape(compact_one_line(task.subject.as_str(), 160).as_str()).as_str());
    out.append("</strong>\n");
    out.append(render_assignee(&config.members, owner).as_str());
    out.append("\n");
    let note = match &task.result {
        Some(result) => if text_is_blank(result.as_str()) {
            "".to_string()
        } else {
            let mut note = r#"<p class="kanban-note">"#.to_string();
            note.append(html_escape(compact_one_line(result.as_str(), 180).as_str()).as_str());
            note.append("</p>");
            note
        },
        None => "".to_string(),
    };
    out.append(note.as_str());
    out.append("\n</a>");
    out
}

/// The cards of a column of the tasks board.
pub open spec fn task_cards(
    config: TeamConfig,
    tasks: Seq<TeamTask>,
    column: TaskColumn,
    selected: Option<Seq<char>>,
    cwd: Seq<char>,
) -> Seq<Seq<char>>
    decreases tasks.len(),
{
    if tasks.len() == 0 {
        seq![]
    } else {
        let before = task_cards(config, tasks.drop_last(), column, selected, cwd);
        if column.holds(tasks.last().status) {
            before.push(task_card(config, tasks.last(), selected, cwd))
        } else {
            before
        }
    }
}

/// A column of a board with its cards.
pub open spec fn kanban_column(
    class: Seq<char>,
    title: Seq<char>,
    subtitle: Seq<char>,
    cards: Seq<Seq<char>>,
    add: Seq<char>,
) -> Seq<char> {
    r#"<div class=""#@ + class + r#""><div class="kanban-col-head"><div><strong>"#@ + html(title)
        + "</strong><span>"@ + html(subtitle) + "</span></div><em>"@ + decimal(cards.len())
        + r#"</em></div><div class="kanban-cards">"#@ + (if cards.len() == 0 {
        r#"<p class="kanban-empty">No items</p>"#@
    } else {
        concat(cards)
    }) + r##"</div><a class="kanban-add" href="#lead-chat">"##@ + add + "</a></div>"@
}

fn render_kanban_column(
    class: &str,
    title: &str,
    subtitle: &str,
    cards: &Vec<String>,
    add: &str,
) -> (out: String)
    ensures
        out@ == kanban_column(class@, title@, subtitle@, views(cards@), add@),
{
    let mut out = r#"<div class=""#.to_string();
    out.append(class);
    out.append(r#""><div class="kanban-col-head"><div><strong>"#);
    out.append(html_escape(title).as_str());
    out.append("</strong><span>");
    out.append(html_escape(subtitle).as_str());
    out.append("</span></div><em>");
    out.append(usize_text(cards.len()).as_str());
    out.append(r#"</em></div><div class="kanban-cards">"#);
    if cards.len() == 0 {
        out.append(r#"<p class="kanban-empty">No items</p>"#);
    } else {
        out.append(concat_all(cards).as_str());
    }
    out.append(r##"</div><a class="kanban-add" href="#lead-chat">"##);
    out.append(add);
    out.append("</a></div>");
    out
}

/// A column of the tasks board.
pub open spec fn task_column(
    config: TeamConfig,
    tasks: Seq<TeamTask>,
    column: TaskColumn,
    selected: Option<Seq<char>>,
    cwd: Seq<char>,
) -> Seq<char> {
    kanban_column(
        "kanban-col"@,
        column.title(),
        column.subtitle(),
        task_cards(config, tasks, column, selected, cwd),
        "+ Add task via lead"@,
    )
}

fn render_task_column(
    config: &TeamConfig,
    tasks: &Vec<TeamTask>,
    column: TaskColumn,
    selected: &Option<String>,
    cwd: &str,
) -> (out: String)
    ensures
        out@ == task_column(*config, tasks@, column, opt_view(*selected), cwd@),
{
    let mut cards: Vec<String> = Vec::new();
    assert(views(cards@) =~= task_cards(
        *config,
        tasks@.take(0),
        column,
        opt_view(*selected),
        cwd@,
    ));
    for i in 0..tasks.len()
        invariant
            views(cards@) == task_cards(
                *config,
                tasks@.take(i as int),
                column,
                opt_view(*selected),
                cwd@,
            ),
    {
        let ghost before = views(cards@);
        assert(tasks@.take(i + 1).drop_last() =~= tasks@.take(i as int));
        if column.has(tasks[i].status) {
            let card = render_task_kanban_card(config, &tasks[i], selected, cwd);
            cards.push(card);
            assert(views(cards@) =~= before.push(card@));
        }
    }
    assert(tasks@.take(tasks@.len() as int) =~= tasks@);
    render_kanban_column(
        "kanban-col",
        column.title_text(),
        column.subtitle_text(),
        &cards,
        "+ Add task via lead",
    )
}

/// What stands before the columns of the tasks board.
pub const TASKS_BOARD_HEAD: &'static str = r##"<section class="kanban-board"><div class="board-title"><div><h4>Tasks Board</h4><p>Project / Tasks</p></div><a class="primary-action" href="#lead-chat">+ New Task</a></div><div class="kanban-grid">"##;

/// The tasks board.
pub open spec fn tasks_board(
    config: TeamConfig,
    tasks: Seq<TeamTask>,
    selected: Option<Seq<char>>,
    cwd: Seq<char>,
) -> Seq<char> {
    TASKS_BOARD_HEAD@ + task_column(config, tasks, TaskColumn::Todo, selected, cwd) + task_column(
        config,
        tasks,
        TaskColumn::InProgress,
        selected,
        cwd,
    ) + task_column(config, tasks, TaskColumn::Blocked, selected, cwd) + task_column(
        config,
        tasks,
        TaskColumn::Completed,
        selected,
        cwd,
    ) + "</div></section>"@
}

/// The tasks board.
pub fn render_tasks_kanban_board(
    config: &TeamConfig,
    tasks: &Vec<TeamTask>,
    selected: &Option<String>,
    cwd: &str,
) -> (out: String)
    ensures
        out@ == tasks_board(*config, tasks@, opt_view(*selected), cwd@),
{
    let mut out = TASKS_BOARD_HEAD.to_string();
    out.append(render_task_column(config, tasks, TaskColumn::Todo, selected, cwd).as_str());
    out.append(render_task_column(config, tasks, TaskColumn::InProgress, selected, cwd).as_str());
    out.append(render_task_column(config, tasks, TaskColumn::Blocked, selected, cwd).as_str());
    out.append(render_task_column(config, tasks, TaskColumn::Completed, selected, cwd).as_str());
    out.append("</div></section>");
    out
}

// ---------------------------------------------------------------------------
// The jobs board
// ---------------------------------------------------------------------------

/// An exit code, or a dash where there is none yet.
pub open spec fn exit_text(code: Option<i32>) -> Seq<char> {
    match code {
        Some(code) => integer(code as int),
        None => "-"@,
    }
}

/// The card of a job.
pub open spec fn job_card(members: Seq<TeamMember>, job: TeamJob) -> Seq<char> {
    r#"<article class="kanban-card job-card"><div class="card-line"><code>"#@ + html(job.id@)
        + "</code>"@ + badge(job_class(job.status), job.status.text()) + "</div><strong>"@ + html(
        one_line(job.command@, 150),
    ) + "</strong>"@ + assignee(members, text_or(job.owner, "unassigned"@))
        + r#"<p class="kanban-note">node="#@ + html(job.node@) + " cwd="@ + html(job.cwd@)
        + " exit="@ + exit_text(job.exit_code) + "</p></article>"@
}

/// The card of a job.
pub fn render_job_card(config: &TeamConfig, job: &TeamJob) -> (out: String)
    ensures
        out@ == job_card(config.members@, *job),
{
    let owner = str_or(&job.owner, "unassigned");
    let mut out = r#"<article class="kanban-card job-card"><div class="card-line"><code>"#.to_string();
    out.append(html_escape(job.id.as_str()).as_str());
    out.append("</code>");
    out.append(render_badge(job_status_css(job.status), job.status.label()).as_str());
    out.append("</div><strong>");
    out.append(html_escape(compact_one_line(job.command.as_str(), 150).as_str()).as_str());
    out.append("</strong>");
    out.append(render_assignee(&config.members, owner).as_str());
    out.append(r#"<p class="kanban-note">node="#);
    out.append(html_escape(job.node.as_str()).as_str());
    out.append(" cwd=");
    out.append(html_escape(job.cwd.as_str()).as_str());
    out.append(" exit=");
    match job.exit_code {
        Some(code) => {
            out.append(integer_text(code as i64).as_str());
        },
        None => {
            out.append("-");
        },
    }
    out.append("</p></article>");
    out
}

/// The evidence of a wait, or a dash where it is blank.
pub open spec fn evidence_text(evidence: Option<Seq<char>>) -> Seq<char> {
    match evidence {
        Some(evidence) => if is_blank(evidence) {
            "-"@
        } else {
            evidence
        },
        None => "-"@,
    }
}

/// The card of a wait.
pub open spec fn wait_card(members: Seq<TeamMember>, wait: TeamWait) -> Seq<char> {
    r#"<article class="kanban-card wait-card"><div class="card-line"><code>"#@ + html(wait.id@)
        + "</code>"@ + badge(wait_class(wait.status), html(wait.status.text()))
        + "</div><strong>"@ + html(one_line(wait.title@, 150)) + "</strong>"@ + assignee(
        members,
        text_or(wait.owner, "unassigned"@),
    ) + r#"<p class="kanban-note">"#@ + html(one_line(wait.progress@, 170))
        + r#"</p><p class="kanban-note">evidence="#@ + html(
        one_line(evidence_text(opt_view(wait.evidence)), 120),
    ) + "</p></article>"@
}

/// The card of a wait.
pub fn render_wait_card(config: &TeamConfig, wait: &TeamWait) -> (out: String)
    ensures
        out@ == wait_card(config.members@, *wait),
{
    let owner = str_or(&wait.owner, "unassigned");
    let evidence = match &wait.evidence {
        Some(evidence) => if text_is_blank(evidence.as_str()) {
            "-"
        } else {
            evidence.as_str()
        },
        None => "-",
    };
    let mut out = r#"<article class="kanban-card wait-card"><div class="card-line"><code>"#.to_string();
    out.append(html_escape(wait.id.as_str()).as_str());
    out.append("</code>");
    out.append(
        render_badge(
            wait_status_css(wait.status),
            html_escape(wait.status.label()).as_str(),
        ).as_str(),
    );
    out.append("</div><strong>");
    out.append(html_escape(compact_one_line(wait.title.as_str(), 150).as_str()).as_str());
    out.append("</strong>");
    out.append(render_assignee(&config.members, owner).as_str());
    out.append(r#"<p class="kanban-note">"#);
    out.append(html_escape(compact_one_line(wait.progress.as_str(), 170).as_str()).as_str());
    out.append(r#"</p><p class="kanban-note">evidence="#);
    out.append(html_escape(compact_one_line(evidence, 120).as_str()).as_str());
    out.append("</p></article>");
    out
}

/// The cards of a task's jobs in a column of the jobs board.
pub open spec fn job_cards(
    members: Seq<TeamMember>,
    jobs: Seq<TeamJob>,
    task: Seq<char>,
    bucket: Seq<char>,
) -> Seq<Seq<char>>
    decreases jobs.len(),
{
    if jobs.len() == 0 {
        seq![]
    } else {
        let before = job_cards(members, jobs.drop_last(), task, bucket);
        let job = jobs.last();
        if opt_view(job.task_id) == Some(task) && job_bucket_name(job.status) == bucket {
            before.push(job_card(members, job))
        } else {
            before
        }
    }
}

/// The cards of a task's waits in a column of the jobs board.
pub open spec fn wait_cards(
    members: Seq<TeamMember>,
    waits: Seq<TeamWait>,
    task: Seq<char>,
    bucket: Seq<char>,
) -> Seq<Seq<char>>
    decreases waits.len(),
{
    if waits.len() == 0 {
        seq![]
    } else {
        let before = wait_cards(members, waits.drop_last(), task, bucket);
        let wait = waits.last();
        if opt_view(wait.task_id) == Some(task) && wait_bucket_name(wait.status) == bucket {
            before.push(wait_card(members, wait))
        } else {
            before
        }
    }
}

/// A column of the jobs board: the task's jobs, then its waits.
pub open spec fn jobs_column(
    members: Seq<TeamMember>,
    jobs: Seq<TeamJob>,
    waits: Seq<TeamWait>,
    task: Seq<char>,
    title: Seq<char>,
    subtitle: Seq<char>,
    bucket: Seq<char>,
) -> Seq<char> {
    kanban_column(
        "kanban-col jobs"@,
        title,
        subtitle,
        job_cards(members, jobs, task, bucket) + wait_cards(members, waits, task, bucket),
        "+ Add job/wait via lead"@,
    )
}

fn render_jobs_column(
    config: &TeamConfig,
    jobs: &Vec<TeamJob>,
    waits: &Vec<TeamWait>,
    task: &str,
    title: &str,
    subtitle: &str,
    bucket: &str,
) -> (out: String)
    ensures
        out@ == jobs_column(config.members@, jobs@, waits@, task@, title@, subtitle@, bucket@),
{
    let ghost members = config.members@;
    let mut cards: Vec<String> = Vec::new();
    assert(views(cards@) =~= job_cards(members, jobs@.take(0), task@, bucket@));
    for i in 0..jobs.len()
        invariant
            members == config.members@,
            views(cards@) == job_cards(members, jobs@.take(i as int), task@, bucket@),
    {
        let ghost before = views(cards@);
        assert(jobs@.take(i + 1).drop_last() =~= jobs@.take(i as int));
        if is_text(&jobs[i].task_id, task) && same_text(job_bucket(jobs[i].status), bucket) {
            let card = render_job_card(config, &jobs[i]);
            cards.push(card);
            assert(views(cards@) =~= before.push(card@));
        }
    }
    assert(jobs@.take(jobs@.len() as int) =~= jobs@);
    let ghost of_jobs = views(cards@);
    assert(of_jobs + wait_cards(members, waits@.take(0), task@, bucket@) =~= of_jobs);
    for i in 0..waits.len()
        invariant
            members == config.members@,
            views(cards@) == of_jobs + wait_cards(
                members,
                waits@.take(i as int),
                task@,
                bucket@,
            ),
    {
        let ghost before = views(cards@);
        assert(waits@.take(i + 1).drop_last() =~= waits@.take(i as int));
        if is_text(&waits[i].task_id, task) && same_text(wait_bucket(waits[i].status), bucket) {
            let card = render_wait_card(config, &waits[i]);
            cards.push(card);
            assert(views(cards@) =~= before.push(card@));
            assert(views(cards@) =~= of_jobs + wait_cards(
                members,
                waits@.take(i + 1),
                task@,
                bucket@,
            ));
        }
    }
    assert(waits@.take(waits@.len() as int) =~= waits@);
    render_kanban_column(
        "kanban-col jobs",
        title,
        subtitle,
        &cards,
        "+ Add job/wait via lead",
    )
}

/// The jobs board where no task is selected.
pub const EMPTY_JOBS_BOARD: &'static str = r#"<section class="kanban-board"><div class="board-title"><div><h4>Jobs Board</h4><p>Select a task to inspect jobs and waits.</p></div></div></section>"#;

/// What stands before the columns of the jobs board of a task: where it is, and the task.
pub open spec fn jobs_board_head(config: TeamConfig, task: TeamTask) -> Seq<char> {
    let owner = text_or(task.owner, "unassigned"@);
    r#"<section class="kanban-board"><div class="board-title"><div><p>Project / Tasks / T"#@ + html(
        task.id@,
    ) + r#"</p><h4>Jobs Board</h4></div><a class="board-back" href="/?team="#@ + query_text(
        config.id@,
    )
        + "\">← Back to Tasks</a></div>\n<div class=\"task-hero\"><div class=\"task-square\">T"@
        + html(task.id@) + "</div><div>"@ + badge(task_class(task.status), html(task.status.text()))
        + "<h4>"@ + html(one_line(task.subject@, 180)) + "</h4><p>"@ + html(
        one_line(task.description@, 220),
    )
        + r#"</p></div><div class="hero-owner"><span>Owner</span><strong><span class="avatar">"#@
        + html(initial(owner)) + "</span>"@ + html(owner) + "</strong><small>"@ + html(
        role_of(config.members@, owner),
    ) + "</small></div></div>\n<div class=\"kanban-grid\">"@
}

/// The jobs board of a task.
pub open spec fn task_jobs_board(
    config: TeamConfig,
    task: TeamTask,
    jobs: Seq<TeamJob>,
    waits: Seq<TeamWait>,
) -> Seq<char> {
    let members = config.members@;
    jobs_board_head(config, task) + jobs_column(
        members,
        jobs,
        waits,
        task.id@,
        "Todo"@,
        "Queued or unknown"@,
        "todo"@,
    ) + jobs_column(
        members,
        jobs,
        waits,
        task.id@,
        "In Progress"@,
        "Running or polling"@,
        "progress"@,
    ) + jobs_column(
        members,
        jobs,
        waits,
        task.id@,
        "Review"@,
        "Blocked or failed gates"@,
        "review"@,
    ) + jobs_column(
        members,
        jobs,
        waits,
        task.id@,
        "Done"@,
        "Completed evidence"@,
        "done"@,
    ) + "</div></section>"@
}

/// The jobs board of the selected task.
pub open spec fn jobs_board(
    config: TeamConfig,
    task: Option<TeamTask>,
    jobs: Seq<TeamJob>,
    waits: Seq<TeamWait>,
) -> Seq<char> {
    match task {
        Some(task) => task_jobs_board(config, task, jobs, waits),
        None => EMPTY_JOBS_BOARD@,
    }
}

/// The task behind an optional reference.
pub open spec fn task_ref(task: Option<&TeamTask>) -> Option<TeamTask> {
    match task {
        Some(task) => Some(*task),
        None => None,
    }
}

/// The jobs board of the selected task.
pub fn render_jobs_kanban_board(
    config: &TeamConfig,
    selected_task: Option<&TeamTask>,
    jobs: &Vec<TeamJob>,
    waits: &Vec<TeamWait>,
) -> (out: String)
    ensures
        out@ == jobs_board(*config, task_ref(selected_task), jobs@, waits@),
{
    let task = match selected_task {
        Some(task) => task,
        None => {
            return EMPTY_JOBS_BOARD.to_string();
        },
    };
    let owner = str_or(&task.owner, "unassigned");
    let id = task.id.as_str();
    let mut out = r#"<section class="kanban-board"><div class="board-title"><div><p>Project / Tasks / T"#.to_string();
    out.append(html_escape(id).as_str());
    out.append(r#"</p><h4>Jobs Board</h4></div><a class="board-back" href="/?team="#);
    out.append(url_encode(config.id.as_str()).as_str());
    out.append(
        "\">← Back to Tasks</a></div>\n<div class=\"task-hero\"><div class=\"task-square\">T",
    );
    out.append(html_escape(id).as_str());
    out.append("</div><div>");
    out.append(
        render_badge(
            task_status_css(task.status),
            html_escape(task.status.label()).as_str(),
        ).as_str(),
    );
    out.append("<h4>");
    out.append(html_escape(compact_one_line(task.subject.as_str(), 180).as_str()).as_str());
    out.append("</h4><p>");
    out.append(html_escape(compact_one_line(task.description.as_str(), 220).as_str()).as_str());
    out.append(
        r#"</p></div><div class="hero-owner"><span>Owner</span><strong><span class="avatar">"#,
    );
    out.append(html_escape(avatar_initial(owner).as_str()).as_str());
    out.append("</span>");
    out.append(html_escape(owner).as_str());
    out.append("</strong><small>");
    out.append(html_escape(find_role(&config.members, owner)).as_str());
    out.append("</small></div></div>\n<div class=\"kanban-grid\">");
    out.append(
        render_jobs_column(config, jobs, waits, id, "Todo", "Queued or unknown", "todo").as_str(),
    );
    out.append(
        render_jobs_column(
            config,
            jobs,
            waits,
            id,
            "In Progress",
            "Running or polling",
            "progress",
        ).as_str(),
    );
    out.append(
        render_jobs_column(
            config,
            jobs,
            waits,
            id,
            "Review",
            "Blocked or failed gates",
            "review",
        ).as_str(),
    );
    out.append(
        render_jobs_column(config, jobs, waits, id, "Done", "Completed evidence", "done").as_str(),
    );
    out.append("</div></section>");
    out
}

// ---------------------------------------------------------------------------
// Member assignment
// ---------------------------------------------------------------------------

/// The row of a member in the assignment table.
pub open spec fn assignment_row(
    member: TeamMember,
    nodes: Seq<TeamNode>,
    selected: Seq<char>,
) -> Seq<char> {
    r#"<tr class=""#@ + (if member.name@ == selected {
        "selected"@
    } else {
        ""@
    }) + r#""><td><span class="avatar">"#@ + html(initial(member.name@)) + "</span><strong>"@
        + html(member.name@) + "</strong></td><td>"@ + html(member.role@) + "</td><td>"@ + badge(
        member_class(member.status),
        member.status.text(),
    ) + "</td><td>"@ + html(location_of(nodes, text_or(member.node, "local"@))) + "</td></tr>"@
}

fn render_assignment_row(member: &TeamMember, nodes: &Vec<TeamNode>, selected: &str) -> (out:
    String)
    ensures
        out@ == assignment_row(*member, nodes@, selected@),
{
    let mut out = r#"<tr class=""#.to_string();
    if same_text(member.name.as_str(), selected) {
        out.append("selected");
    } else {
        out.append("");
    }
    out.append(r#""><td><span class="avatar">"#);
    out.append(html_escape(avatar_initial(member.name.as_str()).as_str()).as_str());
    out.append("</span><strong>");
    out.append(html_escape(member.name.as_str()).as_str());
    out.append("</strong></td><td>");
    out.append(html_escape(member.role.as_str()).as_str());
    out.append("</td><td>");
    out.append(render_badge(member_status_css(member.status), member.status.label()).as_str());
    out.append("</td><td>");
    out.append(
        html_escape(find_location(nodes, str_or(&member.node, "local")).as_str()).as_str(),
    );
    out.append("</td></tr>");
    out
}

/// The rows of the members other than the lead.
pub open spec fn assignment_rows(
    members: Seq<TeamMember>,
    nodes: Seq<TeamNode>,
    selected: Seq<char>,
) -> Seq<Seq<char>>
    decreases members.len(),
{
    if members.len() == 0 {
        seq![]
    } else {
        let before = assignment_rows(members.drop_last(), nodes, selected);
        if is_worker(members.last()) {
            before.push(assignment_row(members.last(), nodes, selected))
        } else {
            before
        }
    }
}

/// The row of a task in the selected member's list.
pub open spec fn member_task_row(task: TeamTask) -> Seq<char> {
    "<tr><td>T"@ + html(task.id@) + "</td><td>"@ + html(one_line(task.subject@, 120))
        + "</td><td>"@ + badge(task_class(task.status), html(task.status.text()))
        + "</td></tr>"@
}

fn render_member_task_row(task: &TeamTask) -> (out: String)
    ensures
        out@ == member_task_row(*task),
{
    let mut out = "<tr><td>T".to_string();
    out.append(html_escape(task.id.as_str()).as_str());
    out.append("</td><td>");
    out.append(html_escape(compact_one_line(task.subject.as_str(), 120).as_str()).as_str());
    out.append("</td><td>");
    out.append(
        render_badge(
            task_status_css(task.status),
            html_escape(task.status.label()).as_str(),
        ).as_str(),
    );
    out.append("</td></tr>");
    out
}

/// The rows of the tasks that a member owns.
pub open spec fn owned_task_rows(tasks: Seq<TeamTask>, owner: Seq<char>) -> Seq<Seq<char>>
    decreases tasks.len(),
{
    if tasks.len() == 0 {
        seq![]
    } else {
        let before = owned_task_rows(tasks.drop_last(), owner);
        if opt_view(tasks.last().owner) == Some(owner) {
            before.push(member_task_row(tasks.last()))
        } else {
            before
        }
    }
}

/// The rows of the selected member's list: the tasks that the member owns, or the first eight
/// tasks where there are none.
pub open spec fn member_task_rows(tasks: Seq<TeamTask>, owner: Seq<char>) -> Seq<Seq<char>> {
    let owned = owned_task_rows(tasks, owner);
    if owned.len() > 0 {
        owned
    } else {
        first_n(tasks, 8).map_values(|task: TeamTask| member_task_row(task))
    }
}

fn render_member_task_rows(tasks: &Vec<TeamTask>, owner: &str) -> (rows: Vec<String>)
    ensures
        views(rows@) == member_task_rows(tasks@, owner@),
{
    let mut rows: Vec<String> = Vec::new();
    assert(views(rows@) =~= owned_task_rows(tasks@.take(0), owner@));
    for i in 0..tasks.len()
        invariant
            views(rows@) == owned_task_rows(tasks@.take(i as int), owner@),
    {
        let ghost before = views(rows@);
        assert(tasks@.take(i + 1).drop_last() =~= tasks@.take(i as int));
        if is_text(&tasks[i].owner, owner) {
            let row = render_member_task_row(&tasks[i]);
            rows.push(row);
            assert(views(rows@) =~= before.push(row@));
        }
    }
    assert(tasks@.take(tasks@.len() as int) =~= tasks@);
    if rows.len() > 0 {
        return rows;
    }
    let ghost f = |task: TeamTask| member_task_row(task);
    let ghost wanted = first_n(tasks@, 8).map_values(f);
    let mut first: Vec<String> = Vec::new();
    while first.len() < tasks.len() && first.len() < 8
        invariant
            f == (|task: TeamTask| member_task_row(task)),
            wanted == first_n(tasks@, 8).map_values(f),
            first@.len() <= tasks@.len(),
            first@.len() <= 8,
            views(first@) == wanted.take(first@.len() as int),
        decreases tasks@.len() - first@.len(),
    {
        let ghost before = views(first@);
        let ghost n = first@.len() as int;
        let row = render_member_task_row(&tasks[first.len()]);
        assert(row@ == wanted[n]);
        first.push(row);
        assert(views(first@) =~= before.push(row@));
        assert(views(first@) =~= wanted.take(n + 1));
    }
    assert(views(first@) =~= wanted);
    first
}

/// What stands before the rows of the assignment table.
pub const ASSIGNMENT_HEAD: &'static str = r#"<section class="member-board"><div class="member-panel"><div class="panel-title"><h4>Member Assignment</h4><p>Manage and track departments working on this team.</p></div><table><tr><th>Member Name</th><th>Role</th><th>Status</th><th>Location</th></tr>"#;

/// What stands between the assignment table and the tabs.
pub const MEMBER_TASKS_HEAD: &'static str = r#"</table></div><div class="member-panel"><div class="panel-title"><h4>Member Tasks</h4><p>Browse assigned work for the selected member.</p><div class="member-tabs">"#;

/// The member assignment board.
pub open spec fn member_board(
    config: TeamConfig,
    tasks: Seq<TeamTask>,
    nodes: Seq<TeamNode>,
    selected: Seq<char>,
    journal: Option<JournalSource>,
) -> Seq<char> {
    let rows = member_task_rows(tasks, selected);
    ASSIGNMENT_HEAD@ + concat(assignment_rows(config.members@, nodes, selected))
        + MEMBER_TASKS_HEAD@ + concat(member_tabs(config.members@, selected, ""@))
        + "</div></div><table><tr><th>Task ID</th><th>Task Name</th><th>Status</th></tr>"@
        + (if rows.len() == 0 {
        r#"<tr><td colspan="3">No assigned tasks</td></tr>"#@
    } else {
        concat(rows)
    }) + "</table></div>"@ + journal_panel(journal, config.members@, selected) + "</section>"@
}

/// The member assignment board.
pub fn render_member_assignment_board(
    config: &TeamConfig,
    tasks: &Vec<TeamTask>,
    nodes: &Vec<TeamNode>,
    selected: &str,
    journal: Option<&JournalSource>,
) -> (out: String)
    ensures
        out@ == member_board(*config, tasks@, nodes@, selected@, source_ref(journal)),
{
    let ghost members = config.members@;
    let mut rows: Vec<String> = Vec::new();
    assert(views(rows@) =~= assignment_rows(members.take(0), nodes@, selected@));
    for i in 0..config.members.len()
        invariant
            members == config.members@,
            views(rows@) == assignment_rows(members.take(i as int), nodes@, selected@),
    {
        let ghost before = views(rows@);
        assert(members.take(i + 1).drop_last() =~= members.take(i as int));
        if !same_text(config.members[i].role.as_str(), "lead") {
            let row = render_assignment_row(&config.members[i], nodes, selected);
            rows.push(row);
            assert(views(rows@) =~= before.push(row@));
        }
    }
    assert(members.take(members.len() as int) =~= members);
    let task_rows = render_member_task_rows(tasks, selected);
    let mut out = ASSIGNMENT_HEAD.to_string();
    out.append(concat_all(&rows).as_str());
    out.append(MEMBER_TASKS_HEAD);
    out.append(render_member_tabs(&config.members, selected, "").as_str());
    out.append("</div></div><table><tr><th>Task ID</th><th>Task Name</th><th>Status</th></tr>");
    if task_rows.len() == 0 {
        out.append(r#"<tr><td colspan="3">No assigned tasks</td></tr>"#);
    } else {
        out.append(concat_all(&task_rows).as_str());
    }
    out.append("</table></div>");
    out.append(render_member_journal_panel(journal, config, selected).as_str());
    out.append("</section>");
    out
}

// ---------------------------------------------------------------------------
// The boards
// ---------------------------------------------------------------------------

/// Work on the task is not over.
pub fn task_is_open(task: &TeamTask) -> (open: bool)
    ensures
        open == task.status.is_open(),
{
    !matches!(task.status, TaskStatus::Completed | TaskStatus::Cancelled | TaskStatus::Failed)
}

/// The first task with an identifier.
pub open spec fn task_with_id(tasks: Seq<TeamTask>, id: Seq<char>) -> Option<TeamTask>
    decreases tasks.len(),
{
    if tasks.len() == 0 {
        None
    } else if tasks[0].id@ == id {
        Some(tasks[0])
    } else {
        task_with_id(tasks.drop_first(), id)
    }
}

/// The first open task.
pub open spec fn first_open_task(tasks: Seq<TeamTask>) -> Option<TeamTask>
    decreases tasks.len(),
{
    if tasks.len() == 0 {
        None
    } else if tasks[0].status.is_open() {
        Some(tasks[0])
    } else {
        first_open_task(tasks.drop_first())
    }
}

/// The identifier of the task that is selected where none was asked for: the first open one, or
/// the first one.
pub open spec fn default_task_id(tasks: Seq<TeamTask>) -> Option<Seq<char>> {
    match first_open_task(tasks) {
        Some(task) => Some(task.id@),
        None => if tasks.len() > 0 {
            Some(tasks[0].id@)
        } else {
            None
        },
    }
}

/// The identifier of the selected task: the one that was asked for, where there is such a task.
pub open spec fn selected_task_id(tasks: Seq<TeamTask>, asked: Option<Seq<char>>) -> Option<
    Seq<char>,
> {
    match asked {
        Some(raw) => if task_with_id(tasks, id_of(raw)) is Some {
            Some(id_of(raw))
        } else {
            default_task_id(tasks)
        },
        None => default_task_id(tasks),
    }
}

/// The selected task.
pub open spec fn selected_task(tasks: Seq<TeamTask>, asked: Option<Seq<char>>) -> Option<TeamTask> {
    match selected_task_id(tasks, asked) {
        Some(id) => task_with_id(tasks, id),
        None => None,
    }
}

/// The selected member: the owner of the selected task, or the first member other than the lead,
/// or the lead.
pub open spec fn selected_member(
    members: Seq<TeamMember>,
    tasks: Seq<TeamTask>,
    asked: Option<Seq<char>>,
) -> Seq<char> {
    let owner = match selected_task(tasks, asked) {
        Some(task) => opt_view(task.owner),
        None => None,
    };
    match owner {
        Some(owner) => owner,
        None => match first_worker(members) {
            Some(member) => member.name@,
            None => "lead"@,
        },
    }
}

fn find_task<'a>(tasks: &'a Vec<TeamTask>, id: &str) -> (out: Option<&'a TeamTask>)
    ensures
        task_ref(out) == task_with_id(tasks@, id@),
{
    assert(tasks@.skip(0) =~= tasks@);
    for i in 0..tasks.len()
        invariant
            task_with_id(tasks@, id@) == task_with_id(tasks@.skip(i as int), id@),
    {
        assert(tasks@.skip(i as int).drop_first() =~= tasks@.skip(i + 1));
        if same_text(tasks[i].id.as_str(), id) {
            return Some(&tasks[i]);
        }
    }
    None
}

fn find_open_task(tasks: &Vec<TeamTask>) -> (out: Option<&TeamTask>)
    ensures
        task_ref(out) == first_open_task(tasks@),
{
    assert(tasks@.skip(0) =~= tasks@);
    for i in 0..tasks.len()
        invariant
            first_open_task(tasks@) == first_open_task(tasks@.skip(i as int)),
    {
        assert(tasks@.skip(i as int).drop_first() =~= tasks@.skip(i + 1));
        if task_is_open(&tasks[i]) {
            return Some(&tasks[i]);
        }
    }
    None
}

fn find_default_task_id(tasks: &Vec<TeamTask>) -> (out: Option<String>)
    ensures
        opt_view(out) == default_task_id(tasks@),
{
    match find_open_task(tasks) {
        Some(task) => Some(task.id.clone()),
        None => if tasks.len() > 0 {
            Some(tasks[0].id.clone())
        } else {
            None
        },
    }
}

fn find_selected_task_id(tasks: &Vec<TeamTask>, asked: &Option<String>) -> (out: Option<String>)
    ensures
        opt_view(out) == selected_task_id(tasks@, opt_view(*asked)),
{
    match asked {
        Some(raw) => {
            let id = sanitize_id(raw.as_str());
            if find_task(tasks, id.as_str()).is_some() {
                Some(id)
            } else {
                find_default_task_id(tasks)
            }
        },
        None => find_default_task_id(tasks),
    }
}

/// The name of the selected member.
pub fn find_selected_member(
    config: &TeamConfig,
    tasks: &Vec<TeamTask>,
    asked: &Option<String>,
) -> (out: String)
    ensures
        out@ == selected_member(config.members@, tasks@, opt_view(*asked)),
{
    let id = find_selected_task_id(tasks, asked);
    let task = match &id {
        Some(id) => find_task(tasks, id.as_str()),
        None => None,
    };
    let owner = match task {
        Some(task) => task.owner.clone(),
        None => None,
    };
    match owner {
        Some(owner) => owner,
        None => match find_worker(&config.members) {
            Some(member) => member.name.clone(),
            None => "lead".to_string(),
        },
    }
}

/// Where there are tasks, one of them is selected, and the selected identifier is the identifier
/// of a task.
pub proof fn some_task_is_selected(tasks: Seq<TeamTask>, asked: Option<Seq<char>>)
    ensures
        selected_task(tasks, asked) is Some <==> tasks.len() > 0,
        selected_task(tasks, asked) matches Some(task) ==> Some(task.id@) == selected_task_id(
            tasks,
            asked,
        ),
{
    match selected_task_id(tasks, asked) {
        Some(id) => {
            task_with_id_is_exact(tasks, id);
            match first_open_task(tasks) {
                Some(task) => {
                    first_open_task_is_a_task(tasks);
                },
                None => {},
            }
        },
        None => {},
    }
}

proof fn task_with_id_is_exact(tasks: Seq<TeamTask>, id: Seq<char>)
    ensures
        task_with_id(tasks, id) matches Some(task) ==> task.id@ == id && tasks.len() > 0,
    decreases tasks.len(),
{
    if tasks.len() > 0 {
        task_with_id_is_exact(tasks.drop_first(), id);
    }
}

proof fn first_open_task_is_a_task(tasks: Seq<TeamTask>)
    ensures
        first_open_task(tasks) matches Some(task) ==> task_with_id(tasks, task.id@) is Some,
    decreases tasks.len(),
{
    if tasks.len() > 0 {
        first_open_task_is_a_task(tasks.drop_first());
    }
}

/// What stands before the boards.
pub const BOARDS_HEAD: &'static str = r#"<section class="kanban-shell">
<div class="kanban-topbar">
  <div><h3>Work Boards</h3><p>Tasks, task-scoped jobs/waits, and member assignment for the selected team.</p></div>
  <div class="kanban-actions"><span class="kbd">⌘ K</span><button type="button">Filter</button><button type="button">Group</button></div>
</div>
"#;

/// The work boards of a team.
pub open spec fn team_boards(
    config: TeamConfig,
    tasks: Seq<TeamTask>,
    jobs: Seq<TeamJob>,
    waits: Seq<TeamWait>,
    nodes: Seq<TeamNode>,
    journal: Option<JournalSource>,
    asked: Option<Seq<char>>,
    cwd: Seq<char>,
) -> Seq<char> {
    BOARDS_HEAD@ + tasks_board(config, tasks, selected_task_id(tasks, asked), cwd) + "\n"@
        + jobs_board(config, selected_task(tasks, asked), jobs, waits) + "\n"@ + member_board(
        config,
        tasks,
        nodes,
        selected_member(config.members@, tasks, asked),
        journal,
    ) + "\n</section>"@
}

/// The work boards of a team; `journal` is what was read of the journal of the selected member,
/// where team state is loaded.
pub fn render_team_kanban_boards(
    config: &TeamConfig,
    tasks: &Vec<TeamTask>,
    jobs: &Vec<TeamJob>,
    waits: &Vec<TeamWait>,
    nodes: &Vec<TeamNode>,
    journal: Option<&JournalSource>,
    asked: &Option<String>,
    cwd: &str,
) -> (out: String)
    ensures
        out@ == team_boards(
            *config,
            tasks@,
            jobs@,
            waits@,
            nodes@,
            source_ref(journal),
            opt_view(*asked),
            cwd@,
        ),
{
    let id = find_selected_task_id(tasks, asked);
    let task = match &id {
        Some(id) => find_task(tasks, id.as_str()),
        None => None,
    };
    let member = find_selected_member(config, tasks, asked);
    let mut out = BOARDS_HEAD.to_string();
    out.append(render_tasks_kanban_board(config, tasks, &id, cwd).as_str());
    out.append("\n");
    out.append(render_jobs_kanban_board(config, task, jobs, waits).as_str());
    out.append("\n");
    out.append(
        render_member_assignment_board(config, tasks, nodes, member.as_str(), journal).as_str(),
    );
    out.append("\n</section>");
    out
}

} // verus!
