use codex_teams::journal::{
    render_member_journal_list, render_member_journal_panel, JournalSource,
};
use codex_teams::json::parse_json;
use codex_teams::kanban::{
    render_job_card, render_jobs_kanban_board, render_member_assignment_board,
    render_task_kanban_card, render_tasks_kanban_board, render_team_kanban_boards,
    render_wait_card,
};
use codex_teams::messages::{
    render_language_options, render_lead_chat, render_message_board,
    team_messages_translation_source,
};
use codex_teams::model::{
    MemberJournalEntry, MemberStatus, SideChannelContextRecord, SideChannelContextStatus,
    TaskStatus, TeamConfig, TeamEventRecord, TeamJob, TeamJobStatus, TeamMember, TeamNode,
    TeamNodeKind, TeamNodeStatus, TeamTask, TeamWait, TeamWaitStatus, UiTeamRunStatus,
};
use codex_teams::page::{
    directory_picker_href, render_agent_flow_console_view, render_debug_timeline_view,
    render_directory_picker, render_realtime_view, render_team_detail,
    render_team_runtime_controls, render_team_ui, render_thread_board, DirectoryEntry,
    DirectoryListing, TeamDetail, TeamSummary, TeamUi,
};
use codex_teams::timeline::MemberStanding;
use codex_teams::token_usage::{
    render_side_channel_context_pressure_rows, render_token_usage_panel, ContextLevel,
    ContextShare, SideChannelFile, TeamTokenUsageBreakdown, TeamTokenUsageRecord,
    TokenUsageShares,
};

const TIME: &str = "2026-05-10T00:00:00Z";
const SHOWN_TIME: &str = "2026-05-10T09:00:00+09:00";

fn text(value: &str) -> String {
    value.to_string()
}

fn config() -> TeamConfig {
    let member = |name: &str, role: &str| TeamMember {
        name: text(name),
        role: text(role),
        status: MemberStatus::Running,
        joined_at: text(TIME),
        thread_id: Some(text("th")),
        workspace_path: None,
        node: None,
    };
    TeamConfig {
        version: 1,
        id: text("t 1"),
        goal: text("a & b"),
        lead: text("lead"),
        members: vec![member("lead", "lead"), member("dev", "engineering")],
        language: None,
        created_at: text(TIME),
        updated_at: text(TIME),
    }
}

fn task(owner: Option<&str>, result: Option<&str>) -> TeamTask {
    TeamTask {
        id: text("7"),
        subject: text("fix <it>"),
        description: text("more"),
        owner: owner.map(str::to_string),
        status: TaskStatus::InProgress,
        depends_on: Vec::new(),
        result: result.map(str::to_string),
        created_at: text(TIME),
        updated_at: text(TIME),
    }
}

fn job() -> TeamJob {
    TeamJob {
        id: text("job-1"),
        node: text("gpu"),
        command: text("make"),
        cwd: text("/w"),
        owner: Some(text("dev")),
        task_id: Some(text("7")),
        status: TeamJobStatus::Failed,
        pid: None,
        log_path: text("/l"),
        exit_path: text("/e"),
        exit_code: Some(-2),
        note: String::new(),
        artifacts: Vec::new(),
        created_at: text(TIME),
        updated_at: text(TIME),
    }
}

fn wait() -> TeamWait {
    TeamWait {
        id: text("wait-1"),
        title: text("data"),
        owner: None,
        task_id: Some(text("7")),
        node: None,
        condition: String::new(),
        status: TeamWaitStatus::Polling,
        progress: text("half"),
        evidence: Some(text(" ")),
        created_at: text(TIME),
        updated_at: text(TIME),
    }
}

fn node() -> TeamNode {
    TeamNode {
        id: text("local"),
        kind: TeamNodeKind::Local,
        url: None,
        host: None,
        container: None,
        cwd: None,
        status: TeamNodeStatus::Online,
        note: String::new(),
        created_at: text(TIME),
        updated_at: text(TIME),
    }
}

const TASK_CARD: &str = r#"<a class="kanban-card selected" href="/?team=t+1&amp;cwd=%2Fw&amp;task=7">
<div class="card-line"><code>T7</code><span class="status-badge active">in_progress</span></div>
<strong>fix &lt;it&gt;</strong>
<div class="assignee"><span class="avatar">D</span><span>dev</span><small>engineering</small></div>
<p class="kanban-note">half done</p>
</a>"#;

const PLAIN_TASK_CARD: &str = r#"<a class="kanban-card" href="/?team=t+1&amp;cwd=%2Fw&amp;task=7">
<div class="card-line"><code>T7</code><span class="status-badge active">in_progress</span></div>
<strong>fix &lt;it&gt;</strong>
<div class="assignee"><span class="avatar">U</span><span>unassigned</span><small></small></div>

</a>"#;

const JOB_CARD: &str = r#"<article class="kanban-card job-card"><div class="card-line"><code>job-1</code><span class="status-badge blocked">Failed</span></div><strong>make</strong><div class="assignee"><span class="avatar">D</span><span>dev</span><small>engineering</small></div><p class="kanban-note">node=gpu cwd=/w exit=-2</p></article>"#;

const WAIT_CARD: &str = r#"<article class="kanban-card wait-card"><div class="card-line"><code>wait-1</code><span class="status-badge active">polling</span></div><strong>data</strong><div class="assignee"><span class="avatar">U</span><span>unassigned</span><small></small></div><p class="kanban-note">half</p><p class="kanban-note">evidence=-</p></article>"#;

#[test]
fn task_cards_are_links() {
    let selected = Some(text("7"));
    assert_eq!(
        render_task_kanban_card(&config(), &task(Some("dev"), Some("half\ndone")), &selected, "/w"),
        TASK_CARD
    );
    assert_eq!(
        render_task_kanban_card(&config(), &task(None, Some(" ")), &None, "/w"),
        PLAIN_TASK_CARD
    );
}

#[test]
fn task_board_has_four_columns() {
    let column = |title: &str, subtitle: &str, count: usize, cards: &str| {
        format!(
            r##"<div class="kanban-col"><div class="kanban-col-head"><div><strong>{title}</strong><span>{subtitle}</span></div><em>{count}</em></div><div class="kanban-cards">{cards}</div><a class="kanban-add" href="#lead-chat">+ Add task via lead</a></div>"##
        )
    };
    let none = r#"<p class="kanban-empty">No items</p>"#;
    let expected = format!(
        r##"<section class="kanban-board"><div class="board-title"><div><h4>Tasks Board</h4><p>Project / Tasks</p></div><a class="primary-action" href="#lead-chat">+ New Task</a></div><div class="kanban-grid">{}{}{}{}</div></section>"##,
        column("Todo", "Queued or waiting work", 0, none),
        column("In Progress", "Active execution and review", 1, PLAIN_TASK_CARD),
        column("Blocked", "Needs unblock or repair", 0, none),
        column("Completed", "Accepted or cancelled work", 0, none),
    );
    assert_eq!(
        render_tasks_kanban_board(&config(), &vec![task(None, None)], &None, "/w"),
        expected
    );
}

#[test]
fn job_and_wait_cards_say_where_they_stand() {
    assert_eq!(render_job_card(&config(), &job()), JOB_CARD);
    assert_eq!(render_wait_card(&config(), &wait()), WAIT_CARD);
}

fn jobs_board() -> String {
    let column = |title: &str, subtitle: &str, count: usize, cards: &str| {
        format!(
            r##"<div class="kanban-col jobs"><div class="kanban-col-head"><div><strong>{title}</strong><span>{subtitle}</span></div><em>{count}</em></div><div class="kanban-cards">{cards}</div><a class="kanban-add" href="#lead-chat">+ Add job/wait via lead</a></div>"##
        )
    };
    let none = r#"<p class="kanban-empty">No items</p>"#;
    format!(
        r#"<section class="kanban-board"><div class="board-title"><div><p>Project / Tasks / T7</p><h4>Jobs Board</h4></div><a class="board-back" href="/?team=t+1">← Back to Tasks</a></div>
<div class="task-hero"><div class="task-square">T7</div><div><span class="status-badge active">in_progress</span><h4>fix &lt;it&gt;</h4><p>more</p></div><div class="hero-owner"><span>Owner</span><strong><span class="avatar">D</span>dev</strong><small>engineering</small></div></div>
<div class="kanban-grid">{}{}{}{}</div></section>"#,
        column("Todo", "Queued or unknown", 0, none),
        column("In Progress", "Running or polling", 1, WAIT_CARD),
        column("Review", "Blocked or failed gates", 1, JOB_CARD),
        column("Done", "Completed evidence", 0, none),
    )
}

#[test]
fn job_board_shows_jobs_before_waits() {
    let board = render_jobs_kanban_board(
        &config(),
        Some(&task(Some("dev"), None)),
        &vec![job()],
        &vec![wait()],
    );
    assert_eq!(board, jobs_board());
}

fn assignment_board() -> String {
    text(
        r#"<section class="member-board"><div class="member-panel"><div class="panel-title"><h4>Member Assignment</h4><p>Manage and track departments working on this team.</p></div><table><tr><th>Member Name</th><th>Role</th><th>Status</th><th>Location</th></tr><tr class="selected"><td><span class="avatar">D</span><strong>dev</strong></td><td>engineering</td><td><span class="status-badge active">Running</span></td><td>local</td></tr></table></div><div class="member-panel"><div class="panel-title"><h4>Member Tasks</h4><p>Browse assigned work for the selected member.</p><div class="member-tabs"><span class="member-tab active">dev</span></div></div><table><tr><th>Task ID</th><th>Task Name</th><th>Status</th></tr><tr><td>T7</td><td>fix &lt;it&gt;</td><td><span class="status-badge active">in_progress</span></td></tr></table></div><div class="member-panel"><div class="panel-title"><h4>Member Journal</h4><p>No team state loaded.</p></div></div></section>"#,
    )
}

#[test]
fn members_and_their_tasks_are_listed() {
    let board = render_member_assignment_board(
        &config(),
        &vec![task(Some("dev"), None)],
        &Vec::new(),
        "dev",
        None,
    );
    assert_eq!(board, assignment_board());
    let none = render_member_assignment_board(&config(), &Vec::new(), &Vec::new(), "dev", None);
    assert!(none.contains(r#"<tr><td colspan="3">No assigned tasks</td></tr>"#));
}

#[test]
fn boards_follow_each_other() {
    let tasks = vec![task(Some("dev"), Some("half done"))];
    let boards = render_team_kanban_boards(
        &config(),
        &tasks,
        &vec![job()],
        &vec![wait()],
        &Vec::new(),
        None,
        &Some(text(" 7 ")),
        "/w",
    );
    let expected = format!(
        r#"<section class="kanban-shell">
<div class="kanban-topbar">
  <div><h3>Work Boards</h3><p>Tasks, task-scoped jobs/waits, and member assignment for the selected team.</p></div>
  <div class="kanban-actions"><span class="kbd">⌘ K</span><button type="button">Filter</button><button type="button">Group</button></div>
</div>
{}
{}
{}
</section>"#,
        render_tasks_kanban_board(&config(), &tasks, &Some(text("7")), "/w"),
        jobs_board(),
        assignment_board(),
    );
    assert_eq!(boards, expected);
}

#[test]
fn usage_panel_is_laid_out() {
    let usage = TeamTokenUsageBreakdown {
        total_tokens: 10,
        input_tokens: 6,
        cached_input_tokens: 2,
        output_tokens: 4,
        reasoning_output_tokens: 1,
    };
    let record = TeamTokenUsageRecord {
        timestamp: text(TIME),
        member: text("dev"),
        role: text("engineering"),
        node: text("gpu"),
        thread: text("th"),
        turn: text("tu"),
        category: text("lead_tick"),
        source: text("active_turn"),
        total: usage,
        last: usage,
        model_context_window: Some(20),
    };
    let shares = TokenUsageShares {
        by_category: vec![text("100.0")],
        by_member: vec![text("100.0")],
        by_category_member: vec![text("100.0")],
        by_node: vec![text("100.0")],
        hotspots: vec![ContextShare { percent: text("50.0"), level: ContextLevel::Warn }],
    };
    let files = vec![SideChannelFile {
        member: text("dev"),
        contexts: vec![SideChannelContextRecord {
            id: text("c"),
            member: text("dev"),
            node: text("gpu"),
            source_thread: text("th"),
            side_thread: text("st"),
            side_turn: text("su"),
            recipients: vec![text("lead")],
            incoming_summary: text("in"),
            reply: text("out"),
            status: SideChannelContextStatus::Pending,
            injected_turns: Vec::new(),
            created_at: text(TIME),
            injected_at: None,
            acknowledged_at: None,
        }],
    }];
    let row = |label: &str| {
        format!(
            r#"<tr><td>{label}</td><td><div class="usage-share"><span style="width:100.0%"></span><em>100.0%</em></div></td><td>10</td><td>6</td><td>2</td><td>4</td><td>4</td><td>1</td></tr>"#
        )
    };
    let expected = format!(
        r#"<section class="usage-panel"><h3>Token Usage</h3>
<div class="usage-summary">
  <div><strong>10</strong><span>Total</span></div>
  <div><strong>6</strong><span>Input</span></div>
  <div><strong>2</strong><span>Cached Input</span></div>
  <div><strong>4</strong><span>Uncached Input</span></div>
  <div><strong>4</strong><span>Output</span></div>
  <div><strong>1</strong><span>Reasoning</span></div>
</div>
<div class="usage-grid">
  <details open><summary>By Feature</summary><table><tr><th>Feature</th><th>Share</th><th>Total</th><th>Input</th><th>Cached</th><th>Uncached</th><th>Output</th><th>Reasoning</th></tr>{}</table></details>
  <details><summary>By Member</summary><table><tr><th>Member</th><th>Share</th><th>Total</th><th>Input</th><th>Cached</th><th>Uncached</th><th>Output</th><th>Reasoning</th></tr>{}</table></details>
  <details><summary>By Feature x Member</summary><table><tr><th>Feature / Member</th><th>Share</th><th>Total</th><th>Input</th><th>Cached</th><th>Uncached</th><th>Output</th><th>Reasoning</th></tr>{}</table></details>
  <details><summary>By Node</summary><table><tr><th>Node</th><th>Share</th><th>Total</th><th>Input</th><th>Cached</th><th>Uncached</th><th>Output</th><th>Reasoning</th></tr>{}</table></details>
</div>
<details open><summary>Token Bottlenecks</summary><table><tr><th>Time</th><th>Feature</th><th>Member</th><th>Node</th><th>Turn</th><th>Last Total</th><th>Uncached</th><th>Context</th></tr><tr><td>{SHOWN_TIME}</td><td>lead_tick</td><td>dev</td><td>gpu</td><td><code>tu</code></td><td>10</td><td>4</td><td><span class="usage-context warn">50.0%</span></td></tr></table></details>
{side}
<details><summary>Recent Usage Updates</summary><table><tr><th>Time</th><th>Feature</th><th>Member</th><th>Node</th><th>Turn</th><th>Total</th><th>Input</th><th>Cached</th><th>Uncached</th><th>Output</th></tr><tr><td>{SHOWN_TIME}</td><td>lead_tick</td><td>dev</td><td>gpu</td><td><code>tu</code></td><td>10</td><td>6</td><td>2</td><td>4</td><td>4</td></tr></table></details>
<p class="hint">Aggregation deduplicates repeated cumulative app-server notifications, then sums each model-call `last` usage by the active Teams feature category. Bottlenecks are sorted by single model-call cost. Uncached input and context share are the quickest signals for prompt bloat that is not being served from cache.</p>
</section>"#,
        row("lead_tick"),
        row("dev (engineering)"),
        row("lead_tick / dev (engineering)"),
        row("gpu"),
        side = render_side_channel_context_pressure_rows(&files),
    );
    assert!(expected.contains("<tr><td>dev</td><td>1</td><td>1</td><td>0</td><td>0</td>"));
    assert_eq!(render_token_usage_panel(&vec![record], &shares, &files), expected);
    let empty = TokenUsageShares {
        by_category: Vec::new(),
        by_member: Vec::new(),
        by_category_member: Vec::new(),
        by_node: Vec::new(),
        hotspots: Vec::new(),
    };
    assert_eq!(
        render_token_usage_panel(&Vec::new(), &empty, &files),
        r#"<section class="usage-panel"><h3>Token Usage</h3><p class="hint">No token usage records yet. New app-server turns will populate this panel.</p></section>"#
    );
}

fn standing() -> MemberStanding {
    MemberStanding {
        unread: 2,
        direct_unread: 1,
        cooldown: None,
        live: text("li<ve"),
        last: text("last"),
        inbox: String::new(),
    }
}

#[test]
fn threads_are_shown() {
    let board = render_thread_board(
        &config(),
        &vec![standing(), standing()],
        &Vec::new(),
        &vec![node()],
        None,
    );
    let location = codex_teams::kanban::format_node_location(&node());
    let thread = |name: &str, role: &str| {
        format!(
            r#"<details><summary>{name} ({role}) - session Running - tasks no_open_tasks - {location}</summary>
<p><strong>Thread:</strong> <code>th</code></p>
<h4>Live Stream</h4><pre>li&lt;ve</pre>
<h4>Last Message</h4><pre>last</pre>
</details>"#
        )
    };
    assert_eq!(
        board,
        format!(
            r#"<div class="threads">{}{}</div>"#,
            thread("lead", "lead"),
            thread("dev", "engineering")
        )
    );
}

#[test]
fn team_details_are_laid_out() {
    let config = config();
    let tasks = vec![task(Some("dev"), None)];
    let events = vec![TeamEventRecord {
        event: text("e"),
        timestamp: text(TIME),
        data: parse_json("{}").expect("data"),
    }];
    let journal = JournalSource {
        entries: Vec::new(),
        current: None,
        journal_path: text("/j"),
        digest_path: text("/d"),
        digest: None,
    };
    let detail = TeamDetail {
        run_status: UiTeamRunStatus::Idle,
        jobs: Vec::new(),
        waits: Vec::new(),
        nodes: vec![node()],
        node_ages: vec![Some(400)],
        standings: vec![standing(), standing()],
        journal,
        lead_live: None,
        translation_output: None,
        translation_status: None,
        usage: Vec::new(),
        usage_shares: TokenUsageShares {
            by_category: Vec::new(),
            by_member: Vec::new(),
            by_category_member: Vec::new(),
            by_node: Vec::new(),
            hotspots: Vec::new(),
        },
        side_channel: Vec::new(),
        config: config.clone(),
        tasks: tasks.clone(),
        events,
    };
    let html = render_team_detail(&detail, &None, &None, "/w");
    let location = codex_teams::kanban::format_node_location(&node());
    let member_row = |name: &str, role: &str, tasks: &str| {
        format!(
            "<tr><td>{name}</td><td>{role}</td><td>Running</td><td>{tasks}</td><td>local</td><td>{location}</td><td>2/1</td><td>-</td><td><code>th</code></td></tr>"
        )
    };
    let expected = format!(
        r#"<section><h2>t 1</h2><p>a &amp; b</p>
{run_controls}
{kanban_boards}
<h3>Lead Chat</h3>{lead_chat}
{realtime_view}
{agent_flow_console}
{debug_timeline}
{usage}
<h3>Members</h3><table><tr><th>Name</th><th>Role</th><th>Session</th><th>Tasks</th><th>Node</th><th>Location</th><th>Unread/Direct</th><th>Cooldown</th><th>Thread</th></tr>{lead}{dev}</table>
<h3>Nodes</h3><table><tr><th>ID</th><th>Kind</th><th>Status</th><th>URL</th><th>Last Seen</th><th>Age</th><th>Health</th><th>Host</th><th>Container</th><th>CWD</th></tr><tr><td>local</td><td>Local</td><td>Stale(raw=Online)</td><td><code></code></td><td>{SHOWN_TIME}</td><td>6m40s</td><td><span class="pill warn">stale</span></td><td></td><td></td><td></td></tr></table>
<h3>Tasks</h3><table><tr><th>ID</th><th>Status</th><th>Owner</th><th>Subject</th></tr><tr><td>7</td><td>in_progress</td><td>dev</td><td>fix &lt;it&gt;</td></tr></table>
<h3>Team Messages</h3>{messages}
<h3>Thread Contents</h3>{threads}
<h3>Events</h3><pre>{{&quot;data&quot;:{{}},&quot;event&quot;:&quot;e&quot;,&quot;timestamp&quot;:&quot;{SHOWN_TIME}&quot;}}</pre></section>"#,
        run_controls = render_team_runtime_controls("t 1", UiTeamRunStatus::Idle),
        kanban_boards = render_team_kanban_boards(
            &config,
            &tasks,
            &Vec::new(),
            &Vec::new(),
            &detail.nodes,
            Some(&detail.journal),
            &None,
            "/w"
        ),
        lead_chat = render_lead_chat(&detail.events, "t 1", &None),
        realtime_view = render_realtime_view("t 1", &config),
        agent_flow_console = render_agent_flow_console_view("t 1"),
        debug_timeline = render_debug_timeline_view("t 1"),
        usage = render_token_usage_panel(&detail.usage, &detail.usage_shares, &Vec::new()),
        lead = member_row("lead", "lead", "no_open_tasks"),
        dev = member_row("dev", "engineering", "7:in_progress"),
        messages = render_message_board(&detail.events, "t 1", "ja", ""),
        threads = render_thread_board(
            &config,
            &detail.standings,
            &tasks,
            &detail.nodes,
            Some(&detail.events)
        ),
    );
    assert_eq!(html, expected);
}

fn sent(data: &str) -> TeamEventRecord {
    TeamEventRecord {
        event: text("message_sent"),
        timestamp: text(TIME),
        data: parse_json(data).expect("data"),
    }
}

#[test]
fn message_board_lists_messages() {
    let events = vec![
        sent(r#"{"from":"lead","to":["a","b"],"message":"x<y","source":"relay"}"#),
        sent(r#"{"to":7}"#),
    ];
    let options = render_language_options("en");
    let expected = format!(
        r#"<form method="post" action="/translate" class="translate-form">
<input type="hidden" name="team" value="t&quot;1">
<label>Translate to <select name="language">{options}</select></label>
<button type="submit">Translate</button>
</form>
PANEL
<div class="messages"><article class="msg"><div class="msg-meta"><span>{SHOWN_TIME}</span><span class="pill">lead -> a, b</span><span class="pill">relay</span></div><div>x&lt;y</div></article><article class="msg"><div class="msg-meta"><span>{SHOWN_TIME}</span><span class="pill"> -> </span><span class="pill">mailbox</span></div><div></div></article></div>"#
    );
    assert_eq!(render_message_board(&events, "t\"1", "en", "PANEL"), expected);
    assert_eq!(
        team_messages_translation_source(&events, 120),
        format!("- [{TIME}] lead -> a, b (relay): x<y\n- [{TIME}]  ->  (mailbox): ")
    );
}

#[test]
fn lead_chat_shows_what_concerns_the_lead() {
    let events = vec![
        sent(r#"{"from":"dev","to":["qa"],"message":"aside"}"#),
        sent(r#"{"from":"user","to":"lead","message":"go"}"#),
        sent(r#"{"from":"dev","to":["qa","user"],"message":"done"}"#),
    ];
    let expected = format!(
        r#"<form method="post" action="/message" class="lead-chat-form">
<input type="hidden" name="team" value="t">
<input type="hidden" name="to" value="lead">
<label>Message to lead <textarea name="message" rows="5" placeholder="追加指示、方針変更、確認したいことを書いてください"></textarea></label>
<button type="submit">Send to Lead</button>
</form>
<div class="messages lead-chat"><article class="msg chat-user"><div class="msg-meta"><span>{SHOWN_TIME}</span><span class="pill">user -> lead</span></div><div>go</div></article><article class="msg chat-lead"><div class="msg-meta"><span>{SHOWN_TIME}</span><span class="pill">dev -> qa, user</span></div><div>done</div></article></div><details class="lead-live"><summary>Lead Thread</summary><pre>a
b</pre></details>"#
    );
    assert_eq!(render_lead_chat(&events, "t", &Some(text("a\nb\n"))), expected);
    let empty = render_lead_chat(&Vec::new(), "t", &Some(text(" ")));
    assert!(empty.ends_with(r#"<div class="messages lead-chat"><p>No lead chat yet.</p></div>"#));
}

#[test]
fn journals_are_shown() {
    assert_eq!(
        render_member_journal_list(&Vec::new(), 3),
        r#"<ul class="journal-list"><li>none</li></ul>"#
    );
    assert_eq!(
        render_member_journal_list(&vec![text("a"), text("<b>"), text("c")], 2),
        r#"<ul class="journal-list"><li>a</li><li>&lt;b&gt;</li></ul>"#
    );
    let entry = MemberJournalEntry {
        timestamp: text(TIME),
        status: text("busy"),
        node: text("gpu"),
        summary: text("did it"),
        tasks: vec![text("t1")],
        jobs: Vec::new(),
        waits: Vec::new(),
        messages_received: Vec::new(),
        messages_sent: Vec::new(),
        events: Vec::new(),
        last_output_excerpt: text("out"),
    };
    let source = JournalSource {
        entries: vec![entry],
        current: None,
        journal_path: text("/j"),
        digest_path: text("/d"),
        digest: Some(text(" digest ")),
    };
    let none = r#"<ul class="journal-list"><li>none</li></ul>"#;
    let expected = format!(
        r#"<div class="member-panel journal-panel"><div class="panel-title"><h4>Member Journal</h4><p>Periodic department activity diary for the selected member.</p><div class="member-tabs"><span class="member-tab active">Member dev</span></div></div><p class="hint">Machine Markdown: <code>/j</code></p><details open><summary>AI Digest</summary><p class="hint">Digest: <code>/d</code></p><pre>digest</pre></details><div class="journal-summary"><span class="status-badge active">busy</span><span>gpu</span><span>{SHOWN_TIME}</span></div>
<p class="kanban-note">did it</p>
<details open><summary>Tasks</summary><ul class="journal-list"><li>t1</li></ul></details>
<details><summary>Jobs</summary>{none}</details>
<details><summary>Waits</summary>{none}</details>
<details open><summary>Received</summary>{none}</details>
<details><summary>Sent</summary>{none}</details>
<details><summary>Events</summary>{none}</details>
<details><summary>Last Output Excerpt</summary><pre>out</pre></details>
<details><summary>Snapshot History</summary><table><tr><th>Time</th><th>Summary</th></tr><tr><td>{SHOWN_TIME}</td><td>did it</td></tr></table></details></div>"#
    );
    assert_eq!(render_member_journal_panel(Some(&source), &config(), "dev"), expected);
    let empty = JournalSource {
        entries: Vec::new(),
        current: None,
        journal_path: text("/j"),
        digest_path: text("/d"),
        digest: None,
    };
    let html = render_member_journal_panel(Some(&empty), &config(), "dev");
    assert!(html.ends_with(r#"<details><summary>AI Digest</summary><p class="hint">No AI digest yet. It is generated after task/job/wait/member milestone changes.</p></details><p class="kanban-empty">No journal entries yet. The runtime writes this periodically while the team is active.</p></div>"#));
}

#[test]
fn runtime_controls_and_pickers_are_laid_out() {
    assert_eq!(
        render_team_runtime_controls("t<", UiTeamRunStatus::Running),
        r#"<section class="runtime-card">
<div><strong>Runtime</strong> <span class="run-state run-running">running</span></div>
<form class="inline-form" method="post" action="/resume">
  <input type="hidden" name="team" value="t&lt;">
  <button type="submit">Resume Runtime</button>
</form>
<form class="inline-form" method="post" action="/stop" onsubmit="return confirm('Pause this team runtime? Team state is preserved.');">
  <input type="hidden" name="team" value="t&lt;">
  <button type="submit">Pause Runtime</button>
</form>
<p class="hint">Resume restarts the keep-alive team runtime from the preserved state. Pause stops local and node runtimes without deleting artifacts.</p>
</section>"#
    );
    assert_eq!(directory_picker_href("/a", &Some(text("t 1"))), "/?team=t+1&cwd=%2Fa");
    assert_eq!(directory_picker_href("/a", &None), "/?cwd=%2Fa");
    let entries = vec![DirectoryEntry { path: text("/a/b"), name: text("b") }];
    assert_eq!(
        render_directory_picker("/a", &Some(text("/")), entries, &None),
        r#"<div class="dir-picker"><div class="dir-current">/a</div><a href="/?cwd=%2F">../</a><a href="/?cwd=%2Fa%2Fb">b/</a></div>"#
    );
}

#[test]
fn nodes_say_where_they_are() {
    let place = |kind: TeamNodeKind| {
        let mut node = node();
        node.kind = kind;
        node.host = Some(text("h"));
        node.container = Some(text("c"));
        node.cwd = Some(text("/w"));
        codex_teams::kanban::format_node_location(&node)
    };
    assert_eq!(place(TeamNodeKind::Local), "local machine");
    assert_eq!(place(TeamNodeKind::Manual), "manual");
    assert_eq!(place(TeamNodeKind::Ssh), "ssh:h cwd=/w");
    assert_eq!(place(TeamNodeKind::Docker), "docker:c cwd=/w");
    assert_eq!(place(TeamNodeKind::SshDocker), "ssh:h docker:c cwd=/w");
}

#[test]
fn the_page_has_a_list_of_teams() {
    let html = render_team_ui(TeamUi {
        teams: vec![TeamSummary {
            id: text("t1"),
            goal: text("a<b"),
            updated_at: text(TIME),
            run_status: UiTeamRunStatus::Idle,
        }],
        asked_team: None,
        asked_task: None,
        asked_language: None,
        cwd: text("/w"),
        directory: DirectoryListing {
            path: text("/w"),
            parent: None,
            entries: vec![DirectoryEntry { path: text("/w/b"), name: text("b") }],
        },
        registered_app_server_url: String::new(),
        ui_runs_log: Some(text("one\n<two>")),
        detail: None,
    });
    let list = format!(
        r#"</style></head><body><div class="app"><aside><h1>Lead Sessions</h1><div class="team-wrap" data-team="t1"><a class="team active" href="/?team=t1"><strong>t1</strong><span>a&lt;b</span><small>{SHOWN_TIME}</small><em class="run-state run-stop">stop(idle)</em></a></div>
<p><a href="/?team=t1&cwd=%2Fw">Refresh</a></p>
<h2>New Team</h2><form method="post" action="/new">
<label>Team ID <input name="id" placeholder="optional-id"></label>
<label>Goal <textarea name="goal" rows="5"></textarea></label>
<input type="hidden" name="cwd" value="/w">
<div><strong>Current Directory</strong><div class="dir-picker"><div class="dir-current">/w</div><a href="/?team=t1&cwd=%2Fw%2Fb">b/</a></div></div>"#
    );
    assert!(html.contains(&list));
    assert!(html.contains(
        "<details><summary>UI Run Log</summary><pre>one\n&lt;two&gt;</pre></details>"
    ));
    assert!(html.contains("<section><h2>No team selected</h2></section>"));
    assert!(html.ends_with("</script></body></html>"));
}
