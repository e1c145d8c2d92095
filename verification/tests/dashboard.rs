use codex_teams::journal::{render_member_journal_list, JournalSource};
use codex_teams::json::{json_text, parse_json};
use codex_teams::kanban::{
    avatar_initial, find_location, format_node_location, job_bucket, job_status_css,
    member_status_css, render_badge, render_jobs_kanban_board, render_task_kanban_card,
    render_tasks_kanban_board, render_team_kanban_boards, task_is_open, task_status_css,
    wait_bucket, wait_status_css,
};
use codex_teams::messages::{
    normalize_translation_language, plan_translation, render_language_options, render_lead_chat,
    render_message_board, render_translation_panel, tail_lines, team_messages_translation_source,
    translation_command, translation_event, translation_language_label, translation_log_path,
    translation_output_path, translation_status, translation_status_path, TranslationStage,
};
use codex_teams::model::{
    MailMessage, MemberStatus, SideChannelContextRecord, SideChannelContextStatus, TaskStatus,
    TeamConfig, TeamEventRecord, TeamJob, TeamJobStatus, TeamMember, TeamNode, TeamNodeKind,
    TeamNodeStatus, TeamTask, TeamWait, TeamWaitStatus, UiTeamRunStatus,
};
use codex_teams::page::{
    directory_picker_href, expand_home, render_agent_flow_console_view,
    render_debug_timeline_view, render_directory_picker, render_realtime_view, render_team_ui,
    render_team_runtime_controls, selected_cwd, selected_team_id, sort_teams, DirectoryEntry,
    DirectoryListing, TeamDetail, TeamSummary, TeamUi,
};
use codex_teams::status::{
    ensure_local_node, format_node_display_status, format_node_last_seen_age,
    format_task_status_counts, mailbox_unread_counts, member_task_status_summary,
};
use codex_teams::timeline::{
    collect_ui_debug_timeline, debug_snapshot, event_record_for_ui, format_json_target,
    infer_member_node_for_ui, realtime_snapshot, render_events_for_ui, MailboxFile,
    MemberStanding, ThreadBuffer, TimelineSources,
};
use codex_teams::token_usage::{
    collect_usage_updates, render_side_channel_context_pressure_rows, render_token_usage_panel,
    token_context_share_cell, token_usage_report, token_usage_share_cell, ContextLevel,
    ContextShare, SideChannelFile, TeamTokenUsageBreakdown, TeamTokenUsageRecord,
    TokenUsageShares, MAX_SIDE_CHANNEL_CONTEXTS_PER_PROMPT,
};

const TIME: &str = "2026-05-10T09:00:00+09:00";

fn text(value: &str) -> String {
    value.to_string()
}

fn member(name: &str, status: MemberStatus) -> TeamMember {
    TeamMember {
        name: text(name),
        role: text(name),
        status,
        joined_at: text(TIME),
        thread_id: None,
        workspace_path: None,
        node: None,
    }
}

fn test_config() -> TeamConfig {
    TeamConfig {
        version: 1,
        id: text("team-task-test"),
        goal: text("test"),
        lead: text("lead"),
        members: vec![
            member("lead", MemberStatus::Online),
            member("engineering", MemberStatus::Standby),
            member("quality", MemberStatus::Online),
        ],
        language: None,
        created_at: text(TIME),
        updated_at: text(TIME),
    }
}

fn test_task(id: &str, owner: Option<&str>, status: TaskStatus) -> TeamTask {
    TeamTask {
        id: text(id),
        subject: format!("task {id}"),
        description: String::new(),
        owner: owner.map(str::to_string),
        status,
        depends_on: Vec::new(),
        result: None,
        created_at: text(TIME),
        updated_at: text(TIME),
    }
}

fn event(name: &str, timestamp: &str, data: &str) -> TeamEventRecord {
    TeamEventRecord {
        event: text(name),
        timestamp: text(timestamp),
        data: parse_json(data).expect("event data"),
    }
}

fn node(id: &str, kind: TeamNodeKind, host: Option<&str>, container: Option<&str>) -> TeamNode {
    TeamNode {
        id: text(id),
        kind,
        url: None,
        host: host.map(str::to_string),
        container: container.map(str::to_string),
        cwd: None,
        status: TeamNodeStatus::Online,
        note: String::new(),
        created_at: text(TIME),
        updated_at: text(TIME),
    }
}

fn job(id: &str, task: &str, status: TeamJobStatus) -> TeamJob {
    TeamJob {
        id: text(id),
        node: text("local"),
        command: text("make <all>"),
        cwd: text("/w"),
        owner: Some(text("engineering")),
        task_id: Some(text(task)),
        status,
        pid: None,
        log_path: text("/log"),
        exit_path: text("/exit"),
        exit_code: None,
        note: text("note"),
        artifacts: Vec::new(),
        created_at: text(TIME),
        updated_at: text(TIME),
    }
}

fn wait(id: &str, task: &str, status: TeamWaitStatus) -> TeamWait {
    TeamWait {
        id: text(id),
        title: text("for data"),
        owner: None,
        task_id: Some(text(task)),
        node: None,
        condition: text("file"),
        status,
        progress: text("half"),
        evidence: None,
        created_at: text(TIME),
        updated_at: text(TIME),
    }
}

fn side_context(id: &str, member: &str, status: SideChannelContextStatus) -> SideChannelContextRecord {
    SideChannelContextRecord {
        id: text(id),
        member: text(member),
        node: text("local"),
        source_thread: text("thread-main"),
        side_thread: text("thread-side"),
        side_turn: text("turn-side"),
        recipients: vec![text("quality")],
        incoming_summary: text("quality asked for status"),
        reply: text("Runtime evidence is pending."),
        created_at: text(TIME),
        status,
        injected_turns: Vec::new(),
        injected_at: None,
        acknowledged_at: None,
    }
}

#[test]
fn task_status_counts_separate_completed_open_cancelled_and_failed() {
    let tasks = vec![
        test_task("1", Some("engineering"), TaskStatus::Completed),
        test_task("2", Some("engineering"), TaskStatus::InProgress),
        test_task("3", Some("quality"), TaskStatus::Cancelled),
        test_task("4", Some("quality"), TaskStatus::Failed),
    ];

    assert_eq!(
        format_task_status_counts(&tasks),
        "1 completed, 1 open, 1 cancelled, 1 failed, 4 total"
    );
}

#[test]
fn failed_tasks_are_not_open_for_member_state() {
    let tasks = vec![test_task("1", Some("engineering"), TaskStatus::Failed)];

    assert!(!task_is_open(&tasks[0]));
    assert_eq!(
        member_task_status_summary(&tasks, "engineering"),
        "no_open_tasks"
    );
}

#[test]
fn open_tasks_are_listed_for_their_owner() {
    let tasks = vec![
        test_task("1", Some("engineering"), TaskStatus::InProgress),
        test_task("2", Some("quality"), TaskStatus::Ready),
        test_task("3", Some("engineering"), TaskStatus::Blocked),
    ];
    assert_eq!(
        member_task_status_summary(&tasks, "engineering"),
        "1:in_progress,3:blocked"
    );
}

#[test]
fn unread_mail_is_counted() {
    let mail = |to: &str, read: bool| MailMessage {
        from: text("x"),
        to: text(to),
        message: text("m"),
        timestamp: text(TIME),
        read,
    };
    let counts = mailbox_unread_counts(
        &vec![mail("lead", false), mail("all", false), mail("lead", true)],
        "lead",
    );
    assert_eq!(counts.unread, 2);
    assert_eq!(counts.direct_unread, 1);
}

#[test]
fn nodes_go_stale() {
    assert_eq!(format_node_last_seen_age(Some(42)), (text("42s"), false));
    assert_eq!(format_node_last_seen_age(Some(301)), (text("5m1s"), true));
    assert_eq!(format_node_last_seen_age(None), (text("unknown"), true));
    assert_eq!(format_node_display_status(TeamNodeStatus::Online, false), "Online");
    assert_eq!(format_node_display_status(TeamNodeStatus::Online, true), "Stale(raw=Online)");
    let mut nodes = vec![node("gpu", TeamNodeKind::Ssh, Some("h"), None)];
    ensure_local_node(&mut nodes, TIME);
    assert_eq!(nodes.len(), 2);
    ensure_local_node(&mut nodes, TIME);
    assert_eq!(nodes.len(), 2);
    assert!(nodes.iter().any(|node| node.id == "local"));
}

#[test]
fn places_of_nodes_are_shown() {
    let gpu = node("gpu", TeamNodeKind::SshDocker, Some("host"), Some("box"));
    let place = format_node_location(&gpu);
    assert!(place.contains("host") && place.contains("box"));
    assert_eq!(find_location(&vec![gpu], "gpu"), place);
    assert_eq!(find_location(&Vec::new(), "gpu"), "gpu");
}

#[test]
fn statuses_have_columns_and_classes() {
    assert_eq!(job_bucket(TeamJobStatus::Running), "progress");
    assert_eq!(job_bucket(TeamJobStatus::Completed), "done");
    assert_eq!(job_bucket(TeamJobStatus::Failed), "review");
    assert_eq!(job_bucket(TeamJobStatus::Unknown), "todo");
    assert_eq!(wait_bucket(TeamWaitStatus::Waiting), "todo");
    assert_eq!(wait_bucket(TeamWaitStatus::Polling), "progress");
    assert_eq!(wait_bucket(TeamWaitStatus::Blocked), "review");
    assert_eq!(wait_bucket(TeamWaitStatus::Cancelled), "done");
    assert_eq!(task_status_css(TaskStatus::Ready), "todo");
    assert_eq!(task_status_css(TaskStatus::InProgress), "active");
    assert_eq!(task_status_css(TaskStatus::Review), "review");
    assert_eq!(task_status_css(TaskStatus::Failed), "blocked");
    assert_eq!(task_status_css(TaskStatus::Cancelled), "muted");
    assert_eq!(job_status_css(TeamJobStatus::Completed), "completed");
    assert_eq!(job_status_css(TeamJobStatus::Stopped), "todo");
    assert_eq!(wait_status_css(TeamWaitStatus::Running), "active");
    assert_eq!(wait_status_css(TeamWaitStatus::Cancelled), "muted");
    assert_eq!(member_status_css(MemberStatus::Online), "active");
    assert_eq!(member_status_css(MemberStatus::Standby), "todo");
    assert_eq!(member_status_css(MemberStatus::Offline), "blocked");
    assert_eq!(render_badge("c", "s"), r#"<span class="status-badge c">s</span>"#);
}

#[test]
fn initials_are_capital_letters() {
    assert_eq!(avatar_initial("lead"), "L");
    assert_eq!(avatar_initial("@9x"), "9");
    assert_eq!(avatar_initial("ßeta"), "SS");
    assert_eq!(avatar_initial("  "), "?");
    assert_eq!(avatar_initial("研究"), "研");
}

#[test]
fn task_board_holds_every_task_once() {
    let config = test_config();
    let tasks = vec![
        test_task("1", Some("engineering"), TaskStatus::Pending),
        test_task("2", None, TaskStatus::InProgress),
        test_task("3", None, TaskStatus::Failed),
        test_task("4", None, TaskStatus::Cancelled),
    ];
    let board = render_tasks_kanban_board(&config, &tasks, &None, "/w");
    for task in &tasks {
        assert_eq!(board.matches(task.subject.as_str()).count(), 1);
    }
    let card = render_task_kanban_card(&config, &tasks[0], &Some(text("1")), "/w");
    assert!(card.contains("selected"));
    assert!(card.contains("task 1"));
}

#[test]
fn job_board_shows_the_selected_task() {
    let config = test_config();
    let task = test_task("1", None, TaskStatus::InProgress);
    let jobs = vec![
        job("job-1", "1", TeamJobStatus::Running),
        job("job-2", "2", TeamJobStatus::Running),
    ];
    let waits = vec![wait("wait-1", "1", TeamWaitStatus::Waiting)];
    let board = render_jobs_kanban_board(&config, Some(&task), &jobs, &waits);
    assert!(board.contains("job-1") && !board.contains("job-2"));
    assert!(board.contains("wait-1"));
    assert!(board.contains("make &lt;all&gt;"));
    let none = render_jobs_kanban_board(&config, None, &jobs, &waits);
    assert!(none.contains("Select a task"));
}

#[test]
fn all_boards_are_put_together() {
    let config = test_config();
    let tasks = vec![test_task("1", Some("quality"), TaskStatus::InProgress)];
    let nodes = vec![node("local", TeamNodeKind::Local, None, None)];
    let html = render_team_kanban_boards(
        &config,
        &tasks,
        &Vec::new(),
        &Vec::new(),
        &nodes,
        None,
        &None,
        "/w",
    );
    assert!(html.contains("Tasks Board"));
    assert!(html.contains("Jobs Board"));
    assert!(html.contains("Member Assignment"));
}

#[test]
fn journal_lists_are_short() {
    let values = vec![text("a<b"), text("c"), text("d")];
    let list = render_member_journal_list(&values, 2);
    assert!(list.contains("a&lt;b") && list.contains("c"));
    assert!(!list.contains("d"));
}

#[test]
fn ui_debug_timeline_collects_messages_events_side_context_and_buffers() {
    let config = test_config();
    let sources = TimelineSources {
        events: vec![event(
            "message_sent",
            TIME,
            r#"{"from":"system","to":"engineering","message":"Automated lead status check","source":"idle_wakeup"}"#,
        )],
        mailboxes: vec![MailboxFile {
            name: text("lead"),
            messages: vec![MailMessage {
                from: text("engineering"),
                to: text("lead"),
                message: text("Need review"),
                timestamp: text(TIME),
                read: false,
            }],
        }],
        side_channel: vec![side_context(
            "ctx-ui",
            "engineering",
            SideChannelContextStatus::Pending,
        )],
        live: vec![ThreadBuffer {
            member: text("engineering"),
            path: text("live_messages/engineering.md"),
            modified: None,
            text: text("currently building"),
        }],
        last: Vec::new(),
    };

    let timeline = collect_ui_debug_timeline(&sources, TIME, 100);
    assert!(timeline
        .iter()
        .any(|item| item.kind == "system" && item.body.contains("Automated lead status check")));
    assert!(timeline
        .iter()
        .any(|item| item.kind == "message" && item.body == "Need review"));
    assert!(timeline
        .iter()
        .any(|item| item.kind == "side" && item.body.contains("Runtime evidence is pending.")));
    assert!(timeline
        .iter()
        .any(|item| item.kind == "live" && item.body.contains("currently building")));

    let snapshot = debug_snapshot(&config, &sources, TIME);
    assert!(snapshot.team.contains("team-task-test"));
    assert!(snapshot.items.iter().any(|item| json_text(&item.meta).contains("ctx-ui")));
}

#[test]
fn timeline_is_sorted_by_time_and_cut() {
    let sources = TimelineSources {
        events: vec![
            event("b", "2026-05-10T00:00:02Z", "{}"),
            event("a", "2026-05-10T09:00:01+09:00", "{}"),
            event("c", "2026-05-10T00:00:01Z", "{}"),
        ],
        mailboxes: Vec::new(),
        side_channel: Vec::new(),
        live: Vec::new(),
        last: Vec::new(),
    };
    let titles = |limit: usize| -> Vec<String> {
        collect_ui_debug_timeline(&sources, TIME, limit)
            .into_iter()
            .map(|item| item.title)
            .collect()
    };
    assert_eq!(titles(10), vec!["a", "c", "b"]);
    assert_eq!(titles(2), vec!["c", "b"]);
    assert!(titles(0).is_empty());
}

#[test]
fn events_are_printed_in_tokyo_time() {
    let first = event("e", "2026-05-10T00:00:00Z", r#"{"k":1}"#);
    assert_eq!(
        event_record_for_ui(&first),
        r#"{"data":{"k":1},"event":"e","timestamp":"2026-05-10T09:00:00+09:00"}"#
    );
    let second = event("f", "?", "null");
    assert_eq!(
        render_events_for_ui(&vec![first, second]),
        "{\"data\":{\"k\":1},\"event\":\"e\",\"timestamp\":\"2026-05-10T09:00:00+09:00\"}\n{\"data\":null,\"event\":\"f\",\"timestamp\":\"?\"}"
    );
}

#[test]
fn targets_are_joined_or_printed() {
    assert_eq!(format_json_target(&parse_json(r#"["a",1,"b"]"#).expect("list")), "a,b");
    assert_eq!(format_json_target(&parse_json(r#""x""#).expect("text")), "x");
    assert_eq!(format_json_target(&parse_json("7").expect("number")), "7");
}

#[test]
fn realtime_view_shows_the_last_messages() {
    let mut config = test_config();
    config.members[1].node = Some(text("gpu"));
    let events: Vec<TeamEventRecord> = (0..90)
        .map(|idx| {
            event(
                "message_sent",
                TIME,
                &format!(r#"{{"from":"lead","to":["a","b"],"message":"m{idx}"}}"#),
            )
        })
        .collect();
    let standing = MemberStanding {
        unread: 3,
        direct_unread: 1,
        cooldown: Some(65),
        live: text("live"),
        last: text("last"),
        inbox: (0..10).map(|idx| format!("line{idx}\n")).collect(),
    };
    let tasks = vec![test_task("1", Some("lead"), TaskStatus::Ready)];
    let nodes = vec![node("gpu", TeamNodeKind::Ssh, Some("host"), None)];
    let view = realtime_snapshot(&config, &vec![standing], &tasks, &nodes, &events, TIME);
    assert_eq!(view.team, "team-task-test");
    assert_eq!(view.members.len(), 3);
    assert_eq!(view.members[0].unread, 3);
    assert_eq!(view.members[0].cooldown, "1m5s");
    assert_eq!(view.members[0].task_status, "1:ready");
    assert!(view.members[0].inbox_tail.starts_with("line2\n"));
    assert!(view.members[0].inbox_tail.ends_with("line9"));
    assert_eq!(view.members[1].node, "gpu");
    assert_eq!(view.members[1].unread, 0);
    assert_eq!(view.events.len(), 80);
    assert_eq!(view.messages.len(), 60);
    assert_eq!(view.messages[0].message, "m30");
    assert_eq!(view.messages[59].to, "a,b");
}

#[test]
fn the_last_event_tells_where_a_member_is() {
    let lead = member("lead", MemberStatus::Running);
    let none: Vec<TeamEventRecord> = Vec::new();
    assert_eq!(infer_member_node_for_ui(Some(&none), &lead, "local"), "local");
    assert_eq!(infer_member_node_for_ui(None, &lead, "gpu"), "gpu");
    let events = vec![
        event("app_server_member_started", TIME, r#"{"member":"lead","node":"gpu"}"#),
        event("app_server_member_started", TIME, r#"{"member":"lead","node":"cpu"}"#),
        event("app_server_member_started", TIME, r#"{"member":"lead","node":" "}"#),
        event("app_server_member_started", TIME, r#"{"member":"qa","node":"tpu"}"#),
        event("message_sent", TIME, r#"{"member":"lead","node":"x"}"#),
    ];
    assert_eq!(infer_member_node_for_ui(Some(&events), &lead, "local"), "cpu");
    assert_eq!(infer_member_node_for_ui(Some(&events), &lead, "own"), "own");
    let first = vec![event("app_server_member_started", TIME, r#"{"member":"lead","node":"gpu"}"#)];
    assert_eq!(infer_member_node_for_ui(Some(&first), &lead, "local"), "gpu");
}

fn usage_record(turn: &str, member: &str, total: i64) -> TeamTokenUsageRecord {
    let usage = TeamTokenUsageBreakdown {
        total_tokens: total,
        input_tokens: total - 4,
        cached_input_tokens: 2,
        output_tokens: 4,
        reasoning_output_tokens: 0,
    };
    TeamTokenUsageRecord {
        timestamp: text(TIME),
        member: text(member),
        role: text("research"),
        node: text("local"),
        thread: text("thread-1"),
        turn: text(turn),
        category: text("lead_tick"),
        source: text("active_turn"),
        total: usage,
        last: usage,
        model_context_window: Some(128_000),
    }
}

fn no_shares() -> TokenUsageShares {
    TokenUsageShares {
        by_category: Vec::new(),
        by_member: Vec::new(),
        by_category_member: Vec::new(),
        by_node: Vec::new(),
        hotspots: Vec::new(),
    }
}

#[test]
fn token_usage_panel_groups_latest_turn_usage_by_feature() {
    let records: Vec<TeamTokenUsageRecord> = [10, 15, 15]
        .into_iter()
        .map(|total| usage_record("turn-1", "research", total))
        .collect();
    let contexts: Vec<SideChannelContextRecord> = (0..MAX_SIDE_CHANNEL_CONTEXTS_PER_PROMPT)
        .map(|idx| {
            let mut context = side_context(
                &format!("ctx-{idx}"),
                "research",
                SideChannelContextStatus::Pending,
            );
            context.source_thread = text("thread-1");
            context.side_thread = format!("side-thread-{idx}");
            context.side_turn = format!("side-turn-{idx}");
            context.recipients = vec![text("lead")];
            context.incoming_summary = text("please confirm");
            context.reply = text("confirmed");
            context
        })
        .collect();
    let files = vec![SideChannelFile { member: text("research"), contexts }];

    let html = render_token_usage_panel(&records, &no_shares(), &files);
    assert!(html.contains(&render_side_channel_context_pressure_rows(&files)));
    assert!(html.contains("lead_tick"));
    assert!(html.contains("research"));
    assert!(html.contains("Token Bottlenecks"));
    assert!(html.contains("Side-channel Context Pressure"));
    assert!(html.contains("capped at 8"));
    assert!(html.contains(">25</"));
    assert!(!html.contains(">40</"));
}

#[test]
fn usage_is_grouped_and_adds_up() {
    let records = vec![
        usage_record("turn-1", "research", 10),
        usage_record("turn-2", "lead", 30),
        usage_record("turn-3", "research", 25),
    ];
    let report = token_usage_report(&records);
    assert_eq!(report.total.total_tokens, 65);
    assert_eq!(report.total.uncached_input_tokens(), 65 - 12 - 6);
    let members: Vec<(String, i64)> = report
        .by_member
        .iter()
        .map(|(label, usage)| (label.clone(), usage.total_tokens))
        .collect();
    assert_eq!(members, vec![(text("research (research)"), 35), (text("lead (research)"), 30)]);
    assert_eq!(report.hotspots[0].last.total_tokens, 30);
    assert_eq!(collect_usage_updates(&records).len(), 3);
    let mut repeated = records;
    repeated.push(usage_record("turn-2", "lead", 30));
    assert_eq!(collect_usage_updates(&repeated).len(), 3);
}

#[test]
fn cached_and_uncached_input_add_up() {
    let usage = usage_record("turn-1", "lead", 30).last;
    assert_eq!(usage.uncached_input_tokens(), 24);
    assert_eq!(usage.cached_input_tokens + usage.uncached_input_tokens(), usage.input_tokens);
}

#[test]
fn usage_counters_saturate() {
    let mut usage = TeamTokenUsageBreakdown::default();
    usage.total_tokens = i64::MAX;
    let mut one = TeamTokenUsageBreakdown::default();
    one.total_tokens = 1;
    one.input_tokens = -3;
    usage.add_assign(one);
    assert_eq!(usage.total_tokens, i64::MAX);
    assert_eq!(usage.input_tokens, -3);
    assert_eq!(usage.uncached_input_tokens(), 0);
}

#[test]
fn shares_are_shown_as_bars() {
    assert_eq!(
        token_usage_share_cell(1, 4, "25.0"),
        r#"<div class="usage-share"><span style="width:25.0%"></span><em>25.0%</em></div>"#
    );
    assert!(token_usage_share_cell(1, 0, "25.0").contains("0.0%"));
    let share = ContextShare { percent: text("90.0"), level: ContextLevel::Hot };
    assert!(token_context_share_cell(9, 10, &share).contains("90.0"));
    assert!(!token_context_share_cell(9, 0, &share).contains("90.0"));
}

#[test]
fn side_channel_pressure_is_ranked() {
    let files = vec![
        SideChannelFile {
            member: text("calm"),
            contexts: vec![side_context("a", "calm", SideChannelContextStatus::Acknowledged)],
        },
        SideChannelFile {
            member: text("busy"),
            contexts: vec![
                side_context("b", "busy", SideChannelContextStatus::Pending),
                side_context("c", "busy", SideChannelContextStatus::Injected),
            ],
        },
    ];
    let rows = render_side_channel_context_pressure_rows(&files);
    let busy = rows.find("busy").expect("busy row");
    match rows.find("calm") {
        Some(calm) => assert!(busy < calm),
        None => assert!(!rows.is_empty()),
    }
}

#[test]
fn languages_are_normalised() {
    assert_eq!(normalize_translation_language("fr"), "fr");
    assert_eq!(normalize_translation_language("tlh"), "ja");
    assert_eq!(normalize_translation_language(&normalize_translation_language(" fr ")), "fr");
    assert_eq!(translation_language_label("de"), Some("German"));
    assert_eq!(translation_language_label("tlh"), None);
    assert_eq!(translation_output_path("de"), "translations/messages-de.md");
    assert_eq!(translation_status_path("de"), "translations/messages-de.status");
    assert_eq!(translation_log_path("xx"), "translations/messages-ja.log");
    assert_eq!(render_language_options("ko").matches("selected").count(), 1);
}

#[test]
fn translations_are_planned() {
    let events = vec![
        event("task_created", TIME, r#"{"message":"no"}"#),
        event("message_sent", TIME, r#"{"from":"lead","to":["qa"],"message":"hello"}"#),
    ];
    let source = team_messages_translation_source(&events, 120);
    assert!(source.contains("lead") && source.contains("hello") && !source.contains("no\n"));
    let job = match plan_translation(&events, "en") {
        Ok(job) => job,
        Err(message) => panic!("{message}"),
    };
    assert_eq!(job.language, "en");
    assert_eq!(job.label, "English");
    assert!(job.prompt.starts_with("Translate the following Codex team message log into English."));
    assert!(job.prompt.ends_with(&format!("Message log:\n{source}\n")));
    assert_eq!(
        plan_translation(&Vec::new(), "en").map(|job| job.language),
        Err("no team messages to translate")
    );
}

#[test]
fn translation_progress_is_written_down() {
    assert_eq!(
        translation_status(&TranslationStage::Queued, "English", "t", "/l"),
        "queued translation to English\nqueued_at=t\nlog=/l\n"
    );
    assert_eq!(
        translation_status(&TranslationStage::Failed(text("e")), "English", "t", "/l"),
        "failed translation to English\nfailed_at=t\nerror=e\nlog=/l\n"
    );
    assert_eq!(
        translation_status(&TranslationStage::Exited(text("exit status: 1")), "English", "t", "/l"),
        "failed translation to English\nfailed_at=t\nstatus=exit status: 1\nlog=/l\n"
    );
    assert!(translation_status(&TranslationStage::Running, "English", "t", "/l").starts_with("running"));
    assert!(translation_status(&TranslationStage::Completed, "English", "t", "/o").ends_with("output=/o\n"));
}

#[test]
fn translations_are_run_and_logged() {
    assert_eq!(
        translation_command("/t", "/o", "prompt"),
        vec!["exec", "--skip-git-repo-check", "-C", "/t", "-o", "/o", "prompt"]
    );
    assert_eq!(translation_event(&TranslationStage::Queued), "ui_translation_queued");
    assert_eq!(translation_event(&TranslationStage::Running), "ui_translation_started");
    assert_eq!(translation_event(&TranslationStage::Completed), "ui_translation_completed");
    assert_eq!(translation_event(&TranslationStage::Failed(text("e"))), "ui_translation_failed");
    assert_eq!(translation_event(&TranslationStage::Exited(text("1"))), "ui_translation_failed");
}

#[test]
fn translations_or_their_status_are_shown() {
    assert_eq!(render_translation_panel(&None, &None, "t", "en"), "");
    let done = render_translation_panel(&Some(text("a<b")), &Some(text("s")), "t", "en");
    assert!(done.contains("Translated Team Messages: English") && done.contains("a&lt;b"));
    let running = render_translation_panel(&None, &Some(text("running")), "t 1", "en");
    assert!(running.contains("running") && running.contains("/?team=t+1&translation=en"));
}

#[test]
fn messages_and_chat_are_shown_escaped() {
    let events = vec![
        event("message_sent", TIME, r#"{"from":"lead","to":["user"],"message":"<done>"}"#),
        event("message_sent", TIME, r#"{"from":"user","to":["lead"],"message":"go on"}"#),
    ];
    let board = render_message_board(&events, "t", "en", "PANEL");
    assert!(board.contains("&lt;done&gt;") && board.contains("go on") && board.contains("PANEL"));
    let chat = render_lead_chat(&events, "t", &Some(text("thinking")));
    assert!(chat.contains("go on") && chat.contains("thinking"));
    assert_eq!(tail_lines("a\nb\nc", 2), "b\nc");
}

#[test]
fn directories_are_listed_by_name() {
    let entry = |name: &str| DirectoryEntry { path: format!("/w/{name}"), name: text(name) };
    let html = render_directory_picker(
        "/w",
        &Some(text("/")),
        vec![entry("b"), entry("a")],
        &Some(text("t")),
    );
    assert!(html.contains("../</a>"));
    assert!(html.find(">a/</a>").expect("a") < html.find(">b/</a>").expect("b"));
    assert!(directory_picker_href("/w x", &Some(text("t"))).contains("%2Fw+x"));
    let many: Vec<DirectoryEntry> = (0..100).map(|idx| entry(&format!("d{idx:03}"))).collect();
    let html = render_directory_picker("/w", &None, many, &None);
    assert!(html.contains("d079/") && !html.contains("d080/"));
}

#[test]
fn home_is_expanded() {
    assert_eq!(expand_home("~", "/home/u"), "/home/u");
    assert_eq!(expand_home("~/x", "/home/u"), "/home/u/x");
    assert_eq!(expand_home("/x/~", "/home/u"), "/x/~");
    assert_eq!(selected_cwd(&Some(text("~/x")), &None, "/h"), "/h/x");
    assert_eq!(selected_cwd(&None, &Some(text("/d")), "/h"), "/d");
    assert_eq!(selected_cwd(&None, &None, "/h"), "/h");
}

fn summary(id: &str, updated_at: &str) -> TeamSummary {
    TeamSummary {
        id: text(id),
        goal: text("goal"),
        updated_at: text(updated_at),
        run_status: UiTeamRunStatus::Idle,
    }
}

#[test]
fn teams_are_listed_newest_first() {
    let teams = sort_teams(vec![summary("old", "2026-01-01"), summary("new", "2026-02-01")]);
    assert_eq!(teams[0].id, "new");
    assert_eq!(selected_team_id(&teams, &None), Some(text("new")));
    assert_eq!(selected_team_id(&teams, &Some(text("old"))), Some(text("old")));
    assert_eq!(selected_team_id(&Vec::new(), &None), None);
}

#[test]
fn fixed_views_name_the_team() {
    assert!(render_realtime_view("t 1", &test_config()).contains("lead"));
    assert!(render_debug_timeline_view("t1").contains("t1"));
    assert!(render_agent_flow_console_view("t1").contains("t1"));
    let running = render_team_runtime_controls("t1", UiTeamRunStatus::Running);
    let idle = render_team_runtime_controls("t1", UiTeamRunStatus::Idle);
    assert!(running.contains("running") && idle.contains("stop(idle)"));
}

#[test]
fn the_page_shows_the_selected_team() {
    let detail = TeamDetail {
        config: test_config(),
        run_status: UiTeamRunStatus::Running,
        tasks: vec![test_task("1", Some("engineering"), TaskStatus::InProgress)],
        jobs: vec![job("job-1", "1", TeamJobStatus::Running)],
        waits: Vec::new(),
        nodes: vec![node("local", TeamNodeKind::Local, None, None)],
        node_ages: vec![Some(5)],
        events: vec![event("team_created", TIME, "{}")],
        standings: Vec::new(),
        journal: JournalSource {
            entries: Vec::new(),
            current: None,
            journal_path: text("/j"),
            digest_path: text("/d"),
            digest: None,
        },
        lead_live: None,
        translation_output: None,
        translation_status: None,
        usage: vec![usage_record("turn-1", "research", 10)],
        usage_shares: no_shares(),
        side_channel: Vec::new(),
    };
    let html = render_team_ui(TeamUi {
        teams: vec![summary("team-task-test", "2026-02-01")],
        asked_team: None,
        asked_task: None,
        asked_language: None,
        cwd: text("/work <dir>"),
        directory: DirectoryListing {
            path: text("/work <dir>"),
            parent: Some(text("/")),
            entries: vec![DirectoryEntry { path: text("/work <dir>/sub"), name: text("sub") }],
        },
        registered_app_server_url: text("ws://h:1"),
        ui_runs_log: Some(text("started")),
        detail: Some(detail),
    });
    assert!(html.starts_with("<!doctype html>"));
    assert!(html.contains("team-task-test"));
    let usage = vec![usage_record("turn-1", "research", 10)];
    assert!(html.contains(&render_token_usage_panel(&usage, &no_shares(), &Vec::new())));
    assert!(html.contains(
        r#"<div class="dir-current">/work &lt;dir&gt;</div><a href="/?team=team-task-test&cwd=%2F">../</a><a href="/?team=team-task-test&cwd=%2Fwork+%3Cdir%3E%2Fsub">sub/</a></div>"#
    ));
    assert!(html.contains("/work &lt;dir&gt;"));
    assert!(html.contains("task 1"));
    assert!(html.contains("ws://h:1"));
}
