use codex_teams::cli::{
    check_new_app_server, check_registered_app_server, fallback_notice, format_member_list,
    list_logs, log_path, monitor_notice, monitor_session, monitor_start, plan_message,
    plan_monitor, plan_task_steps, read_inbox, AppServerStep, MessageError, MonitorStart, TaskStep,
    APP_SERVER_ATTEMPTS,
};
use codex_teams::json::{json_text, parse_json, Json};
use codex_teams::model::{MailMessage, MemberStatus, TeamConfig, TeamMember};
use codex_teams::shell::sh_quote;

const TIME: &str = "2026-05-10T09:00:00+09:00";

fn member(name: &str, status: MemberStatus) -> TeamMember {
    TeamMember {
        name: name.to_string(),
        role: name.to_string(),
        status,
        joined_at: TIME.to_string(),
        thread_id: None,
        workspace_path: None,
        node: None,
    }
}

fn test_config() -> TeamConfig {
    TeamConfig {
        version: 1,
        id: "team-task-test".to_string(),
        goal: "test".to_string(),
        lead: "lead".to_string(),
        members: vec![
            member("lead", MemberStatus::Online),
            member("engineering", MemberStatus::Standby),
            member("quality", MemberStatus::Online),
        ],
        language: None,
        created_at: TIME.to_string(),
        updated_at: TIME.to_string(),
    }
}

fn mailbox<'a>(messages: &'a [MailMessage], to: &str) -> Vec<&'a MailMessage> {
    messages.iter().filter(|message| message.to == to).collect()
}

#[test]
fn message_cli_allows_reserved_system_sender() {
    let plan = plan_message(&test_config(), "system", "lead", "gate correction", TIME)
        .expect("send system message");
    let messages = mailbox(&plan.messages, "lead");
    assert_eq!(messages.len(), 1);
    assert_eq!(messages[0].from, "system");
    assert_eq!(messages[0].message, "gate correction");
}

#[test]
fn message_cli_allows_comma_separated_recipients() {
    let plan = plan_message(
        &test_config(),
        "lead",
        "engineering, quality,engineering",
        "please coordinate",
        TIME,
    )
    .expect("send message");
    let engineering = mailbox(&plan.messages, "engineering");
    let quality = mailbox(&plan.messages, "quality");
    assert_eq!(engineering.len(), 1);
    assert_eq!(quality.len(), 1);
    assert_eq!(engineering[0].message, "please coordinate");
    assert_eq!(quality[0].message, "please coordinate");
    assert_eq!(
        json_text(plan.event.get("to").expect("to")),
        r#"["engineering","quality"]"#
    );
    assert_eq!(plan.notice, "Message sent to engineering, quality,engineering");
}

#[test]
fn message_cli_rejects_all_mixed_with_explicit_recipient() {
    let err = plan_message(&test_config(), "lead", "all,quality", "ambiguous", TIME)
        .expect_err("mixed all should fail");
    assert!(err.message().contains("recipient `all` cannot be combined"));
}

#[test]
fn all_reaches_everyone_but_the_sender() {
    let plan = plan_message(&test_config(), " lead ", "all", "hi", TIME).expect("plan");
    let to: Vec<&str> = plan.messages.iter().map(|message| message.to.as_str()).collect();
    assert_eq!(to, vec!["engineering", "quality"]);
    assert!(plan.messages.iter().all(|message| message.from == "lead" && !message.read));
    assert_eq!(
        json_text(&plan.event),
        r#"{"from":"lead","message":"hi","to":["engineering","quality"]}"#
    );
}

#[test]
fn unknown_senders_and_recipients_are_named() {
    let config = test_config();
    assert_eq!(
        plan_message(&config, "ghost", "lead", "hi", TIME).map(|_| ()),
        Err(MessageError::UnknownMember("ghost".to_string()))
    );
    assert_eq!(
        plan_message(&config, "lead", "quality,ghost", "hi", TIME).map(|_| ()),
        Err(MessageError::UnknownMember("ghost".to_string()))
    );
    assert_eq!(
        plan_message(&config, "lead", " , ", "hi", TIME).map(|_| ()),
        Err(MessageError::NoRecipient)
    );
    assert_eq!(
        MessageError::UnknownMember("x".to_string()).message(),
        "team member `x` does not exist"
    );
    assert_eq!(MessageError::NoRecipient.message(), "no recipient is given");
    assert!(plan_message(&config, "lead", "user", "hi", TIME).is_ok());
}

#[test]
fn member_list_is_aligned() {
    let mut config = test_config();
    config.members[1].node = Some("gpu".to_string());
    assert_eq!(
        format_member_list(&config.members),
        format!(
            "{:<20} {:<16} {:<16} Online\n{:<20} {:<16} {:<16} Standby\n{:<20} {:<16} {:<16} Online\n",
            "lead", "lead", "local", "engineering", "engineering", "gpu", "quality", "quality",
            "local"
        )
    );
}

#[test]
fn inbox_lists_messages_or_says_that_it_is_empty() {
    let config = test_config();
    assert_eq!(
        read_inbox(&config, "lead", &Vec::new()),
        Ok("Inbox for `lead` is empty.\n".to_string())
    );
    let message = MailMessage {
        from: "quality".to_string(),
        to: "lead".to_string(),
        message: "done".to_string(),
        timestamp: "t".to_string(),
        read: true,
    };
    assert_eq!(
        read_inbox(&config, "lead", &vec![message]),
        Ok("[t] quality -> lead: done\n".to_string())
    );
    assert_eq!(
        read_inbox(&config, "ghost", &Vec::new()),
        Err(MessageError::UnknownMember("ghost".to_string()))
    );
}

#[test]
fn logs_are_found_by_kind_and_listed_in_order() {
    let mut config = test_config();
    config.members.push(member("a b", MemberStatus::Online));
    assert_eq!(log_path(&config, "a b", true, true), Ok("live_messages/a-b.md".to_string()));
    assert_eq!(log_path(&config, "lead", false, true), Ok("last_messages/lead.md".to_string()));
    assert_eq!(log_path(&config, "lead", false, false), Ok("logs/lead.log".to_string()));
    assert!(log_path(&config, "ghost", false, false).is_err());
    assert_eq!(
        list_logs("d", vec!["b.md".to_string(), "B.md".to_string(), "a.md".to_string()]),
        "d/B.md\nd/a.md\nd/b.md\n"
    );
    assert_eq!(list_logs("d", Vec::new()), "No logs found.\n");
}

#[test]
fn added_tasks_are_reported() {
    assert_eq!(
        taken(plan_task_steps("7", Json::text("x"), false)),
        vec![
            r#"task_created {"task":"x"}"#,
            "promote waits",
            "touch config",
            "Created task 7",
        ]
    );
    assert_eq!(
        taken(plan_task_steps("7", Json::text("x"), true)),
        vec![r#"task_add_reused_similar_open_task {"task":"x"}"#, "Reused task 7"]
    );
}

fn taken(steps: Vec<TaskStep>) -> Vec<String> {
    steps
        .into_iter()
        .map(|step| match step {
            TaskStep::Record { event, data } => format!("{event} {}", json_text(&data)),
            TaskStep::PromoteWaits => "promote waits".to_string(),
            TaskStep::TouchConfig => "touch config".to_string(),
            TaskStep::Notify { notice } => notice,
        })
        .collect()
}

#[test]
fn task_add_records_created_before_auto_unblocked() {
    let task = parse_json(
        r#"{"id":"2","subject":"dependent task","description":"","owner":"engineering","depends_on":["1"]}"#,
    )
    .expect("task");
    let mut events = Vec::new();
    for step in plan_task_steps("2", task, false) {
        match step {
            TaskStep::Record { event, .. } => events.push(event),
            TaskStep::PromoteWaits => events.push("task_dependency_unblocked"),
            TaskStep::TouchConfig | TaskStep::Notify { .. } => {}
        }
    }
    let task_created_index =
        events.iter().position(|event| *event == "task_created").expect("task_created event");
    let task_unblocked_index = events
        .iter()
        .position(|event| *event == "task_dependency_unblocked")
        .expect("task_dependency_unblocked event");
    assert!(
        task_created_index < task_unblocked_index,
        "task_created should be recorded before dependency unblocking"
    );
}

#[test]
fn quoting_survives_quotes() {
    assert_eq!(sh_quote("/root/.codex"), "'/root/.codex'");
    assert_eq!(sh_quote("it's"), r"'it'\''s'");
    assert_eq!(sh_quote(""), "''");
}

#[test]
fn monitor_opens_four_panes() {
    assert_eq!(monitor_session(&None, "team 1"), "codex-team-team-1");
    assert_eq!(monitor_session(&Some("s".to_string()), "team 1"), "s");
    let commands = plan_monitor("s", "/bin/codex", "t", "/d");
    assert_eq!(commands.len(), 6);
    assert_eq!(
        commands[0],
        vec![
            "new-session",
            "-d",
            "-s",
            "s",
            "-n",
            "team",
            "watch -n 2 ''/bin/codex' team status --team 't''"
        ]
    );
    assert_eq!(
        commands[1],
        vec![
            "split-window",
            "-t",
            "s",
            "-h",
            "cd '/d' && touch events.jsonl && tail -n 80 -f events.jsonl"
        ]
    );
    assert_eq!(commands[2][3], "-v");
    assert!(commands[2][4].ends_with("tail -n 40 -F mailboxes/*.jsonl"));
    assert_eq!(commands[3], vec!["select-pane", "-t", "s:0.0"]);
    assert!(commands[4][4].ends_with("tail -n 80 -F live_messages/*.md"));
    assert_eq!(commands[5], vec!["select-layout", "-t", "s", "tiled"]);
    assert_eq!(
        monitor_notice("s", "t", "/d"),
        "tmux monitor: s\nAttach: tmux attach -t s\nTeam: t\nState: /d\n"
    );
}

#[test]
fn monitor_replaces_a_session_only_when_forced() {
    assert_eq!(monitor_start("s", false, false), MonitorStart::Fresh);
    assert_eq!(monitor_start("s", true, true), MonitorStart::Replace);
    assert_eq!(
        monitor_start("s", true, false),
        MonitorStart::Refuse(
            "tmux session `s` already exists; pass --force or choose --session".to_string()
        )
    );
}

#[test]
fn app_server_is_reused_or_waited_for() {
    let url = Some("ws://h:1".to_string());
    assert_eq!(
        check_registered_app_server(&url, true),
        AppServerStep::Use("Using registered app-server: ws://h:1".to_string())
    );
    assert_eq!(
        check_registered_app_server(&url, false),
        AppServerStep::Start(Some("Removing stale app-server registry: ws://h:1".to_string()))
    );
    assert_eq!(check_registered_app_server(&None, false), AppServerStep::Start(None));
    assert_eq!(check_new_app_server("u", 0, false, &None), AppServerStep::Wait);
    assert_eq!(
        check_new_app_server("u", 3, true, &Some("exit 1".to_string())),
        AppServerStep::Use("Started shared app-server: u".to_string())
    );
    assert_eq!(
        check_new_app_server("u", 3, false, &Some("exit 1".to_string())),
        AppServerStep::Fail("shared app-server exited early with status exit 1".to_string())
    );
    assert_eq!(
        check_new_app_server("u", APP_SERVER_ATTEMPTS, true, &None),
        AppServerStep::Fail("shared app-server did not become ready at u".to_string())
    );
    assert_eq!(
        fallback_notice("127.0.0.1:1", "127.0.0.1:2"),
        "Requested team UI address 127.0.0.1:1 is already in use; using 127.0.0.1:2 instead."
    );
}
