use codex_teams::model::{MailMessage, MemberStatus, TeamMember, TeamPromptLanguage};
use codex_teams::team_rules::{
    active_turn_messages_are_deferrable_system_nudges, build_lead_department_design_prompt,
    build_reactive_steer_prompt, build_side_channel_reply_prompt, container_team_cleanup_shell,
    mask_trigger_words, remote_app_server_bootstrap_script, side_channel_message_needs_fast_reply,
    team_goal_requests_continuation, thread_usage_exceeds_rotation_limit,
    MAX_APP_SERVER_THREAD_TOTAL_TOKENS, MAX_REACTIVE_PROMPT_MESSAGES,
};
use codex_teams::token_usage::{TeamTokenUsageBreakdown, TeamTokenUsageRecord};

fn now() -> String {
    "2026-05-10T09:00:00+09:00".to_string()
}

fn member(name: &str, role: &str) -> TeamMember {
    TeamMember {
        name: name.to_string(),
        role: role.to_string(),
        status: MemberStatus::Running,
        joined_at: now(),
        thread_id: None,
        workspace_path: None,
        node: None,
    }
}

fn mail(from: &str, to: &str, message: &str) -> MailMessage {
    MailMessage {
        from: from.to_string(),
        to: to.to_string(),
        message: message.to_string(),
        timestamp: now(),
        read: false,
    }
}

#[test]
fn container_cleanup_recognizes_team_managed_runtime_names() {
    let script = container_team_cleanup_shell(
        "team-20260511115343",
        "team-20260511115343-runtime",
        false,
    );
    assert!(script.contains("[c]odex app-server"));
}

#[test]
fn container_cleanup_does_not_broadly_kill_shared_containers_by_default() {
    let script =
        container_team_cleanup_shell("team-20260511115343", "shared-runtime-container", false);
    assert!(!script.contains("[c]odex app-server"));
    assert!(script.contains("[C]ODEX_TEAM_ID"));
}

#[test]
fn container_cleanup_stops_all_app_servers_when_asked() {
    let script = container_team_cleanup_shell("it's", "shared", true);
    assert_eq!(
        script,
        concat_lines(&[
            r"ps eww -eo pid=,args= | grep '[C]ODEX_TEAM_ID=''it'\''s' | awk '{print $1}' | xargs -r kill 2>/dev/null || true",
            "pkill -f '[c]odex app-server' 2>/dev/null || true",
        ])
    );
}

fn concat_lines(lines: &[&str]) -> String {
    let mut out = lines.join("\n");
    out.push('\n');
    out
}

#[test]
fn side_channel_prompt_forbids_completion_checklist() {
    let member = member("worker", "runtime");
    let messages = vec![mail("lead", "worker", "status?")];

    let en = build_side_channel_reply_prompt(&member, &messages, TeamPromptLanguage::En);
    let ja = build_side_channel_reply_prompt(&member, &messages, TeamPromptLanguage::Ja);

    assert!(en.contains("never include TEAM_COMPLETION_CHECKLIST"));
    assert!(ja.contains("TEAM_COMPLETION_CHECKLIST を絶対に書かない"));
}

#[test]
fn side_channel_prompt_repeats_the_messages() {
    let member = member("worker", "runtime");
    let messages = vec![mail("lead", "worker", "status?\nnow"), mail("qa", "worker", "b")];
    let en = build_side_channel_reply_prompt(&member, &messages, TeamPromptLanguage::En);
    assert!(en.starts_with("You are @worker (runtime).\n"));
    assert!(en.ends_with("Messages:\n- @lead: status? now\n- @qa: b\n"));
}

#[test]
fn side_channel_ignores_status_handoff_updates() {
    let message = mail(
        "evaluation",
        "runtime",
        "受領しました。current mode は task 3 blocked / wait-2 waiting(open) 継続です。next checkpoint は runtime package 到着です。",
    );

    assert!(!side_channel_message_needs_fast_reply("runtime", &message));
}

#[test]
fn side_channel_ignores_japanese_no_reply_outreach() {
    let message = mail(
        "phase0_scan_recovery",
        "runtime",
        "@phase0_scan_recovery からの定期アイドル声かけ: 私はいま free/standby です。blocker、レビュー依頼、artifact 解釈など、手伝えることはありますか？問題なく進んでいるなら返信不要です。",
    );

    assert!(!side_channel_message_needs_fast_reply("runtime", &message));
}

#[test]
fn side_channel_still_replies_to_real_questions() {
    let message = mail(
        "evaluation",
        "runtime",
        "runtime package の正式 path はどれですか？",
    );

    assert!(side_channel_message_needs_fast_reply("runtime", &message));
}

#[test]
fn side_channel_ignores_the_runtime_and_other_members_mail() {
    assert!(!side_channel_message_needs_fast_reply("runtime", &mail("system", "runtime", "ok?")));
    assert!(!side_channel_message_needs_fast_reply("runtime", &mail("runtime", "runtime", "ok?")));
    assert!(!side_channel_message_needs_fast_reply("runtime", &mail("lead", "other", "ok?")));
    assert!(!side_channel_message_needs_fast_reply(
        "runtime",
        &mail("lead", "runtime", "ok? No reply needed.")
    ));
    assert!(side_channel_message_needs_fast_reply("runtime", &mail("lead", "runtime", "ok?")));
}

#[test]
fn remote_bootstrap_installs_codex_team_wrapper_on_path() {
    let script = remote_app_server_bootstrap_script(
        "team-test",
        "http://127.0.0.1:12345",
        "ws://127.0.0.1:23456",
    );

    assert!(script.contains("$HOME/bin/.codex-team-real"));
    assert!(script.contains("export CODEX_TEAM_ID="));
    assert!(script.contains("CODEX_TEAM_ID:-"));
    assert!(script.contains("team-test"));
    assert!(script.contains("export CODEX_TEAM_RELAY_URL="));
    assert!(script.contains("CODEX_TEAM_RELAY_URL:-"));
    assert!(script.contains("http://127.0.0.1:12345"));
    assert!(script.contains("install -m 0755 \"$helper_real\" /usr/local/bin/.codex-team-real"));
    assert!(script.contains("install -m 0755 \"$HOME/bin/codex-team\" /usr/local/bin/codex-team"));
    assert!(script.contains("export PATH=\"$HOME/bin:/usr/local/bin:/root/bin:$PATH\""));
    assert!(script.contains("CODEX_TEAM_HELPER_TIMEOUT:-30s"));
    assert!(script.contains("$CODEX_TEAM_RELAY_URL/wait/list"));
    assert!(script.contains("$CODEX_TEAM_RELAY_URL/wait/add"));
    assert!(script.contains("$CODEX_TEAM_RELAY_URL/wait/set"));
}

#[test]
fn active_turn_system_nudges_are_deferrable() {
    let system_messages = vec![
        mail("system", "lead", "Lead autonomy tick"),
        mail("system", "lead", "Department heartbeat"),
    ];
    assert!(active_turn_messages_are_deferrable_system_nudges(
        &system_messages
    ));

    let user_messages = vec![mail("user", "lead", "今すぐ方針を変えて")];
    assert!(!active_turn_messages_are_deferrable_system_nudges(
        &user_messages
    ));
}

#[test]
fn nothing_is_no_nudge() {
    assert!(!active_turn_messages_are_deferrable_system_nudges(&Vec::new()));
    assert!(!active_turn_messages_are_deferrable_system_nudges(&vec![
        mail("system", "lead", "tick"),
        mail("user", "lead", "stop"),
    ]));
}

#[test]
fn continuation_detection_accepts_continue_iterating_prompt() {
    assert!(team_goal_requests_continuation(
        "Continue iterating: research/planning -> Docker/build -> container experiment -> evaluation/audit -> next action."
    ));
    assert!(team_goal_requests_continuation(
        "Keep iterating until a real blocker requiring user input appears."
    ));
    assert!(team_goal_requests_continuation(
        "自動研究として phase0.md と phase1.md を使い、deep_thinker の結果を待ってから ssh saitou 上で Dockerfile を作り、container 内で実験を繰り返す。"
    ));
    assert!(!team_goal_requests_continuation(
        "Run one bounded review and stop for user approval."
    ));
}

#[test]
fn department_design_prompt_masks_user_facing_team_secretary_trigger_words() {
    let prompt = build_lead_department_design_prompt(
        "Use codex-team-secretary style secretary routing for this team.",
        &Vec::new(),
        TeamPromptLanguage::En,
    );
    let lower = prompt.to_lowercase();
    assert!(!lower.contains("codex-team-secretary"));
    assert!(!lower.contains("secretary"));
    assert!(lower.contains("coordinator"));
}

#[test]
fn masking_covers_every_case_and_overlap() {
    assert_eq!(mask_trigger_words("a Secretary, a SECRETARY"), "a coordinator, a coordinator");
    assert_eq!(mask_trigger_words("secresecretarytary"), "secrecoordinatortary");
    assert_eq!(mask_trigger_words("secretar"), "secretar");
    assert_eq!(mask_trigger_words(""), "");
}

#[test]
fn design_prompt_lists_nodes_and_goal() {
    let prompt = build_lead_department_design_prompt(
        "ship it",
        &vec!["gpu".to_string(), "cpu".to_string()],
        TeamPromptLanguage::En,
    );
    assert!(prompt.ends_with("Nodes:\n- gpu\n- cpu\n\nGoal:\nship it\n"));
    let local = build_lead_department_design_prompt("g", &Vec::new(), TeamPromptLanguage::Ja);
    assert!(local.ends_with("ノード:\n- local\n\nGoal:\ng\n"));
}

#[test]
fn reactive_prompt_compacts_large_mailbox_messages() {
    let member = member("worker", "engineering");
    let messages = (0..(MAX_REACTIVE_PROMPT_MESSAGES + 3))
        .map(|idx| mail("lead", "worker", &format!("message-{idx} {}", "x".repeat(2_000))))
        .collect::<Vec<_>>();

    let prompt = build_reactive_steer_prompt(&member, &messages, TeamPromptLanguage::En);

    assert!(prompt.contains("older message(s) are omitted"));
    assert!(!prompt.contains("message-0"));
    assert!(prompt.contains("message-14"));
    assert!(prompt.contains("..."));
    assert!(prompt.len() < 20_000);
}

#[test]
fn reactive_prompt_keeps_a_small_mailbox_whole() {
    let member = member("worker", "engineering");
    let messages = vec![mail("lead", "worker", "go on")];
    let prompt = build_reactive_steer_prompt(&member, &messages, TeamPromptLanguage::Ja);
    assert!(!prompt.contains("省略"));
    assert!(prompt.ends_with("メッセージ:\n- @lead: go on\n"));
}

#[test]
fn thread_usage_rotation_limit_uses_total_and_context_ratio() {
    let mut record = TeamTokenUsageRecord {
        timestamp: now(),
        member: "lead".to_string(),
        role: "lead".to_string(),
        node: "local".to_string(),
        thread: "thread-1".to_string(),
        turn: "turn-1".to_string(),
        category: "lead_tick".to_string(),
        source: "active_turn".to_string(),
        total: TeamTokenUsageBreakdown {
            total_tokens: MAX_APP_SERVER_THREAD_TOTAL_TOKENS - 1,
            input_tokens: 0,
            cached_input_tokens: 0,
            output_tokens: 0,
            reasoning_output_tokens: 0,
        },
        last: TeamTokenUsageBreakdown::default(),
        model_context_window: Some(1_000_000),
    };
    assert!(!thread_usage_exceeds_rotation_limit(&record));

    record.total.total_tokens = MAX_APP_SERVER_THREAD_TOTAL_TOKENS;
    assert!(thread_usage_exceeds_rotation_limit(&record));

    record.total.total_tokens = 700;
    record.model_context_window = Some(1_000);
    assert!(thread_usage_exceeds_rotation_limit(&record));
}

#[test]
fn threads_below_both_limits_stay() {
    let mut record = TeamTokenUsageRecord {
        timestamp: now(),
        member: "lead".to_string(),
        role: "lead".to_string(),
        node: "local".to_string(),
        thread: "thread-1".to_string(),
        turn: "turn-1".to_string(),
        category: "lead_tick".to_string(),
        source: "active_turn".to_string(),
        total: TeamTokenUsageBreakdown::default(),
        last: TeamTokenUsageBreakdown::default(),
        model_context_window: Some(1_000),
    };
    record.total.total_tokens = 699;
    assert!(!thread_usage_exceeds_rotation_limit(&record));
    record.model_context_window = Some(0);
    assert!(!thread_usage_exceeds_rotation_limit(&record));
    record.model_context_window = None;
    assert!(!thread_usage_exceeds_rotation_limit(&record));
}
