use codex_teams::cli::plan_message;
use codex_teams::escape::html_escape;
use codex_teams::form::{form_get, parse_form};
use codex_teams::http::{parse_ws_host_port, redirect_team_ui_with_params};
use codex_teams::kanban::find_selected_member;
use codex_teams::model::{MemberStatus, TaskStatus, TeamConfig, TeamMember, TeamTask};
use codex_teams::team_rules::thread_usage_exceeds_rotation_limit;
use codex_teams::token_usage::{
    token_usage_report, TeamTokenUsageBreakdown, TeamTokenUsageRecord,
};

fn text(value: &str) -> String {
    value.to_string()
}

fn record(turn: &str, member: &str, total: i64) -> TeamTokenUsageRecord {
    let mut usage = TeamTokenUsageBreakdown::default();
    usage.total_tokens = total;
    TeamTokenUsageRecord {
        timestamp: format!("2026-05-10T00:00:0{turn}Z"),
        member: text(member),
        role: text("r"),
        node: text("n"),
        thread: text("th"),
        turn: text(turn),
        category: text(member),
        source: text("s"),
        total: usage,
        last: usage,
        model_context_window: Some(100),
    }
}

#[test]
fn a_repeated_usage_record_changes_nothing() {
    let records = || vec![record("1", "dev", 5), record("2", "qa", 7), record("3", "dev", 1)];
    let report = token_usage_report(&records());
    assert_eq!(report.total.total_tokens, 13);
    for at in 0..3 {
        let mut again = records();
        again.push(records().remove(at));
        let repeated = token_usage_report(&again);
        assert_eq!(repeated.total, report.total);
        assert_eq!(repeated.by_category, report.by_category);
        assert_eq!(repeated.by_member, report.by_member);
        assert_eq!(repeated.by_category_member, report.by_category_member);
        assert_eq!(repeated.by_node, report.by_node);
    }
}

#[test]
fn the_last_record_of_a_position_counts() {
    let mut later = record("1", "dev", 5);
    later.last.total_tokens = 9;
    let records = vec![record("1", "dev", 5), record("2", "qa", 7), later];
    assert_eq!(token_usage_report(&records).total.total_tokens, 16);
}

fn config() -> TeamConfig {
    let member = |name: &str, role: &str| TeamMember {
        name: text(name),
        role: text(role),
        status: MemberStatus::Online,
        joined_at: String::new(),
        thread_id: None,
        workspace_path: None,
        node: None,
    };
    TeamConfig {
        version: 1,
        id: text("t"),
        goal: text("g"),
        lead: text("lead"),
        members: vec![member("lead", "lead"), member("dev", "dev"), member("qa", "qa")],
        language: None,
        created_at: String::new(),
        updated_at: String::new(),
    }
}

#[test]
fn escaped_text_holds_no_markup() {
    let escaped = html_escape("<b onclick=\"x\">&amp;</b>");
    assert!(!escaped.contains('<') && !escaped.contains('>') && !escaped.contains('"'));
    assert_ne!(html_escape("&lt;"), html_escape("<"));
    assert_eq!(html_escape("a<") + &html_escape(">b"), html_escape("a<>b"));
}

#[test]
fn a_redirect_keeps_its_parameters() {
    let response = redirect_team_ui_with_params(&vec![("team", "a&b=c"), ("translation", "日本")]);
    let location = response
        .lines()
        .find_map(|line| line.strip_prefix("Location: /?"))
        .expect("location");
    let form = parse_form(location);
    assert_eq!(form_get(&form, "team"), Some(text("a&b=c")));
    assert_eq!(form_get(&form, "translation"), Some(text("日本")));
}

#[test]
fn addresses_are_read_back() {
    for (host, shown, port) in [("127.0.0.1", "127.0.0.1", 0), ("[::1]", "::1", 65535)] {
        assert_eq!(
            parse_ws_host_port(&format!("ws://{host}:{port}")),
            Some((text(shown), port))
        );
    }
}

#[test]
fn usage_groups_ignore_the_order_of_records() {
    let records = vec![record("1", "a", 5), record("2", "b", 7), record("3", "a", 2)];
    let mut reversed = records.clone();
    reversed.reverse();
    let left = token_usage_report(&records);
    let right = token_usage_report(&reversed);
    assert_eq!(left.by_member, right.by_member);
    assert_eq!(left.by_category, right.by_category);
    let sum: i64 = left.by_member.iter().map(|(_, usage)| usage.total_tokens).sum();
    assert_eq!(sum, left.total.total_tokens);
    assert_eq!(left.by_member.len(), 2);
}

#[test]
fn threads_over_the_limit_stay_over_it() {
    assert!(!thread_usage_exceeds_rotation_limit(&record("1", "a", 69)));
    assert!(thread_usage_exceeds_rotation_limit(&record("1", "a", 70)));
    assert!(thread_usage_exceeds_rotation_limit(&record("1", "a", 71)));
    assert!(thread_usage_exceeds_rotation_limit(&record("1", "a", i64::MAX)));
}

#[test]
fn the_owner_of_the_selected_task_is_selected() {
    let task = |id: &str, owner: Option<&str>, status: TaskStatus| TeamTask {
        id: text(id),
        subject: text("s"),
        description: String::new(),
        owner: owner.map(str::to_string),
        status,
        depends_on: Vec::new(),
        result: None,
        created_at: String::new(),
        updated_at: String::new(),
    };
    let tasks = vec![
        task("1", Some("dev"), TaskStatus::Completed),
        task("2", Some("qa"), TaskStatus::Ready),
    ];
    assert_eq!(find_selected_member(&config(), &tasks, &None), "qa");
    assert_eq!(find_selected_member(&config(), &tasks, &Some(text("1"))), "dev");
    assert_eq!(find_selected_member(&config(), &tasks, &Some(text("9"))), "qa");
    assert_eq!(find_selected_member(&config(), &Vec::new(), &None), "dev");
}

#[test]
fn nobody_gets_a_message_twice() {
    let plan = plan_message(&config(), "user", "qa,dev, qa ,user,dev", "m", "t").expect("plan");
    let to: Vec<&str> = plan.messages.iter().map(|message| message.to.as_str()).collect();
    assert_eq!(to, vec!["qa", "dev", "user"]);
}
