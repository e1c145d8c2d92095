use codex_teams::form::parse_form;
use codex_teams::http::HttpRequest;
use codex_teams::model::{TeamConfig, TeamPromptLanguage};
use codex_teams::order::StringMap;
use codex_teams::route::{
    answer, finish_action, handle_team_ui_request, new_team_command, new_team_cwd, new_team_id, resume_command,
    NewTeamForm, UiAction, UiOutcome,
};
use codex_teams::tool_spec::{
    build_specs_with_discoverable_tools, deferred_dynamic_tools, deferred_tool_sources,
    map_mcp_tools_for_plan, tool_user_shell_type, unavailable_placeholder, wait_agent_timeouts,
    DynamicToolSpec, ObjectSchema, PlaceholderTool, PlannedHandler, PlannedSpec, RegistryStep,
    ShellCommandBackend, ShellType, ToolHandler, ToolHandlerKind, ToolInfo, ToolName,
    ToolRegistryPlan, ToolUserShellType, ToolsConfig, UnavailableMessage,
    WaitAgentTimeoutOptions,
};

fn text(value: &str) -> String {
    value.to_string()
}

fn tool_name(namespace: Option<&str>, name: &str) -> ToolName {
    ToolName {
        namespace: namespace.map(str::to_string),
        name: text(name),
        display: match namespace {
            Some(namespace) => format!("{namespace}{name}"),
            None => text(name),
        },
    }
}

fn tool(key: &str, namespace: &str) -> ToolInfo {
    ToolInfo {
        key: text(key),
        canonical_name: tool_name(Some(namespace), key),
        server_name: text("server"),
        callable_namespace: text(namespace),
        namespace_description: Some(format!("about {key}")),
        connector_name: None,
    }
}

fn tools_config() -> ToolsConfig {
    ToolsConfig {
        multi_agent_v2: false,
        wait_agent_min_timeout_ms: None,
        namespace_tools: false,
        code_mode_enabled: true,
        request_user_input_available_modes: vec![text("plan")],
        shell_command_backend: ShellCommandBackend::Classic,
    }
}

const BOUNDS: WaitAgentTimeoutOptions = WaitAgentTimeoutOptions {
    default_timeout_ms: 30_000,
    min_timeout_ms: 10_000,
    max_timeout_ms: 3_600_000,
};

#[test]
fn shells_are_mapped() {
    assert_eq!(tool_user_shell_type(ShellType::Zsh), ToolUserShellType::Zsh);
    assert_eq!(tool_user_shell_type(ShellType::PowerShell), ToolUserShellType::PowerShell);
}

#[test]
fn waits_stay_within_bounds() {
    let plain = wait_agent_timeouts(false, Some(1), BOUNDS);
    assert_eq!(plain, BOUNDS);
    let short = wait_agent_timeouts(true, Some(-5), BOUNDS);
    assert_eq!(short.min_timeout_ms, 1);
    assert_eq!(short.default_timeout_ms, 30_000);
    let long = wait_agent_timeouts(true, Some(i64::MAX), BOUNDS);
    assert_eq!(long.min_timeout_ms, 3_600_000);
    assert_eq!(long.default_timeout_ms, 3_600_000);
    assert_eq!(wait_agent_timeouts(true, None, BOUNDS).min_timeout_ms, 10_000);
}

#[test]
fn tools_are_described_to_the_plan() {
    let inputs = map_mcp_tools_for_plan(&vec![tool("a", "n"), tool("b", "n"), tool("c", "m")]);
    assert_eq!(
        inputs.mcp_tools,
        vec![tool_name(Some("n"), "a"), tool_name(Some("n"), "b"), tool_name(Some("m"), "c")]
    );
    assert_eq!(inputs.tool_namespaces.len(), 2);
    assert_eq!(
        inputs.tool_namespaces.get("n").expect("namespace").description,
        Some(text("about b"))
    );
    let sources = deferred_tool_sources(&vec![tool("a", "n")]);
    assert_eq!(sources[0].name, tool_name(Some("n"), "a"));
    assert_eq!(sources[0].server_name, "server");
    assert_eq!(sources[0].description, Some(text("about a")));
}

#[test]
fn dynamic_tools_are_deferred() {
    let dynamic = |name: &str, namespace: Option<&str>, defer_loading: bool| DynamicToolSpec {
        name: text(name),
        namespace: namespace.map(str::to_string),
        defer_loading,
    };
    let tools = vec![
        dynamic("a", None, true),
        dynamic("b", Some("n"), true),
        dynamic("c", None, false),
    ];
    assert_eq!(deferred_dynamic_tools(&tools, false), vec![dynamic("a", None, true)]);
    assert_eq!(
        deferred_dynamic_tools(&tools, true),
        vec![dynamic("a", None, true), dynamic("b", Some("n"), true)]
    );
}

#[test]
fn tools_are_registered_in_order() {
    let plan = ToolRegistryPlan {
        specs: vec![
            PlannedSpec { name: text("shell"), supports_parallel_tool_calls: true },
            PlannedSpec { name: text("plan"), supports_parallel_tool_calls: false },
        ],
        handlers: vec![
            PlannedHandler { name: tool_name(None, "plan"), kind: ToolHandlerKind::Plan },
            PlannedHandler { name: tool_name(Some("n"), "a"), kind: ToolHandlerKind::Mcp },
            PlannedHandler {
                name: tool_name(None, "ask"),
                kind: ToolHandlerKind::RequestUserInput,
            },
            PlannedHandler { name: tool_name(None, "find"), kind: ToolHandlerKind::ToolSearch },
        ],
    };
    let steps = build_specs_with_discoverable_tools(
        &tools_config(),
        &plan,
        &Some(vec![tool("a", "n")]),
        &Some(vec![tool("a", "n"), tool("d", "n")]),
        &vec![tool_name(None, "shell"), tool_name(Some("n"), "x"), tool_name(None, "nx")],
        &vec![DynamicToolSpec { name: text("y"), namespace: None, defer_loading: true }],
    );
    assert_eq!(
        steps,
        vec![
            RegistryStep::PushSpec { name: text("shell"), parallel: true },
            RegistryStep::PushSpec { name: text("plan"), parallel: false },
            RegistryStep::Register(ToolHandler::Fixed(ToolHandlerKind::Plan)),
            RegistryStep::Register(ToolHandler::Mcp { name: tool_name(Some("n"), "a") }),
            RegistryStep::Register(ToolHandler::RequestUserInput {
                available_modes: vec![text("plan")]
            }),
            RegistryStep::Register(ToolHandler::ToolSearch {
                deferred_mcp: Some(vec![tool("a", "n"), tool("d", "n")]),
                deferred_dynamic: vec![DynamicToolSpec {
                    name: text("y"),
                    namespace: None,
                    defer_loading: true,
                }],
            }),
            RegistryStep::Register(ToolHandler::Mcp { name: tool_name(Some("n"), "d") }),
            RegistryStep::Register(ToolHandler::Unavailable { name: tool_name(None, "shell") }),
            RegistryStep::PushPlaceholder {
                tool: unavailable_placeholder("nx"),
                code_mode: true,
            },
            RegistryStep::Register(ToolHandler::Unavailable { name: tool_name(Some("n"), "x") }),
            RegistryStep::Register(ToolHandler::Unavailable { name: tool_name(None, "nx") }),
        ]
    );
}

#[test]
fn placeholders_take_no_parameters() {
    assert_eq!(
        unavailable_placeholder("gone"),
        PlaceholderTool {
            name: text("gone"),
            description: UnavailableMessage {
                tool: text("gone"),
                hint: "Calling this placeholder returns an error explaining that the tool is unavailable.",
            },
            strict: false,
            parameters: ObjectSchema {
                properties: Vec::new(),
                required: None,
                additional_properties: Some(false),
            },
            output_schema: None,
            defer_loading: None,
        }
    );
}

fn request(method: &str, path: &str, query: &str, body: &str) -> HttpRequest {
    HttpRequest {
        method: text(method),
        path: text(path),
        query: if query.is_empty() { StringMap::new() } else { parse_form(query) },
        body: text(body),
    }
}

#[test]
fn pages_are_routed() {
    match handle_team_ui_request(&request("GET", "/", "team=t&task=1", "")) {
        UiAction::Page(query) => {
            assert_eq!(query.team, Some(text("t")));
            assert_eq!(query.task, Some(text("1")));
            assert_eq!(query.cwd, None);
        }
        _ => panic!("page"),
    }
    assert!(matches!(
        handle_team_ui_request(&request("GET", "/realtime", "team=t", "")),
        UiAction::Realtime { team } if team == "t"
    ));
    assert!(matches!(
        handle_team_ui_request(&request("GET", "/debug", "team=+", "")),
        UiAction::Refuse { message } if message == "missing query parameter `team`"
    ));
    assert!(matches!(handle_team_ui_request(&request("GET", "/message", "", "")), UiAction::NotFound));
    assert!(matches!(handle_team_ui_request(&request("PUT", "/", "", "")), UiAction::NotFound));
}

#[test]
fn posts_are_routed() {
    assert!(matches!(
        handle_team_ui_request(&request("POST", "/message", "", "team=t&message=hi")),
        UiAction::Message { team, from, to, message }
            if team == "t" && from == "user" && to == "lead" && message == "hi"
    ));
    assert!(matches!(
        handle_team_ui_request(&request("POST", "/message", "", "team=t")),
        UiAction::Refuse { message } if message == "missing form field `message`"
    ));
    assert!(matches!(
        handle_team_ui_request(&request("POST", "/translate", "", "team=t")),
        UiAction::Translate { language, .. } if language == "ja"
    ));
    assert!(matches!(
        handle_team_ui_request(&request("POST", "/resume", "", "team=t")),
        UiAction::Resume { .. }
    ));
    assert!(matches!(
        handle_team_ui_request(&request("POST", "/stop", "", "team=t")),
        UiAction::Stop { .. }
    ));
    assert!(matches!(
        handle_team_ui_request(&request("POST", "/delete", "", "")),
        UiAction::Refuse { .. }
    ));
    assert!(matches!(handle_team_ui_request(&request("POST", "/x", "", "")), UiAction::NotFound));
}

fn answered(request: &HttpRequest, done: Result<&str, &str>) -> String {
    let action = handle_team_ui_request(request);
    let done = done.map(str::to_string).map_err(str::to_string);
    answer(&finish_action(&action, &done))
}

#[test]
fn unknown_routes_are_answered_with_not_found() {
    let expected = "HTTP/1.1 404 Not Found\r\nContent-Type: text/plain\r\nContent-Length: 10\r\nConnection: close\r\n\r\nnot found\n";
    assert_eq!(answered(&request("GET", "/delete", "team=t1", ""), Ok("")), expected);
    assert_eq!(answered(&request("PUT", "/", "", ""), Err("x")), expected);
    assert_eq!(answered(&request("POST", "/", "", ""), Ok("")), expected);
}

#[test]
fn posted_messages_are_answered_with_the_team() {
    let posted = request("POST", "/message", "", "team=t1&to=+&message=hi");
    match handle_team_ui_request(&posted) {
        UiAction::Message { team, from, to, message } => {
            assert_eq!((team, from), (text("t1"), text("user")));
            assert_eq!((to, message), (text("lead"), text("hi")));
        }
        _ => panic!("message"),
    }
    assert_eq!(
        answered(&posted, Ok("")),
        "HTTP/1.1 303 See Other\r\nLocation: /?team=t1\r\nContent-Type: text/plain\r\nContent-Length: 9\r\nConnection: close\r\n\r\nredirect\n"
    );
    assert_eq!(
        answered(&posted, Err("team `t1` does not exist")),
        "HTTP/1.1 500 Internal Server Error\r\nContent-Type: text/plain\r\nContent-Length: 32\r\nConnection: close\r\n\r\nerror: team `t1` does not exist\n"
    );
}

#[test]
fn finished_actions_have_their_answers() {
    let location = |request: &HttpRequest, done: &str| {
        let response = answered(request, Ok(done));
        assert!(response.starts_with("HTTP/1.1 303 See Other\r\n"));
        response.lines().find_map(|line| line.strip_prefix("Location: ").map(str::to_string))
    };
    let translate = request("POST", "/translate", "", "team=t&language=en");
    assert_eq!(location(&translate, ""), Some(text("/?team=t&translation=en")));
    assert_eq!(location(&request("POST", "/resume", "", "team=T+1"), "id"), Some(text("/?team=id")));
    assert_eq!(location(&request("POST", "/stop", "", "team=t+1"), ""), Some(text("/?team=t+1")));
    assert_eq!(location(&request("POST", "/delete", "", "team=t"), ""), Some(text("/")));
    assert_eq!(location(&request("POST", "/new", "", "goal=g"), "new"), Some(text("/?team=new")));
    assert_eq!(
        answered(&request("GET", "/", "", ""), Ok("<p>")),
        "HTTP/1.1 200 OK\r\nContent-Type: text/html; charset=utf-8\r\nContent-Length: 3\r\nConnection: close\r\n\r\n<p>"
    );
    let json = "HTTP/1.1 200 OK\r\nContent-Type: application/json; charset=utf-8\r\nContent-Length: 2\r\nConnection: close\r\n\r\n{}";
    assert_eq!(answered(&request("GET", "/realtime", "team=t", ""), Ok("{}")), json);
    assert_eq!(answered(&request("GET", "/debug", "team=t", ""), Ok("{}")), json);
}

#[test]
fn refused_requests_are_answered_with_the_reason() {
    let refused = request("GET", "/debug", "", "");
    let action = handle_team_ui_request(&refused);
    assert_eq!(
        finish_action(&action, &Ok(String::new())),
        UiOutcome::Failed { message: text("missing query parameter `team`") }
    );
    assert!(answered(&refused, Ok("")).ends_with("\r\n\r\nerror: missing query parameter `team`\n"));
}

fn new_team(body: &str) -> NewTeamForm {
    match handle_team_ui_request(&request("POST", "/new", "", body)) {
        UiAction::New(form) => form,
        _ => panic!("new team"),
    }
}

#[test]
fn new_teams_become_commands() {
    let form = new_team(
        "goal=ship+it&id=my+team&members=a%0Ab&nodes=gpu&app_server_url=ws%3A%2F%2Fh%3A1&no_keep_alive=on&dangerously_bypass_present=1",
    );
    assert_eq!(new_team_id(&form, "20260101"), "my-team");
    assert_eq!(new_team_cwd(&form, &Some(text("~/w")), "/home/u"), "/home/u/w");
    assert_eq!(
        new_team_command(&form, "my-team", "/w", &None),
        vec![
            "team", "swarm", "--id", "my-team", "--node", "gpu", "--member", "a", "--member", "b",
            "--app-server", "--discuss-rounds", "0", "--cd", "/w", "--no-keep-alive",
            "--app-server-url", "ws://h:1", "ship it"
        ]
    );
    let registered = new_team_command(&form, "my-team", "/w", &Some(text("ws://h:1")));
    assert!(!registered.contains(&text("--app-server-url")));
}

#[test]
fn new_teams_have_defaults() {
    let form = new_team("goal=g&cwd=~&discuss_rounds=+2+");
    assert_eq!(new_team_id(&form, "20260101"), "team-20260101");
    assert_eq!(new_team_cwd(&form, &None, "/home/u"), "/home/u");
    assert_eq!(
        new_team_command(&form, "t", "/w", &None),
        vec![
            "team", "swarm", "--id", "t", "--app-server", "--discuss-rounds", "2", "--cd", "/w",
            "--dangerously-bypass-approvals-and-sandbox", "--no-app-server-registry", "g"
        ]
    );
}

#[test]
fn teams_are_resumed_in_their_language() {
    let config = TeamConfig {
        version: 1,
        id: text("t"),
        goal: text("g"),
        lead: text("lead"),
        members: Vec::new(),
        language: Some(TeamPromptLanguage::Ja),
        created_at: text(""),
        updated_at: text(""),
    };
    assert_eq!(
        resume_command(&config),
        vec![
            "team", "resume", "--team", "t", "--dangerously-bypass-approvals-and-sandbox",
            "--language", "ja"
        ]
    );
}
