use codex_teams::json::{json_text, parse_json, Json};
use codex_teams::mcp_resource::{
    arguments_from, begin_list, begin_read, call_step, call_tool_result_from_content,
    emit_tool_call_begin, emit_tool_call_end, finish_call, list_request, normalize_optional_string,
    normalize_required_string, parse_arguments, parse_args, parse_args_with_default,
    read_payload, serialize_function_output, server_failure, CallAction, CallEvent, CallState,
    FunctionCallError,
    FunctionToolOutput, ListMcpResourceTemplatesHandler, ListMcpResourcesHandler, ListPage,
    ListReply, ListRequest, ListResourceTemplatesPayload, ListResourcesArgs,
    ListResourcesPayload, McpInvocation, McpMethod, McpToolCallStatus, ReadMcpResourceHandler,
    ReadResourceArgs, ToolPayload,
};

fn text(value: &str) -> String {
    value.to_string()
}

fn failure(message: &str) -> FunctionCallError {
    FunctionCallError::RespondToModel(text(message))
}

#[test]
fn handlers_have_names() {
    assert_eq!(ListMcpResourcesHandler.tool_name(), "list_mcp_resources");
    assert_eq!(ListMcpResourceTemplatesHandler.tool_name(), "list_mcp_resource_templates");
    assert_eq!(ReadMcpResourceHandler.tool_name(), "read_mcp_resource");
}

#[test]
fn strings_are_normalised() {
    assert_eq!(normalize_optional_string(Some(text("  x "))), Some(text("x")));
    assert_eq!(normalize_optional_string(Some(text(" \t"))), None);
    assert_eq!(normalize_optional_string(None), None);
    assert_eq!(normalize_required_string("uri", text(" u ")), Ok(text("u")));
    assert_eq!(
        normalize_required_string("uri", text(" ")),
        Err(failure("uri must be provided"))
    );
}

#[test]
fn arguments_are_parsed() {
    assert_eq!(parse_arguments("  "), Ok(None));
    assert_eq!(parse_arguments("null"), Ok(None));
    let parsed = parse_arguments(r#"{"server":"s"}"#).expect("valid").expect("some");
    assert_eq!(parsed.get_str("server"), Some("s"));
    let error = parse_arguments("{").expect_err("invalid");
    assert!(error.message().starts_with("failed to parse function arguments: "));
    assert_eq!(arguments_from(Ok(Json::null())), Ok(None));
    assert_eq!(
        arguments_from(Err(text("bad"))),
        Err(failure("failed to parse function arguments: bad"))
    );
}

#[test]
fn typed_arguments_are_required_or_defaulted() {
    let some = Some(Json::text("x"));
    assert_eq!(parse_args(&some, Ok(1)), Ok(1));
    assert_eq!(
        parse_args::<u8>(&some, Err(text("no"))),
        Err(failure("failed to parse function arguments: no"))
    );
    assert!(parse_args(&None, Ok(1)).is_err());
    assert_eq!(parse_args_with_default(&None, Ok(1), 7), Ok(7));
    assert_eq!(parse_args_with_default(&some, Ok(1), 7), Ok(1));
}

#[test]
fn other_payloads_are_refused() {
    assert_eq!(
        ListMcpResourcesHandler.arguments(&ToolPayload::Function { arguments: text("") }),
        Ok(None)
    );
    let error = ReadMcpResourceHandler.arguments(&ToolPayload::Other).expect_err("refused");
    assert!(error.message().contains("read_mcp_resource"));
}

#[test]
fn a_cursor_needs_a_server() {
    let args = |server: Option<&str>, cursor: Option<&str>| ListResourcesArgs {
        server: server.map(str::to_string),
        cursor: cursor.map(str::to_string),
    };
    let call = |read: ListResourcesArgs| {
        begin_list("list_mcp_resources", Some(Json::empty_object()), Ok(read))
    };
    let one = match call(args(Some(" s "), Some("c"))) {
        Ok(call) => call,
        Err(error) => panic!("{}", error.message()),
    };
    assert_eq!(one.invocation.server, "s");
    assert_eq!(one.invocation.tool, "list_mcp_resources");
    assert!(matches!(
        list_request(&one),
        Ok(ListRequest::One { server, cursor: Some(cursor) }) if server == "s" && cursor == "c"
    ));
    let all = match call(args(None, Some(" "))) {
        Ok(call) => call,
        Err(error) => panic!("{}", error.message()),
    };
    assert_eq!(all.invocation.server, "codex");
    assert!(matches!(list_request(&all), Ok(ListRequest::All)));
    let mixed = match call(args(None, Some("c"))) {
        Ok(call) => call,
        Err(error) => panic!("{}", error.message()),
    };
    assert!(matches!(
        list_request(&mixed),
        Err(FunctionCallError::RespondToModel(message))
            if message == "cursor can only be used when a server is specified"
    ));
}

#[test]
fn reading_needs_a_server_and_an_address() {
    let read = |server: &str, uri: &str| {
        begin_read(
            "read_mcp_resource",
            Some(Json::empty_object()),
            Ok(ReadResourceArgs { server: text(server), uri: text(uri) }),
        )
    };
    let call = match read(" s ", " u ") {
        Ok(call) => call,
        Err(error) => panic!("{}", error.message()),
    };
    assert_eq!((call.server.as_str(), call.uri.as_str()), ("s", "u"));
    assert_eq!(read("", "u").map(|_| ()), Err(failure("server must be provided")));
    assert_eq!(read("s", " ").map(|_| ()), Err(failure("uri must be provided")));
    let payload = read_payload(call, Ok(7)).expect("payload");
    assert_eq!((payload.server.as_str(), payload.uri.as_str(), payload.result), ("s", "u", 7));
    let failed = match read("s", "u") {
        Ok(call) => read_payload::<u8>(call, Err(text("gone"))),
        Err(error) => Err(error),
    };
    assert_eq!(failed, Err(failure("resources/read failed: gone")));
}

#[test]
fn listings_of_all_servers_are_sorted_by_server() {
    let entries = vec![(text("b"), vec![1, 2]), (text("a"), vec![3])];
    let payload = ListResourcesPayload::from_all_servers(entries);
    let listed: Vec<(&str, i32)> =
        payload.resources.iter().map(|item| (item.server.as_str(), item.resource)).collect();
    assert_eq!(listed, vec![("a", 3), ("b", 1), ("b", 2)]);
    assert_eq!(payload.server, None);
    assert_eq!(payload.next_cursor, None);
    let other_order = ListResourcesPayload::from_all_servers(vec![
        (text("a"), vec![3]),
        (text("b"), vec![1, 2]),
    ]);
    assert_eq!(payload, other_order);
    let templates =
        ListResourceTemplatesPayload::from_all_servers(vec![(text("z"), vec!['t'])]);
    assert_eq!(templates.resource_templates[0].template, 't');
}

#[test]
fn a_page_of_one_server_keeps_its_cursor() {
    let payload = ListMcpResourcesHandler
        .payload(ListReply::One {
            server: text("s"),
            page: Ok(ListPage { items: vec!['x'], next_cursor: Some(text("n")) }),
        })
        .expect("payload");
    assert_eq!(payload.server, Some(text("s")));
    assert_eq!(payload.next_cursor, Some(text("n")));
    assert_eq!(payload.resources[0].server, "s");
    let failed = ListMcpResourceTemplatesHandler
        .payload::<u8>(ListReply::One { server: text("s"), page: Err(text("no")) });
    assert_eq!(failed.map(|_| ()), Err(failure("resources/templates/list failed: no")));
    assert_eq!(
        server_failure(McpMethod::ListResources, "no"),
        failure("resources/list failed: no")
    );
}

#[test]
fn tool_calls_begin_and_end() {
    let invocation = McpInvocation {
        server: text("s"),
        tool: text("t"),
        arguments: Some(Json::text("a")),
    };
    let begun = emit_tool_call_begin("id", &invocation);
    assert_eq!(begun.status, McpToolCallStatus::InProgress);
    assert_eq!(begun.id, "id");
    assert_eq!(json_text(&begun.arguments), "\"a\"");
    assert_eq!(begun.duration, None);
    let failed = emit_tool_call_end("id", &invocation, 5, Err(text("boom")));
    assert_eq!(failed.status, McpToolCallStatus::Failed);
    assert_eq!(failed.error.map(|error| error.message), Some(text("boom")));
    assert_eq!(failed.duration, Some(5));
    let result = call_tool_result_from_content("out", Some(true));
    assert_eq!(result.is_error, Some(false));
    assert_eq!(json_text(&result.content[0]), r#"{"text":"out","type":"text"}"#);
    let done = emit_tool_call_end("id", &invocation, 5, Ok(result));
    assert_eq!(done.status, McpToolCallStatus::Completed);
    assert!(done.error.is_none());
}

#[test]
fn calls_finish_with_their_output() {
    let invocation = McpInvocation { server: text("s"), tool: text("t"), arguments: None };
    let output = serialize_function_output(Ok(text("{}")));
    assert_eq!(
        output,
        Ok(FunctionToolOutput { text: text("{}"), success: Some(true) })
    );
    let finished = finish_call("id", &invocation, 3, output);
    assert_eq!(finished.item.status, McpToolCallStatus::Completed);
    assert_eq!(finished.output.expect("output").text, "{}");
    let failed = finish_call("id", &invocation, 3, serialize_function_output(Err(text("bad"))));
    assert_eq!(failed.item.status, McpToolCallStatus::Failed);
    assert!(failed.output.expect_err("error").message().contains("bad"));
    assert!(parse_json("1").is_ok());
}

#[test]
fn calls_are_reported_once_begun_and_once_over() {
    let invocation = || McpInvocation { server: text("s"), tool: text("t"), arguments: None };
    let begun = CallEvent::Begun(Ok(invocation()));
    let (state, action) = call_step("id", CallState::Waiting, begun);
    assert_eq!(action, CallAction::ReportStarted(emit_tool_call_begin("id", &invocation())));
    assert_eq!(state, CallState::Running { invocation: invocation() });
    let again = CallEvent::Begun(Ok(invocation()));
    let (state, action) = call_step("id", state, again);
    assert_eq!(action, CallAction::Nothing);
    let output = serialize_function_output(Ok(text("{}")));
    let ended = CallEvent::Ended { duration: 3, output: output.clone() };
    let (state, action) = call_step("id", state, ended);
    assert_eq!(state, CallState::Done);
    let finished = finish_call("id", &invocation(), 3, output);
    assert_eq!(
        action,
        CallAction::ReportCompleted { item: finished.item, output: finished.output }
    );
    let late = CallEvent::Ended { duration: 4, output: Err(failure("late")) };
    assert_eq!(call_step("id", state, late), (CallState::Done, CallAction::Nothing));
}

#[test]
fn failed_calls_are_reported_as_failed() {
    let invocation = McpInvocation { server: text("s"), tool: text("t"), arguments: None };
    let ended = CallEvent::Ended { duration: 3, output: Err(failure("no")) };
    match call_step("id", CallState::Running { invocation }, ended) {
        (CallState::Done, CallAction::ReportCompleted { item, output }) => {
            assert_eq!(item.status, McpToolCallStatus::Failed);
            assert_eq!(item.error.map(|error| error.message), Some(text("no")));
            assert_eq!(item.duration, Some(3));
            assert_eq!(output, Err(failure("no")));
        }
        other => panic!("{other:?}"),
    }
}

#[test]
fn refused_calls_report_nothing() {
    let refused = CallEvent::Begun(Err(failure("bad arguments")));
    assert_eq!(
        call_step("id", CallState::Waiting, refused),
        (CallState::Done, CallAction::Refuse(failure("bad arguments")))
    );
    let early = CallEvent::Ended { duration: 1, output: Err(failure("x")) };
    assert_eq!(
        call_step("id", CallState::Waiting, early),
        (CallState::Waiting, CallAction::Nothing)
    );
}
