//! The tools that list and read the resources of MCP servers.

use vstd::prelude::*;

use crate::json::{parse_json, parsed, Json, JsonView};
use crate::order::{
    is_ranking, level, ranked, ranked_ignores_arrival, stable_sort, text_comes_before, text_less,
    text_less_is_total, text_order_is_a_ranking, Ranking,
};
use crate::text::{
    is_blank, opt_view, text_is_blank, trim, trim_end, trim_end_splits, trim_is_empty_iff_blank,
    trim_start, trim_start_splits, trimmed,
};

verus! {

// ---------------------------------------------------------------------------
// Tools
// ---------------------------------------------------------------------------

/// Lists the resources of one server or of all.
pub struct ListMcpResourcesHandler;

/// Lists the resource templates of one server or of all.
pub struct ListMcpResourceTemplatesHandler;

/// Reads a resource of a server.
pub struct ReadMcpResourceHandler;

impl ListMcpResourcesHandler {
    /// The name of the tool.
    pub fn tool_name(&self) -> (out: &'static str)
        ensures
            out@ == "list_mcp_resources"@,
    {
        "list_mcp_resources"
    }
}

impl ListMcpResourceTemplatesHandler {
    /// The name of the tool.
    pub fn tool_name(&self) -> (out: &'static str)
        ensures
            out@ == "list_mcp_resource_templates"@,
    {
        "list_mcp_resource_templates"
    }
}

impl ReadMcpResourceHandler {
    /// The name of the tool.
    pub fn tool_name(&self) -> (out: &'static str)
        ensures
            out@ == "read_mcp_resource"@,
    {
        "read_mcp_resource"
    }
}

/// An error of a tool call.
#[derive(Clone, Debug, PartialEq, Eq)]
pub enum FunctionCallError {
    /// The model is told about the error.
    RespondToModel(String),
}

impl FunctionCallError {
    /// The message of the error.
    pub open spec fn text(self) -> Seq<char> {
        match self {
            FunctionCallError::RespondToModel(message) => message@,
        }
    }

    /// The message of the error.
    pub fn message(&self) -> (out: &str)
        ensures
            out@ == self.text(),
    {
        match self {
            FunctionCallError::RespondToModel(message) => message.as_str(),
        }
    }
}

/// The message of a failed call, or what the call gave.
pub open spec fn fails_with<T>(result: Result<T, FunctionCallError>, message: Seq<char>) -> bool {
    match result {
        Ok(_) => false,
        Err(error) => error.text() == message,
    }
}

/// What a tool is called with.
pub enum ToolPayload {
    /// A function call with its arguments as text.
    Function { arguments: String },
    /// Anything else.
    Other,
}

// ---------------------------------------------------------------------------
// Arguments
// ---------------------------------------------------------------------------

/// An optional text without white space at both ends, or none where nothing is left.
pub open spec fn normalized(text: Option<Seq<char>>) -> Option<Seq<char>> {
    match text {
        Some(text) => if is_blank(text) {
            None
        } else {
            Some(trim(text))
        },
        None => None,
    }
}

/// An optional text without white space at both ends, or none where nothing is left.
pub fn normalize_optional_string(input: Option<String>) -> (out: Option<String>)
    ensures
        opt_view(out) == normalized(opt_view(input)),
{
    match input {
        Some(value) => {
            let kept = trimmed(value.as_str());
            proof {
                trim_is_empty_iff_blank(value@);
            }
            if kept.as_str().is_empty() {
                None
            } else {
                Some(kept)
            }
        },
        None => None,
    }
}

/// The message that says that a field is missing.
pub open spec fn must_be_provided(field: Seq<char>) -> Seq<char> {
    field + " must be provided"@
}

/// A text without white space at both ends, or an error where nothing is left.
pub fn normalize_required_string(field: &str, value: String) -> (out: Result<
    String,
    FunctionCallError,
>)
    ensures
        match out {
            Ok(text) => !is_blank(value@) && text@ == trim(value@),
            Err(error) => is_blank(value@) && error.text() == must_be_provided(field@),
        },
{
    match normalize_optional_string(Some(value)) {
        Some(text) => Ok(text),
        None => {
            let mut message = field.to_string();
            message.append(" must be provided");
            Err(FunctionCallError::RespondToModel(message))
        },
    }
}

/// Normalising twice is normalising once.
pub proof fn normalized_is_idempotent(text: Option<Seq<char>>)
    ensures
        normalized(normalized(text)) == normalized(text),
{
    match text {
        Some(text) => {
            if !is_blank(text) {
                trim_is_empty_iff_blank(text);
                let kept = trim(text);
                trim_start_splits(text);
                let rest = trim_start(text);
                trim_end_splits(rest);
                assert(kept.len() > 0);
                assert(kept[0] == rest[0]);
                assert(trim_start(kept) == kept);
                assert(trim_end(kept) == kept);
                trim_is_empty_iff_blank(kept);
            }
        },
        None => {},
    }
}

/// The message of arguments that cannot be parsed.
pub open spec fn parse_failure(reason: Seq<char>) -> Seq<char> {
    "failed to parse function arguments: "@ + reason
}

fn parse_error(reason: &str) -> (out: FunctionCallError)
    ensures
        out.text() == parse_failure(reason@),
{
    let mut message = "failed to parse function arguments: ".to_string();
    message.append(reason);
    FunctionCallError::RespondToModel(message)
}

/// The arguments that a parsed text comes to: none where it says null.
pub open spec fn arguments_in(value: Result<JsonView, Seq<char>>) -> Result<
    Option<JsonView>,
    Seq<char>,
> {
    match value {
        Ok(value) => if value is Null {
            Ok(None)
        } else {
            Ok(Some(value))
        },
        Err(reason) => Err(parse_failure(reason)),
    }
}

/// The view of optional arguments.
pub open spec fn arguments_view(arguments: Option<Json>) -> Option<JsonView> {
    match arguments {
        Some(arguments) => Some(arguments@),
        None => None,
    }
}

/// The view of arguments or an error.
pub open spec fn arguments_result(arguments: Result<Option<Json>, FunctionCallError>) -> Result<
    Option<JsonView>,
    Seq<char>,
> {
    match arguments {
        Ok(arguments) => Ok(arguments_view(arguments)),
        Err(error) => Err(error.text()),
    }
}

/// The view of a parsed value or the message of the error.
pub open spec fn value_result(value: Result<Json, String>) -> Result<JsonView, Seq<char>> {
    match value {
        Ok(value) => Ok(value@),
        Err(reason) => Err(reason@),
    }
}

/// The arguments that a parsed value comes to.
pub fn arguments_from(value: Result<Json, String>) -> (out: Result<
    Option<Json>,
    FunctionCallError,
>)
    ensures
        arguments_result(out) == arguments_in(value_result(value)),
{
    match value {
        Ok(value) => if value.is_null() {
            Ok(None)
        } else {
            Ok(Some(value))
        },
        Err(reason) => Err(parse_error(reason.as_str())),
    }
}

/// The arguments that a text writes down: none where it is blank or says null.
pub fn parse_arguments(raw: &str) -> (out: Result<Option<Json>, FunctionCallError>)
    ensures
        is_blank(raw@) ==> arguments_result(out) == Ok::<Option<JsonView>, Seq<char>>(None),
        !is_blank(raw@) ==> arguments_result(out) == arguments_in(parsed(raw@)),
{
    if text_is_blank(raw) {
        Ok(None)
    } else {
        arguments_from(parse_json(raw))
    }
}

/// The typed arguments that were read out of the arguments, which must be there. `read` is what
/// reading them gave.
pub fn parse_args<T>(arguments: &Option<Json>, read: Result<T, String>) -> (out: Result<
    T,
    FunctionCallError,
>)
    ensures
        match (*arguments, read) {
            (None, _) => fails_with(out, parse_failure("expected value"@)),
            (Some(_), Err(reason)) => fails_with(out, parse_failure(reason@)),
            (Some(_), Ok(value)) => out == Ok::<T, FunctionCallError>(value),
        },
{
    match arguments {
        None => Err(parse_error("expected value")),
        Some(_) => match read {
            Ok(value) => Ok(value),
            Err(reason) => Err(parse_error(reason.as_str())),
        },
    }
}

/// The typed arguments that were read out of the arguments, or `default` where there are none.
pub fn parse_args_with_default<T>(
    arguments: &Option<Json>,
    read: Result<T, String>,
    default: T,
) -> (out: Result<T, FunctionCallError>)
    ensures
        match (*arguments, read) {
            (None, _) => out == Ok::<T, FunctionCallError>(default),
            (Some(_), Err(reason)) => fails_with(out, parse_failure(reason@)),
            (Some(_), Ok(value)) => out == Ok::<T, FunctionCallError>(value),
        },
{
    match arguments {
        None => Ok(default),
        Some(_) => parse_args(arguments, read),
    }
}

/// The arguments of a list call.
#[derive(Clone, Debug, PartialEq, Eq)]
pub struct ListResourcesArgs {
    /// Everything of all servers is listed where there is none.
    pub server: Option<String>,
    pub cursor: Option<String>,
}

impl Default for ListResourcesArgs {
    fn default() -> (out: Self)
        ensures
            out == (ListResourcesArgs { server: None, cursor: None }),
    {
        ListResourcesArgs { server: None, cursor: None }
    }
}

/// The arguments of a read call.
#[derive(Clone, Debug, PartialEq, Eq)]
pub struct ReadResourceArgs {
    pub server: String,
    pub uri: String,
}

/// The message of a payload that is no function call.
pub open spec fn unsupported_payload(tool: Seq<char>) -> Seq<char> {
    tool + " handler received unsupported payload"@
}

/// The arguments of a call of a tool.
pub open spec fn are_tool_arguments(
    out: Result<Option<Json>, FunctionCallError>,
    tool: Seq<char>,
    payload: ToolPayload,
) -> bool {
    match payload {
        ToolPayload::Function { arguments } => {
            &&& is_blank(arguments@) ==> arguments_result(out) == Ok::<
                Option<JsonView>,
                Seq<char>,
            >(None)
            &&& !is_blank(arguments@) ==> arguments_result(out) == arguments_in(
                parsed(arguments@),
            )
        },
        ToolPayload::Other => fails_with(out, unsupported_payload(tool)),
    }
}

/// The arguments of a tool call, or the error where it is no function call or they cannot be
/// parsed.
pub fn tool_arguments(tool: &str, payload: &ToolPayload) -> (out: Result<
    Option<Json>,
    FunctionCallError,
>)
    ensures
        are_tool_arguments(out, tool@, *payload),
{
    match payload {
        ToolPayload::Function { arguments } => parse_arguments(arguments.as_str()),
        ToolPayload::Other => {
            let mut message = tool.to_string();
            message.append(" handler received unsupported payload");
            Err(FunctionCallError::RespondToModel(message))
        },
    }
}

// ---------------------------------------------------------------------------
// What the user sees of a call
// ---------------------------------------------------------------------------

/// A call of an MCP server.
#[derive(Debug, PartialEq, Eq)]
pub struct McpInvocation {
    pub server: String,
    pub tool: String,
    pub arguments: Option<Json>,
}

/// Where a call stands.
#[derive(Clone, Copy, Debug, PartialEq, Eq, Structural)]
pub enum McpToolCallStatus {
    InProgress,
    Completed,
    Failed,
}

/// The result of a call.
#[derive(Debug, PartialEq, Eq)]
pub struct CallToolResult {
    pub content: Vec<Json>,
    pub structured_content: Option<Json>,
    pub is_error: Option<bool>,
    pub meta: Option<Json>,
}

/// The error of a call.
#[derive(Clone, Debug, PartialEq, Eq)]
pub struct McpToolCallError {
    pub message: String,
}

/// A call as the user sees it.
#[derive(Debug, PartialEq, Eq)]
pub struct McpToolCallItem {
    pub id: String,
    pub server: String,
    pub tool: String,
    pub arguments: Json,
    pub mcp_app_resource_uri: Option<String>,
    pub status: McpToolCallStatus,
    pub result: Option<CallToolResult>,
    pub error: Option<McpToolCallError>,
    /// How long the call took, in nanoseconds, once it is over.
    pub duration: Option<u128>,
}

/// The arguments as they are shown: null where there are none.
pub open spec fn shown_arguments(arguments: Option<JsonView>) -> JsonView {
    match arguments {
        Some(arguments) => arguments,
        None => JsonView::Null,
    }
}

impl McpToolCallItem {
    /// The item shows the invocation.
    pub open spec fn shows(self, id: Seq<char>, invocation: McpInvocation) -> bool {
        &&& self.id@ == id
        &&& self.server@ == invocation.server@
        &&& self.tool@ == invocation.tool@
        &&& self.arguments@ == shown_arguments(arguments_view(invocation.arguments))
        &&& self.mcp_app_resource_uri is None
    }
}

/// The result holds one text.
pub open spec fn is_text_result(
    result: CallToolResult,
    content: Seq<char>,
    success: Option<bool>,
) -> bool {
    &&& result.content@.len() == 1
    &&& result.content@[0]@ == JsonView::Object(
        Map::empty().insert("type"@, JsonView::Text("text"@)).insert(
            "text"@,
            JsonView::Text(content),
        ),
    )
    &&& result.structured_content is None
    &&& result.is_error == match success {
        Some(success) => Some(!success),
        None => None,
    }
    &&& result.meta is None
}

/// The result of a call that gave a text.
pub fn call_tool_result_from_content(content: &str, success: Option<bool>) -> (out: CallToolResult)
    ensures
        is_text_result(out, content@, success),
{
    let mut items: Vec<Json> = Vec::new();
    items.push(
        Json::empty_object().with_member("type", Json::text("text")).with_member(
            "text",
            Json::text(content),
        ),
    );
    CallToolResult {
        content: items,
        structured_content: None,
        is_error: match success {
            Some(success) => Some(!success),
            None => None,
        },
        meta: None,
    }
}

fn copy_arguments(arguments: &Option<Json>) -> (out: Json)
    ensures
        out@ == shown_arguments(arguments_view(*arguments)),
{
    match arguments {
        Some(arguments) => arguments.copy(),
        None => Json::null(),
    }
}

/// The item says that a call has begun.
pub open spec fn is_started_item(
    item: McpToolCallItem,
    id: Seq<char>,
    invocation: McpInvocation,
) -> bool {
    &&& item.shows(id, invocation)
    &&& item.status is InProgress
    &&& item.result is None
    &&& item.error is None
    &&& item.duration is None
}

/// What the user sees when a call begins.
pub fn emit_tool_call_begin(call_id: &str, invocation: &McpInvocation) -> (item: McpToolCallItem)
    ensures
        is_started_item(item, call_id@, *invocation),
{
    McpToolCallItem {
        id: call_id.to_string(),
        server: invocation.server.clone(),
        tool: invocation.tool.clone(),
        arguments: copy_arguments(&invocation.arguments),
        mcp_app_resource_uri: None,
        status: McpToolCallStatus::InProgress,
        result: None,
        error: None,
        duration: None,
    }
}

/// The result says that the call went wrong.
pub open spec fn says_error(result: CallToolResult) -> bool {
    result.is_error == Some(true)
}

/// The item of a call that came to a result or to an error.
pub open spec fn is_ended_item(
    item: McpToolCallItem,
    id: Seq<char>,
    invocation: McpInvocation,
    duration: u128,
    result: Result<CallToolResult, String>,
) -> bool {
    &&& item.shows(id, invocation)
    &&& item.duration == Some(duration)
    &&& match result {
        Ok(result) => {
            &&& item.status == if says_error(result) {
                McpToolCallStatus::Failed
            } else {
                McpToolCallStatus::Completed
            }
            &&& item.result == Some(result)
            &&& item.error is None
        },
        Err(message) => {
            &&& item.status is Failed
            &&& item.result is None
            &&& item.error is Some
            &&& item.error->0.message@ == message@
        },
    }
}

/// What the user sees when a call is over: failed where there is an error message or the result
/// says so, completed otherwise.
pub fn emit_tool_call_end(
    call_id: &str,
    invocation: &McpInvocation,
    duration: u128,
    result: Result<CallToolResult, String>,
) -> (item: McpToolCallItem)
    ensures
        is_ended_item(item, call_id@, *invocation, duration, result),
{
    let (status, shown, error) = match result {
        Ok(result) => match result.is_error {
            Some(true) => (McpToolCallStatus::Failed, Some(result), None),
            _ => (McpToolCallStatus::Completed, Some(result), None),
        },
        Err(message) => (McpToolCallStatus::Failed, None, Some(McpToolCallError { message })),
    };
    McpToolCallItem {
        id: call_id.to_string(),
        server: invocation.server.clone(),
        tool: invocation.tool.clone(),
        arguments: copy_arguments(&invocation.arguments),
        mcp_app_resource_uri: None,
        status,
        result: shown,
        error,
        duration: Some(duration),
    }
}

// ---------------------------------------------------------------------------
// Beginning a call
// ---------------------------------------------------------------------------

/// A list call that has begun.
pub struct ListCall {
    pub invocation: McpInvocation,
    pub server: Option<String>,
    pub cursor: Option<String>,
}

/// What beginning a list call gives.
pub open spec fn is_begun_list(
    out: Result<ListCall, FunctionCallError>,
    tool: Seq<char>,
    arguments: Option<Json>,
    read: Result<ListResourcesArgs, String>,
) -> bool {
    &&& arguments is Some && read is Err ==> fails_with(out, parse_failure(read->Err_0@))
    &&& arguments is None || read is Ok ==> {
        let server = if arguments is None {
            None
        } else {
            normalized(opt_view(read->Ok_0.server))
        };
        let cursor = if arguments is None {
            None
        } else {
            normalized(opt_view(read->Ok_0.cursor))
        };
        &&& out is Ok
        &&& opt_view(out->Ok_0.server) == server
        &&& opt_view(out->Ok_0.cursor) == cursor
        &&& out->Ok_0.invocation.server@ == match server {
            Some(server) => server,
            None => "codex"@,
        }
        &&& out->Ok_0.invocation.tool@ == tool
        &&& out->Ok_0.invocation.arguments == arguments
    }
}

/// Begins a list call. `read` is what reading the typed arguments gave.
pub fn begin_list(
    tool: &str,
    arguments: Option<Json>,
    read: Result<ListResourcesArgs, String>,
) -> (out: Result<ListCall, FunctionCallError>)
    ensures
        is_begun_list(out, tool@, arguments, read),
{
    let args = match parse_args_with_default(&arguments, read, ListResourcesArgs::default()) {
        Ok(args) => args,
        Err(error) => {
            return Err(error);
        },
    };
    let server = normalize_optional_string(args.server);
    let cursor = normalize_optional_string(args.cursor);
    let shown = match &server {
        Some(server) => server.clone(),
        None => "codex".to_string(),
    };
    Ok(
        ListCall {
            invocation: McpInvocation { server: shown, tool: tool.to_string(), arguments },
            server,
            cursor,
        },
    )
}

/// What to ask for.
pub enum ListRequest {
    /// The resources of one server, from a cursor on where there is one.
    One { server: String, cursor: Option<String> },
    /// The resources of all servers.
    All,
}

/// The message of a cursor without a server.
pub const CURSOR_WITHOUT_SERVER: &'static str = "cursor can only be used when a server is specified";

/// What a list call asks for.
pub open spec fn is_list_request(
    out: Result<ListRequest, FunctionCallError>,
    call: ListCall,
) -> bool {
    match (call.server, call.cursor) {
        (Some(server), _) => {
            &&& out is Ok
            &&& out->Ok_0 is One
            &&& out->Ok_0->server@ == server@
            &&& opt_view(out->Ok_0->cursor) == opt_view(call.cursor)
        },
        (None, Some(_)) => fails_with(out, CURSOR_WITHOUT_SERVER@),
        (None, None) => out is Ok && out->Ok_0 is All,
    }
}

/// What to ask for: a cursor needs a server.
pub fn list_request(call: &ListCall) -> (out: Result<ListRequest, FunctionCallError>)
    ensures
        is_list_request(out, *call),
{
    match &call.server {
        Some(server) => Ok(
            ListRequest::One { server: server.clone(), cursor: call.cursor.clone() },
        ),
        None => match &call.cursor {
            Some(_) => Err(FunctionCallError::RespondToModel(CURSOR_WITHOUT_SERVER.to_string())),
            None => Ok(ListRequest::All),
        },
    }
}

/// A read call that has begun.
pub struct ReadCall {
    pub invocation: McpInvocation,
    pub server: String,
    pub uri: String,
}

/// What beginning a read call gives.
pub open spec fn is_begun_read(
    out: Result<ReadCall, FunctionCallError>,
    tool: Seq<char>,
    arguments: Option<Json>,
    read: Result<ReadResourceArgs, String>,
) -> bool {
    match (arguments, read) {
        (None, _) => fails_with(out, parse_failure("expected value"@)),
        (Some(_), Err(reason)) => fails_with(out, parse_failure(reason@)),
        (Some(_), Ok(args)) => if is_blank(args.server@) {
            fails_with(out, must_be_provided("server"@))
        } else if is_blank(args.uri@) {
            fails_with(out, must_be_provided("uri"@))
        } else {
            &&& out is Ok
            &&& out->Ok_0.server@ == trim(args.server@)
            &&& out->Ok_0.uri@ == trim(args.uri@)
            &&& out->Ok_0.invocation.server@ == trim(args.server@)
            &&& out->Ok_0.invocation.tool@ == tool
            &&& out->Ok_0.invocation.arguments == arguments
        },
    }
}

/// Begins a read call. `read` is what reading the typed arguments gave.
pub fn begin_read(tool: &str, arguments: Option<Json>, read: Result<ReadResourceArgs, String>) -> (
    out: Result<ReadCall, FunctionCallError>)
    ensures
        is_begun_read(out, tool@, arguments, read),
{
    let args = match parse_args(&arguments, read) {
        Ok(args) => args,
        Err(error) => {
            return Err(error);
        },
    };
    let server = match normalize_required_string("server", args.server) {
        Ok(server) => server,
        Err(error) => {
            return Err(error);
        },
    };
    let uri = match normalize_required_string("uri", args.uri) {
        Ok(uri) => uri,
        Err(error) => {
            return Err(error);
        },
    };
    Ok(
        ReadCall {
            invocation: McpInvocation {
                server: server.clone(),
                tool: tool.to_string(),
                arguments,
            },
            server,
            uri,
        },
    )
}

// ---------------------------------------------------------------------------
// What a call gives
// ---------------------------------------------------------------------------

/// A resource with the server that has it.
#[derive(Debug, PartialEq, Eq)]
pub struct ResourceWithServer<R> {
    pub server: String,
    pub resource: R,
}

impl<R> ResourceWithServer<R> {
    /// A resource with the server that has it.
    pub fn new(server: String, resource: R) -> (out: Self)
        ensures
            out == (ResourceWithServer { server, resource }),
    {
        ResourceWithServer { server, resource }
    }
}

/// A resource template with the server that has it.
#[derive(Debug, PartialEq, Eq)]
pub struct ResourceTemplateWithServer<R> {
    pub server: String,
    pub template: R,
}

impl<R> ResourceTemplateWithServer<R> {
    /// A resource template with the server that has it.
    pub fn new(server: String, template: R) -> (out: Self)
        ensures
            out == (ResourceTemplateWithServer { server, template }),
    {
        ResourceTemplateWithServer { server, template }
    }
}

/// Items with the name of the server that has them.
pub open spec fn labelled<R>(server: Seq<char>, items: Seq<R>) -> Seq<(Seq<char>, R)> {
    items.map_values(|item: R| (server, item))
}

/// The items of all servers, each with the name of its server, in the order of the entries.
pub open spec fn all_labelled<R>(entries: Seq<(String, Vec<R>)>) -> Seq<(Seq<char>, R)>
    decreases entries.len(),
{
    if entries.len() == 0 {
        seq![]
    } else {
        all_labelled(entries.drop_last()) + labelled(entries.last().0@, entries.last().1@)
    }
}

/// Servers go by their names.
pub open spec fn by_server<R>() -> spec_fn((String, Vec<R>), (String, Vec<R>)) -> bool {
    |a: (String, Vec<R>), b: (String, Vec<R>)| text_less(a.0@, b.0@)
}

/// Ranks the entries of servers by their names.
pub struct ByServer;

impl<R> Ranking<(String, Vec<R>)> for ByServer {
    open spec fn less() -> spec_fn((String, Vec<R>), (String, Vec<R>)) -> bool {
        by_server()
    }

    fn goes_before(a: &(String, Vec<R>), b: &(String, Vec<R>)) -> (yes: bool) {
        text_comes_before(a.0.as_str(), b.0.as_str())
    }
}

/// The order of servers is an order.
pub proof fn server_order_is_a_ranking<R>()
    ensures
        is_ranking(by_server::<R>()),
{
    text_order_is_a_ranking();
}

/// Where every server comes once, the list does not depend on the order in which the servers
/// answered.
pub proof fn listing_ignores_arrival<R>(a: Seq<(String, Vec<R>)>, b: Seq<(String, Vec<R>)>)
    requires
        a.to_multiset() == b.to_multiset(),
        forall|i: int, j: int|
            0 <= i < j < a.len() ==> (#[trigger] a[i]).0@ != (#[trigger] a[j]).0@,
    ensures
        all_labelled(ranked(a, by_server())) == all_labelled(ranked(b, by_server())),
{
    server_order_is_a_ranking::<R>();
    assert forall|x: (String, Vec<R>), y: (String, Vec<R>)|
        a.contains(x) && a.contains(y) && #[trigger] level(x, y, by_server()) implies x == y by {
        let i = choose|i: int| 0 <= i < a.len() && a[i] == x;
        let j = choose|j: int| 0 <= j < a.len() && a[j] == y;
        text_less_is_total(x.0@, y.0@);
        if i < j {
            assert(a[i].0@ != a[j].0@);
        } else if j < i {
            assert(a[j].0@ != a[i].0@);
        }
    }
    ranked_ignores_arrival(a, b, by_server());
}

/// One page of what a server lists.
pub struct ListPage<R> {
    pub items: Vec<R>,
    pub next_cursor: Option<String>,
}

/// The resources that a call lists.
#[derive(Debug, PartialEq, Eq)]
pub struct ListResourcesPayload<R> {
    pub server: Option<String>,
    pub resources: Vec<ResourceWithServer<R>>,
    pub next_cursor: Option<String>,
}

impl<R> ListResourcesPayload<R> {
    /// The resources with the names of their servers.
    pub open spec fn listed(self) -> Seq<(Seq<char>, R)> {
        self.resources@.map_values(|item: ResourceWithServer<R>| (item.server@, item.resource))
    }

    /// The resources of one server.
    pub fn from_single_server(server: String, result: ListPage<R>) -> (out: Self)
        ensures
            opt_view(out.server) == Some(server@),
            out.listed() == labelled(server@, result.items@),
            out.next_cursor == result.next_cursor,
    {
        let mut rest = result.items;
        let ghost all = rest@;
        let mut resources: Vec<ResourceWithServer<R>> = Vec::new();
        let ghost f = |item: ResourceWithServer<R>| (item.server@, item.resource);
        let ghost mut done: int = 0;
        assert(rest@ =~= all.skip(0));
        while rest.len() > 0
            invariant
                f == (|item: ResourceWithServer<R>| (item.server@, item.resource)),
                0 <= done <= all.len(),
                rest@ == all.skip(done),
                resources@.map_values(f) == labelled(server@, all.take(done)),
            decreases rest@.len(),
        {
            let ghost before = resources@.map_values(f);
            let item = rest.remove(0);
            resources.push(ResourceWithServer::new(server.clone(), item));
            proof {
                assert(resources@.map_values(f) =~= before.push((server@, item)));
                done = done + 1;
                assert(rest@ =~= all.skip(done));
                assert(resources@.map_values(f) =~= labelled(server@, all.take(done)));
            }
        }
        assert(all.take(done) =~= all);
        ListResourcesPayload {
            server: Some(server),
            resources,
            next_cursor: result.next_cursor,
        }
    }

    /// The resources of all servers, by the names of the servers.
    pub fn from_all_servers(resources_by_server: Vec<(String, Vec<R>)>) -> (out: Self)
        ensures
            out.server is None,
            out.listed() == all_labelled(ranked(resources_by_server@, by_server())),
            out.next_cursor is None,
    {
        let mut rest = stable_sort::<(String, Vec<R>), ByServer>(resources_by_server);
        let ghost all = rest@;
        let mut resources: Vec<ResourceWithServer<R>> = Vec::new();
        let ghost f = |item: ResourceWithServer<R>| (item.server@, item.resource);
        let ghost mut done: int = 0;
        assert(rest@ =~= all.skip(0));
        assert(resources@.map_values(f) =~= all_labelled(all.take(0)));
        while rest.len() > 0
            invariant
                f == (|item: ResourceWithServer<R>| (item.server@, item.resource)),
                0 <= done <= all.len(),
                rest@ == all.skip(done),
                resources@.map_values(f) == all_labelled(all.take(done)),
            decreases rest@.len(),
        {
            let ghost before = resources@.map_values(f);
            let (server, server_items) = rest.remove(0);
            let ghost items = server_items@;
            let mut left = server_items;
            let ghost mut taken: int = 0;
            assert(left@ =~= items.skip(0));
            assert(before + labelled(server@, items.take(0)) =~= before);
            while left.len() > 0
                invariant
                    f == (|item: ResourceWithServer<R>| (item.server@, item.resource)),
                    0 <= taken <= items.len(),
                    left@ == items.skip(taken),
                    resources@.map_values(f) == before + labelled(server@, items.take(taken)),
                decreases left@.len(),
            {
                let ghost so_far = resources@.map_values(f);
                let item = left.remove(0);
                resources.push(ResourceWithServer::new(server.clone(), item));
                proof {
                    assert(resources@.map_values(f) =~= so_far.push((server@, item)));
                    taken = taken + 1;
                    assert(left@ =~= items.skip(taken));
                    assert(resources@.map_values(f) =~= before + labelled(
                        server@,
                        items.take(taken),
                    ));
                }
            }
            proof {
                assert(items.take(taken) =~= items);
                assert((server, server_items) == all[done]);
                done = done + 1;
                assert(rest@ =~= all.skip(done));
                assert(all.take(done).drop_last() =~= all.take(done - 1));
            }
        }
        assert(all.take(done) =~= all);
        ListResourcesPayload { server: None, resources, next_cursor: None }
    }
}

/// The resource templates that a call lists.
#[derive(Debug, PartialEq, Eq)]
pub struct ListResourceTemplatesPayload<R> {
    pub server: Option<String>,
    pub resource_templates: Vec<ResourceTemplateWithServer<R>>,
    pub next_cursor: Option<String>,
}

impl<R> ListResourceTemplatesPayload<R> {
    /// The templates with the names of their servers.
    pub open spec fn listed(self) -> Seq<(Seq<char>, R)> {
        self.resource_templates@.map_values(
            |item: ResourceTemplateWithServer<R>| (item.server@, item.template),
        )
    }

    fn from_listed(
        server: Option<String>,
        listed: Vec<ResourceWithServer<R>>,
        next_cursor: Option<String>,
    ) -> (out: Self)
        ensures
            out.server == server,
            out.listed() == listed@.map_values(
                |item: ResourceWithServer<R>| (item.server@, item.resource),
            ),
            out.next_cursor == next_cursor,
    {
        let ghost all = listed@;
        let mut rest = listed;
        let mut templates: Vec<ResourceTemplateWithServer<R>> = Vec::new();
        let ghost f = |item: ResourceTemplateWithServer<R>| (item.server@, item.template);
        let ghost g = |item: ResourceWithServer<R>| (item.server@, item.resource);
        let ghost mut done: int = 0;
        assert(rest@ =~= all.skip(0));
        while rest.len() > 0
            invariant
                f == (|item: ResourceTemplateWithServer<R>| (item.server@, item.template)),
                g == (|item: ResourceWithServer<R>| (item.server@, item.resource)),
                0 <= done <= all.len(),
                rest@ == all.skip(done),
                templates@.map_values(f) == all.take(done).map_values(g),
            decreases rest@.len(),
        {
            let ghost before = templates@.map_values(f);
            let item = rest.remove(0);
            let ghost pair = (item.server@, item.resource);
            templates.push(ResourceTemplateWithServer::new(item.server, item.resource));
            proof {
                assert(templates@.map_values(f) =~= before.push(pair));
                done = done + 1;
                assert(rest@ =~= all.skip(done));
                assert(templates@.map_values(f) =~= all.take(done).map_values(g));
            }
        }
        assert(all.take(done) =~= all);
        ListResourceTemplatesPayload { server, resource_templates: templates, next_cursor }
    }

    /// The templates of one server.
    pub fn from_single_server(server: String, result: ListPage<R>) -> (out: Self)
        ensures
            opt_view(out.server) == Some(server@),
            out.listed() == labelled(server@, result.items@),
            out.next_cursor == result.next_cursor,
    {
        let payload = ListResourcesPayload::from_single_server(server, result);
        Self::from_listed(payload.server, payload.resources, payload.next_cursor)
    }

    /// The templates of all servers, by the names of the servers.
    pub fn from_all_servers(templates_by_server: Vec<(String, Vec<R>)>) -> (out: Self)
        ensures
            out.server is None,
            out.listed() == all_labelled(ranked(templates_by_server@, by_server())),
            out.next_cursor is None,
    {
        let payload = ListResourcesPayload::from_all_servers(templates_by_server);
        Self::from_listed(payload.server, payload.resources, payload.next_cursor)
    }
}

/// What reading a resource gives.
#[derive(Debug, PartialEq, Eq)]
pub struct ReadResourcePayload<R> {
    pub server: String,
    pub uri: String,
    pub result: R,
}

/// What a server was asked.
#[derive(Clone, Copy, Debug, PartialEq, Eq, Structural)]
pub enum McpMethod {
    ListResources,
    ListResourceTemplates,
    ReadResource,
}

impl McpMethod {
    /// The name of the method.
    pub open spec fn text(self) -> Seq<char> {
        match self {
            McpMethod::ListResources => "resources/list"@,
            McpMethod::ListResourceTemplates => "resources/templates/list"@,
            McpMethod::ReadResource => "resources/read"@,
        }
    }

    /// The name of the method.
    pub fn name(self) -> (out: &'static str)
        ensures
            out@ == self.text(),
    {
        match self {
            McpMethod::ListResources => "resources/list",
            McpMethod::ListResourceTemplates => "resources/templates/list",
            McpMethod::ReadResource => "resources/read",
        }
    }
}

/// The error of a server that failed to answer.
pub fn server_failure(method: McpMethod, reason: &str) -> (out: FunctionCallError)
    ensures
        out.text() == method.text() + " failed: "@ + reason@,
{
    let mut message = method.name().to_string();
    message.append(" failed: ");
    message.append(reason);
    FunctionCallError::RespondToModel(message)
}

/// What a read call hands to the model.
pub open spec fn is_read_payload<R>(
    out: Result<ReadResourcePayload<R>, FunctionCallError>,
    call: ReadCall,
    reply: Result<R, String>,
) -> bool {
    match reply {
        Ok(result) => {
            &&& out is Ok
            &&& out->Ok_0.server == call.server
            &&& out->Ok_0.uri == call.uri
            &&& out->Ok_0.result == result
        },
        Err(reason) => fails_with(out, "resources/read"@ + " failed: "@ + reason@),
    }
}

/// What reading a resource gives, or the error of the server.
pub fn read_payload<R>(call: ReadCall, reply: Result<R, String>) -> (out: Result<
    ReadResourcePayload<R>,
    FunctionCallError,
>)
    ensures
        is_read_payload(out, call, reply),
{
    match reply {
        Ok(result) => Ok(ReadResourcePayload { server: call.server, uri: call.uri, result }),
        Err(reason) => Err(server_failure(McpMethod::ReadResource, reason.as_str())),
    }
}

/// What a tool gives back to the model.
#[derive(Clone, Debug, PartialEq, Eq)]
pub struct FunctionToolOutput {
    pub text: String,
    pub success: Option<bool>,
}

/// The message of a payload that cannot be serialized.
pub open spec fn serialize_failure(reason: Seq<char>) -> Seq<char> {
    "failed to serialize MCP resource response: "@ + reason
}

/// The output of a tool whose content could be written down or not.
pub open spec fn is_function_output(
    out: Result<FunctionToolOutput, FunctionCallError>,
    content: Result<String, String>,
) -> bool {
    match content {
        Ok(content) => {
            &&& out is Ok
            &&& out->Ok_0.text@ == content@
            &&& out->Ok_0.success == Some(true)
        },
        Err(reason) => fails_with(out, serialize_failure(reason@)),
    }
}

/// The output of a call from its payload as JSON text, or the error of serializing it.
pub fn serialize_function_output(content: Result<String, String>) -> (out: Result<
    FunctionToolOutput,
    FunctionCallError,
>)
    ensures
        is_function_output(out, content),
{
    match content {
        Ok(text) => Ok(FunctionToolOutput { text, success: Some(true) }),
        Err(reason) => {
            let mut message = "failed to serialize MCP resource response: ".to_string();
            message.append(reason.as_str());
            Err(FunctionCallError::RespondToModel(message))
        },
    }
}

/// The item says that a call is over: it holds the output, or the message of the error.
pub open spec fn is_completed_item(
    item: McpToolCallItem,
    id: Seq<char>,
    invocation: McpInvocation,
    duration: u128,
    output: Result<FunctionToolOutput, FunctionCallError>,
) -> bool {
    &&& item.shows(id, invocation)
    &&& item.duration == Some(duration)
    &&& match output {
        Ok(output) => {
            &&& item.status == if output.success == Some(false) {
                McpToolCallStatus::Failed
            } else {
                McpToolCallStatus::Completed
            }
            &&& item.result is Some
            &&& is_text_result(
                item.result->0,
                if is_blank(output.text@) {
                    ""@
                } else {
                    output.text@
                },
                output.success,
            )
            &&& item.error is None
        },
        Err(error) => {
            &&& item.status is Failed
            &&& item.result is None
            &&& item.error is Some
            &&& item.error->0.message@ == error.text()
        },
    }
}

/// What the user sees of the end of a call, with the call's output or error.
pub struct FinishedCall {
    pub item: McpToolCallItem,
    pub output: Result<FunctionToolOutput, FunctionCallError>,
}

/// Ends a call: the user sees the output, or the message of the error, and the model gets it.
pub fn finish_call(
    call_id: &str,
    invocation: &McpInvocation,
    duration: u128,
    output: Result<FunctionToolOutput, FunctionCallError>,
) -> (out: FinishedCall)
    ensures
        out.output == output,
        is_completed_item(out.item, call_id@, *invocation, duration, output),
{
    let item = match &output {
        Ok(output) => {
            let content = if text_is_blank(output.text.as_str()) {
                ""
            } else {
                output.text.as_str()
            };
            let result = call_tool_result_from_content(content, output.success);
            emit_tool_call_end(call_id, invocation, duration, Ok(result))
        },
        Err(error) => emit_tool_call_end(
            call_id,
            invocation,
            duration,
            Err(error.message().to_string()),
        ),
    };
    FinishedCall { item, output }
}

// ---------------------------------------------------------------------------
// The course of a call
// ---------------------------------------------------------------------------

/// Where a call stands.
#[derive(Debug, PartialEq, Eq)]
pub enum CallState {
    /// Its arguments are being read.
    Waiting,
    /// It has begun, and the server is asked.
    Running { invocation: McpInvocation },
    /// It is over.
    Done,
}

/// What happens to a call.
#[derive(Debug, PartialEq, Eq)]
pub enum CallEvent {
    /// Its arguments were read, or refused.
    Begun(Result<McpInvocation, FunctionCallError>),
    /// It came to an output or to an error.
    Ended { duration: u128, output: Result<FunctionToolOutput, FunctionCallError> },
}

/// What is done next.
#[derive(Debug, PartialEq, Eq)]
pub enum CallAction {
    /// The model gets the error, and the user sees nothing.
    Refuse(FunctionCallError),
    /// The user sees that the call has begun, and the server is asked.
    ReportStarted(McpToolCallItem),
    /// The user sees that the call is over, and the model gets its output or error.
    ReportCompleted {
        item: McpToolCallItem,
        output: Result<FunctionToolOutput, FunctionCallError>,
    },
    /// Nothing, since the event does not belong here.
    Nothing,
}

/// The step of a call from a state, by an event, to the next state and an action.
pub open spec fn is_call_step(
    id: Seq<char>,
    state: CallState,
    event: CallEvent,
    next: CallState,
    action: CallAction,
) -> bool {
    match (state, event) {
        (CallState::Waiting, CallEvent::Begun(Err(error))) => {
            &&& next is Done
            &&& action == CallAction::Refuse(error)
        },
        (CallState::Waiting, CallEvent::Begun(Ok(invocation))) => {
            &&& next == CallState::Running { invocation }
            &&& action matches CallAction::ReportStarted(item)
            &&& is_started_item(item, id, invocation)
        },
        (CallState::Running { invocation }, CallEvent::Ended { duration, output }) => {
            &&& next is Done
            &&& action matches CallAction::ReportCompleted { item, output: given }
            &&& given == output
            &&& is_completed_item(item, id, invocation, duration, output)
        },
        _ => {
            &&& next == state
            &&& action is Nothing
        },
    }
}

/// Takes a call from a state, by an event, to the next state, and says what is done next.
pub fn call_step(call_id: &str, state: CallState, event: CallEvent) -> (out: (
    CallState,
    CallAction,
))
    ensures
        is_call_step(call_id@, state, event, out.0, out.1),
{
    match (state, event) {
        (CallState::Waiting, CallEvent::Begun(Err(error))) => {
            (CallState::Done, CallAction::Refuse(error))
        },
        (CallState::Waiting, CallEvent::Begun(Ok(invocation))) => {
            let item = emit_tool_call_begin(call_id, &invocation);
            (CallState::Running { invocation }, CallAction::ReportStarted(item))
        },
        (CallState::Running { invocation }, CallEvent::Ended { duration, output }) => {
            let finished = finish_call(call_id, &invocation, duration, output);
            (
                CallState::Done,
                CallAction::ReportCompleted { item: finished.item, output: finished.output },
            )
        },
        (state, _) => (state, CallAction::Nothing),
    }
}

/// What the user and the model see of an action.
pub enum CallReport {
    Refused,
    Started,
    Completed,
}

/// What the user and the model see of a list of actions, in order.
pub open spec fn reports_of(actions: Seq<CallAction>) -> Seq<CallReport>
    decreases actions.len(),
{
    if actions.len() == 0 {
        seq![]
    } else {
        let before = reports_of(actions.drop_last());
        match actions.last() {
            CallAction::Refuse(_) => before.push(CallReport::Refused),
            CallAction::ReportStarted(_) => before.push(CallReport::Started),
            CallAction::ReportCompleted { .. } => before.push(CallReport::Completed),
            CallAction::Nothing => before,
        }
    }
}

/// The states and actions of a call to which the events happen one after the other.
pub open spec fn is_run(
    id: Seq<char>,
    states: Seq<CallState>,
    events: Seq<CallEvent>,
    actions: Seq<CallAction>,
) -> bool {
    &&& states.len() == events.len() + 1
    &&& actions.len() == events.len()
    &&& states[0] is Waiting
    &&& forall|i: int|
        0 <= i < events.len() ==> is_call_step(
            id,
            states[i],
            #[trigger] events[i],
            states[i + 1],
            actions[i],
        )
}

/// Every item that the actions report shows the invocation.
pub open spec fn all_show(
    actions: Seq<CallAction>,
    id: Seq<char>,
    invocation: McpInvocation,
) -> bool {
    forall|i: int|
        0 <= i < actions.len() ==> match #[trigger] actions[i] {
            CallAction::ReportStarted(item) => item.shows(id, invocation),
            CallAction::ReportCompleted { item, .. } => item.shows(id, invocation),
            _ => true,
        }
}

/// Whatever happens to a call, it reports that it has begun exactly once and then that it is over
/// exactly once, both for the same invocation; and it reports nothing where its arguments are
/// refused. Before it is over it has reported its beginning, or nothing yet.
pub proof fn a_call_reports_once(
    id: Seq<char>,
    states: Seq<CallState>,
    events: Seq<CallEvent>,
    actions: Seq<CallAction>,
)
    requires
        is_run(id, states, events, actions),
    ensures
        match states.last() {
            CallState::Waiting => reports_of(actions) == Seq::<CallReport>::empty(),
            CallState::Running { invocation } => {
                &&& reports_of(actions) == seq![CallReport::Started]
                &&& all_show(actions, id, invocation)
            },
            CallState::Done => {
                ||| reports_of(actions) == seq![CallReport::Refused]
                ||| reports_of(actions) == seq![CallReport::Started, CallReport::Completed]
                    && exists|invocation: McpInvocation| #[trigger]
                    all_show(actions, id, invocation)
            },
        },
    decreases events.len(),
{
    if events.len() > 0 {
        let n = events.len() - 1;
        let before = states.drop_last();
        let happened = events.drop_last();
        let done = actions.drop_last();
        assert forall|i: int| 0 <= i < happened.len() implies is_call_step(
            id,
            before[i],
            #[trigger] happened[i],
            before[i + 1],
            done[i],
        ) by {
            assert(happened[i] == events[i]);
        }
        a_call_reports_once(id, before, happened, done);
        let state = states[n];
        let event = events[n];
        assert(is_call_step(id, state, event, states[n + 1], actions[n]));
        assert(before.last() == state);
        a_run_without_reports(done);
        match (state, event) {
            (CallState::Waiting, CallEvent::Begun(Ok(invocation))) => {
                assert(all_show(actions, id, invocation)) by {
                    assert forall|i: int| 0 <= i < actions.len() implies match #[trigger] actions[i] {
                        CallAction::ReportStarted(item) => item.shows(id, invocation),
                        CallAction::ReportCompleted { item, .. } => item.shows(id, invocation),
                        _ => true,
                    } by {
                        if i < n {
                            assert(done[i] == actions[i]);
                        }
                    }
                }
                assert(reports_of(actions) =~= seq![CallReport::Started]);
            },
            (CallState::Running { invocation }, _) => {
                assert(all_show(actions, id, invocation)) by {
                    assert forall|i: int| 0 <= i < actions.len() implies match #[trigger] actions[i] {
                        CallAction::ReportStarted(item) => item.shows(id, invocation),
                        CallAction::ReportCompleted { item, .. } => item.shows(id, invocation),
                        _ => true,
                    } by {
                        if i < n {
                            assert(done[i] == actions[i]);
                        }
                    }
                }
                if event is Ended {
                    assert(reports_of(actions) =~= seq![CallReport::Started, CallReport::Completed]);
                }
            },
            (CallState::Done, _) => {
                if reports_of(done) == seq![CallReport::Started, CallReport::Completed] {
                    let invocation = choose|invocation: McpInvocation| #[trigger]
                        all_show(done, id, invocation);
                    assert(all_show(actions, id, invocation)) by {
                        assert forall|i: int| 0 <= i < actions.len() implies match #[trigger] actions[i] {
                            CallAction::ReportStarted(item) => item.shows(id, invocation),
                            CallAction::ReportCompleted { item, .. } => item.shows(id, invocation),
                            _ => true,
                        } by {
                            if i < n {
                                assert(done[i] == actions[i]);
                            }
                        }
                    }
                }
            },
            (CallState::Waiting, CallEvent::Begun(Err(_))) => {
                assert(reports_of(actions) =~= seq![CallReport::Refused]);
            },
            (CallState::Waiting, _) => {},
        }
    } else {
        assert(states.last() == states[0]);
    }
}

/// Actions of which nothing is seen report no item.
proof fn a_run_without_reports(actions: Seq<CallAction>)
    ensures
        reports_of(actions) == Seq::<CallReport>::empty() ==> forall|i: int|
            0 <= i < actions.len() ==> (#[trigger] actions[i]) is Nothing,
    decreases actions.len(),
{
    if actions.len() > 0 {
        let before = actions.drop_last();
        a_run_without_reports(before);
        if reports_of(actions) == Seq::<CallReport>::empty() {
            assert(reports_of(actions).len() == 0);
            assert(actions.last() is Nothing);
            assert forall|i: int| 0 <= i < actions.len() implies (#[trigger] actions[i]) is Nothing by {
                if i < before.len() {
                    assert(before[i] == actions[i]);
                }
            }
        }
    }
}

// ---------------------------------------------------------------------------
// The steps of each tool
// ---------------------------------------------------------------------------

/// What the servers answered to a list request.
pub enum ListReply<R> {
    /// One server's page, or the reason why it failed.
    One { server: String, page: Result<ListPage<R>, String> },
    /// What each server has.
    All { entries: Vec<(String, Vec<R>)> },
}

/// What a list call hands to the model.
pub open spec fn is_resources_payload<R>(
    out: Result<ListResourcesPayload<R>, FunctionCallError>,
    reply: ListReply<R>,
) -> bool {
    match reply {
        ListReply::One { server, page: Ok(page) } => {
            &&& out is Ok
            &&& opt_view(out->Ok_0.server) == Some(server@)
            &&& out->Ok_0.listed() == labelled(server@, page.items@)
            &&& out->Ok_0.next_cursor == page.next_cursor
        },
        ListReply::One { page: Err(reason), .. } => fails_with(
            out,
            "resources/list"@ + " failed: "@ + reason@,
        ),
        ListReply::All { entries } => {
            &&& out is Ok
            &&& out->Ok_0.server is None
            &&& out->Ok_0.listed() == all_labelled(ranked(entries@, by_server()))
            &&& out->Ok_0.next_cursor is None
        },
    }
}

impl ListMcpResourcesHandler {
    /// The arguments of a call, or the error where it is no function call or they cannot be
    /// parsed.
    pub fn arguments(&self, payload: &ToolPayload) -> (out: Result<
        Option<Json>,
        FunctionCallError,
    >)
        ensures
            are_tool_arguments(out, "list_mcp_resources"@, *payload),
    {
        tool_arguments(self.tool_name(), payload)
    }

    /// The payload of the call from what the servers answered.
    pub fn payload<R>(&self, reply: ListReply<R>) -> (out: Result<
        ListResourcesPayload<R>,
        FunctionCallError,
    >)
        ensures
            is_resources_payload(out, reply),
    {
        match reply {
            ListReply::One { server, page } => match page {
                Ok(page) => Ok(ListResourcesPayload::from_single_server(server, page)),
                Err(reason) => Err(server_failure(McpMethod::ListResources, reason.as_str())),
            },
            ListReply::All { entries } => Ok(ListResourcesPayload::from_all_servers(entries)),
        }
    }
}

/// What a list call hands to the model.
pub open spec fn is_templates_payload<R>(
    out: Result<ListResourceTemplatesPayload<R>, FunctionCallError>,
    reply: ListReply<R>,
) -> bool {
    match reply {
        ListReply::One { server, page: Ok(page) } => {
            &&& out is Ok
            &&& opt_view(out->Ok_0.server) == Some(server@)
            &&& out->Ok_0.listed() == labelled(server@, page.items@)
            &&& out->Ok_0.next_cursor == page.next_cursor
        },
        ListReply::One { page: Err(reason), .. } => fails_with(
            out,
            "resources/templates/list"@ + " failed: "@ + reason@,
        ),
        ListReply::All { entries } => {
            &&& out is Ok
            &&& out->Ok_0.server is None
            &&& out->Ok_0.listed() == all_labelled(ranked(entries@, by_server()))
            &&& out->Ok_0.next_cursor is None
        },
    }
}

impl ListMcpResourceTemplatesHandler {
    /// The arguments of a call, or the error where it is no function call or they cannot be
    /// parsed.
    pub fn arguments(&self, payload: &ToolPayload) -> (out: Result<
        Option<Json>,
        FunctionCallError,
    >)
        ensures
            are_tool_arguments(out, "list_mcp_resource_templates"@, *payload),
    {
        tool_arguments(self.tool_name(), payload)
    }

    /// The payload of the call from what the servers answered.
    pub fn payload<R>(&self, reply: ListReply<R>) -> (out: Result<
        ListResourceTemplatesPayload<R>,
        FunctionCallError,
    >)
        ensures
            is_templates_payload(out, reply),
    {
        match reply {
            ListReply::One { server, page } => match page {
                Ok(page) => Ok(ListResourceTemplatesPayload::from_single_server(server, page)),
                Err(reason) => Err(
                    server_failure(McpMethod::ListResourceTemplates, reason.as_str()),
                ),
            },
            ListReply::All { entries } => Ok(
                ListResourceTemplatesPayload::from_all_servers(entries),
            ),
        }
    }
}

impl ReadMcpResourceHandler {
    /// The arguments of a call, or the error where it is no function call or they cannot be
    /// parsed.
    pub fn arguments(&self, payload: &ToolPayload) -> (out: Result<
        Option<Json>,
        FunctionCallError,
    >)
        ensures
            are_tool_arguments(out, "read_mcp_resource"@, *payload),
    {
        tool_arguments(self.tool_name(), payload)
    }
}

} // verus!
