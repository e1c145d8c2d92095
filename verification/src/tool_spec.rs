//! Which tools a session offers, and who handles them.

use vstd::prelude::*;

use crate::json::{Json, JsonView};
use crate::order::StringMap;
use crate::split::filter_of_next;
use crate::text::{clone_strings, opt_view, same_text, views};

verus! {

// ---------------------------------------------------------------------------
// Shells and timeouts
// ---------------------------------------------------------------------------

/// The kinds of shells.
#[derive(Clone, Copy, Debug, PartialEq, Eq, Structural)]
pub enum ShellType {
    Zsh,
    Bash,
    PowerShell,
    Sh,
    Cmd,
}

/// The kinds of shells that tools know.
#[derive(Clone, Copy, Debug, PartialEq, Eq, Structural)]
pub enum ToolUserShellType {
    Zsh,
    Bash,
    PowerShell,
    Sh,
    Cmd,
}

/// The user's shell as tools know it.
pub open spec fn user_shell(shell: ShellType) -> ToolUserShellType {
    match shell {
        ShellType::Zsh => ToolUserShellType::Zsh,
        ShellType::Bash => ToolUserShellType::Bash,
        ShellType::PowerShell => ToolUserShellType::PowerShell,
        ShellType::Sh => ToolUserShellType::Sh,
        ShellType::Cmd => ToolUserShellType::Cmd,
    }
}

/// The user's shell as tools know it.
pub fn tool_user_shell_type(shell: ShellType) -> (out: ToolUserShellType)
    ensures
        out == user_shell(shell),
{
    match shell {
        ShellType::Zsh => ToolUserShellType::Zsh,
        ShellType::Bash => ToolUserShellType::Bash,
        ShellType::PowerShell => ToolUserShellType::PowerShell,
        ShellType::Sh => ToolUserShellType::Sh,
        ShellType::Cmd => ToolUserShellType::Cmd,
    }
}

/// How long agents may wait for each other, in milliseconds.
#[derive(Clone, Copy, Debug, PartialEq, Eq, Structural)]
pub struct WaitAgentTimeoutOptions {
    pub default_timeout_ms: i64,
    pub min_timeout_ms: i64,
    pub max_timeout_ms: i64,
}

/// A number moved into a range.
pub open spec fn clamped(value: i64, low: i64, high: i64) -> i64 {
    if value < low {
        low
    } else if value > high {
        high
    } else {
        value
    }
}

fn clamp(value: i64, low: i64, high: i64) -> (out: i64)
    requires
        low <= high,
    ensures
        out == clamped(value, low, high),
{
    if value < low {
        low
    } else if value > high {
        high
    } else {
        value
    }
}

/// The least wait: the configured one, within bounds, where it may be configured.
pub open spec fn least_wait(
    multi_agent_v2: bool,
    configured: Option<i64>,
    bounds: WaitAgentTimeoutOptions,
) -> i64 {
    if multi_agent_v2 {
        clamped(
            match configured {
                Some(configured) => configured,
                None => bounds.min_timeout_ms,
            },
            1,
            bounds.max_timeout_ms,
        )
    } else {
        bounds.min_timeout_ms
    }
}

/// The waits are those within the general limits.
pub open spec fn are_waits(
    out: WaitAgentTimeoutOptions,
    multi_agent_v2: bool,
    configured: Option<i64>,
    bounds: WaitAgentTimeoutOptions,
) -> bool {
    &&& out.min_timeout_ms == least_wait(multi_agent_v2, configured, bounds)
    &&& out.default_timeout_ms == clamped(
        bounds.default_timeout_ms,
        out.min_timeout_ms,
        bounds.max_timeout_ms,
    )
    &&& out.max_timeout_ms == bounds.max_timeout_ms
}

/// How long agents may wait for each other; `bounds` are the general limits.
pub fn wait_agent_timeouts(
    multi_agent_v2: bool,
    configured: Option<i64>,
    bounds: WaitAgentTimeoutOptions,
) -> (out: WaitAgentTimeoutOptions)
    requires
        1 <= bounds.max_timeout_ms,
        bounds.min_timeout_ms <= bounds.max_timeout_ms,
    ensures
        are_waits(out, multi_agent_v2, configured, bounds),
        out.min_timeout_ms <= out.default_timeout_ms <= out.max_timeout_ms,
{
    let min_timeout_ms = if multi_agent_v2 {
        let wanted = match configured {
            Some(configured) => configured,
            None => bounds.min_timeout_ms,
        };
        clamp(wanted, 1, bounds.max_timeout_ms)
    } else {
        bounds.min_timeout_ms
    };
    WaitAgentTimeoutOptions {
        default_timeout_ms: clamp(
            bounds.default_timeout_ms,
            min_timeout_ms,
            bounds.max_timeout_ms,
        ),
        min_timeout_ms,
        max_timeout_ms: bounds.max_timeout_ms,
    }
}

// ---------------------------------------------------------------------------
// Tools of MCP servers
// ---------------------------------------------------------------------------

/// The name of a tool. `display` is the name with its namespace, as it is written out.
#[derive(Debug, PartialEq, Eq)]
pub struct ToolName {
    pub namespace: Option<String>,
    pub name: String,
    pub display: String,
}

/// What a name says.
#[verifier::ext_equal]
pub struct ToolNameView {
    pub namespace: Option<Seq<char>>,
    pub name: Seq<char>,
    pub display: Seq<char>,
}

impl View for ToolName {
    type V = ToolNameView;

    open spec fn view(&self) -> ToolNameView {
        ToolNameView {
            namespace: opt_view(self.namespace),
            name: self.name@,
            display: self.display@,
        }
    }
}

impl ToolName {
    /// The same name.
    pub fn copy(&self) -> (out: ToolName)
        ensures
            out@ == self@,
    {
        ToolName {
            namespace: self.namespace.clone(),
            name: self.name.clone(),
            display: self.display.clone(),
        }
    }
}

/// The views of a list of names.
pub open spec fn names_view(names: Seq<ToolName>) -> Seq<ToolNameView> {
    names.map_values(|name: ToolName| name@)
}

/// A tool of an MCP server.
#[derive(Debug, PartialEq, Eq)]
pub struct ToolInfo {
    /// The name under which the tool is known among the tools.
    pub key: String,
    /// The name under which it is called.
    pub canonical_name: ToolName,
    pub server_name: String,
    pub callable_namespace: String,
    pub namespace_description: Option<String>,
    pub connector_name: Option<String>,
}

/// What a tool of an MCP server says of itself.
#[verifier::ext_equal]
pub struct ToolInfoView {
    pub key: Seq<char>,
    pub canonical_name: ToolNameView,
    pub server_name: Seq<char>,
    pub callable_namespace: Seq<char>,
    pub namespace_description: Option<Seq<char>>,
    pub connector_name: Option<Seq<char>>,
}

impl View for ToolInfo {
    type V = ToolInfoView;

    open spec fn view(&self) -> ToolInfoView {
        ToolInfoView {
            key: self.key@,
            canonical_name: self.canonical_name@,
            server_name: self.server_name@,
            callable_namespace: self.callable_namespace@,
            namespace_description: opt_view(self.namespace_description),
            connector_name: opt_view(self.connector_name),
        }
    }
}

/// The views of a list of tools, where there is one.
pub open spec fn tools_view(tools: Option<Vec<ToolInfo>>) -> Option<Seq<ToolInfoView>> {
    match tools {
        Some(tools) => Some(tools@.map_values(|tool: ToolInfo| tool@)),
        None => None,
    }
}

fn copy_tools(tools: &Option<Vec<ToolInfo>>) -> (out: Option<Vec<ToolInfo>>)
    ensures
        tools_view(out) == tools_view(*tools),
{
    let list = match tools {
        Some(list) => list,
        None => return None,
    };
    let mut out: Vec<ToolInfo> = Vec::new();
    for i in 0..list.len()
        invariant
            out@.len() == i,
            forall|j: int| 0 <= j < i ==> (#[trigger] out@[j])@ == list@[j]@,
    {
        let tool = &list[i];
        let copy = ToolInfo {
            key: tool.key.clone(),
            canonical_name: tool.canonical_name.copy(),
            server_name: tool.server_name.clone(),
            callable_namespace: tool.callable_namespace.clone(),
            namespace_description: tool.namespace_description.clone(),
            connector_name: tool.connector_name.clone(),
        };
        assert(copy@ =~= list@[i as int]@);
        out.push(copy);
    }
    let out = Some(out);
    assert(tools_view(out)->0 =~= tools_view(*tools)->0);
    out
}

/// A namespace of tools.
#[derive(Clone, Debug, PartialEq, Eq)]
pub struct ToolNamespace {
    pub name: String,
    pub description: Option<String>,
}

/// What a namespace says.
#[verifier::ext_equal]
pub struct NamespaceView {
    pub name: Seq<char>,
    pub description: Option<Seq<char>>,
}

impl View for ToolNamespace {
    type V = NamespaceView;

    open spec fn view(&self) -> NamespaceView {
        NamespaceView { name: self.name@, description: opt_view(self.description) }
    }
}

/// What the plan is told of the tools of MCP servers.
pub struct McpToolPlanInputs {
    /// The names under which the tools are called, in order.
    pub mcp_tools: Vec<ToolName>,
    /// The namespaces of the tools, by their names.
    pub tool_namespaces: StringMap<ToolNamespace>,
}

/// The namespaces of the tools: where two tools have the same, the last one describes it.
pub open spec fn namespaces_of(tools: Seq<ToolInfo>) -> Map<Seq<char>, NamespaceView>
    decreases tools.len(),
{
    if tools.len() == 0 {
        Map::empty()
    } else {
        namespaces_of(tools.drop_last()).insert(
            tools.last().callable_namespace@,
            NamespaceView {
                name: tools.last().callable_namespace@,
                description: opt_view(tools.last().namespace_description),
            },
        )
    }
}

/// The views of a map of namespaces.
pub open spec fn namespaces_view(map: Map<Seq<char>, ToolNamespace>) -> Map<
    Seq<char>,
    NamespaceView,
> {
    map.map_values(|namespace: ToolNamespace| namespace@)
}

/// The names under which tools are called.
pub open spec fn canonical_names(tools: Seq<ToolInfo>) -> Seq<ToolNameView> {
    tools.map_values(|tool: ToolInfo| tool.canonical_name@)
}

/// What the plan is told of the tools of MCP servers.
pub fn map_mcp_tools_for_plan(tools: &Vec<ToolInfo>) -> (out: McpToolPlanInputs)
    ensures
        names_view(out.mcp_tools@) == canonical_names(tools@),
        namespaces_view(out.tool_namespaces@) == namespaces_of(tools@),
{
    let mut names: Vec<ToolName> = Vec::new();
    let mut namespaces: StringMap<ToolNamespace> = StringMap::new();
    assert(namespaces_view(namespaces@) =~= namespaces_of(tools@.take(0)));
    for i in 0..tools.len()
        invariant
            names_view(names@) == canonical_names(tools@).take(i as int),
            namespaces_view(namespaces@) == namespaces_of(tools@.take(i as int)),
    {
        let ghost before = names_view(names@);
        let ghost before_spaces = namespaces_view(namespaces@);
        assert(tools@.take(i + 1).drop_last() =~= tools@.take(i as int));
        names.push(tools[i].canonical_name.copy());
        assert(names_view(names@) =~= before.push(tools@[i as int].canonical_name@));
        assert(names_view(names@) =~= canonical_names(tools@).take(i + 1));
        let namespace = ToolNamespace {
            name: tools[i].callable_namespace.clone(),
            description: tools[i].namespace_description.clone(),
        };
        namespaces.insert(tools[i].callable_namespace.clone(), namespace);
        assert(namespaces_view(namespaces@) =~= before_spaces.insert(
            tools@[i as int].callable_namespace@,
            namespace@,
        ));
    }
    assert(canonical_names(tools@).take(tools@.len() as int) =~= canonical_names(tools@));
    assert(tools@.take(tools@.len() as int) =~= tools@);
    McpToolPlanInputs { mcp_tools: names, tool_namespaces: namespaces }
}

/// What the plan is told of a tool that is loaded only when it is searched for.
#[derive(Debug, PartialEq, Eq)]
pub struct DeferredTool {
    pub name: ToolName,
    pub server_name: String,
    pub connector_name: Option<String>,
    pub description: Option<String>,
}

/// What the plan is told of a tool that is loaded only when it is searched for.
#[verifier::ext_equal]
pub struct DeferredToolView {
    pub name: ToolNameView,
    pub server_name: Seq<char>,
    pub connector_name: Option<Seq<char>>,
    pub description: Option<Seq<char>>,
}

impl View for DeferredTool {
    type V = DeferredToolView;

    open spec fn view(&self) -> DeferredToolView {
        DeferredToolView {
            name: self.name@,
            server_name: self.server_name@,
            connector_name: opt_view(self.connector_name),
            description: opt_view(self.description),
        }
    }
}

/// What the plan is told of a tool: the description is that of its namespace.
pub open spec fn deferred_source(tool: ToolInfo) -> DeferredToolView {
    DeferredToolView {
        name: tool.canonical_name@,
        server_name: tool.server_name@,
        connector_name: opt_view(tool.connector_name),
        description: opt_view(tool.namespace_description),
    }
}

/// What the plan is told of the tools that are loaded only when they are searched for.
pub fn deferred_tool_sources(tools: &Vec<ToolInfo>) -> (out: Vec<DeferredTool>)
    ensures
        out@.map_values(|tool: DeferredTool| tool@) == tools@.map_values(
            |tool: ToolInfo| deferred_source(tool),
        ),
{
    let mut out: Vec<DeferredTool> = Vec::new();
    for i in 0..tools.len()
        invariant
            out@.len() == i,
            forall|j: int| 0 <= j < i ==> (#[trigger] out@[j])@ == deferred_source(tools@[j]),
    {
        let tool = &tools[i];
        let source = DeferredTool {
            name: tool.canonical_name.copy(),
            server_name: tool.server_name.clone(),
            connector_name: tool.connector_name.clone(),
            description: tool.namespace_description.clone(),
        };
        assert(source@ =~= deferred_source(tools@[i as int]));
        out.push(source);
    }
    assert(out@.map_values(|tool: DeferredTool| tool@) =~= tools@.map_values(
        |tool: ToolInfo| deferred_source(tool),
    ));
    out
}

/// A tool that the user's program brings along.
#[derive(Debug, PartialEq, Eq)]
pub struct DynamicToolSpec {
    pub name: String,
    pub namespace: Option<String>,
    pub defer_loading: bool,
}

/// What a tool that the user's program brings along says of itself.
#[verifier::ext_equal]
pub struct DynamicToolView {
    pub name: Seq<char>,
    pub namespace: Option<Seq<char>>,
    pub defer_loading: bool,
}

impl View for DynamicToolSpec {
    type V = DynamicToolView;

    open spec fn view(&self) -> DynamicToolView {
        DynamicToolView {
            name: self.name@,
            namespace: opt_view(self.namespace),
            defer_loading: self.defer_loading,
        }
    }
}

/// The views of a list of tools that the user's program brings along.
pub open spec fn dynamic_view(tools: Seq<DynamicToolSpec>) -> Seq<DynamicToolView> {
    tools.map_values(|tool: DynamicToolSpec| tool@)
}

/// The tool is loaded only when it is searched for: it asks for that, and it has no namespace or
/// namespaces are in use.
pub open spec fn is_deferred(namespace_tools: bool) -> spec_fn(DynamicToolView) -> bool {
    |tool: DynamicToolView| tool.defer_loading && (namespace_tools || tool.namespace is None)
}

/// The tools that are loaded only when they are searched for.
pub open spec fn deferred_dynamic(tools: Seq<DynamicToolView>, namespace_tools: bool) -> Seq<
    DynamicToolView,
> {
    tools.filter(is_deferred(namespace_tools))
}

fn copy_dynamic(tool: &DynamicToolSpec) -> (out: DynamicToolSpec)
    ensures
        out@ == tool@,
{
    DynamicToolSpec {
        name: tool.name.clone(),
        namespace: tool.namespace.clone(),
        defer_loading: tool.defer_loading,
    }
}

/// The tools that are loaded only when they are searched for.
pub fn deferred_dynamic_tools(tools: &Vec<DynamicToolSpec>, namespace_tools: bool) -> (out: Vec<
    DynamicToolSpec,
>)
    ensures
        dynamic_view(out@) == deferred_dynamic(dynamic_view(tools@), namespace_tools),
{
    let ghost all = dynamic_view(tools@);
    let ghost keep = is_deferred(namespace_tools);
    let mut out: Vec<DynamicToolSpec> = Vec::new();
    reveal(Seq::filter);
    assert(dynamic_view(out@) =~= all.take(0).filter(keep));
    for i in 0..tools.len()
        invariant
            all == dynamic_view(tools@),
            keep == is_deferred(namespace_tools),
            dynamic_view(out@) == all.take(i as int).filter(keep),
    {
        let ghost before = dynamic_view(out@);
        proof {
            filter_of_next(all, keep, i as int);
        }
        let tool = &tools[i];
        assert(all[i as int] == tool@);
        if tool.defer_loading && (namespace_tools || tool.namespace.is_none()) {
            let copy = copy_dynamic(tool);
            out.push(copy);
            assert(dynamic_view(out@) =~= before.push(copy@));
        }
    }
    assert(all.take(tools@.len() as int) =~= all);
    out
}

fn copy_dynamics(tools: &Vec<DynamicToolSpec>) -> (out: Vec<DynamicToolSpec>)
    ensures
        dynamic_view(out@) == dynamic_view(tools@),
{
    let mut out: Vec<DynamicToolSpec> = Vec::new();
    for i in 0..tools.len()
        invariant
            out@.len() == i,
            forall|j: int| 0 <= j < i ==> (#[trigger] out@[j])@ == tools@[j]@,
    {
        out.push(copy_dynamic(&tools[i]));
    }
    assert(dynamic_view(out@) =~= dynamic_view(tools@));
    out
}

// ---------------------------------------------------------------------------
// The plan
// ---------------------------------------------------------------------------

/// The kinds of tool handlers.
#[derive(Clone, Copy, Debug, PartialEq, Eq, Structural)]
pub enum ToolHandlerKind {
    ApplyPatch,
    CloseAgentV1,
    CloseAgentV2,
    CodeModeExecute,
    CodeModeWait,
    ContainerExec,
    CreateGoal,
    DynamicTool,
    ExecCommand,
    FollowupTaskV2,
    GetGoal,
    ListAgentsV2,
    ListMcpResources,
    ListMcpResourceTemplates,
    LocalShell,
    Mcp,
    Plan,
    ReadMcpResource,
    ReportAgentJobResult,
    RequestPermissions,
    RequestUserInput,
    ResumeAgentV1,
    SendInputV1,
    SendMessageV2,
    Shell,
    ShellCommand,
    SpawnAgentsOnCsv,
    SpawnAgentV1,
    SpawnAgentV2,
    TestSync,
    ToolSearch,
    RequestPluginInstall,
    UpdateGoal,
    ViewImage,
    WaitAgentV1,
    WaitAgentV2,
    WriteStdin,
}

/// Which program runs shell commands.
#[derive(Clone, Copy, Debug, PartialEq, Eq, Structural)]
pub enum ShellCommandBackend {
    Classic,
    ZshFork,
}

/// What a session's configuration says about tools.
pub struct ToolsConfig {
    pub multi_agent_v2: bool,
    pub wait_agent_min_timeout_ms: Option<i64>,
    pub namespace_tools: bool,
    pub code_mode_enabled: bool,
    pub request_user_input_available_modes: Vec<String>,
    pub shell_command_backend: ShellCommandBackend,
}

/// A tool of the plan.
#[derive(Clone, Debug, PartialEq, Eq)]
pub struct PlannedSpec {
    pub name: String,
    pub supports_parallel_tool_calls: bool,
}

/// A handler of the plan.
#[derive(Debug, PartialEq, Eq)]
pub struct PlannedHandler {
    pub name: ToolName,
    pub kind: ToolHandlerKind,
}

/// The plan: the tools, and their handlers.
pub struct ToolRegistryPlan {
    pub specs: Vec<PlannedSpec>,
    pub handlers: Vec<PlannedHandler>,
}

/// A handler of tools.
#[derive(Debug, PartialEq, Eq)]
pub enum ToolHandler {
    /// A handler that is the same for every session.
    Fixed(ToolHandlerKind),
    /// The handler of a tool that the user's program brings along.
    Dynamic { name: ToolName },
    /// The handler of a tool of an MCP server.
    Mcp { name: ToolName },
    /// The handler that asks the user, in the modes in which it may.
    RequestUserInput { available_modes: Vec<String> },
    /// The handler that runs shell commands.
    ShellCommand { backend: ShellCommandBackend },
    /// The handler that searches the tools that are not loaded yet.
    ToolSearch {
        deferred_mcp: Option<Vec<ToolInfo>>,
        deferred_dynamic: Vec<DynamicToolSpec>,
    },
    /// The handler that says that a tool is not available.
    Unavailable { name: ToolName },
}

/// What a handler is.
#[verifier::ext_equal]
pub enum HandlerView {
    Fixed(ToolHandlerKind),
    Dynamic { name: ToolNameView },
    Mcp { name: ToolNameView },
    RequestUserInput { available_modes: Seq<Seq<char>> },
    ShellCommand { backend: ShellCommandBackend },
    ToolSearch {
        deferred_mcp: Option<Seq<ToolInfoView>>,
        deferred_dynamic: Seq<DynamicToolView>,
    },
    Unavailable { name: ToolNameView },
}

impl View for ToolHandler {
    type V = HandlerView;

    open spec fn view(&self) -> HandlerView {
        match self {
            ToolHandler::Fixed(kind) => HandlerView::Fixed(*kind),
            ToolHandler::Dynamic { name } => HandlerView::Dynamic { name: name@ },
            ToolHandler::Mcp { name } => HandlerView::Mcp { name: name@ },
            ToolHandler::RequestUserInput { available_modes } => HandlerView::RequestUserInput {
                available_modes: views(available_modes@),
            },
            ToolHandler::ShellCommand { backend } => HandlerView::ShellCommand {
                backend: *backend,
            },
            ToolHandler::ToolSearch { deferred_mcp, deferred_dynamic } => HandlerView::ToolSearch {
                deferred_mcp: tools_view(*deferred_mcp),
                deferred_dynamic: dynamic_view(deferred_dynamic@),
            },
            ToolHandler::Unavailable { name } => HandlerView::Unavailable { name: name@ },
        }
    }
}

/// What the message of a placeholder says of its use.
pub const PLACEHOLDER_HINT: &'static str = "Calling this placeholder returns an error explaining that the tool is unavailable.";

/// A message that says that a tool is not available: which tool, and what comes of calling it.
#[derive(Debug, PartialEq, Eq)]
pub struct UnavailableMessage {
    pub tool: String,
    pub hint: &'static str,
}

/// The parameters of a tool: an object with properties, some of which are required, that may have
/// further properties or not.
#[derive(Debug, PartialEq, Eq)]
pub struct ObjectSchema {
    pub properties: Vec<String>,
    pub required: Option<Vec<String>>,
    pub additional_properties: Option<bool>,
}

/// A function tool whose description is a message that it is not available.
#[derive(Debug, PartialEq, Eq)]
pub struct PlaceholderTool {
    pub name: String,
    pub description: UnavailableMessage,
    pub strict: bool,
    pub parameters: ObjectSchema,
    pub output_schema: Option<Json>,
    pub defer_loading: Option<bool>,
}

/// What a placeholder says of itself.
#[verifier::ext_equal]
pub struct PlaceholderView {
    pub name: Seq<char>,
    pub about: Seq<char>,
    pub hint: Seq<char>,
    pub strict: bool,
    pub properties: Seq<Seq<char>>,
    pub required: Option<Seq<Seq<char>>>,
    pub additional_properties: Option<bool>,
    pub output_schema: Option<JsonView>,
    pub defer_loading: Option<bool>,
}

impl View for PlaceholderTool {
    type V = PlaceholderView;

    open spec fn view(&self) -> PlaceholderView {
        PlaceholderView {
            name: self.name@,
            about: self.description.tool@,
            hint: self.description.hint@,
            strict: self.strict,
            properties: views(self.parameters.properties@),
            required: match self.parameters.required {
                Some(required) => Some(views(required@)),
                None => None,
            },
            additional_properties: self.parameters.additional_properties,
            output_schema: match self.output_schema {
                Some(schema) => Some(schema@),
                None => None,
            },
            defer_loading: self.defer_loading,
        }
    }
}

/// The placeholder for a tool that is not available: it has no parameters and allows no further
/// ones, is not strict, has no output schema, and does not ask to be loaded later.
pub open spec fn placeholder_for(name: Seq<char>) -> PlaceholderView {
    PlaceholderView {
        name,
        about: name,
        hint: PLACEHOLDER_HINT@,
        strict: false,
        properties: seq![],
        required: None,
        additional_properties: Some(false),
        output_schema: None,
        defer_loading: None,
    }
}

/// The placeholder for a tool that is not available, offered under the tool's written name.
pub fn unavailable_placeholder(name: &str) -> (tool: PlaceholderTool)
    ensures
        tool@ == placeholder_for(name@),
{
    let tool = PlaceholderTool {
        name: name.to_string(),
        description: UnavailableMessage { tool: name.to_string(), hint: PLACEHOLDER_HINT },
        strict: false,
        parameters: ObjectSchema {
            properties: Vec::new(),
            required: None,
            additional_properties: Some(false),
        },
        output_schema: None,
        defer_loading: None,
    };
    assert(tool@ =~= placeholder_for(name@));
    tool
}

/// A step of building the registry of tools.
#[derive(Debug, PartialEq, Eq)]
pub enum RegistryStep {
    /// Offers a tool of the plan.
    PushSpec { name: String, parallel: bool },
    /// Offers a placeholder for a tool that is not available, in the form for code mode or not.
    PushPlaceholder { tool: PlaceholderTool, code_mode: bool },
    /// Registers a handler.
    Register(ToolHandler),
}

/// What a step does.
#[verifier::ext_equal]
pub enum StepView {
    PushSpec { name: Seq<char>, parallel: bool },
    PushPlaceholder { tool: PlaceholderView, code_mode: bool },
    Register(HandlerView),
}

impl View for RegistryStep {
    type V = StepView;

    open spec fn view(&self) -> StepView {
        match self {
            RegistryStep::PushSpec { name, parallel } => StepView::PushSpec {
                name: name@,
                parallel: *parallel,
            },
            RegistryStep::PushPlaceholder { tool, code_mode } => StepView::PushPlaceholder {
                tool: tool@,
                code_mode: *code_mode,
            },
            RegistryStep::Register(handler) => StepView::Register(handler@),
        }
    }
}

/// The views of a list of steps.
pub open spec fn steps_view(steps: Seq<RegistryStep>) -> Seq<StepView> {
    steps.map_values(|step: RegistryStep| step@)
}

/// The handler that a planned one comes to.
pub open spec fn handler_for(
    planned: PlannedHandler,
    config: ToolsConfig,
    deferred_mcp: Option<Seq<ToolInfoView>>,
    deferred_dynamic: Seq<DynamicToolView>,
) -> HandlerView {
    match planned.kind {
        ToolHandlerKind::DynamicTool => HandlerView::Dynamic { name: planned.name@ },
        ToolHandlerKind::Mcp => HandlerView::Mcp { name: planned.name@ },
        ToolHandlerKind::RequestUserInput => HandlerView::RequestUserInput {
            available_modes: views(config.request_user_input_available_modes@),
        },
        ToolHandlerKind::ShellCommand => HandlerView::ShellCommand {
            backend: config.shell_command_backend,
        },
        ToolHandlerKind::ToolSearch => HandlerView::ToolSearch { deferred_mcp, deferred_dynamic },
        kind => HandlerView::Fixed(kind),
    }
}

fn build_handler(
    planned: &PlannedHandler,
    config: &ToolsConfig,
    deferred_mcp: &Option<Vec<ToolInfo>>,
    deferred_dynamic: &Vec<DynamicToolSpec>,
) -> (out: ToolHandler)
    ensures
        out@ == handler_for(
            *planned,
            *config,
            tools_view(*deferred_mcp),
            dynamic_view(deferred_dynamic@),
        ),
{
    match planned.kind {
        ToolHandlerKind::DynamicTool => ToolHandler::Dynamic { name: planned.name.copy() },
        ToolHandlerKind::Mcp => ToolHandler::Mcp { name: planned.name.copy() },
        ToolHandlerKind::RequestUserInput => ToolHandler::RequestUserInput {
            available_modes: clone_strings(
                &config.request_user_input_available_modes,
            ),
        },
        ToolHandlerKind::ShellCommand => ToolHandler::ShellCommand {
            backend: config.shell_command_backend,
        },
        ToolHandlerKind::ToolSearch => ToolHandler::ToolSearch {
            deferred_mcp: copy_tools(deferred_mcp),
            deferred_dynamic: copy_dynamics(deferred_dynamic),
        },
        kind => ToolHandler::Fixed(kind),
    }
}

/// A tool with the key is among the tools.
pub open spec fn has_tool(tools: Option<Vec<ToolInfo>>, key: Seq<char>) -> bool {
    match tools {
        Some(tools) => exists|i: int| 0 <= i < tools@.len() && (#[trigger] tools@[i]).key@ == key,
        None => false,
    }
}

fn tools_have(tools: &Option<Vec<ToolInfo>>, key: &str) -> (yes: bool)
    ensures
        yes == has_tool(*tools, key@),
{
    match tools {
        Some(list) => {
            for i in 0..list.len()
                invariant
                    *tools == Some(*list),
                    forall|j: int| 0 <= j < i ==> (#[trigger] list@[j]).key@ != key@,
            {
                if same_text(list[i].key.as_str(), key) {
                    assert(list@[i as int].key@ == key@);
                    return true;
                }
            }
            false
        },
        None => false,
    }
}

/// The handlers of the deferred tools that are not among the loaded ones.
pub open spec fn deferred_steps(deferred: Seq<ToolInfo>, loaded: Option<Vec<ToolInfo>>) -> Seq<
    StepView,
>
    decreases deferred.len(),
{
    if deferred.len() == 0 {
        seq![]
    } else {
        let before = deferred_steps(deferred.drop_last(), loaded);
        if has_tool(loaded, deferred.last().key@) {
            before
        } else {
            before.push(
                StepView::Register(HandlerView::Mcp { name: deferred.last().canonical_name@ }),
            )
        }
    }
}

/// The name is among the tools that are offered, or among the first `n` names that were called.
pub open spec fn is_offered(
    specs: Seq<PlannedSpec>,
    called: Seq<ToolNameView>,
    n: int,
    name: Seq<char>,
) -> bool {
    ||| exists|i: int| 0 <= i < specs.len() && (#[trigger] specs[i]).name@ == name
    ||| exists|i: int| 0 <= i < n && (#[trigger] called[i]).display == name
}

/// The placeholders and handlers of the first `n` tools that were called and are not available:
/// each gets a handler, and a placeholder where no tool of that name is offered yet.
pub open spec fn unavailable_steps(
    specs: Seq<PlannedSpec>,
    called: Seq<ToolNameView>,
    code_mode: bool,
    n: int,
) -> Seq<StepView>
    decreases n,
{
    if n <= 0 {
        seq![]
    } else {
        let before = unavailable_steps(specs, called, code_mode, n - 1);
        let name = called[n - 1];
        let offered = if is_offered(specs, called, n - 1, name.display) {
            before
        } else {
            before.push(
                StepView::PushPlaceholder { tool: placeholder_for(name.display), code_mode },
            )
        };
        offered.push(StepView::Register(HandlerView::Unavailable { name }))
    }
}

/// All steps: the tools of the plan, their handlers, the handlers of deferred tools, and what
/// stands for tools that are not available.
pub open spec fn registry_steps(
    config: ToolsConfig,
    plan: ToolRegistryPlan,
    mcp_tools: Option<Vec<ToolInfo>>,
    deferred_mcp_tools: Option<Vec<ToolInfo>>,
    called: Seq<ToolNameView>,
    dynamic_tools: Seq<DynamicToolSpec>,
) -> Seq<StepView> {
    plan.specs@.map_values(
        |spec: PlannedSpec|
            StepView::PushSpec {
                name: spec.name@,
                parallel: spec.supports_parallel_tool_calls,
            },
    ) + plan.handlers@.map_values(
        |planned: PlannedHandler|
            StepView::Register(
                handler_for(
                    planned,
                    config,
                    tools_view(deferred_mcp_tools),
                    deferred_dynamic(dynamic_view(dynamic_tools), config.namespace_tools),
                ),
            ),
    ) + (match deferred_mcp_tools {
        Some(deferred) => deferred_steps(deferred@, mcp_tools),
        None => seq![],
    }) + unavailable_steps(
        plan.specs@,
        called,
        config.code_mode_enabled,
        called.len() as int,
    )
}

fn name_is_offered(
    specs: &Vec<PlannedSpec>,
    called: &Vec<ToolName>,
    n: usize,
    name: &str,
) -> (yes: bool)
    requires
        n <= called@.len(),
    ensures
        yes == is_offered(specs@, names_view(called@), n as int, name@),
{
    for i in 0..specs.len()
        invariant
            forall|j: int| 0 <= j < i ==> (#[trigger] specs@[j]).name@ != name@,
    {
        if same_text(specs[i].name.as_str(), name) {
            assert(specs@[i as int].name@ == name@);
            return true;
        }
    }
    let ghost names = names_view(called@);
    for i in 0..n
        invariant
            n <= called@.len(),
            names == names_view(called@),
            forall|j: int| 0 <= j < i ==> (#[trigger] names[j]).display != name@,
    {
        if same_text(called[i].display.as_str(), name) {
            assert(names[i as int].display == name@);
            return true;
        }
    }
    false
}

/// The steps that build the registry of a session's tools. `plan` is the plan for the session,
/// `mcp_tools` and `deferred_mcp_tools` are the tools of MCP servers in the order in which they are
/// walked, and `called` are the tools that were called and are not available.
pub fn build_specs_with_discoverable_tools(
    config: &ToolsConfig,
    plan: &ToolRegistryPlan,
    mcp_tools: &Option<Vec<ToolInfo>>,
    deferred_mcp_tools: &Option<Vec<ToolInfo>>,
    called: &Vec<ToolName>,
    dynamic_tools: &Vec<DynamicToolSpec>,
) -> (steps: Vec<RegistryStep>)
    ensures
        steps_view(steps@) == registry_steps(
            *config,
            *plan,
            *mcp_tools,
            *deferred_mcp_tools,
            names_view(called@),
            dynamic_tools@,
        ),
{
    let mut steps: Vec<RegistryStep> = Vec::new();
    let ghost push_of = |spec: PlannedSpec|
        StepView::PushSpec { name: spec.name@, parallel: spec.supports_parallel_tool_calls };
    let ghost pushed = plan.specs@.map_values(push_of);
    for i in 0..plan.specs.len()
        invariant
            push_of == (|spec: PlannedSpec|
                StepView::PushSpec { name: spec.name@, parallel: spec.supports_parallel_tool_calls }),
            pushed == plan.specs@.map_values(push_of),
            steps_view(steps@) == pushed.take(i as int),
    {
        let ghost before = steps_view(steps@);
        let step = RegistryStep::PushSpec {
            name: plan.specs[i].name.clone(),
            parallel: plan.specs[i].supports_parallel_tool_calls,
        };
        assert(step@ == pushed[i as int]);
        steps.push(step);
        assert(steps_view(steps@) =~= before.push(step@));
        assert(steps_view(steps@) =~= pushed.take(i + 1));
    }
    assert(pushed.take(plan.specs@.len() as int) =~= pushed);
    let to_search = deferred_dynamic_tools(dynamic_tools, config.namespace_tools);
    let ghost handler_of = |planned: PlannedHandler|
        StepView::Register(
            handler_for(
                planned,
                *config,
                tools_view(*deferred_mcp_tools),
                deferred_dynamic(dynamic_view(dynamic_tools@), config.namespace_tools),
            ),
        );
    let ghost handled = plan.handlers@.map_values(handler_of);
    assert(pushed + handled.take(0) =~= pushed);
    for i in 0..plan.handlers.len()
        invariant
            dynamic_view(to_search@) == deferred_dynamic(
                dynamic_view(dynamic_tools@),
                config.namespace_tools,
            ),
            handler_of == (|planned: PlannedHandler|
                StepView::Register(
                    handler_for(
                        planned,
                        *config,
                        tools_view(*deferred_mcp_tools),
                        deferred_dynamic(dynamic_view(dynamic_tools@), config.namespace_tools),
                    ),
                )),
            handled == plan.handlers@.map_values(handler_of),
            steps_view(steps@) == pushed + handled.take(i as int),
    {
        let ghost before = steps_view(steps@);
        let step = RegistryStep::Register(
            build_handler(&plan.handlers[i], config, deferred_mcp_tools, &to_search),
        );
        assert(step@ == handled[i as int]);
        steps.push(step);
        assert(steps_view(steps@) =~= before.push(step@));
        assert(steps_view(steps@) =~= pushed + handled.take(i + 1));
    }
    assert(handled.take(plan.handlers@.len() as int) =~= handled);
    let ghost start = steps_view(steps@);
    let ghost of_deferred = match deferred_mcp_tools {
        Some(deferred) => deferred_steps(deferred@, *mcp_tools),
        None => seq![],
    };
    match deferred_mcp_tools {
        Some(deferred) => {
            assert(start + deferred_steps(deferred@.take(0), *mcp_tools) =~= start);
            for i in 0..deferred.len()
                invariant
                    steps_view(steps@) == start + deferred_steps(
                        deferred@.take(i as int),
                        *mcp_tools,
                    ),
            {
                let ghost before = steps_view(steps@);
                assert(deferred@.take(i + 1).drop_last() =~= deferred@.take(i as int));
                if !tools_have(mcp_tools, deferred[i].key.as_str()) {
                    let step = RegistryStep::Register(
                        ToolHandler::Mcp { name: deferred[i].canonical_name.copy() },
                    );
                    steps.push(step);
                    assert(steps_view(steps@) =~= before.push(step@));
                    assert(steps_view(steps@) =~= start + deferred_steps(
                        deferred@.take(i + 1),
                        *mcp_tools,
                    ));
                }
            }
            assert(deferred@.take(deferred@.len() as int) =~= deferred@);
        },
        None => {
            assert(start + of_deferred =~= start);
        },
    }
    let ghost known = steps_view(steps@);
    assert(known == start + of_deferred);
    let ghost names = names_view(called@);
    assert(known + unavailable_steps(plan.specs@, names, config.code_mode_enabled, 0) =~= known);
    for i in 0..called.len()
        invariant
            names == names_view(called@),
            steps_view(steps@) == known + unavailable_steps(
                plan.specs@,
                names,
                config.code_mode_enabled,
                i as int,
            ),
    {
        let ghost before = steps_view(steps@);
        if !name_is_offered(&plan.specs, called, i, called[i].display.as_str()) {
            let step = RegistryStep::PushPlaceholder {
                tool: unavailable_placeholder(called[i].display.as_str()),
                code_mode: config.code_mode_enabled,
            };
            steps.push(step);
            assert(steps_view(steps@) =~= before.push(step@));
        }
        let ghost between = steps_view(steps@);
        let step = RegistryStep::Register(ToolHandler::Unavailable { name: called[i].copy() });
        steps.push(step);
        assert(steps_view(steps@) =~= between.push(step@));
        assert(steps_view(steps@) =~= known + unavailable_steps(
            plan.specs@,
            names,
            config.code_mode_enabled,
            i + 1,
        ));
    }
    steps
}

/// The step offers a tool under a name.
pub open spec fn offers(step: StepView, name: Seq<char>) -> bool {
    match step {
        StepView::PushSpec { name: offered, .. } => offered == name,
        StepView::PushPlaceholder { tool, .. } => tool.name == name,
        StepView::Register(_) => false,
    }
}

/// A placeholder never takes the place of a tool that is offered, and stands for each tool that is
/// not available at most once: no two steps for such tools offer the same name, and none offers
/// the name of a tool of the plan.
pub proof fn placeholders_do_not_clash(
    specs: Seq<PlannedSpec>,
    called: Seq<ToolNameView>,
    code_mode: bool,
    n: int,
)
    requires
        0 <= n <= called.len(),
    ensures
        forall|i: int, name: Seq<char>|
            0 <= i < unavailable_steps(specs, called, code_mode, n).len() && #[trigger] offers(
                unavailable_steps(specs, called, code_mode, n)[i],
                name,
            ) ==> !is_offered(specs, called, 0, name) && (exists|k: int|
                0 <= k < n && (#[trigger] called[k]).display == name),
        forall|i: int, j: int, name: Seq<char>|
            0 <= i < j < unavailable_steps(specs, called, code_mode, n).len() ==> !(
            #[trigger] offers(unavailable_steps(specs, called, code_mode, n)[i], name)
                && #[trigger] offers(unavailable_steps(specs, called, code_mode, n)[j], name)),
    decreases n,
{
    if n > 0 {
        placeholders_do_not_clash(specs, called, code_mode, n - 1);
        let before = unavailable_steps(specs, called, code_mode, n - 1);
        let out = unavailable_steps(specs, called, code_mode, n);
        let fresh = called[n - 1].display;
        assert forall|i: int, name: Seq<char>|
            0 <= i < out.len() && #[trigger] offers(out[i], name) implies !is_offered(
            specs,
            called,
            0,
            name,
        ) && (exists|k: int| 0 <= k < n && (#[trigger] called[k]).display == name) by {
            if i < before.len() {
                assert(out[i] == before[i]);
                assert(offers(before[i], name));
                let k = choose|k: int| 0 <= k < n - 1 && (#[trigger] called[k]).display == name;
                assert(called[k].display == name);
            } else {
                assert(name == fresh);
                assert(called[n - 1].display == name);
            }
        }
        assert forall|i: int, j: int, name: Seq<char>| 0 <= i < j < out.len() implies !(
        #[trigger] offers(out[i], name) && #[trigger] offers(out[j], name)) by {
            if offers(out[i], name) && offers(out[j], name) {
                if j < before.len() {
                    assert(out[i] == before[i] && out[j] == before[j]);
                    assert(offers(before[i], name) && offers(before[j], name));
                } else if i < before.len() {
                    assert(out[i] == before[i]);
                    assert(offers(before[i], name));
                    let k = choose|k: int| 0 <= k < n - 1 && (#[trigger] called[k]).display == name;
                    assert(name == fresh);
                    assert(is_offered(specs, called, n - 1, fresh));
                }
            }
        }
    }
}

/// Every tool that was called and is not available gets a handler that says so.
pub proof fn unavailable_tools_are_handled(
    specs: Seq<PlannedSpec>,
    called: Seq<ToolNameView>,
    code_mode: bool,
    n: int,
    k: int,
)
    requires
        0 <= k < n <= called.len(),
    ensures
        unavailable_steps(specs, called, code_mode, n).contains(
            StepView::Register(HandlerView::Unavailable { name: called[k] }),
        ),
    decreases n,
{
    let out = unavailable_steps(specs, called, code_mode, n);
    let step = StepView::Register(HandlerView::Unavailable { name: called[k] });
    if k == n - 1 {
        assert(out[out.len() - 1] == step);
    } else {
        unavailable_tools_are_handled(specs, called, code_mode, n - 1, k);
        let before = unavailable_steps(specs, called, code_mode, n - 1);
        let i = choose|i: int| 0 <= i < before.len() && before[i] == step;
        assert(out[i] == step);
    }
}

} // verus!
