//! What values say, and that nothing of them is lost.

use vstd::prelude::*;

use crate::config_lock::{ConfigToml, LockCheckError};
use crate::http::HttpRequest;
use crate::json::JsonView;
use crate::markup::{cell, code, table_row};
use crate::permissions::{
    InjectedHeaderConfig, NetworkDomainUpsert, NetworkMitmInjectedHeaderToml,
};
use crate::route::{NewTeamForm, UiAction, UiOutcome};
use crate::split::concat;
use crate::text::{opt_view, text_or, views};
use crate::timeline::{UiDebugTimelineItem, UiRealtimeMessage};
use crate::token_usage::TokenUsageReport;
use crate::tool_spec::{
    canonical_names, DeferredTool, DynamicToolSpec, PlaceholderTool, RegistryStep, ToolHandler,
    ToolInfo, ToolName, ToolNamespace,
};

verus! {

// ---------------------------------------------------------------------------
// Texts
// ---------------------------------------------------------------------------

/// A list of strings says what each of them says, in order; an optional string says what it says,
/// or nothing, or what stands for it.
pub proof fn strings_say_what_they_say(list: Seq<String>, text: Option<String>, other: Seq<char>)
    ensures
        views(list).len() == list.len(),
        forall|i: int| 0 <= i < list.len() ==> #[trigger] views(list)[i] == list[i]@,
        text is Some ==> opt_view(text) == Some(text->0@) && text_or(text, other) == text->0@,
        text is None ==> opt_view(text) is None && text_or(text, other) == other,
{
}

/// A row is its cells one behind the other, each in its tags.
pub proof fn rows_are_their_cells(cells: Seq<Seq<char>>, text: Seq<char>)
    ensures
        table_row(cells) == "<tr>"@ + concat(
            Seq::new(cells.len(), |i: int| "<td>"@ + cells[i] + "</td>"@),
        ) + "</tr>"@,
        code(text) == "<code>"@ + crate::escape::html(text) + "</code>"@,
{
    assert(cells.map_values(|content: Seq<char>| cell(content)) =~= Seq::new(
        cells.len(),
        |i: int| "<td>"@ + cells[i] + "</td>"@,
    ));
}

/// A member of an object is found under its key, and nowhere else; only texts are read as texts.
pub proof fn members_are_found(value: JsonView, key: Seq<char>)
    ensures
        value is Object && value->Object_0.contains_key(key) ==> value.member(key) == Some(
            value->Object_0[key],
        ),
        !(value is Object && value->Object_0.contains_key(key)) ==> value.member(key) is None,
        value is Text ==> value.string() == Some(value->Text_0),
        !(value is Text) ==> value.string() is None,
{
}

// ---------------------------------------------------------------------------
// Tools
// ---------------------------------------------------------------------------

/// What is said of tools is all that they hold.
pub proof fn tools_say_what_they_hold(
    name: ToolName,
    tool: ToolInfo,
    namespace: ToolNamespace,
    deferred: DeferredTool,
    dynamic: DynamicToolSpec,
)
    ensures
        name@.namespace == opt_view(name.namespace),
        name@.name == name.name@,
        name@.display == name.display@,
        tool@.key == tool.key@,
        tool@.canonical_name == tool.canonical_name@,
        tool@.server_name == tool.server_name@,
        tool@.callable_namespace == tool.callable_namespace@,
        tool@.namespace_description == opt_view(tool.namespace_description),
        tool@.connector_name == opt_view(tool.connector_name),
        namespace@.name == namespace.name@,
        namespace@.description == opt_view(namespace.description),
        deferred@.name == deferred.name@,
        deferred@.server_name == deferred.server_name@,
        deferred@.connector_name == opt_view(deferred.connector_name),
        deferred@.description == opt_view(deferred.description),
        dynamic@.name == dynamic.name@,
        dynamic@.namespace == opt_view(dynamic.namespace),
        dynamic@.defer_loading == dynamic.defer_loading,
{
}

/// What is said of a handler, a placeholder or a step is all that it holds.
pub proof fn steps_say_what_they_hold(
    handler: ToolHandler,
    tool: PlaceholderTool,
    step: RegistryStep,
)
    ensures
        handler is Fixed ==> handler@ is Fixed && handler@->Fixed_0 == handler->Fixed_0,
        handler is Dynamic ==> handler@ is Dynamic && handler@->Dynamic_name
            == handler->Dynamic_name@,
        handler is Mcp ==> handler@ is Mcp && handler@->Mcp_name == handler->Mcp_name@,
        handler is RequestUserInput ==> handler@ is RequestUserInput && handler@->available_modes
            == views(handler->available_modes@),
        handler is ShellCommand ==> handler@ is ShellCommand && handler@->backend
            == handler->backend,
        handler is ToolSearch ==> handler@ is ToolSearch,
        handler is Unavailable ==> handler@ is Unavailable && handler@->Unavailable_name
            == handler->Unavailable_name@,
        tool@.name == tool.name@,
        tool@.about == tool.description.tool@,
        tool@.hint == tool.description.hint@,
        tool@.strict == tool.strict,
        tool@.properties == views(tool.parameters.properties@),
        tool@.required is Some <==> tool.parameters.required is Some,
        tool@.additional_properties == tool.parameters.additional_properties,
        tool@.output_schema is Some <==> tool.output_schema is Some,
        tool@.defer_loading == tool.defer_loading,
        step is PushSpec ==> step@ is PushSpec && step@->PushSpec_name == step->PushSpec_name@
            && step@->parallel == step->parallel,
        step is PushPlaceholder ==> step@ is PushPlaceholder && step@->tool == step->tool@
            && step@->code_mode == step->code_mode,
        step is Register ==> step@ is Register && step@->Register_0 == step->Register_0@,
{
}

/// The plan is told the name of every tool, in order.
pub proof fn every_tool_is_named(tools: Seq<ToolInfo>)
    ensures
        canonical_names(tools).len() == tools.len(),
        forall|i: int|
            0 <= i < tools.len() ==> #[trigger] canonical_names(tools)[i]
                == tools[i].canonical_name@,
{
}

// ---------------------------------------------------------------------------
// Requests
// ---------------------------------------------------------------------------

/// What is said of a request and of what it asks for is all that it holds.
pub proof fn requests_say_what_they_hold(
    request: HttpRequest,
    form: NewTeamForm,
    action: UiAction,
    outcome: UiOutcome,
)
    ensures
        request@.method == request.method@,
        request@.path == request.path@,
        request@.body == request.body@,
        form@.goal == form.goal@,
        form@.cwd == opt_view(form.cwd),
        form@.app_server_url == opt_view(form.app_server_url),
        form@.id == opt_view(form.id),
        form@.members == views(form.members@),
        form@.nodes == views(form.nodes@),
        form@.discuss_rounds == form.discuss_rounds@,
        form@.no_keep_alive == form.no_keep_alive,
        form@.bypass_sandbox == form.bypass_sandbox,
        action is Message ==> action@ is Message && action@->from == action->from@ && action@->to
            == action->to@ && action@->Message_message == action->Message_message@
            && action@->Message_team == action->Message_team@,
        action is Page ==> action@ is Page && action@->cwd == opt_view(action->Page_0.cwd)
            && action@->task == opt_view(action->Page_0.task) && action@->translation == opt_view(
            action->Page_0.translation,
        ) && action@->Page_team == opt_view(action->Page_0.team),
        action is New ==> action@ is New && action@->New_0 == action->New_0@,
        action is Realtime ==> action@ is Realtime && action@->Realtime_team
            == action->Realtime_team@,
        action is Debug ==> action@ is Debug && action@->Debug_team == action->Debug_team@,
        action is Translate ==> action@ is Translate && action@->Translate_team
            == action->Translate_team@ && action@->language == action->language@,
        action is Resume ==> action@ is Resume && action@->Resume_team == action->Resume_team@,
        action is Stop ==> action@ is Stop && action@->Stop_team == action->Stop_team@,
        action is Delete ==> action@ is Delete && action@->Delete_team == action->Delete_team@,
        action is NotFound ==> action@ is NotFound,
        action is Refuse ==> action@ is Refuse && action@->Refuse_message
            == action->Refuse_message@,
        outcome is Page ==> outcome@ is Page && outcome@->html == outcome->html@,
        outcome is Json ==> outcome@ is Json && outcome@->text == outcome->text@,
        outcome is Redirect ==> outcome@ is Redirect && outcome@->Redirect_team == opt_view(
            outcome->Redirect_team,
        ),
        outcome is Translating ==> outcome@ is Translating && outcome@->Translating_team
            == outcome->Translating_team@ && outcome@->language == outcome->language@,
        outcome is NotFound ==> outcome@ is NotFound,
        outcome is Failed ==> outcome@ is Failed && outcome@->message == outcome->message@,
{
}

/// What is said of a query is the text under each key.
pub proof fn queries_say_what_they_hold(request: HttpRequest, key: Seq<char>)
    ensures
        request@.query.contains_key(key) <==> request.query@.contains_key(key),
        request.query@.contains_key(key) ==> request@.query[key] == request.query@[key]@,
{
}

// ---------------------------------------------------------------------------
// Reports, entries and settings
// ---------------------------------------------------------------------------

/// What is said of a message, an entry or a report is all that it holds.
pub proof fn entries_say_what_they_hold(
    message: UiRealtimeMessage,
    item: UiDebugTimelineItem,
    report: TokenUsageReport,
)
    ensures
        message@.timestamp == message.timestamp@,
        message@.from == message.from@,
        message@.to == message.to@,
        message@.message == message.message@,
        item@.timestamp == item.timestamp@,
        item@.kind == item.kind@,
        item@.title == item.title@,
        item@.actor == item.actor@,
        item@.target == item.target@,
        item@.body == item.body@,
        item@.meta == item.meta@,
        report@.total == report.total,
        report@.hotspots == report.hotspots@,
        report@.recent == report.recent@,
        is_shown(report@.by_category, report.by_category@),
        is_shown(report@.by_member, report.by_member@),
        is_shown(report@.by_category_member, report.by_category_member@),
        is_shown(report@.by_node, report.by_node@),
{
}

/// The groups are those of the list, in order.
pub open spec fn is_shown(
    shown: Seq<(Seq<char>, crate::token_usage::TeamTokenUsageBreakdown)>,
    groups: Seq<(String, crate::token_usage::TeamTokenUsageBreakdown)>,
) -> bool {
    &&& shown.len() == groups.len()
    &&& forall|i: int|
        0 <= i < groups.len() ==> (#[trigger] shown[i]).0 == groups[i].0@ && shown[i].1
            == groups[i].1
}

/// What is said of a header, of a pattern or of a refusal is all that it holds.
pub proof fn settings_say_what_they_hold(
    header: NetworkMitmInjectedHeaderToml,
    made: InjectedHeaderConfig,
    upsert: NetworkDomainUpsert,
    error: LockCheckError,
)
    ensures
        header@.name == header.name@,
        header@.secret_env_var == opt_view(header.secret_env_var),
        header@.secret_file == opt_view(header.secret_file),
        header@.prefix == opt_view(header.prefix),
        made@.name == made.name@,
        made@.secret_env_var == opt_view(made.secret_env_var),
        made@.secret_file == opt_view(made.secret_file),
        made@.prefix == opt_view(made.prefix),
        upsert@.pattern == upsert.pattern@,
        upsert@.permission == upsert.permission,
        error is NotMade ==> error@ is NotMade && error@->NotMade_0 == error->NotMade_0@,
        error is NotReplayed ==> error@ is NotReplayed && error@->NotReplayed_0
            == error->NotReplayed_0@,
{
}

/// What is said of a configuration is all that it holds.
pub proof fn configurations_say_what_they_hold(config: ConfigToml)
    ensures
        config@.resolved.model == opt_view(config.model),
        config@.resolved.model_reasoning_effort == opt_view(config.model_reasoning_effort),
        config@.resolved.model_reasoning_summary == opt_view(config.model_reasoning_summary),
        config@.resolved.service_tier == opt_view(config.service_tier),
        config@.resolved.instructions == opt_view(config.instructions),
        config@.resolved.developer_instructions == opt_view(config.developer_instructions),
        config@.resolved.compact_prompt == opt_view(config.compact_prompt),
        config@.resolved.personality == opt_view(config.personality),
        config@.resolved.approval_policy == opt_view(config.approval_policy),
        config@.resolved.approvals_reviewer == opt_view(config.approvals_reviewer),
        config@.inputs.profile == opt_view(config.profile),
        config@.inputs.profiles == config.profiles@,
        config@.inputs.model_instructions_file == opt_view(config.model_instructions_file),
        config@.inputs.experimental_instructions_file == opt_view(
            config.experimental_instructions_file,
        ),
        config@.inputs.experimental_compact_prompt_file == opt_view(
            config.experimental_compact_prompt_file,
        ),
        config@.inputs.model_catalog_json == opt_view(config.model_catalog_json),
        config@.inputs.sandbox_mode == opt_view(config.sandbox_mode),
        config@.inputs.sandbox_workspace_write == opt_view(config.sandbox_workspace_write),
        config@.inputs.default_permissions == opt_view(config.default_permissions),
        config@.inputs.permissions == config.permissions,
        config@.inputs.experimental_use_unified_exec_tool
            == config.experimental_use_unified_exec_tool,
        config@.inputs.experimental_use_freeform_apply_patch
            == config.experimental_use_freeform_apply_patch,
        config@.has_debug == (config.debug is Some),
        config.debug is Some ==> config@.inputs.config_lockfile == opt_view(
            config.debug->0.config_lockfile,
        ) && config@.other_debug == opt_view(config.debug->0.other),
        config@.other == config.other@,
{
}

} // verus!
