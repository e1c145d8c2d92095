//! What the registry of a session's tools holds.

use vstd::prelude::*;

use crate::laws::filter_of_push;
use crate::text::{opt_view, views};
use crate::tool_spec::{
    are_waits, deferred_dynamic, deferred_source, deferred_steps, dynamic_view, is_deferred,
    is_offered, namespaces_of, registry_steps, tools_view, unavailable_steps,
    user_shell, DynamicToolSpec, DynamicToolView, HandlerView, PlannedHandler, PlannedSpec,
    ShellType, StepView, ToolInfo, ToolNameView, ToolRegistryPlan, ToolsConfig,
    WaitAgentTimeoutOptions,
};

verus! {

// ---------------------------------------------------------------------------
// Tools and handlers of the plan
// ---------------------------------------------------------------------------

/// The handler is the one that the plan asks for. A tool that the user's program brings along and
/// a tool of an MCP server are handled under their planned names, each by a handler of its own
/// kind; what the handlers for questions, commands and searches need comes from the session; all
/// others are the same for every session.
pub open spec fn is_planned_handler(
    handler: HandlerView,
    planned: PlannedHandler,
    config: ToolsConfig,
    deferred_mcp_tools: Option<Vec<ToolInfo>>,
    dynamic_tools: Seq<DynamicToolSpec>,
) -> bool {
    &&& planned.kind is DynamicTool <==> handler is Dynamic
    &&& handler is Dynamic ==> handler->Dynamic_name == planned.name@
    &&& planned.kind is Mcp <==> handler is Mcp
    &&& handler is Mcp ==> handler->Mcp_name == planned.name@
    &&& planned.kind is RequestUserInput <==> handler is RequestUserInput
    &&& handler is RequestUserInput ==> handler->available_modes == views(
        config.request_user_input_available_modes@,
    )
    &&& planned.kind is ShellCommand <==> handler is ShellCommand
    &&& handler is ShellCommand ==> handler->backend == config.shell_command_backend
    &&& planned.kind is ToolSearch <==> handler is ToolSearch
    &&& handler is ToolSearch ==> handler->deferred_mcp == tools_view(deferred_mcp_tools)
        && is_searched(handler->deferred_dynamic, dynamic_tools, config.namespace_tools)
    &&& handler is Fixed ==> handler->Fixed_0 == planned.kind
    &&& !(handler is Unavailable)
}

/// The tool waits until it is searched for.
pub open spec fn waits_for_search(namespace_tools: bool) -> spec_fn(DynamicToolSpec) -> bool {
    |tool: DynamicToolSpec| tool.defer_loading && (tool.namespace is None || namespace_tools)
}

/// The searched tools are those that wait, in order, with all that they say of themselves.
pub open spec fn is_searched(
    searched: Seq<DynamicToolView>,
    tools: Seq<DynamicToolSpec>,
    namespace_tools: bool,
) -> bool {
    let waiting = tools.filter(waits_for_search(namespace_tools));
    &&& searched.len() == waiting.len()
    &&& forall|i: int|
        0 <= i < waiting.len() ==> {
            &&& (#[trigger] searched[i]).name == waiting[i].name@
            &&& searched[i].namespace == opt_view(waiting[i].namespace)
            &&& searched[i].defer_loading == waiting[i].defer_loading
        }
}

/// The tools that are loaded only when they are searched for are those that ask for it and have no
/// namespace, or any where namespaces are in use.
pub proof fn deferred_tools_wait(tools: Seq<DynamicToolSpec>, namespace_tools: bool)
    ensures
        is_searched(deferred_dynamic(dynamic_view(tools), namespace_tools), tools, namespace_tools),
    decreases tools.len(),
{
    reveal(Seq::filter);
    let all = dynamic_view(tools);
    if tools.len() > 0 {
        let before = tools.drop_last();
        deferred_tools_wait(before, namespace_tools);
        assert(all =~= dynamic_view(before).push(tools.last()@));
        assert(tools =~= before.push(tools.last()));
        filter_of_push(dynamic_view(before), tools.last()@, is_deferred(namespace_tools));
        filter_of_push(before, tools.last(), waits_for_search(namespace_tools));
        let head = deferred_dynamic(dynamic_view(before), namespace_tools);
        let out = deferred_dynamic(all, namespace_tools);
        let waiting_before = before.filter(waits_for_search(namespace_tools));
        let waiting = tools.filter(waits_for_search(namespace_tools));
        assert forall|i: int| 0 <= i < waiting.len() implies {
            &&& (#[trigger] out[i]).name == waiting[i].name@
            &&& out[i].namespace == opt_view(waiting[i].namespace)
            &&& out[i].defer_loading == waiting[i].defer_loading
        } by {
            if i < waiting_before.len() {
                assert(out[i] == head[i]);
                assert(waiting[i] == waiting_before[i]);
            }
        }
    } else {
        assert(all =~= seq![]);
    }
}

/// Every tool of the plan is offered under its name, in order and with its own say on parallel
/// calls; behind them every handler of the plan is registered, in order.
pub proof fn the_plan_is_registered(
    config: ToolsConfig,
    plan: ToolRegistryPlan,
    mcp_tools: Option<Vec<ToolInfo>>,
    deferred_mcp_tools: Option<Vec<ToolInfo>>,
    called: Seq<ToolNameView>,
    dynamic_tools: Seq<DynamicToolSpec>,
)
    ensures
        ({
            let steps = registry_steps(
                config,
                plan,
                mcp_tools,
                deferred_mcp_tools,
                called,
                dynamic_tools,
            );
            let offered = plan.specs@.len() as int;
            &&& steps.len() >= offered + plan.handlers@.len()
            &&& forall|i: int|
                0 <= i < offered ==> offers_planned(steps[i], #[trigger] plan.specs@[i])
            &&& forall|i: int|
                0 <= i < plan.handlers@.len() ==> steps[offered + i] is Register
                    && is_planned_handler(
                    steps[offered + i]->Register_0,
                    #[trigger] plan.handlers@[i],
                    config,
                    deferred_mcp_tools,
                    dynamic_tools,
                )
        }),
{
    let steps = registry_steps(
        config,
        plan,
        mcp_tools,
        deferred_mcp_tools,
        called,
        dynamic_tools,
    );
    let offered = plan.specs@.len() as int;
    assert forall|i: int| 0 <= i < offered implies offers_planned(
        steps[i],
        #[trigger] plan.specs@[i],
    ) by {}
    deferred_tools_wait(dynamic_tools, config.namespace_tools);
    assert forall|i: int| 0 <= i < plan.handlers@.len() implies steps[offered + i] is Register
        && is_planned_handler(
        steps[offered + i]->Register_0,
        #[trigger] plan.handlers@[i],
        config,
        deferred_mcp_tools,
        dynamic_tools,
    ) by {
        assert(steps[offered + i] == StepView::Register(
            crate::tool_spec::handler_for(
                plan.handlers@[i],
                config,
                tools_view(deferred_mcp_tools),
                deferred_dynamic(dynamic_view(dynamic_tools), config.namespace_tools),
            ),
        ));
    }
}

/// The step offers the tool of the plan.
pub open spec fn offers_planned(step: StepView, spec: PlannedSpec) -> bool {
    &&& step is PushSpec
    &&& step->PushSpec_name == spec.name@
    &&& step->parallel == spec.supports_parallel_tool_calls
}

// ---------------------------------------------------------------------------
// Deferred tools
// ---------------------------------------------------------------------------

/// The tool is not among the loaded ones.
pub open spec fn is_not_loaded(loaded: Option<Vec<ToolInfo>>) -> spec_fn(ToolInfo) -> bool {
    |tool: ToolInfo|
        loaded is None || forall|i: int|
            0 <= i < loaded->0@.len() ==> (#[trigger] loaded->0@[i]).key@ != tool.key@
}

proof fn deferred_steps_are_handlers(deferred: Seq<ToolInfo>, loaded: Option<Vec<ToolInfo>>)
    ensures
        deferred_steps(deferred, loaded) == deferred.filter(is_not_loaded(loaded)).map_values(
            |tool: ToolInfo|
                StepView::Register(HandlerView::Mcp { name: tool.canonical_name@ }),
        ),
    decreases deferred.len(),
{
    reveal(Seq::filter);
    let f = |tool: ToolInfo| StepView::Register(HandlerView::Mcp { name: tool.canonical_name@ });
    if deferred.len() > 0 {
        let before = deferred.drop_last();
        deferred_steps_are_handlers(before, loaded);
        assert(deferred =~= before.push(deferred.last()));
        filter_of_push(before, deferred.last(), is_not_loaded(loaded));
        assert(crate::tool_spec::has_tool(loaded, deferred.last().key@) <==> !is_not_loaded(
            loaded,
        )(deferred.last()));
    }
    assert(deferred_steps(deferred, loaded) =~= deferred.filter(is_not_loaded(loaded)).map_values(
        f,
    ));
}

/// Behind the handlers of the plan every tool of an MCP server that is deferred and not loaded gets
/// the handler of such tools under its name, in order, and no other tool does.
pub proof fn deferred_tools_are_handled(
    config: ToolsConfig,
    plan: ToolRegistryPlan,
    mcp_tools: Option<Vec<ToolInfo>>,
    deferred: Vec<ToolInfo>,
    called: Seq<ToolNameView>,
    dynamic_tools: Seq<DynamicToolSpec>,
)
    ensures
        ({
            let steps = registry_steps(
                config,
                plan,
                mcp_tools,
                Some(deferred),
                called,
                dynamic_tools,
            );
            let start = (plan.specs@.len() + plan.handlers@.len()) as int;
            let fresh = deferred@.filter(is_not_loaded(mcp_tools));
            &&& steps.len() >= start + fresh.len()
            &&& forall|i: int|
                0 <= i < fresh.len() ==> steps[start + i] == StepView::Register(
                    HandlerView::Mcp { name: (#[trigger] fresh[i]).canonical_name@ },
                )
            &&& steps.skip(start + fresh.len()) == unavailable_steps(
                plan.specs@,
                called,
                config.code_mode_enabled,
                called.len() as int,
            )
        }),
{
    deferred_steps_are_handlers(deferred@, mcp_tools);
    let steps = registry_steps(config, plan, mcp_tools, Some(deferred), called, dynamic_tools);
    let start = (plan.specs@.len() + plan.handlers@.len()) as int;
    let fresh = deferred@.filter(is_not_loaded(mcp_tools));
    let middle = deferred_steps(deferred@, mcp_tools);
    let tail = unavailable_steps(
        plan.specs@,
        called,
        config.code_mode_enabled,
        called.len() as int,
    );
    assert(steps.len() == start + fresh.len() + tail.len());
    assert forall|i: int| 0 <= i < fresh.len() implies steps[start + i] == StepView::Register(
        HandlerView::Mcp { name: (#[trigger] fresh[i]).canonical_name@ },
    ) by {
        assert(steps[start + i] == middle[i]);
    }
    assert(steps.skip(start + fresh.len()) =~= tail);
}

/// Without deferred tools nothing stands between the handlers of the plan and the tools that are
/// not available.
pub proof fn nothing_is_deferred(
    config: ToolsConfig,
    plan: ToolRegistryPlan,
    mcp_tools: Option<Vec<ToolInfo>>,
    called: Seq<ToolNameView>,
    dynamic_tools: Seq<DynamicToolSpec>,
)
    ensures
        registry_steps(config, plan, mcp_tools, None, called, dynamic_tools).skip(
            (plan.specs@.len() + plan.handlers@.len()) as int,
        ) == unavailable_steps(
            plan.specs@,
            called,
            config.code_mode_enabled,
            called.len() as int,
        ),
{
    let start = (plan.specs@.len() + plan.handlers@.len()) as int;
    assert(registry_steps(config, plan, mcp_tools, None, called, dynamic_tools).skip(start)
        =~= unavailable_steps(
        plan.specs@,
        called,
        config.code_mode_enabled,
        called.len() as int,
    ));
}

// ---------------------------------------------------------------------------
// Tools that are not available
// ---------------------------------------------------------------------------

/// The name is new: no tool of the plan and no tool that was called before is written like it.
pub open spec fn is_new_name(specs: Seq<PlannedSpec>, called: Seq<ToolNameView>, k: int) -> bool {
    &&& forall|i: int| 0 <= i < specs.len() ==> (#[trigger] specs[i]).name@ != called[k].display
    &&& forall|i: int| 0 <= i < k ==> (#[trigger] called[i]).display != called[k].display
}

/// How many steps the first `k` tools that are not available take: one handler each, and a
/// placeholder for each new name.
pub open spec fn steps_before(specs: Seq<PlannedSpec>, called: Seq<ToolNameView>, k: int) -> int
    decreases k,
{
    if k <= 0 {
        0
    } else {
        steps_before(specs, called, k - 1) + if is_new_name(specs, called, k - 1) {
            2int
        } else {
            1int
        }
    }
}

/// The step offers a function tool that does nothing under the name: it has no parameters and
/// allows none, is not strict, promises no output, and its description names the tool.
pub open spec fn offers_placeholder(step: StepView, name: Seq<char>, code_mode: bool) -> bool {
    &&& step is PushPlaceholder
    &&& step->code_mode == code_mode
    &&& step->tool.name == name
    &&& step->tool.about == name
    &&& step->tool.hint
        == "Calling this placeholder returns an error explaining that the tool is unavailable."@
    &&& !step->tool.strict
    &&& step->tool.properties.len() == 0
    &&& step->tool.required is None
    &&& step->tool.additional_properties == Some(false)
    &&& step->tool.output_schema is None
    &&& step->tool.defer_loading is None
}

proof fn unavailable_count(
    specs: Seq<PlannedSpec>,
    called: Seq<ToolNameView>,
    code_mode: bool,
    n: int,
)
    requires
        0 <= n <= called.len(),
    ensures
        unavailable_steps(specs, called, code_mode, n).len() == steps_before(specs, called, n),
    decreases n,
{
    if n > 0 {
        unavailable_count(specs, called, code_mode, n - 1);
        new_names_are_not_offered(specs, called, n - 1);
    }
}

proof fn new_names_are_not_offered(specs: Seq<PlannedSpec>, called: Seq<ToolNameView>, k: int)
    ensures
        is_offered(specs, called, k, called[k].display) <==> !is_new_name(specs, called, k),
{
}

/// Each tool that was called and is not available gets a handler that says so, in order; right
/// before it stands a placeholder exactly where the name is new.
pub proof fn unavailable_tools_stand_in_order(
    specs: Seq<PlannedSpec>,
    called: Seq<ToolNameView>,
    code_mode: bool,
    n: int,
    k: int,
)
    requires
        0 <= k < n <= called.len(),
    ensures
        unavailable_steps(specs, called, code_mode, n).len() == steps_before(specs, called, n),
        0 <= steps_before(specs, called, k) < steps_before(specs, called, k + 1) <= steps_before(
            specs,
            called,
            n,
        ),
        unavailable_steps(specs, called, code_mode, n)[steps_before(specs, called, k + 1) - 1]
            == StepView::Register(HandlerView::Unavailable { name: called[k] }),
        is_new_name(specs, called, k) ==> offers_placeholder(
            unavailable_steps(specs, called, code_mode, n)[steps_before(specs, called, k)],
            called[k].display,
            code_mode,
        ),
    decreases n,
{
    unavailable_count(specs, called, code_mode, n);
    unavailable_count(specs, called, code_mode, n - 1);
    new_names_are_not_offered(specs, called, n - 1);
    let before = unavailable_steps(specs, called, code_mode, n - 1);
    let out = unavailable_steps(specs, called, code_mode, n);
    if k < n - 1 {
        unavailable_tools_stand_in_order(specs, called, code_mode, n - 1, k);
        let at = steps_before(specs, called, k + 1) - 1;
        assert(out[at] == before[at]);
        assert(out[steps_before(specs, called, k)] == before[steps_before(specs, called, k)]);
    } else {
        reveal_strlit("");
    }
}

// ---------------------------------------------------------------------------
// What the plan is told
// ---------------------------------------------------------------------------

/// A shell is known to tools under its own name.
pub proof fn shells_keep_their_names(shell: ShellType)
    ensures
        shell is Zsh <==> user_shell(shell) is Zsh,
        shell is Bash <==> user_shell(shell) is Bash,
        shell is PowerShell <==> user_shell(shell) is PowerShell,
        shell is Sh <==> user_shell(shell) is Sh,
        shell is Cmd <==> user_shell(shell) is Cmd,
{
}

/// The least wait is the general one unless agents of the second kind may set it; then it is the
/// one that is asked for, or the nearest that is at least a millisecond and at most the longest
/// wait. The usual wait is moved no further than between those two.
pub proof fn waits_are_bounded(
    out: WaitAgentTimeoutOptions,
    multi_agent_v2: bool,
    configured: Option<i64>,
    bounds: WaitAgentTimeoutOptions,
)
    requires
        1 <= bounds.max_timeout_ms,
        bounds.min_timeout_ms <= bounds.max_timeout_ms,
        are_waits(out, multi_agent_v2, configured, bounds),
    ensures
        !multi_agent_v2 ==> out.min_timeout_ms == bounds.min_timeout_ms,
        multi_agent_v2 && configured is None && 1 <= bounds.min_timeout_ms ==> out.min_timeout_ms
            == bounds.min_timeout_ms,
        multi_agent_v2 && configured is Some && 1 <= configured->0 <= bounds.max_timeout_ms
            ==> out.min_timeout_ms == configured->0,
        multi_agent_v2 && configured is Some && configured->0 < 1 ==> out.min_timeout_ms == 1,
        multi_agent_v2 && configured is Some && configured->0 > bounds.max_timeout_ms
            ==> out.min_timeout_ms == bounds.max_timeout_ms,
        out.max_timeout_ms == bounds.max_timeout_ms,
        out.min_timeout_ms <= out.default_timeout_ms <= out.max_timeout_ms,
        out.min_timeout_ms <= bounds.default_timeout_ms <= bounds.max_timeout_ms
            ==> out.default_timeout_ms == bounds.default_timeout_ms,
        bounds.default_timeout_ms < out.min_timeout_ms ==> out.default_timeout_ms
            == out.min_timeout_ms,
        bounds.default_timeout_ms > bounds.max_timeout_ms ==> out.default_timeout_ms
            == bounds.max_timeout_ms,
{
}

/// The namespaces are exactly those of the tools, and each is described by the last tool in it.
pub proof fn namespaces_are_those_of_the_tools(tools: Seq<ToolInfo>)
    ensures
        forall|name: Seq<char>| #[trigger]
            namespaces_of(tools).contains_key(name) <==> exists|i: int|
                0 <= i < tools.len() && (#[trigger] tools[i]).callable_namespace@ == name,
        forall|i: int|
            0 <= i < tools.len() && (forall|j: int|
                i < j < tools.len() ==> (#[trigger] tools[j]).callable_namespace@
                    != tools[i].callable_namespace@) ==> {
                let found = namespaces_of(tools)[(#[trigger] tools[i]).callable_namespace@];
                &&& found.name == tools[i].callable_namespace@
                &&& found.description == opt_view(tools[i].namespace_description)
            },
    decreases tools.len(),
{
    if tools.len() > 0 {
        let before = tools.drop_last();
        let n = tools.len() - 1;
        namespaces_are_those_of_the_tools(before);
        assert forall|name: Seq<char>| #[trigger]
            namespaces_of(tools).contains_key(name) <==> exists|i: int|
                0 <= i < tools.len() && (#[trigger] tools[i]).callable_namespace@ == name by {
            if namespaces_of(before).contains_key(name) {
                let i = choose|i: int|
                    0 <= i < before.len() && (#[trigger] before[i]).callable_namespace@ == name;
                assert(tools[i].callable_namespace@ == name);
            }
            if tools[n].callable_namespace@ == name {
                assert(namespaces_of(tools).contains_key(name));
            }
            if exists|i: int|
                0 <= i < tools.len() && (#[trigger] tools[i]).callable_namespace@ == name {
                let i = choose|i: int|
                    0 <= i < tools.len() && (#[trigger] tools[i]).callable_namespace@ == name;
                if i < n {
                    assert(before[i].callable_namespace@ == name);
                }
            }
        }
        assert forall|i: int|
            0 <= i < tools.len() && (forall|j: int|
                i < j < tools.len() ==> (#[trigger] tools[j]).callable_namespace@
                    != tools[i].callable_namespace@) implies {
            let found = namespaces_of(tools)[(#[trigger] tools[i]).callable_namespace@];
            &&& found.name == tools[i].callable_namespace@
            &&& found.description == opt_view(tools[i].namespace_description)
        } by {
            if i < n {
                assert(tools[n].callable_namespace@ != tools[i].callable_namespace@);
                assert(before[i] == tools[i]);
                assert forall|j: int| i < j < before.len() implies (
                #[trigger] before[j]).callable_namespace@ != before[i].callable_namespace@ by {
                    assert(tools[j] == before[j]);
                }
            }
        }
    }
}

/// The plan is told of a deferred tool its name, its server, its connector, and what its namespace
/// is about.
pub proof fn deferred_tools_are_described(tool: ToolInfo)
    ensures
        deferred_source(tool).name == tool.canonical_name@,
        deferred_source(tool).server_name == tool.server_name@,
        deferred_source(tool).connector_name == opt_view(tool.connector_name),
        deferred_source(tool).description == opt_view(tool.namespace_description),
{
}

} // verus!
