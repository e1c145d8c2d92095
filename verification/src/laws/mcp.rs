//! How calls of the tools for MCP resources go.

use vstd::prelude::*;

use crate::json::{parsed, Json};
use crate::laws::ranked_keeps_items;
use crate::laws::timeline::tells;
use crate::mcp_resource::{
    all_labelled, are_tool_arguments, by_server, is_begun_list, is_begun_read, is_call_step,
    is_completed_item, is_ended_item, is_function_output, is_list_request, is_read_payload,
    is_resources_payload, is_started_item, is_templates_payload, is_text_result, labelled,
    normalized, server_order_is_a_ranking, CallAction, CallEvent, CallState, CallToolResult,
    FunctionCallError, FunctionToolOutput, ListCall, ListReply, ListRequest,
    ListResourceTemplatesPayload, ListResourcesArgs, ListResourcesPayload, McpInvocation,
    McpMethod, McpToolCallItem, ReadCall, ReadResourceArgs, ReadResourcePayload, ToolPayload,
};
use crate::order::{ranked, text_less};
use crate::text::{is_blank, opt_view, trim};

verus! {

// ---------------------------------------------------------------------------
// Arguments
// ---------------------------------------------------------------------------

/// The call is refused with the message.
pub open spec fn is_refused<T>(out: Result<T, FunctionCallError>, message: Seq<char>) -> bool {
    &&& out is Err
    &&& out->Err_0 is RespondToModel
    &&& out->Err_0->RespondToModel_0@ == message
}

/// A text that is given counts without the white space around it, and not at all where it is blank.
pub proof fn blank_texts_do_not_count(text: Seq<char>)
    ensures
        normalized(None) is None,
        is_blank(text) ==> normalized(Some(text)) is None,
        !is_blank(text) ==> normalized(Some(text)) == Some(trim(text)),
{
}

/// Blank arguments and null are none, other values are taken as they are, and what cannot be read
/// is refused with the reason. Only calls of functions have arguments.
pub proof fn arguments_are_taken_as_they_are(
    out: Result<Option<Json>, FunctionCallError>,
    tool: Seq<char>,
    payload: ToolPayload,
)
    requires
        are_tool_arguments(out, tool, payload),
    ensures
        payload is Other ==> is_refused(out, tool + " handler received unsupported payload"@),
        payload is Function && is_blank(payload->arguments@) ==> out is Ok && out->Ok_0 is None,
        payload is Function && !is_blank(payload->arguments@) ==> {
            let read = parsed(payload->arguments@);
            &&& read is Err ==> is_refused(
                out,
                "failed to parse function arguments: "@ + read->Err_0,
            )
            &&& read is Ok && read->Ok_0 is Null ==> out is Ok && out->Ok_0 is None
            &&& read is Ok && !(read->Ok_0 is Null) ==> out is Ok && out->Ok_0 is Some
                && out->Ok_0->0@ == read->Ok_0
        },
{
}

/// A list call without arguments asks all servers. One with arguments that cannot be read is
/// refused. Any other asks the server that it names, where that is not blank, from the cursor that
/// it gives.
pub proof fn list_calls_begin(
    out: Result<ListCall, FunctionCallError>,
    tool: Seq<char>,
    arguments: Option<Json>,
    read: Result<ListResourcesArgs, String>,
)
    requires
        is_begun_list(out, tool, arguments, read),
    ensures
        arguments is Some && read is Err ==> is_refused(
            out,
            "failed to parse function arguments: "@ + read->Err_0@,
        ),
        arguments is None ==> out is Ok && out->Ok_0.server is None && out->Ok_0.cursor is None,
        arguments is Some && read is Ok ==> out is Ok && is_given(
            out->Ok_0.server,
            read->Ok_0.server,
        ) && is_given(out->Ok_0.cursor, read->Ok_0.cursor),
        out is Ok ==> {
            let call = out->Ok_0;
            &&& call.invocation.tool@ == tool
            &&& call.invocation.arguments == arguments
            &&& call.server is Some ==> call.invocation.server@ == call.server->0@
            &&& call.server is None ==> call.invocation.server@ == "codex"@
        },
{
}

/// The text is the one that was given, without the white space around it, or none where that is
/// blank.
pub open spec fn is_given(text: Option<String>, raw: Option<String>) -> bool {
    &&& raw is None || is_blank(raw->0@) ==> text is None
    &&& raw is Some && !is_blank(raw->0@) ==> text is Some && text->0@ == trim(raw->0@)
}

/// One server is asked where one is named, from the cursor, and all of them otherwise; a cursor
/// needs a server.
pub proof fn lists_ask_one_server_or_all(
    out: Result<ListRequest, FunctionCallError>,
    call: ListCall,
)
    requires
        is_list_request(out, call),
    ensures
        call.server is Some ==> out is Ok && out->Ok_0 is One && out->Ok_0->server@
            == call.server->0@ && opt_view(out->Ok_0->cursor) == opt_view(call.cursor),
        call.server is None && call.cursor is None ==> out is Ok && out->Ok_0 is All,
        call.server is None && call.cursor is Some ==> is_refused(
            out,
            "cursor can only be used when a server is specified"@,
        ),
{
}

/// A read call needs arguments that can be read, with a server and a URI that are not blank, and
/// asks that server for that URI.
pub proof fn read_calls_begin(
    out: Result<ReadCall, FunctionCallError>,
    tool: Seq<char>,
    arguments: Option<Json>,
    read: Result<ReadResourceArgs, String>,
)
    requires
        is_begun_read(out, tool, arguments, read),
    ensures
        arguments is None ==> is_refused(
            out,
            "failed to parse function arguments: "@ + "expected value"@,
        ),
        arguments is Some && read is Err ==> is_refused(
            out,
            "failed to parse function arguments: "@ + read->Err_0@,
        ),
        arguments is Some && read is Ok && is_blank(read->Ok_0.server@) ==> is_refused(
            out,
            "server"@ + " must be provided"@,
        ),
        arguments is Some && read is Ok && !is_blank(read->Ok_0.server@) && is_blank(
            read->Ok_0.uri@,
        ) ==> is_refused(out, "uri"@ + " must be provided"@),
        arguments is Some && read is Ok && !is_blank(read->Ok_0.server@) && !is_blank(
            read->Ok_0.uri@,
        ) ==> {
            &&& out is Ok
            &&& out->Ok_0.server@ == trim(read->Ok_0.server@)
            &&& out->Ok_0.uri@ == trim(read->Ok_0.uri@)
            &&& out->Ok_0.invocation.server@ == trim(read->Ok_0.server@)
            &&& out->Ok_0.invocation.tool@ == tool
            &&& out->Ok_0.invocation.arguments == arguments
        },
{
}

// ---------------------------------------------------------------------------
// Replies
// ---------------------------------------------------------------------------

/// The list of one server: each of its items under the server's name, in order.
pub open spec fn is_list_of<R>(listed: Seq<(Seq<char>, R)>, server: Seq<char>, items: Seq<R>) -> bool {
    &&& listed.len() == items.len()
    &&& forall|i: int|
        0 <= i < items.len() ==> (#[trigger] listed[i]).0 == server && listed[i].1 == items[i]
}

/// The list of some servers begins with that of all but the last and ends with that of the last.
pub proof fn lists_follow_one_another<R>(entries: Seq<(String, Vec<R>)>, server: String, items: Vec<R>)
    ensures
        all_labelled(Seq::<(String, Vec<R>)>::empty()).len() == 0,
        ({
            let before = all_labelled(entries);
            let all = all_labelled(entries.push((server, items)));
            &&& all.len() == before.len() + items@.len()
            &&& all.take(before.len() as int) == before
            &&& is_list_of(all.skip(before.len() as int), server@, items@)
        }),
{
    assert(entries.push((server, items)).drop_last() =~= entries);
    let before = all_labelled(entries);
    let all = all_labelled(entries.push((server, items)));
    assert(all.take(before.len() as int) =~= before);
    assert(all.skip(before.len() as int) =~= labelled(server@, items@));
}

/// All servers are listed in the order of their names.
pub open spec fn is_list_of_all<R>(
    listed: Seq<(Seq<char>, R)>,
    entries: Seq<(String, Vec<R>)>,
) -> bool {
    exists|sorted: Seq<(String, Vec<R>)>| {
        &&& listed == #[trigger] all_labelled(sorted)
        &&& sorted.to_multiset() == entries.to_multiset()
        &&& forall|i: int, j: int|
            0 <= i < j < sorted.len() ==> !text_less(
                (#[trigger] sorted[j]).0@,
                (#[trigger] sorted[i]).0@,
            )
    }
}

proof fn all_servers_are_listed<R>(entries: Seq<(String, Vec<R>)>)
    ensures
        is_list_of_all(all_labelled(ranked(entries, by_server())), entries),
{
    server_order_is_a_ranking::<R>();
    let less = by_server::<R>();
    ranked_keeps_items(entries, less);
    let sorted = ranked(entries, less);
    assert forall|i: int, j: int| 0 <= i < j < sorted.len() implies !text_less(
        (#[trigger] sorted[j]).0@,
        (#[trigger] sorted[i]).0@,
    ) by {
        assert(!less(sorted[j], sorted[i]));
    }
}

/// The resources of one server are listed under its name, with the cursor for more. Those of all
/// servers are listed in the order of the servers' names. A server that fails fails the call.
pub proof fn resources_are_listed<R>(
    out: Result<ListResourcesPayload<R>, FunctionCallError>,
    reply: ListReply<R>,
)
    requires
        is_resources_payload(out, reply),
    ensures
        reply is One && reply->page is Ok ==> {
            &&& out is Ok
            &&& out->Ok_0.server is Some && out->Ok_0.server->0@ == reply->One_server@
            &&& is_list_of(out->Ok_0.listed(), reply->One_server@, reply->page->Ok_0.items@)
            &&& out->Ok_0.next_cursor == reply->page->Ok_0.next_cursor
        },
        reply is One && reply->page is Err ==> is_refused(
            out,
            "resources/list"@ + " failed: "@ + reply->page->Err_0@,
        ),
        reply is All ==> {
            &&& out is Ok
            &&& out->Ok_0.server is None
            &&& is_list_of_all(out->Ok_0.listed(), reply->entries@)
            &&& out->Ok_0.next_cursor is None
        },
{
    if reply is All {
        all_servers_are_listed(reply->entries@);
    }
}

/// The templates of resources are listed like the resources.
pub proof fn templates_are_listed<R>(
    out: Result<ListResourceTemplatesPayload<R>, FunctionCallError>,
    reply: ListReply<R>,
)
    requires
        is_templates_payload(out, reply),
    ensures
        reply is One && reply->page is Ok ==> {
            &&& out is Ok
            &&& out->Ok_0.server is Some && out->Ok_0.server->0@ == reply->One_server@
            &&& is_list_of(out->Ok_0.listed(), reply->One_server@, reply->page->Ok_0.items@)
            &&& out->Ok_0.next_cursor == reply->page->Ok_0.next_cursor
        },
        reply is One && reply->page is Err ==> is_refused(
            out,
            "resources/templates/list"@ + " failed: "@ + reply->page->Err_0@,
        ),
        reply is All ==> {
            &&& out is Ok
            &&& out->Ok_0.server is None
            &&& is_list_of_all(out->Ok_0.listed(), reply->entries@)
            &&& out->Ok_0.next_cursor is None
        },
{
    if reply is All {
        all_servers_are_listed(reply->entries@);
    }
}

/// A resource that was read is handed on with its server and its URI.
pub proof fn resources_are_read<R>(
    out: Result<ReadResourcePayload<R>, FunctionCallError>,
    call: ReadCall,
    reply: Result<R, String>,
)
    requires
        is_read_payload(out, call, reply),
    ensures
        reply is Ok ==> out is Ok && out->Ok_0.server@ == call.server@ && out->Ok_0.uri@
            == call.uri@ && out->Ok_0.result == reply->Ok_0,
        reply is Err ==> is_refused(out, "resources/read"@ + " failed: "@ + reply->Err_0@),
{
}

/// Content that could be written down is a success, and anything else is refused.
pub proof fn outputs_are_handed_on(
    out: Result<FunctionToolOutput, FunctionCallError>,
    content: Result<String, String>,
)
    requires
        is_function_output(out, content),
    ensures
        content is Ok ==> out is Ok && out->Ok_0.text@ == content->Ok_0@ && out->Ok_0.success
            == Some(true),
        content is Err ==> is_refused(
            out,
            "failed to serialize MCP resource response: "@ + content->Err_0@,
        ),
{
}

/// The methods of MCP servers have their names.
pub proof fn methods_have_their_names()
    ensures
        McpMethod::ListResources.text() == "resources/list"@,
        McpMethod::ListResourceTemplates.text() == "resources/templates/list"@,
        McpMethod::ReadResource.text() == "resources/read"@,
{
}

// ---------------------------------------------------------------------------
// Reports
// ---------------------------------------------------------------------------

/// The item is about the invocation.
pub open spec fn is_about(item: McpToolCallItem, id: Seq<char>, invocation: McpInvocation) -> bool {
    &&& item.id@ == id
    &&& item.server@ == invocation.server@
    &&& item.tool@ == invocation.tool@
    &&& invocation.arguments is Some ==> item.arguments@ == invocation.arguments->0@
    &&& invocation.arguments is None ==> item.arguments@ is Null
    &&& item.mcp_app_resource_uri is None
}

/// The result is one text.
pub open spec fn is_one_text(result: CallToolResult, text: Seq<char>) -> bool {
    &&& result.content@.len() == 1
    &&& tells(result.content@[0]@, "type"@, "text"@)
    &&& tells(result.content@[0]@, "text"@, text)
    &&& result.structured_content is None
    &&& result.meta is None
}

proof fn one_text_is_one_text(result: CallToolResult, text: Seq<char>, success: Option<bool>)
    requires
        is_text_result(result, text, success),
    ensures
        is_one_text(result, text),
        success is Some ==> result.is_error == Some(!success->0),
        success is None ==> result.is_error is None,
{
    reveal_strlit("type");
    reveal_strlit("text");
    assert("type"@[1] == 'y' && "text"@[1] == 'e');
}

/// A call that begins is reported as being in progress.
pub proof fn started_calls_are_in_progress(
    item: McpToolCallItem,
    id: Seq<char>,
    invocation: McpInvocation,
)
    requires
        is_started_item(item, id, invocation),
    ensures
        is_about(item, id, invocation),
        item.status is InProgress,
        item.result is None,
        item.error is None,
        item.duration is None,
{
}

/// A call that came to an output is reported with it as completed, or as failed where the output
/// says so; one that came to an error is reported as failed, with the error. Both show how long
/// the call took.
pub proof fn finished_calls_show_how_they_ended(
    item: McpToolCallItem,
    id: Seq<char>,
    invocation: McpInvocation,
    duration: u128,
    output: Result<FunctionToolOutput, FunctionCallError>,
)
    requires
        is_completed_item(item, id, invocation, duration, output),
    ensures
        is_about(item, id, invocation),
        item.duration == Some(duration),
        output is Ok ==> item.result is Some && item.error is None,
        output is Ok && !is_blank(output->Ok_0.text@) ==> is_one_text(
            item.result->0,
            output->Ok_0.text@,
        ),
        output is Ok && is_blank(output->Ok_0.text@) ==> is_one_text(item.result->0, ""@),
        output is Ok && output->Ok_0.success == Some(false) ==> item.status is Failed,
        output is Ok && output->Ok_0.success != Some(false) ==> item.status is Completed,
        output is Err ==> item.status is Failed && item.result is None && item.error is Some
            && output->Err_0 is RespondToModel && item.error->0.message@
            == output->Err_0->RespondToModel_0@,
{
    if output is Ok {
        one_text_is_one_text(
            item.result->0,
            if is_blank(output->Ok_0.text@) {
                ""@
            } else {
                output->Ok_0.text@
            },
            output->Ok_0.success,
        );
    }
}

/// A result is reported as completed, or as failed where it says that it is an error; a message is
/// reported as failed.
pub proof fn ended_calls_show_how_they_ended(
    item: McpToolCallItem,
    id: Seq<char>,
    invocation: McpInvocation,
    duration: u128,
    result: Result<CallToolResult, String>,
)
    requires
        is_ended_item(item, id, invocation, duration, result),
    ensures
        is_about(item, id, invocation),
        item.duration == Some(duration),
        result is Ok && result->Ok_0.is_error == Some(true) ==> item.status is Failed,
        result is Ok && result->Ok_0.is_error != Some(true) ==> item.status is Completed,
        result is Ok ==> item.result == Some(result->Ok_0) && item.error is None,
        result is Err ==> item.status is Failed && item.result is None && item.error is Some
            && item.error->0.message@ == result->Err_0@,
{
}

/// A call that waits begins or is refused, one that runs ends, and nothing else happens to a call:
/// what is refused is not reported, and the model gets the output as it is.
pub proof fn calls_go_step_by_step(
    id: Seq<char>,
    state: CallState,
    event: CallEvent,
    next: CallState,
    action: CallAction,
)
    requires
        is_call_step(id, state, event, next, action),
    ensures
        state is Waiting && event is Begun && event->Begun_0 is Err ==> next is Done
            && action is Refuse && action->Refuse_0 == event->Begun_0->Err_0,
        state is Waiting && event is Begun && event->Begun_0 is Ok ==> next is Running
            && next->invocation == event->Begun_0->Ok_0 && action is ReportStarted
            && is_started_item(action->ReportStarted_0, id, event->Begun_0->Ok_0),
        state is Running && event is Ended ==> next is Done && action is ReportCompleted
            && action->output == event->output && is_completed_item(
            action->item,
            id,
            state->invocation,
            event->duration,
            event->output,
        ),
        state is Waiting && event is Ended ==> next is Waiting && action is Nothing,
        state is Running && event is Begun ==> next == state && action is Nothing,
        state is Done ==> next is Done && action is Nothing,
{
}

} // verus!
