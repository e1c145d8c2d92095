//! What the commands of the team command line do.

use vstd::prelude::*;

use crate::cli::{
    by_text, delivery, distinct_names, fallback_text, first_unknown, inbox_line, inbox_text,
    is_member_text, is_message_plan, is_monitor_start, log_dir_name, log_file, log_list,
    member_line, member_list, message_event, monitor_commands, monitor_text, new_server_step,
    padded, registered_step, session_name, task_steps, AppServerStep, AppServerStepView,
    MessageError, MessageErrorView, MessagePlan, MonitorStart, TaskStep,
};
use crate::json::JsonView;
use crate::laws::timeline::{lists, tells};
use crate::laws::{has_none, is_first, none_of_rest, first_of_rest, ranked_keeps_items};
use crate::model::{id_of, MailMessage, TeamMember};
use crate::order::{ranked, text_less, text_order_is_a_ranking};
use crate::shell::quoted;
use crate::split::{concat, split};
use crate::text::{opt_view, trim, views};

verus! {

// ---------------------------------------------------------------------------
// Messages
// ---------------------------------------------------------------------------

/// The name stands between two commas, and is not blank.
pub open spec fn is_named(parts: Seq<Seq<char>>, name: Seq<char>) -> bool {
    name.len() > 0 && exists|i: int| 0 <= i < parts.len() && trim(#[trigger] parts[i]) == name
}

/// The names are exactly those that stand between the commas, each once.
pub proof fn names_are_those_between_commas(parts: Seq<Seq<char>>)
    ensures
        distinct_names(parts).no_duplicates(),
        forall|name: Seq<char>| #[trigger]
            distinct_names(parts).contains(name) <==> is_named(parts, name),
    decreases parts.len(),
{
    if parts.len() > 0 {
        let before = parts.drop_last();
        let n = parts.len() - 1;
        names_are_those_between_commas(before);
        let head = distinct_names(before);
        let out = distinct_names(parts);
        assert forall|name: Seq<char>| #[trigger] out.contains(name) <==> is_named(
            parts,
            name,
        ) by {
            if head.contains(name) {
                assert(is_named(before, name));
                let i = choose|i: int| 0 <= i < before.len() && trim(#[trigger] before[i]) == name;
                assert(trim(parts[i]) == name);
                let j = choose|j: int| 0 <= j < head.len() && head[j] == name;
                assert(out[j] == name);
            }
            if out.contains(name) && !head.contains(name) {
                let j = choose|j: int| 0 <= j < out.len() && out[j] == name;
                if j < head.len() {
                    assert(head[j] == name);
                }
                assert(trim(parts[n]) == name);
            }
            if is_named(parts, name) && !head.contains(name) {
                let i = choose|i: int| 0 <= i < parts.len() && trim(#[trigger] parts[i]) == name;
                if i < n {
                    assert(trim(before[i]) == name);
                    assert(is_named(before, name));
                }
                assert(out[out.len() - 1] == name);
            }
        }
    }
}

/// No message can be addressed to the name.
pub open spec fn cannot_be_addressed(members: Seq<Seq<char>>) -> spec_fn(Seq<char>) -> bool {
    |name: Seq<char>| name != "user"@ && !members.contains(name)
}

proof fn unknown_names_are_found(members: Seq<Seq<char>>, names: Seq<Seq<char>>, i: int)
    ensures
        has_none(names, cannot_be_addressed(members)) ==> first_unknown(members, names) is None,
        is_first(names, cannot_be_addressed(members), i) ==> first_unknown(members, names) == Some(
            names[i],
        ),
    decreases names.len(),
{
    if names.len() > 0 {
        none_of_rest(names, cannot_be_addressed(members));
        if !cannot_be_addressed(members)(names[0]) {
            first_of_rest(names, cannot_be_addressed(members), i);
            unknown_names_are_found(members, names.drop_first(), i - 1);
        } else if i > 0 {
            assert(cannot_be_addressed(members)(names[0]));
        }
    }
}

/// A member, the user and the system can send messages, and nobody else can. A message goes to those
/// who are named; `all` alone stands for every member but the sender; and it goes nowhere where
/// nobody is named, where `all` is not alone, or where a name is neither a member's nor the
/// user's.
pub proof fn messages_go_where_they_are_sent(
    members: Seq<Seq<char>>,
    sender: Seq<char>,
    to: Seq<char>,
    i: int,
)
    ensures
        ({
            let names = distinct_names(split(to, ','));
            let may_send = sender == "system"@ || sender == "user"@ || members.contains(sender);
            let sent = delivery(members, sender, to);
            &&& !may_send ==> sent == Err::<Seq<Seq<char>>, MessageErrorView>(
                MessageErrorView::UnknownMember(sender),
            )
            &&& may_send && names.len() == 0 ==> sent == Err::<Seq<Seq<char>>, MessageErrorView>(
                MessageErrorView::NoRecipient,
            )
            &&& may_send && names.len() == 1 && names[0] == "all"@ ==> sent is Ok
                && is_everyone_but(sent->Ok_0, members, sender)
            &&& may_send && names.len() > 1 && names.contains("all"@) ==> sent == Err::<
                Seq<Seq<char>>,
                MessageErrorView,
            >(MessageErrorView::MixedAll)
            &&& may_send && names.len() > 0 && !names.contains("all"@) && has_none(
                names,
                cannot_be_addressed(members),
            ) ==> sent == Ok::<Seq<Seq<char>>, MessageErrorView>(names)
            &&& may_send && !names.contains("all"@) && is_first(
                names,
                cannot_be_addressed(members),
                i,
            ) ==> sent == Err::<Seq<Seq<char>>, MessageErrorView>(
                MessageErrorView::UnknownMember(names[i]),
            )
        }),
{
    let names = distinct_names(split(to, ','));
    unknown_names_are_found(members, names, i);
    if names.len() == 1 && names[0] == "all"@ {
        assert(names.contains("all"@));
        everyone_else(members, sender);
    }
}

/// The names are those of the members but one, in order.
pub open spec fn is_everyone_but(
    names: Seq<Seq<char>>,
    members: Seq<Seq<char>>,
    sender: Seq<char>,
) -> bool {
    names == members.filter(|name: Seq<char>| name != sender)
}

proof fn everyone_else(members: Seq<Seq<char>>, sender: Seq<char>)
    ensures
        is_everyone_but(members.filter(crate::cli::all_but(sender)), members, sender),
    decreases members.len(),
{
    reveal(Seq::filter);
    if members.len() > 0 {
        everyone_else(members.drop_last(), sender);
    }
}

/// What is wrong with a message is told.
pub proof fn message_errors_are_told(name: Seq<char>)
    ensures
        MessageErrorView::UnknownMember(name).text() == "team member `"@ + name
            + "` does not exist"@,
        MessageErrorView::MixedAll.text()
            == "recipient `all` cannot be combined with other recipients"@,
        MessageErrorView::NoRecipient.text() == "no recipient is given"@,
{
}

/// The event log holds the sender, the recipients and the text of a message.
pub proof fn messages_are_recorded(
    sender: Seq<char>,
    recipients: Seq<Seq<char>>,
    text: Seq<char>,
)
    ensures
        tells(message_event(sender, recipients, text), "from"@, sender),
        lists(message_event(sender, recipients, text), "to"@, recipients),
        tells(message_event(sender, recipients, text), "message"@, text),
{
    reveal_strlit("from");
    reveal_strlit("to");
    reveal_strlit("message");
    assert("from"@.len() == 4 && "to"@.len() == 2 && "message"@.len() == 7);
}

// ---------------------------------------------------------------------------
// Lists
// ---------------------------------------------------------------------------

/// A text is filled up with spaces at its end, and stays whole where it is longer.
pub proof fn padding_fills_up(text: Seq<char>, width: nat)
    ensures
        text.len() >= width ==> padded(text, width) == text,
        text.len() < width ==> padded(text, width).len() == width && padded(text, width).take(
            text.len() as int,
        ) == text && forall|i: int|
            text.len() <= i < width ==> #[trigger] padded(text, width)[i] == ' ',
{
    if text.len() < width {
        assert(padded(text, width).take(text.len() as int) =~= text);
    }
}

/// The list of members has a line for each, with its name, role, node and status in columns.
pub proof fn members_are_listed(members: Seq<TeamMember>)
    ensures
        member_list(members) == concat(
            Seq::new(members.len(), |i: int| member_line(members[i])),
        ),
        forall|i: int|
            0 <= i < members.len() ==> #[trigger] member_line(members[i]) == padded(
                members[i].name@,
                20,
            ) + " "@ + padded(members[i].role@, 16) + " "@ + padded(
                if members[i].node is Some {
                    members[i].node->0@
                } else {
                    "local"@
                },
                16,
            ) + " "@ + members[i].status.text() + "\n"@,
{
    assert(members.map_values(|member: TeamMember| member_line(member)) =~= Seq::new(
        members.len(),
        |i: int| member_line(members[i]),
    ));
}

/// The inbox shows every message in order, with its time, its sender, its recipient and its text,
/// and says so where it is empty.
pub proof fn inboxes_show_every_message(member: Seq<char>, messages: Seq<MailMessage>)
    ensures
        messages.len() == 0 ==> inbox_text(member, messages) == "Inbox for `"@ + member
            + "` is empty.\n"@,
        messages.len() > 0 ==> inbox_text(member, messages) == concat(
            Seq::new(messages.len(), |i: int| inbox_line(messages[i])),
        ),
        forall|i: int|
            0 <= i < messages.len() ==> #[trigger] inbox_line(messages[i]) == "["@
                + messages[i].timestamp@ + "] "@ + messages[i].from@ + " -> "@ + messages[i].to@
                + ": "@ + messages[i].message@ + "\n"@,
{
    assert(messages.map_values(|message: MailMessage| inbox_line(message)) =~= Seq::new(
        messages.len(),
        |i: int| inbox_line(messages[i]),
    ));
}

/// The log of a member is what it writes now, or what it wrote last, or its log file.
pub proof fn logs_are_where_they_belong(member: Seq<char>)
    ensures
        forall|last: bool| #[trigger]
            log_file(member, true, last) == "live_messages"@ + "/"@ + id_of(member) + ".md"@,
        log_file(member, false, true) == "last_messages"@ + "/"@ + id_of(member) + ".md"@,
        log_file(member, false, false) == "logs"@ + "/"@ + id_of(member) + ".log"@,
        forall|last: bool| #[trigger] log_dir_name(true, last) == "live_messages"@,
        log_dir_name(false, true) == "last_messages"@,
        log_dir_name(false, false) == "logs"@,
{
}

/// The list of logs has a line for each, in the order of their names, and says so where there are
/// none.
pub proof fn logs_are_listed(dir: Seq<char>, names: Seq<String>)
    ensures
        names.len() == 0 ==> log_list(dir, names) == "No logs found.\n"@,
        names.len() > 0 ==> exists|sorted: Seq<String>| {
            &&& log_list(dir, names) == #[trigger] log_lines(dir, sorted)
            &&& sorted.to_multiset() == names.to_multiset()
            &&& forall|i: int, j: int|
                0 <= i < j < sorted.len() ==> !text_less(
                    (#[trigger] sorted[j])@,
                    (#[trigger] sorted[i])@,
                )
        },
{
    text_order_is_a_ranking();
    let less = by_text();
    ranked_keeps_items(names, less);
    let sorted = ranked(names, less);
    if names.len() > 0 {
        assert(log_list(dir, names) == log_lines(dir, sorted)) by {
            assert(views(sorted).map_values(|name: Seq<char>| dir + "/"@ + name + "\n"@)
                =~= Seq::new(sorted.len(), |i: int| dir + "/"@ + sorted[i]@ + "\n"@));
        }
        assert forall|i: int, j: int| 0 <= i < j < sorted.len() implies !text_less(
            (#[trigger] sorted[j])@,
            (#[trigger] sorted[i])@,
        ) by {
            assert(!less(sorted[j], sorted[i]));
        }
    }
}

/// The lines of a list of logs.
pub open spec fn log_lines(dir: Seq<char>, names: Seq<String>) -> Seq<char> {
    concat(Seq::new(names.len(), |i: int| dir + "/"@ + names[i]@ + "\n"@))
}

// ---------------------------------------------------------------------------
// Tasks and servers
// ---------------------------------------------------------------------------

/// A new task is recorded as created, the waits are looked at, the configuration is touched, and
/// the user is told, in this order. Of one that was there already only the record and the notice
/// remain, and they say that it was reused.
pub proof fn tasks_are_added_in_order(id: Seq<char>, task: JsonView)
    ensures
        ({
            let steps = task_steps(id, task, false);
            &&& steps.len() == 4
            &&& steps[0] is Record && steps[0]->event == "task_created"@ && holds_task(
                steps[0]->data,
                task,
            )
            &&& steps[1] is PromoteWaits
            &&& steps[2] is TouchConfig
            &&& steps[3] is Notify && steps[3]->notice == "Created task "@ + id
        }),
        ({
            let steps = task_steps(id, task, true);
            &&& steps.len() == 2
            &&& steps[0] is Record && steps[0]->event == "task_add_reused_similar_open_task"@
                && holds_task(steps[0]->data, task)
            &&& steps[1] is Notify && steps[1]->notice == "Reused task "@ + id
        }),
{
}

/// The data of an event is a task and nothing else.
pub open spec fn holds_task(data: JsonView, task: JsonView) -> bool {
    &&& data is Object
    &&& data->Object_0.contains_key("task"@)
    &&& data->Object_0["task"@] == task
}

/// The monitor runs in the session that is asked for, or in one named after the team.
pub proof fn monitors_have_sessions(asked: Seq<char>, team: Seq<char>)
    ensures
        session_name(Some(asked), team) == asked,
        session_name(None, team) == "codex-team-"@ + id_of(team),
{
}

/// A registered server that is ready is used. One that is not is forgotten, and a new one is
/// started, as where none is registered.
pub proof fn ready_servers_are_used(url: Seq<char>, ready: bool)
    ensures
        registered_step(Some(url), true) == AppServerStepView::Use(
            "Using registered app-server: "@ + url,
        ),
        registered_step(Some(url), false) == AppServerStepView::Start(
            Some("Removing stale app-server registry: "@ + url),
        ),
        registered_step(None, ready) == AppServerStepView::Start(None),
{
}

/// A new server is used as soon as it is ready, and waited for while it runs, fifty times. It fails
/// where it ends before that or takes longer.
pub proof fn new_servers_are_waited_for(
    url: Seq<char>,
    attempt: nat,
    exit: Option<Seq<char>>,
)
    ensures
        attempt < 50 ==> new_server_step(url, attempt, true, exit) == AppServerStepView::Use(
            "Started shared app-server: "@ + url,
        ),
        attempt < 50 && exit is None ==> new_server_step(url, attempt, false, exit) is Wait,
        attempt < 50 && exit is Some ==> new_server_step(url, attempt, false, exit)
            == AppServerStepView::Fail("shared app-server exited early with status "@ + exit->0),
        attempt >= 50 ==> forall|ready: bool| #[trigger]
            new_server_step(url, attempt, ready, exit) == AppServerStepView::Fail(
                "shared app-server did not become ready at "@ + url,
            ),
{
}

/// The members who are sent a message each get one unread copy with the sender, the text and the
/// time; the event log gets one record; and the sender is told. Otherwise nothing is sent.
pub proof fn messages_are_sent_once_to_each(
    plan: Result<MessagePlan, MessageError>,
    members: Seq<Seq<char>>,
    from: Seq<char>,
    to: Seq<char>,
    message: Seq<char>,
    time: Seq<char>,
)
    requires
        is_message_plan(plan, members, from, to, message, time),
    ensures
        plan is Ok <==> delivery(members, id_of(from), to) is Ok,
        plan is Ok ==> {
            let names = delivery(members, id_of(from), to)->Ok_0;
            let sent = plan->Ok_0.messages@;
            &&& sent.len() == names.len()
            &&& forall|i: int|
                0 <= i < sent.len() ==> is_copy(
                    #[trigger] sent[i],
                    id_of(from),
                    names[i],
                    message,
                    time,
                )
            &&& tells(plan->Ok_0.event@, "from"@, id_of(from))
            &&& lists(plan->Ok_0.event@, "to"@, names)
            &&& tells(plan->Ok_0.event@, "message"@, message)
            &&& plan->Ok_0.notice@ == "Message sent to "@ + to
        },
        plan is Err ==> plan->Err_0@ == delivery(members, id_of(from), to)->Err_0,
{
    if plan is Ok {
        messages_are_recorded(id_of(from), delivery(members, id_of(from), to)->Ok_0, message);
    }
}

/// The message is an unread copy for one recipient.
pub open spec fn is_copy(
    copy: MailMessage,
    from: Seq<char>,
    to: Seq<char>,
    message: Seq<char>,
    time: Seq<char>,
) -> bool {
    &&& copy.from@ == from
    &&& copy.to@ == to
    &&& copy.message@ == message
    &&& copy.timestamp@ == time
    &&& !copy.read
}

/// Only a member has an inbox and a log.
pub proof fn only_members_have_inboxes(
    out: Result<String, MessageError>,
    members: Seq<Seq<char>>,
    member: Seq<char>,
    text: Seq<char>,
)
    requires
        is_member_text(out, members, member, text),
    ensures
        members.contains(member) ==> out is Ok && out->Ok_0@ == text,
        !members.contains(member) ==> out is Err && out->Err_0 is UnknownMember
            && out->Err_0->UnknownMember_0@ == member,
{
}

/// A session that is there is replaced where that is forced, and kept with a note otherwise.
pub proof fn sessions_are_replaced_by_force(
    start: MonitorStart,
    session: Seq<char>,
    is_there: bool,
    force: bool,
)
    requires
        is_monitor_start(start, session, is_there, force),
    ensures
        !is_there <==> start is Fresh,
        is_there && force <==> start is Replace,
        is_there && !force <==> start is Refuse,
        start is Refuse ==> start->Refuse_0@ == "tmux session `"@ + session
            + "` already exists; pass --force or choose --session"@,
{
}

/// The monitor is a session with four panes: the status, the events, the mailboxes and what members
/// write now.
pub proof fn monitors_have_four_panes(
    session: Seq<char>,
    exe: Seq<char>,
    team: Seq<char>,
    dir: Seq<char>,
)
    ensures
        ({
            let commands = monitor_commands(session, exe, team, dir);
            let status = "watch -n 2 '"@ + quoted(exe) + " team status --team "@ + quoted(team)
                + "'"@;
            let events = "cd "@ + quoted(dir)
                + " && touch events.jsonl && tail -n 80 -f events.jsonl"@;
            let mail = "cd "@ + quoted(dir)
                + " && mkdir -p mailboxes && touch mailboxes/.keep && tail -n 40 -F mailboxes/*.jsonl"@;
            let live = "cd "@ + quoted(dir)
                + " && mkdir -p live_messages && touch live_messages/.keep && tail -n 80 -F live_messages/*.md"@;
            &&& commands.len() == 6
            &&& commands[0] == seq!["new-session"@, "-d"@, "-s"@, session, "-n"@, "team"@, status]
            &&& commands[1] == seq!["split-window"@, "-t"@, session, "-h"@, events]
            &&& commands[2] == seq!["split-window"@, "-t"@, session, "-v"@, mail]
            &&& commands[3] == seq!["select-pane"@, "-t"@, session + ":0.0"@]
            &&& commands[4] == seq!["split-window"@, "-t"@, session, "-v"@, live]
            &&& commands[5] == seq!["select-layout"@, "-t"@, session, "tiled"@]
        }),
        monitor_text(session, team, dir) == "tmux monitor: "@ + session
            + "\nAttach: tmux attach -t "@ + session + "\nTeam: "@ + team + "\nState: "@ + dir
            + "\n"@,
        fallback_text(session, team) == "Requested team UI address "@ + session
            + " is already in use; using "@ + team + " instead."@,
{
}

/// What happens is told as it is: the steps, the states of servers and the errors keep their texts.
pub proof fn steps_keep_their_texts(step: TaskStep, server: AppServerStep, error: MessageError)
    ensures
        step is Record ==> step@ is Record && step@->event == step->event@ && step@->data
            == step->data@,
        step is PromoteWaits ==> step@ is PromoteWaits,
        step is TouchConfig ==> step@ is TouchConfig,
        step is Notify ==> step@ is Notify && step@->notice == step->notice@,
        server is Use ==> server@ is Use && server@->Use_0 == server->Use_0@,
        server is Start ==> server@ is Start && server@->Start_0 == opt_view(server->Start_0),
        server is Wait ==> server@ is Wait,
        server is Fail ==> server@ is Fail && server@->Fail_0 == server->Fail_0@,
        error is UnknownMember ==> error@ is UnknownMember && error@->UnknownMember_0
            == error->UnknownMember_0@,
        error is MixedAll ==> error@ is MixedAll,
        error is NoRecipient ==> error@ is NoRecipient,
{
}

} // verus!
