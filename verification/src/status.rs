//! Short summaries of where members, tasks and nodes stand.

use vstd::prelude::*;

use crate::kanban::task_is_open;
use crate::model::{
    duration_text, format_compact_duration, MailMessage, TaskStatus, TeamNode, TeamNodeKind,
    TeamNodeStatus, TeamTask,
};
use crate::number::{decimal, usize_text};
use crate::split::{join, join_with};
use crate::text::{is_text, opt_view, same_text, views};

verus! {

// ---------------------------------------------------------------------------
// Tasks
// ---------------------------------------------------------------------------

/// The open tasks that a member owns, each as its identifier and its status.
pub open spec fn open_task_notes(tasks: Seq<TeamTask>, member: Seq<char>) -> Seq<Seq<char>>
    decreases tasks.len(),
{
    if tasks.len() == 0 {
        seq![]
    } else {
        let before = open_task_notes(tasks.drop_last(), member);
        let task = tasks.last();
        if opt_view(task.owner) == Some(member) && task.status.is_open() {
            before.push(task.id@ + ":"@ + task.status.text())
        } else {
            before
        }
    }
}

/// What a member works on.
pub open spec fn task_summary(tasks: Seq<TeamTask>, member: Seq<char>) -> Seq<char> {
    let notes = open_task_notes(tasks, member);
    if notes.len() == 0 {
        "no_open_tasks"@
    } else {
        join(notes, ","@)
    }
}

/// What a member works on.
pub fn member_task_status_summary(tasks: &Vec<TeamTask>, member: &str) -> (out: String)
    ensures
        out@ == task_summary(tasks@, member@),
{
    let mut notes: Vec<String> = Vec::new();
    assert(views(notes@) =~= open_task_notes(tasks@.take(0), member@));
    for i in 0..tasks.len()
        invariant
            views(notes@) == open_task_notes(tasks@.take(i as int), member@),
    {
        let ghost before = views(notes@);
        assert(tasks@.take(i + 1).drop_last() =~= tasks@.take(i as int));
        let task = &tasks[i];
        if is_text(&task.owner, member) && task_is_open(task) {
            let mut note = task.id.clone();
            note.append(":");
            note.append(task.status.label());
            notes.push(note);
            assert(views(notes@) =~= before.push(note@));
        }
    }
    assert(tasks@.take(tasks@.len() as int) =~= tasks@);
    if notes.len() == 0 {
        "no_open_tasks".to_string()
    } else {
        join_with(&notes, ",")
    }
}

/// How many of the tasks have a status.
pub open spec fn count_with(tasks: Seq<TeamTask>, status: TaskStatus) -> nat
    decreases tasks.len(),
{
    if tasks.len() == 0 {
        0
    } else {
        count_with(tasks.drop_last(), status) + if tasks.last().status == status {
            1nat
        } else {
            0nat
        }
    }
}

/// How many of the tasks are open.
pub open spec fn count_open(tasks: Seq<TeamTask>) -> nat
    decreases tasks.len(),
{
    if tasks.len() == 0 {
        0
    } else {
        count_open(tasks.drop_last()) + if tasks.last().status.is_open() {
            1nat
        } else {
            0nat
        }
    }
}

/// How many tasks are completed, open, cancelled and failed, and how many there are.
pub open spec fn task_counts_text(tasks: Seq<TeamTask>) -> Seq<char> {
    decimal(count_with(tasks, TaskStatus::Completed)) + " completed, "@ + decimal(
        count_open(tasks),
    ) + " open, "@ + decimal(count_with(tasks, TaskStatus::Cancelled)) + " cancelled, "@ + decimal(
        count_with(tasks, TaskStatus::Failed),
    ) + " failed, "@ + decimal(tasks.len()) + " total"@
}

fn count_tasks_with(tasks: &Vec<TeamTask>, status: TaskStatus) -> (n: usize)
    ensures
        n == count_with(tasks@, status),
{
    let mut n: usize = 0;
    for i in 0..tasks.len()
        invariant
            n == count_with(tasks@.take(i as int), status),
            n <= i,
    {
        assert(tasks@.take(i + 1).drop_last() =~= tasks@.take(i as int));
        if tasks[i].status == status {
            n = n + 1;
        }
    }
    assert(tasks@.take(tasks@.len() as int) =~= tasks@);
    n
}

/// How many tasks are completed, open, cancelled and failed, and how many there are.
pub fn format_task_status_counts(tasks: &Vec<TeamTask>) -> (out: String)
    ensures
        out@ == task_counts_text(tasks@),
{
    let mut open: usize = 0;
    for i in 0..tasks.len()
        invariant
            open == count_open(tasks@.take(i as int)),
            open <= i,
    {
        assert(tasks@.take(i + 1).drop_last() =~= tasks@.take(i as int));
        if task_is_open(&tasks[i]) {
            open = open + 1;
        }
    }
    assert(tasks@.take(tasks@.len() as int) =~= tasks@);
    let mut out = usize_text(count_tasks_with(tasks, TaskStatus::Completed));
    out.append(" completed, ");
    out.append(usize_text(open).as_str());
    out.append(" open, ");
    out.append(usize_text(count_tasks_with(tasks, TaskStatus::Cancelled)).as_str());
    out.append(" cancelled, ");
    out.append(usize_text(count_tasks_with(tasks, TaskStatus::Failed)).as_str());
    out.append(" failed, ");
    out.append(usize_text(tasks.len()).as_str());
    out.append(" total");
    out
}

/// Every task is counted once: as completed, open, cancelled or failed.
pub proof fn task_counts_add_up(tasks: Seq<TeamTask>)
    ensures
        count_with(tasks, TaskStatus::Completed) + count_open(tasks) + count_with(
            tasks,
            TaskStatus::Cancelled,
        ) + count_with(tasks, TaskStatus::Failed) == tasks.len(),
    decreases tasks.len(),
{
    if tasks.len() > 0 {
        task_counts_add_up(tasks.drop_last());
    }
}

// ---------------------------------------------------------------------------
// Mail
// ---------------------------------------------------------------------------

/// How much of a mailbox is unread, and how much of that was sent to the member by name.
#[derive(Clone, Copy, Debug, PartialEq, Eq, Structural)]
pub struct MailCounts {
    pub unread: usize,
    pub direct_unread: usize,
}

/// How many messages are unread.
pub open spec fn unread_in(messages: Seq<MailMessage>) -> nat
    decreases messages.len(),
{
    if messages.len() == 0 {
        0
    } else {
        unread_in(messages.drop_last()) + if messages.last().read {
            0nat
        } else {
            1nat
        }
    }
}

/// How many unread messages were sent to the member by name.
pub open spec fn direct_unread_in(messages: Seq<MailMessage>, member: Seq<char>) -> nat
    decreases messages.len(),
{
    if messages.len() == 0 {
        0
    } else {
        direct_unread_in(messages.drop_last(), member) + if !messages.last().read
            && messages.last().to@ == member {
            1nat
        } else {
            0nat
        }
    }
}

/// How much of a mailbox is unread.
pub fn mailbox_unread_counts(messages: &Vec<MailMessage>, member: &str) -> (counts: MailCounts)
    ensures
        counts.unread == unread_in(messages@),
        counts.direct_unread == direct_unread_in(messages@, member@),
{
    let mut unread: usize = 0;
    let mut direct_unread: usize = 0;
    for i in 0..messages.len()
        invariant
            unread == unread_in(messages@.take(i as int)),
            direct_unread == direct_unread_in(messages@.take(i as int), member@),
            unread <= i,
            direct_unread <= i,
    {
        assert(messages@.take(i + 1).drop_last() =~= messages@.take(i as int));
        if !messages[i].read {
            unread = unread + 1;
            if same_text(messages[i].to.as_str(), member) {
                direct_unread = direct_unread + 1;
            }
        }
    }
    assert(messages@.take(messages@.len() as int) =~= messages@);
    MailCounts { unread, direct_unread }
}

// ---------------------------------------------------------------------------
// Nodes
// ---------------------------------------------------------------------------

/// After how many seconds without a sign of life a node is stale.
pub const NODE_STALE_AFTER_SECONDS: u64 = 300;

/// The node was not seen for too long, or its last sign of life cannot be read.
pub open spec fn is_stale(age: Option<u64>) -> bool {
    match age {
        Some(seconds) => seconds > NODE_STALE_AFTER_SECONDS,
        None => true,
    }
}

/// How long ago a node was last seen.
pub open spec fn age_text(age: Option<u64>) -> Seq<char> {
    match age {
        Some(seconds) => duration_text(seconds as nat),
        None => "unknown"@,
    }
}

/// How long ago a node was last seen, and whether that makes it stale; `age` is the time since
/// then in seconds, where it can be read.
pub fn format_node_last_seen_age(age: Option<u64>) -> (out: (String, bool))
    ensures
        out.0@ == age_text(age),
        out.1 == is_stale(age),
{
    match age {
        Some(seconds) => (format_compact_duration(seconds), seconds > NODE_STALE_AFTER_SECONDS),
        None => ("unknown".to_string(), true),
    }
}

/// The status of a node on the dashboard.
pub open spec fn node_status_text(status: TeamNodeStatus, stale: bool) -> Seq<char> {
    if stale {
        "Stale(raw="@ + status.text() + ")"@
    } else {
        status.text()
    }
}

/// The status of a node on the dashboard.
pub fn format_node_display_status(status: TeamNodeStatus, stale: bool) -> (out: String)
    ensures
        out@ == node_status_text(status, stale),
{
    if stale {
        let mut out = "Stale(raw=".to_string();
        out.append(status.label());
        out.append(")");
        out
    } else {
        status.label().to_string()
    }
}

/// There is a node for the local machine.
pub open spec fn has_local_node(nodes: Seq<TeamNode>) -> bool {
    exists|i: int| 0 <= i < nodes.len() && (#[trigger] nodes[i]).id@ == "local"@
}

/// The node is the one that stands for the local machine where no other does.
pub open spec fn is_local_node(node: TeamNode, time: Seq<char>) -> bool {
    &&& node.id@ == "local"@
    &&& node.kind is Local
    &&& node.url is None && node.host is None && node.container is None && node.cwd is None
    &&& node.status is Online
    &&& node.note@ == ""@
    &&& node.created_at@ == time
    &&& node.updated_at@ == time
}

/// The nodes with the local one put before them, where it was not there.
pub open spec fn has_local_added(
    before: Seq<TeamNode>,
    after: Seq<TeamNode>,
    time: Seq<char>,
) -> bool {
    &&& has_local_node(before) ==> after == before
    &&& !has_local_node(before) ==> {
        &&& after.len() == before.len() + 1
        &&& is_local_node(after[0], time)
        &&& after.skip(1) == before
    }
}

/// Puts a node for the local machine in front where there is none.
pub fn ensure_local_node(nodes: &mut Vec<TeamNode>, time: &str)
    ensures
        has_local_added(old(nodes)@, final(nodes)@, time@),
        has_local_node(final(nodes)@),
{
    for i in 0..nodes.len()
        invariant
            nodes@ == old(nodes)@,
            forall|j: int| 0 <= j < i ==> (#[trigger] nodes@[j]).id@ != "local"@,
    {
        if same_text(nodes[i].id.as_str(), "local") {
            assert(nodes@[i as int].id@ == "local"@);
            return ;
        }
    }
    let node = TeamNode {
        id: "local".to_string(),
        kind: TeamNodeKind::Local,
        url: None,
        host: None,
        container: None,
        cwd: None,
        status: TeamNodeStatus::Online,
        note: "".to_string(),
        created_at: time.to_string(),
        updated_at: time.to_string(),
    };
    nodes.insert(0, node);
    assert(nodes@[0].id@ == "local"@);
    assert(nodes@.skip(1) =~= old(nodes)@);
}

} // verus!
