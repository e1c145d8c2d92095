//! Where the work of a team stands on its boards.

use vstd::prelude::*;

use crate::escape::html;
use crate::journal::{first_worker, member_tabs};
use crate::kanban::{
    ascii_initial, assignment_row, assignment_rows, evidence_text, exit_text, first_open_task, initial,
    is_alphanumeric, job_bucket_name, job_card, job_cards, job_class, jobs_board, jobs_board_head,
    kanban_column, location_of, member_class, member_task_row, member_task_rows, node_place,
    owned_task_rows, result_note, role_of, selected_member, selected_task, selected_task_id,
    task_card, task_cards, task_class, task_with_id, tasks_board, uppercase, wait_bucket_name,
    wait_card, wait_cards, wait_class, TaskColumn, EMPTY_JOBS_BOARD, TASKS_BOARD_HEAD,
};
use crate::laws::{filter_of_push, first_of_rest, has_none, is_first, is_last, none_of_rest};
use crate::model::{
    id_of, MemberStatus, TaskStatus, TeamConfig, TeamJob, TeamJobStatus, TeamMember, TeamNode,
    TeamTask, TeamWait, TeamWaitStatus,
};
use crate::number::integer;
use crate::text::is_blank;

verus! {

// ---------------------------------------------------------------------------
// The tasks board
// ---------------------------------------------------------------------------

/// The task is queued or waiting.
pub open spec fn is_queued() -> spec_fn(TeamTask) -> bool {
    |task: TeamTask|
        task.status is Pending || task.status is Ready || task.status is Waiting
}

/// The task is worked on or reviewed.
pub open spec fn is_worked_on() -> spec_fn(TeamTask) -> bool {
    |task: TeamTask| task.status is InProgress || task.status is Review
}

/// The task is blocked or has failed.
pub open spec fn is_stuck() -> spec_fn(TeamTask) -> bool {
    |task: TeamTask| task.status is Blocked || task.status is Failed
}

/// The task is completed or cancelled.
pub open spec fn is_over() -> spec_fn(TeamTask) -> bool {
    |task: TeamTask| task.status is Completed || task.status is Cancelled
}

/// The cards of the tasks that are picked, in order.
pub open spec fn cards_of(
    config: TeamConfig,
    tasks: Seq<TeamTask>,
    pick: spec_fn(TeamTask) -> bool,
    selected: Option<Seq<char>>,
    cwd: Seq<char>,
) -> Seq<Seq<char>> {
    tasks.filter(pick).map_values(|task: TeamTask| task_card(config, task, selected, cwd))
}

proof fn column_holds_its_tasks(
    config: TeamConfig,
    tasks: Seq<TeamTask>,
    column: TaskColumn,
    pick: spec_fn(TeamTask) -> bool,
    selected: Option<Seq<char>>,
    cwd: Seq<char>,
)
    requires
        forall|task: TeamTask| #[trigger] pick(task) == column.holds(task.status),
    ensures
        task_cards(config, tasks, column, selected, cwd) == cards_of(
            config,
            tasks,
            pick,
            selected,
            cwd,
        ),
    decreases tasks.len(),
{
    reveal(Seq::filter);
    if tasks.len() > 0 {
        let before = tasks.drop_last();
        column_holds_its_tasks(config, before, column, pick, selected, cwd);
        assert(tasks =~= before.push(tasks.last()));
        filter_of_push(before, tasks.last(), pick);
        assert(pick(tasks.last()) == column.holds(tasks.last().status));
    }
    assert(task_cards(config, tasks, column, selected, cwd) =~= cards_of(
        config,
        tasks,
        pick,
        selected,
        cwd,
    ));
}

/// Each status has its column: queued and waiting tasks are to do, those that are worked on or
/// reviewed are in progress, blocked and failed ones are blocked, and completed and cancelled ones
/// are completed.
pub proof fn statuses_have_their_columns(status: TaskStatus)
    ensures
        TaskColumn::Todo.holds(status) <==> status is Pending || status is Ready
            || status is Waiting,
        TaskColumn::InProgress.holds(status) <==> status is InProgress || status is Review,
        TaskColumn::Blocked.holds(status) <==> status is Blocked || status is Failed,
        TaskColumn::Completed.holds(status) <==> status is Completed || status is Cancelled,
{
}

/// The tasks board has four columns, and each holds exactly the cards of its tasks, in order.
pub proof fn tasks_stand_in_their_columns(
    config: TeamConfig,
    tasks: Seq<TeamTask>,
    selected: Option<Seq<char>>,
    cwd: Seq<char>,
)
    ensures
        tasks_board(config, tasks, selected, cwd) == TASKS_BOARD_HEAD@ + kanban_column(
            "kanban-col"@,
            "Todo"@,
            "Queued or waiting work"@,
            cards_of(config, tasks, is_queued(), selected, cwd),
            "+ Add task via lead"@,
        ) + kanban_column(
            "kanban-col"@,
            "In Progress"@,
            "Active execution and review"@,
            cards_of(config, tasks, is_worked_on(), selected, cwd),
            "+ Add task via lead"@,
        ) + kanban_column(
            "kanban-col"@,
            "Blocked"@,
            "Needs unblock or repair"@,
            cards_of(config, tasks, is_stuck(), selected, cwd),
            "+ Add task via lead"@,
        ) + kanban_column(
            "kanban-col"@,
            "Completed"@,
            "Accepted or cancelled work"@,
            cards_of(config, tasks, is_over(), selected, cwd),
            "+ Add task via lead"@,
        ) + "</div></section>"@,
{
    column_holds_its_tasks(config, tasks, TaskColumn::Todo, is_queued(), selected, cwd);
    column_holds_its_tasks(config, tasks, TaskColumn::InProgress, is_worked_on(), selected, cwd);
    column_holds_its_tasks(config, tasks, TaskColumn::Blocked, is_stuck(), selected, cwd);
    column_holds_its_tasks(config, tasks, TaskColumn::Completed, is_over(), selected, cwd);
}

// ---------------------------------------------------------------------------
// The jobs board
// ---------------------------------------------------------------------------

/// The job belongs to the task and has one of the statuses.
pub open spec fn is_job_of(task: Seq<char>, has: spec_fn(TeamJobStatus) -> bool) -> spec_fn(
    TeamJob,
) -> bool {
    |job: TeamJob| job.task_id is Some && job.task_id->0@ == task && has(job.status)
}

/// The wait belongs to the task and has one of the statuses.
pub open spec fn is_wait_of(task: Seq<char>, has: spec_fn(TeamWaitStatus) -> bool) -> spec_fn(
    TeamWait,
) -> bool {
    |wait: TeamWait| wait.task_id is Some && wait.task_id->0@ == task && has(wait.status)
}

/// The cards of a task's jobs with some statuses, and behind them those of its waits.
pub open spec fn work_cards(
    members: Seq<TeamMember>,
    jobs: Seq<TeamJob>,
    waits: Seq<TeamWait>,
    task: Seq<char>,
    job_has: spec_fn(TeamJobStatus) -> bool,
    wait_has: spec_fn(TeamWaitStatus) -> bool,
) -> Seq<Seq<char>> {
    jobs.filter(is_job_of(task, job_has)).map_values(|job: TeamJob| job_card(members, job))
        + waits.filter(is_wait_of(task, wait_has)).map_values(
        |wait: TeamWait| wait_card(members, wait),
    )
}

proof fn jobs_in_bucket(
    members: Seq<TeamMember>,
    jobs: Seq<TeamJob>,
    task: Seq<char>,
    bucket: Seq<char>,
    has: spec_fn(TeamJobStatus) -> bool,
)
    requires
        forall|status: TeamJobStatus|
            #[trigger] has(status) == (job_bucket_name(status) == bucket),
    ensures
        job_cards(members, jobs, task, bucket) == jobs.filter(is_job_of(task, has)).map_values(
            |job: TeamJob| job_card(members, job),
        ),
    decreases jobs.len(),
{
    reveal(Seq::filter);
    let f = |job: TeamJob| job_card(members, job);
    if jobs.len() > 0 {
        let before = jobs.drop_last();
        jobs_in_bucket(members, before, task, bucket, has);
        assert(jobs =~= before.push(jobs.last()));
        filter_of_push(before, jobs.last(), is_job_of(task, has));
        assert(has(jobs.last().status) == (job_bucket_name(jobs.last().status) == bucket));
    }
    assert(job_cards(members, jobs, task, bucket) =~= jobs.filter(
        is_job_of(task, has),
    ).map_values(f));
}

proof fn waits_in_bucket(
    members: Seq<TeamMember>,
    waits: Seq<TeamWait>,
    task: Seq<char>,
    bucket: Seq<char>,
    has: spec_fn(TeamWaitStatus) -> bool,
)
    requires
        forall|status: TeamWaitStatus|
            #[trigger] has(status) == (wait_bucket_name(status) == bucket),
    ensures
        wait_cards(members, waits, task, bucket) == waits.filter(is_wait_of(task, has)).map_values(
            |wait: TeamWait| wait_card(members, wait),
        ),
    decreases waits.len(),
{
    reveal(Seq::filter);
    let f = |wait: TeamWait| wait_card(members, wait);
    if waits.len() > 0 {
        let before = waits.drop_last();
        waits_in_bucket(members, before, task, bucket, has);
        assert(waits =~= before.push(waits.last()));
        filter_of_push(before, waits.last(), is_wait_of(task, has));
        assert(has(waits.last().status) == (wait_bucket_name(waits.last().status) == bucket));
    }
    assert(wait_cards(members, waits, task, bucket) =~= waits.filter(
        is_wait_of(task, has),
    ).map_values(f));
}

proof fn buckets_differ()
    ensures
        "todo"@ != "progress"@,
        "todo"@ != "review"@,
        "todo"@ != "done"@,
        "progress"@ != "review"@,
        "progress"@ != "done"@,
        "review"@ != "done"@,
{
    reveal_strlit("todo");
    reveal_strlit("progress");
    reveal_strlit("review");
    reveal_strlit("done");
    assert("todo"@[0] == 't' && "done"@[0] == 'd');
    assert("progress"@.len() == 8 && "review"@.len() == 6 && "todo"@.len() == 4);
}

/// The jobs that have not begun or are not known to run.
pub open spec fn job_is_queued() -> spec_fn(TeamJobStatus) -> bool {
    |status: TeamJobStatus| status is Stopped || status is Unknown
}

/// The jobs that run.
pub open spec fn job_runs() -> spec_fn(TeamJobStatus) -> bool {
    |status: TeamJobStatus| status is Running
}

/// The jobs that failed.
pub open spec fn job_failed() -> spec_fn(TeamJobStatus) -> bool {
    |status: TeamJobStatus| status is Failed
}

/// The jobs that are done.
pub open spec fn job_is_done() -> spec_fn(TeamJobStatus) -> bool {
    |status: TeamJobStatus| status is Completed
}

/// The waits that have not begun.
pub open spec fn wait_is_queued() -> spec_fn(TeamWaitStatus) -> bool {
    |status: TeamWaitStatus| status is Waiting
}

/// The waits that run or poll.
pub open spec fn wait_runs() -> spec_fn(TeamWaitStatus) -> bool {
    |status: TeamWaitStatus| status is Running || status is Polling
}

/// The waits that are blocked or failed.
pub open spec fn wait_is_stuck() -> spec_fn(TeamWaitStatus) -> bool {
    |status: TeamWaitStatus| status is Blocked || status is Failed
}

/// The waits that are over.
pub open spec fn wait_is_over() -> spec_fn(TeamWaitStatus) -> bool {
    |status: TeamWaitStatus| status is Completed || status is Cancelled
}

/// Behind its head the jobs board of a task has four columns, and each holds exactly the cards of the task's
/// jobs and waits with its statuses.
pub proof fn work_stands_in_its_columns(
    config: TeamConfig,
    task: TeamTask,
    jobs: Seq<TeamJob>,
    waits: Seq<TeamWait>,
)
    ensures
        jobs_board(config, Some(task), jobs, waits) == jobs_board_head(config, task) + kanban_column(
                "kanban-col jobs"@,
                "Todo"@,
                "Queued or unknown"@,
                work_cards(
                    config.members@,
                    jobs,
                    waits,
                    task.id@,
                    job_is_queued(),
                    wait_is_queued(),
                ),
                "+ Add job/wait via lead"@,
            ) + kanban_column(
                "kanban-col jobs"@,
                "In Progress"@,
                "Running or polling"@,
                work_cards(config.members@, jobs, waits, task.id@, job_runs(), wait_runs()),
                "+ Add job/wait via lead"@,
            ) + kanban_column(
                "kanban-col jobs"@,
                "Review"@,
                "Blocked or failed gates"@,
                work_cards(config.members@, jobs, waits, task.id@, job_failed(), wait_is_stuck()),
                "+ Add job/wait via lead"@,
            ) + kanban_column(
                "kanban-col jobs"@,
                "Done"@,
                "Completed evidence"@,
                work_cards(config.members@, jobs, waits, task.id@, job_is_done(), wait_is_over()),
                "+ Add job/wait via lead"@,
            ) + "</div></section>"@,
        jobs_board(config, None, jobs, waits) == EMPTY_JOBS_BOARD@,
{
    buckets_differ();
    let members = config.members@;
    let id = task.id@;
    jobs_in_bucket(members, jobs, id, "todo"@, job_is_queued());
    jobs_in_bucket(members, jobs, id, "progress"@, job_runs());
    jobs_in_bucket(members, jobs, id, "review"@, job_failed());
    jobs_in_bucket(members, jobs, id, "done"@, job_is_done());
    waits_in_bucket(members, waits, id, "todo"@, wait_is_queued());
    waits_in_bucket(members, waits, id, "progress"@, wait_runs());
    waits_in_bucket(members, waits, id, "review"@, wait_is_stuck());
    waits_in_bucket(members, waits, id, "done"@, wait_is_over());
}

// ---------------------------------------------------------------------------
// Cards
// ---------------------------------------------------------------------------

/// What nobody owns is shown as if its owner were called `unassigned`.
pub proof fn work_without_owner_is_unassigned(
    config: TeamConfig,
    a: TeamTask,
    b: TeamTask,
    job_a: TeamJob,
    job_b: TeamJob,
    wait_a: TeamWait,
    wait_b: TeamWait,
    selected: Option<Seq<char>>,
    cwd: Seq<char>,
)
    requires
        a.owner is None,
        b.owner is Some && b.owner->0@ == "unassigned"@,
        b == (TeamTask { owner: b.owner, ..a }),
        job_a.owner is None,
        job_b.owner is Some && job_b.owner->0@ == "unassigned"@,
        job_b == (TeamJob { owner: job_b.owner, ..job_a }),
        wait_a.owner is None,
        wait_b.owner is Some && wait_b.owner->0@ == "unassigned"@,
        wait_b == (TeamWait { owner: wait_b.owner, ..wait_a }),
    ensures
        task_card(config, a, selected, cwd) == task_card(config, b, selected, cwd),
        job_card(config.members@, job_a) == job_card(config.members@, job_b),
        wait_card(config.members@, wait_a) == wait_card(config.members@, wait_b),
{
}

/// A blank result is shown as none, and one that is not blank has a note.
pub proof fn results_are_noted(result: Option<Seq<char>>)
    ensures
        result is None || is_blank(result->0) <==> result_note(result).len() == 0,
{
    reveal_strlit("");
    reveal_strlit("</p>");
    assert("</p>"@.len() == 4);
}

/// A blank evidence is shown as a dash, like none.
pub proof fn evidence_is_shown(evidence: Seq<char>)
    ensures
        evidence_text(None) == "-"@,
        is_blank(evidence) ==> evidence_text(Some(evidence)) == "-"@,
        !is_blank(evidence) ==> evidence_text(Some(evidence)) == evidence,
{
}

/// An exit code is shown as it is, and a job that has none yet with a dash.
pub proof fn exit_codes_are_shown(code: i32)
    ensures
        exit_text(Some(code)) == integer(code as int),
        exit_text(None) == "-"@,
{
}

/// Each status has its style.
pub proof fn task_statuses_have_their_styles(status: TaskStatus)
    ensures
        status is Pending || status is Ready || status is Waiting <==> task_class(status)
            == "todo"@,
        status is InProgress <==> task_class(status) == "active"@,
        status is Review <==> task_class(status) == "review"@,
        status is Blocked || status is Failed <==> task_class(status) == "blocked"@,
        status is Completed <==> task_class(status) == "completed"@,
        status is Cancelled <==> task_class(status) == "muted"@,
{
    styles_differ();
}

/// Each status has its style.
pub proof fn work_statuses_have_their_styles(job: TeamJobStatus, wait: TeamWaitStatus)
    ensures
        job is Running <==> job_class(job) == "active"@,
        job is Completed <==> job_class(job) == "completed"@,
        job is Failed <==> job_class(job) == "blocked"@,
        job is Stopped || job is Unknown <==> job_class(job) == "todo"@,
        wait is Waiting <==> wait_class(wait) == "todo"@,
        wait is Running || wait is Polling <==> wait_class(wait) == "active"@,
        wait is Blocked || wait is Failed <==> wait_class(wait) == "blocked"@,
        wait is Completed <==> wait_class(wait) == "completed"@,
        wait is Cancelled <==> wait_class(wait) == "muted"@,
{
    styles_differ();
}

/// Each status has its style.
pub proof fn member_statuses_have_their_styles(status: MemberStatus)
    ensures
        status is Online || status is Running <==> member_class(status) == "active"@,
        status is Standby <==> member_class(status) == "todo"@,
        status is Completed <==> member_class(status) == "completed"@,
        status is Failed || status is Offline <==> member_class(status) == "blocked"@,
{
    styles_differ();
}

proof fn styles_differ()
    ensures
        "todo"@.len() == 4,
        "active"@.len() == 6,
        "review"@.len() == 6,
        "active"@ != "review"@,
        "blocked"@.len() == 7,
        "completed"@.len() == 9,
        "muted"@.len() == 5,
{
    reveal_strlit("todo");
    reveal_strlit("active");
    reveal_strlit("review");
    reveal_strlit("blocked");
    reveal_strlit("completed");
    reveal_strlit("muted");
    assert("active"@[0] == 'a' && "review"@[0] == 'r');
}

/// The member has the name.
pub open spec fn is_called(name: Seq<char>) -> spec_fn(TeamMember) -> bool {
    |member: TeamMember| member.name@ == name
}

/// A name is shown with the role of the first member who has it, and without one where nobody
/// does.
pub proof fn roles_are_those_of_members(members: Seq<TeamMember>, name: Seq<char>, i: int)
    ensures
        is_first(members, is_called(name), i) ==> role_of(members, name) == members[i].role@,
        has_none(members, is_called(name)) ==> role_of(members, name).len() == 0,
    decreases members.len(),
{
    reveal_strlit("");
    if members.len() > 0 {
        none_of_rest(members, is_called(name));
        if members[0].name@ != name {
            first_of_rest(members, is_called(name), i);
            roles_are_those_of_members(members.drop_first(), name, i - 1);
        } else if i > 0 {
            assert(is_called(name)(members[0]));
        }
    }
}

/// A letter or a number.
pub open spec fn is_letter_or_number() -> spec_fn(char) -> bool {
    |ch: char| is_alphanumeric(ch)
}

/// A name is shown by the capital form of its first letter or number, and by a question mark where
/// it has none.
pub proof fn initials_are_first_letters(name: Seq<char>, i: int)
    ensures
        is_first(name, is_letter_or_number(), i) ==> initial(name) == uppercase(name[i]),
        has_none(name, is_letter_or_number()) ==> initial(name) == "?"@,
    decreases name.len(),
{
    if name.len() > 0 {
        none_of_rest(name, is_letter_or_number());
        if !is_alphanumeric(name[0]) {
            first_of_rest(name, is_letter_or_number(), i);
            initials_are_first_letters(name.drop_first(), i - 1);
        } else if i > 0 {
            assert(is_letter_or_number()(name[0]));
        }
    }
}

/// An ASCII letter or digit.
pub open spec fn is_ascii_letter_or_digit() -> spec_fn(char) -> bool {
    |ch: char| ('a' <= ch <= 'z') || ('A' <= ch <= 'Z') || ('0' <= ch <= '9')
}

/// The initial of an ASCII name is its first letter, as a capital, or its first digit, and a
/// question mark where it has neither.
pub proof fn ascii_initials_are_capitals(name: Seq<char>, i: int)
    ensures
        is_first(name, is_ascii_letter_or_digit(), i) && 'a' <= name[i] <= 'z' ==> ascii_initial(
            name,
        ) == seq![(name[i] as u32 - 32) as char],
        is_first(name, is_ascii_letter_or_digit(), i) && !('a' <= name[i] <= 'z') ==> ascii_initial(
            name,
        ) == seq![name[i]],
        has_none(name, is_ascii_letter_or_digit()) ==> ascii_initial(name) == "?"@,
    decreases name.len(),
{
    if name.len() > 0 {
        none_of_rest(name, is_ascii_letter_or_digit());
        if !is_ascii_letter_or_digit()(name[0]) {
            first_of_rest(name, is_ascii_letter_or_digit(), i);
            ascii_initials_are_capitals(name.drop_first(), i - 1);
        } else if i > 0 {
            assert(is_ascii_letter_or_digit()(name[0]));
        }
    }
}

/// A text, or nothing.
pub open spec fn given(text: Option<String>) -> Seq<char> {
    if text is Some {
        text->0@
    } else {
        Seq::empty()
    }
}

/// A node is where its kind says, with the host, the container and the directory that it has.
pub proof fn nodes_are_where_they_say(node: TeamNode)
    ensures
        node.kind is Local ==> node_place(node) == "local machine"@,
        node.kind is Manual && node.url is Some ==> node_place(node) == node.url->0@,
        node.kind is Manual && node.url is None ==> node_place(node) == "manual"@,
        node.kind is Ssh ==> node_place(node) == "ssh:"@ + given(node.host) + " cwd="@ + given(
            node.cwd,
        ),
        node.kind is Docker ==> node_place(node) == "docker:"@ + given(node.container) + " cwd="@
            + given(node.cwd),
        node.kind is SshDocker ==> node_place(node) == "ssh:"@ + given(node.host) + " docker:"@
            + given(node.container) + " cwd="@ + given(node.cwd),
{
    reveal_strlit("");
    assert(""@ =~= Seq::<char>::empty());
}

/// The node has the identifier.
pub open spec fn is_node(id: Seq<char>) -> spec_fn(TeamNode) -> bool {
    |node: TeamNode| node.id@ == id
}

/// An identifier stands for the last node that has it, and for itself where no node does.
pub proof fn locations_are_those_of_nodes(nodes: Seq<TeamNode>, id: Seq<char>, i: int)
    ensures
        is_last(nodes, is_node(id), i) ==> location_of(nodes, id) == node_place(nodes[i]),
        has_none(nodes, is_node(id)) ==> location_of(nodes, id) == id,
    decreases nodes.len(),
{
    if nodes.len() > 0 {
        let before = nodes.drop_last();
        let n = nodes.len() - 1;
        locations_are_those_of_nodes(before, id, i);
        if is_last(nodes, is_node(id), i) && i < n {
            assert(!is_node(id)(nodes[n]));
            assert forall|j: int| i < j < before.len() implies !is_node(id)(
                #[trigger] before[j],
            ) by {
                assert(before[j] == nodes[j]);
            }
        }
        if has_none(nodes, is_node(id)) {
            assert(!is_node(id)(nodes[n]));
            assert forall|j: int| 0 <= j < before.len() implies !is_node(id)(
                #[trigger] before[j],
            ) by {
                assert(before[j] == nodes[j]);
            }
        }
    }
}

// ---------------------------------------------------------------------------
// Selection
// ---------------------------------------------------------------------------

/// The task can still be worked on.
pub open spec fn can_go_on() -> spec_fn(TeamTask) -> bool {
    |task: TeamTask|
        !(task.status is Completed) && !(task.status is Cancelled) && !(task.status is Failed)
}

/// The task has the identifier.
pub open spec fn is_task(id: Seq<char>) -> spec_fn(TeamTask) -> bool {
    |task: TeamTask| task.id@ == id
}

/// The member is not the lead.
pub open spec fn is_not_the_lead() -> spec_fn(TeamMember) -> bool {
    |member: TeamMember| member.role@ != "lead"@
}

proof fn tasks_are_found_by_id(tasks: Seq<TeamTask>, id: Seq<char>, i: int)
    ensures
        has_none(tasks, is_task(id)) ==> task_with_id(tasks, id) is None,
        is_first(tasks, is_task(id), i) ==> task_with_id(tasks, id) == Some(tasks[i]),
    decreases tasks.len(),
{
    if tasks.len() > 0 {
        none_of_rest(tasks, is_task(id));
        if tasks[0].id@ != id {
            first_of_rest(tasks, is_task(id), i);
            tasks_are_found_by_id(tasks.drop_first(), id, i - 1);
        } else if i > 0 {
            assert(is_task(id)(tasks[0]));
        }
    }
}

proof fn open_tasks_are_found(tasks: Seq<TeamTask>, i: int)
    ensures
        has_none(tasks, can_go_on()) ==> first_open_task(tasks) is None,
        is_first(tasks, can_go_on(), i) ==> first_open_task(tasks) == Some(tasks[i]),
    decreases tasks.len(),
{
    if tasks.len() > 0 {
        none_of_rest(tasks, can_go_on());
        if !can_go_on()(tasks[0]) {
            first_of_rest(tasks, can_go_on(), i);
            open_tasks_are_found(tasks.drop_first(), i - 1);
        } else if i > 0 {
            assert(can_go_on()(tasks[0]));
        }
    }
}

/// Nothing that is asked for names a task.
pub open spec fn asks_for_no_task(tasks: Seq<TeamTask>, asked: Option<Seq<char>>) -> bool {
    asked is None || has_none(tasks, is_task(id_of(asked->0)))
}

/// The task that was asked for is selected where there is one with its identifier. Otherwise it is
/// the first task that can go on, or the first of all where none can.
pub proof fn the_right_task_is_selected(tasks: Seq<TeamTask>, asked: Option<Seq<char>>, i: int)
    ensures
        asked is Some && is_first(tasks, is_task(id_of(asked->0)), i) ==> selected_task(
            tasks,
            asked,
        ) == Some(tasks[i]) && selected_task_id(tasks, asked) == Some(tasks[i].id@),
        asks_for_no_task(tasks, asked) && is_first(tasks, can_go_on(), i) ==> selected_task_id(
            tasks,
            asked,
        ) == Some(tasks[i].id@),
        asks_for_no_task(tasks, asked) && has_none(tasks, can_go_on()) && tasks.len() > 0
            ==> selected_task_id(tasks, asked) == Some(tasks[0].id@),
        asks_for_no_task(tasks, asked) && tasks.len() == 0 ==> selected_task_id(
            tasks,
            asked,
        ) is None && selected_task(tasks, asked) is None,
        selected_task_id(tasks, asked) is Some && is_first(
            tasks,
            is_task(selected_task_id(tasks, asked)->0),
            i,
        ) ==> selected_task(tasks, asked) == Some(tasks[i]),
{
    open_tasks_are_found(tasks, i);
    if asked is Some {
        tasks_are_found_by_id(tasks, id_of(asked->0), i);
    }
    if selected_task_id(tasks, asked) is Some {
        tasks_are_found_by_id(tasks, selected_task_id(tasks, asked)->0, i);
    }
}

proof fn workers_are_found(members: Seq<TeamMember>, i: int)
    ensures
        has_none(members, is_not_the_lead()) ==> first_worker(members) is None,
        is_first(members, is_not_the_lead(), i) ==> first_worker(members) == Some(members[i]),
    decreases members.len(),
{
    if members.len() > 0 {
        none_of_rest(members, is_not_the_lead());
        if !is_not_the_lead()(members[0]) {
            first_of_rest(members, is_not_the_lead(), i);
            workers_are_found(members.drop_first(), i - 1);
        } else if i > 0 {
            assert(is_not_the_lead()(members[0]));
        }
    }
}

/// The selected member is the owner of the selected task. Where the task has none, or there is no
/// task, it is the first member who is not the lead, or the lead where there is no such member.
pub proof fn the_right_member_is_selected(
    members: Seq<TeamMember>,
    tasks: Seq<TeamTask>,
    asked: Option<Seq<char>>,
    i: int,
)
    ensures
        selected_task(tasks, asked) is Some && selected_task(tasks, asked)->0.owner is Some
            ==> selected_member(members, tasks, asked) == selected_task(tasks, asked)->0.owner->0@,
        !(selected_task(tasks, asked) is Some && selected_task(tasks, asked)->0.owner is Some)
            && is_first(members, is_not_the_lead(), i) ==> selected_member(members, tasks, asked)
            == members[i].name@,
        !(selected_task(tasks, asked) is Some && selected_task(tasks, asked)->0.owner is Some)
            && has_none(members, is_not_the_lead()) ==> selected_member(members, tasks, asked)
            == "lead"@,
{
    workers_are_found(members, i);
}

// ---------------------------------------------------------------------------
// The assignment board
// ---------------------------------------------------------------------------

/// The member owns the task.
pub open spec fn is_owned_by(owner: Seq<char>) -> spec_fn(TeamTask) -> bool {
    |task: TeamTask| task.owner is Some && task.owner->0@ == owner
}

/// The assignment table has a row for each member who is not the lead, in order.
pub proof fn every_worker_has_a_row(
    members: Seq<TeamMember>,
    nodes: Seq<TeamNode>,
    selected: Seq<char>,
)
    ensures
        assignment_rows(members, nodes, selected) == members.filter(is_not_the_lead()).map_values(
            |member: TeamMember| assignment_row(member, nodes, selected),
        ),
    decreases members.len(),
{
    reveal(Seq::filter);
    let f = |member: TeamMember| assignment_row(member, nodes, selected);
    if members.len() > 0 {
        let before = members.drop_last();
        every_worker_has_a_row(before, nodes, selected);
        assert(members =~= before.push(members.last()));
        filter_of_push(before, members.last(), is_not_the_lead());
    }
    assert(assignment_rows(members, nodes, selected) =~= members.filter(
        is_not_the_lead(),
    ).map_values(f));
}

/// There is a tab for each member who is not the lead, in order.
pub proof fn every_worker_has_a_tab(
    members: Seq<TeamMember>,
    selected: Seq<char>,
    prefix: Seq<char>,
)
    ensures
        member_tabs(members, selected, prefix).len() == members.filter(is_not_the_lead()).len(),
        forall|i: int|
            0 <= i < members.filter(is_not_the_lead()).len() ==> {
                let member = #[trigger] members.filter(is_not_the_lead())[i];
                &&& member.name@ == selected ==> member_tabs(members, selected, prefix)[i]
                    == r#"<span class="member-tab "#@ + "active"@ + r#"">"#@ + prefix + html(
                    member.name@,
                ) + "</span>"@
                &&& member.name@ != selected ==> member_tabs(members, selected, prefix)[i]
                    == r#"<span class="member-tab "#@ + ""@ + r#"">"#@ + prefix + html(
                    member.name@,
                ) + "</span>"@
            },
    decreases members.len(),
{
    reveal(Seq::filter);
    if members.len() > 0 {
        let before = members.drop_last();
        every_worker_has_a_tab(before, selected, prefix);
        assert(members =~= before.push(members.last()));
        filter_of_push(before, members.last(), is_not_the_lead());
        let workers = members.filter(is_not_the_lead());
        let fewer = before.filter(is_not_the_lead());
        let tabs = member_tabs(members, selected, prefix);
        assert forall|i: int| 0 <= i < workers.len() implies {
            let member = #[trigger] workers[i];
            &&& member.name@ == selected ==> tabs[i] == r#"<span class="member-tab "#@ + "active"@
                + r#"">"#@ + prefix + html(member.name@) + "</span>"@
            &&& member.name@ != selected ==> tabs[i] == r#"<span class="member-tab "#@ + ""@
                + r#"">"#@ + prefix + html(member.name@) + "</span>"@
        } by {
            if i < fewer.len() {
                assert(workers[i] == fewer[i]);
                assert(tabs[i] == member_tabs(before, selected, prefix)[i]);
            }
        }
    }
}

/// The list of a member shows all tasks that the member owns, in order, or the first eight tasks of
/// the team where the member owns none.
pub proof fn members_see_their_tasks(tasks: Seq<TeamTask>, owner: Seq<char>)
    ensures
        tasks.filter(is_owned_by(owner)).len() > 0 ==> member_task_rows(tasks, owner)
            == tasks.filter(is_owned_by(owner)).map_values(|task: TeamTask| member_task_row(task)),
        tasks.filter(is_owned_by(owner)).len() == 0 && tasks.len() <= 8 ==> member_task_rows(
            tasks,
            owner,
        ) == tasks.map_values(|task: TeamTask| member_task_row(task)),
        tasks.filter(is_owned_by(owner)).len() == 0 && tasks.len() > 8 ==> member_task_rows(
            tasks,
            owner,
        ) == tasks.take(8).map_values(|task: TeamTask| member_task_row(task)),
{
    owned_rows_are_those_of_owned_tasks(tasks, owner);
}

proof fn owned_rows_are_those_of_owned_tasks(tasks: Seq<TeamTask>, owner: Seq<char>)
    ensures
        owned_task_rows(tasks, owner) == tasks.filter(is_owned_by(owner)).map_values(
            |task: TeamTask| member_task_row(task),
        ),
    decreases tasks.len(),
{
    reveal(Seq::filter);
    let f = |task: TeamTask| member_task_row(task);
    if tasks.len() > 0 {
        let before = tasks.drop_last();
        owned_rows_are_those_of_owned_tasks(before, owner);
        assert(tasks =~= before.push(tasks.last()));
        filter_of_push(before, tasks.last(), is_owned_by(owner));
    }
    assert(owned_task_rows(tasks, owner) =~= tasks.filter(is_owned_by(owner)).map_values(f));
}

} // verus!
