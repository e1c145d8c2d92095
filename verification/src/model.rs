//! The state of a team: its members, tasks, jobs, waits, nodes, mail and token usage.

use vstd::prelude::*;

use crate::json::Json;
use crate::number::{decimal, decimal_text};
use crate::split::{join, join_with, words, words_of};
use crate::text::{chars_of, string_between, trim, trim_start, trim_start_splits, trimmed};

verus! {

// ---------------------------------------------------------------------------
// Statuses
// ---------------------------------------------------------------------------

/// Where a task stands.
#[derive(Clone, Copy, Debug, PartialEq, Eq, Structural)]
pub enum TaskStatus {
    Pending,
    Ready,
    Waiting,
    InProgress,
    Review,
    Blocked,
    Failed,
    Completed,
    Cancelled,
}

impl TaskStatus {
    /// The name of the status in state files and on the dashboard.
    pub open spec fn text(self) -> Seq<char> {
        match self {
            TaskStatus::Pending => "pending"@,
            TaskStatus::Ready => "ready"@,
            TaskStatus::Waiting => "waiting"@,
            TaskStatus::InProgress => "in_progress"@,
            TaskStatus::Review => "review"@,
            TaskStatus::Blocked => "blocked"@,
            TaskStatus::Failed => "failed"@,
            TaskStatus::Completed => "completed"@,
            TaskStatus::Cancelled => "cancelled"@,
        }
    }

    /// The name of the status in state files and on the dashboard.
    pub fn label(self) -> (out: &'static str)
        ensures
            out@ == self.text(),
    {
        match self {
            TaskStatus::Pending => "pending",
            TaskStatus::Ready => "ready",
            TaskStatus::Waiting => "waiting",
            TaskStatus::InProgress => "in_progress",
            TaskStatus::Review => "review",
            TaskStatus::Blocked => "blocked",
            TaskStatus::Failed => "failed",
            TaskStatus::Completed => "completed",
            TaskStatus::Cancelled => "cancelled",
        }
    }

    /// Work on the task is not over.
    pub open spec fn is_open(self) -> bool {
        !(self is Completed || self is Cancelled || self is Failed)
    }
}

/// Where a background job stands.
#[derive(Clone, Copy, Debug, PartialEq, Eq, Structural)]
pub enum TeamJobStatus {
    Running,
    Completed,
    Failed,
    Stopped,
    Unknown,
}

impl TeamJobStatus {
    /// The name of the variant.
    pub open spec fn text(self) -> Seq<char> {
        match self {
            TeamJobStatus::Running => "Running"@,
            TeamJobStatus::Completed => "Completed"@,
            TeamJobStatus::Failed => "Failed"@,
            TeamJobStatus::Stopped => "Stopped"@,
            TeamJobStatus::Unknown => "Unknown"@,
        }
    }

    /// The name of the variant.
    pub fn label(self) -> (out: &'static str)
        ensures
            out@ == self.text(),
    {
        match self {
            TeamJobStatus::Running => "Running",
            TeamJobStatus::Completed => "Completed",
            TeamJobStatus::Failed => "Failed",
            TeamJobStatus::Stopped => "Stopped",
            TeamJobStatus::Unknown => "Unknown",
        }
    }
}

/// Where a wait stands.
#[derive(Clone, Copy, Debug, PartialEq, Eq, Structural)]
pub enum TeamWaitStatus {
    Waiting,
    Running,
    Polling,
    Blocked,
    Failed,
    Completed,
    Cancelled,
}

impl TeamWaitStatus {
    /// The name of the status in state files and on the dashboard.
    pub open spec fn text(self) -> Seq<char> {
        match self {
            TeamWaitStatus::Waiting => "waiting"@,
            TeamWaitStatus::Running => "running"@,
            TeamWaitStatus::Polling => "polling"@,
            TeamWaitStatus::Blocked => "blocked"@,
            TeamWaitStatus::Failed => "failed"@,
            TeamWaitStatus::Completed => "completed"@,
            TeamWaitStatus::Cancelled => "cancelled"@,
        }
    }

    /// The name of the status in state files and on the dashboard.
    pub fn label(self) -> (out: &'static str)
        ensures
            out@ == self.text(),
    {
        match self {
            TeamWaitStatus::Waiting => "waiting",
            TeamWaitStatus::Running => "running",
            TeamWaitStatus::Polling => "polling",
            TeamWaitStatus::Blocked => "blocked",
            TeamWaitStatus::Failed => "failed",
            TeamWaitStatus::Completed => "completed",
            TeamWaitStatus::Cancelled => "cancelled",
        }
    }
}

/// What a member's session is doing.
#[derive(Clone, Copy, Debug, PartialEq, Eq, Structural)]
pub enum MemberStatus {
    Online,
    Running,
    Standby,
    Completed,
    Failed,
    Offline,
}

impl MemberStatus {
    /// The name of the variant.
    pub open spec fn text(self) -> Seq<char> {
        match self {
            MemberStatus::Online => "Online"@,
            MemberStatus::Running => "Running"@,
            MemberStatus::Standby => "Standby"@,
            MemberStatus::Completed => "Completed"@,
            MemberStatus::Failed => "Failed"@,
            MemberStatus::Offline => "Offline"@,
        }
    }

    /// The name of the variant.
    pub fn label(self) -> (out: &'static str)
        ensures
            out@ == self.text(),
    {
        match self {
            MemberStatus::Online => "Online",
            MemberStatus::Running => "Running",
            MemberStatus::Standby => "Standby",
            MemberStatus::Completed => "Completed",
            MemberStatus::Failed => "Failed",
            MemberStatus::Offline => "Offline",
        }
    }
}

/// How a node is reached.
#[derive(Clone, Copy, Debug, PartialEq, Eq, Structural)]
pub enum TeamNodeKind {
    Local,
    Manual,
    Ssh,
    Docker,
    SshDocker,
}

impl TeamNodeKind {
    /// The name of the variant.
    pub open spec fn text(self) -> Seq<char> {
        match self {
            TeamNodeKind::Local => "Local"@,
            TeamNodeKind::Manual => "Manual"@,
            TeamNodeKind::Ssh => "Ssh"@,
            TeamNodeKind::Docker => "Docker"@,
            TeamNodeKind::SshDocker => "SshDocker"@,
        }
    }

    /// The name of the variant.
    pub fn label(self) -> (out: &'static str)
        ensures
            out@ == self.text(),
    {
        match self {
            TeamNodeKind::Local => "Local",
            TeamNodeKind::Manual => "Manual",
            TeamNodeKind::Ssh => "Ssh",
            TeamNodeKind::Docker => "Docker",
            TeamNodeKind::SshDocker => "SshDocker",
        }
    }
}

/// Whether a node answers.
#[derive(Clone, Copy, Debug, PartialEq, Eq, Structural)]
pub enum TeamNodeStatus {
    Online,
    Offline,
}

impl TeamNodeStatus {
    /// The name of the variant.
    pub open spec fn text(self) -> Seq<char> {
        match self {
            TeamNodeStatus::Online => "Online"@,
            TeamNodeStatus::Offline => "Offline"@,
        }
    }

    /// The name of the variant.
    pub fn label(self) -> (out: &'static str)
        ensures
            out@ == self.text(),
    {
        match self {
            TeamNodeStatus::Online => "Online",
            TeamNodeStatus::Offline => "Offline",
        }
    }
}

/// What became of a reply that a member sent beside its main turn.
#[derive(Clone, Copy, Debug, PartialEq, Eq, Structural)]
pub enum SideChannelContextStatus {
    Pending,
    Injected,
    Acknowledged,
}

impl SideChannelContextStatus {
    /// The name of the variant.
    pub open spec fn text(self) -> Seq<char> {
        match self {
            SideChannelContextStatus::Pending => "Pending"@,
            SideChannelContextStatus::Injected => "Injected"@,
            SideChannelContextStatus::Acknowledged => "Acknowledged"@,
        }
    }

    /// The name of the variant.
    pub fn label(self) -> (out: &'static str)
        ensures
            out@ == self.text(),
    {
        match self {
            SideChannelContextStatus::Pending => "Pending",
            SideChannelContextStatus::Injected => "Injected",
            SideChannelContextStatus::Acknowledged => "Acknowledged",
        }
    }

    /// The name of the status in state files.
    pub open spec fn key(self) -> Seq<char> {
        match self {
            SideChannelContextStatus::Pending => "pending"@,
            SideChannelContextStatus::Injected => "injected"@,
            SideChannelContextStatus::Acknowledged => "acknowledged"@,
        }
    }

    /// The name of the status in state files.
    pub fn file_key(self) -> (out: &'static str)
        ensures
            out@ == self.key(),
    {
        match self {
            SideChannelContextStatus::Pending => "pending",
            SideChannelContextStatus::Injected => "injected",
            SideChannelContextStatus::Acknowledged => "acknowledged",
        }
    }
}

/// What the dashboard shows of a team's runtime.
#[derive(Clone, Copy, Debug, PartialEq, Eq, Structural)]
pub enum UiTeamRunStatus {
    Running,
    Waiting,
    Idle,
    Exiting,
    Unknown,
}

impl UiTeamRunStatus {
    /// The style class of the status.
    pub open spec fn class(self) -> Seq<char> {
        match self {
            UiTeamRunStatus::Running => "run-running"@,
            UiTeamRunStatus::Waiting => "run-waiting"@,
            UiTeamRunStatus::Idle => "run-stop"@,
            UiTeamRunStatus::Exiting => "run-stopped"@,
            UiTeamRunStatus::Unknown => "run-unknown"@,
        }
    }

    /// The style class of the status.
    pub fn css_class(self) -> (out: &'static str)
        ensures
            out@ == self.class(),
    {
        match self {
            UiTeamRunStatus::Running => "run-running",
            UiTeamRunStatus::Waiting => "run-waiting",
            UiTeamRunStatus::Idle => "run-stop",
            UiTeamRunStatus::Exiting => "run-stopped",
            UiTeamRunStatus::Unknown => "run-unknown",
        }
    }

    /// The name of the status on the dashboard.
    pub open spec fn text(self) -> Seq<char> {
        match self {
            UiTeamRunStatus::Running => "running"@,
            UiTeamRunStatus::Waiting => "waiting"@,
            UiTeamRunStatus::Idle => "stop(idle)"@,
            UiTeamRunStatus::Exiting => "exiting"@,
            UiTeamRunStatus::Unknown => "unknown"@,
        }
    }

    /// The name of the status on the dashboard.
    pub fn label(self) -> (out: &'static str)
        ensures
            out@ == self.text(),
    {
        match self {
            UiTeamRunStatus::Running => "running",
            UiTeamRunStatus::Waiting => "waiting",
            UiTeamRunStatus::Idle => "stop(idle)",
            UiTeamRunStatus::Exiting => "exiting",
            UiTeamRunStatus::Unknown => "unknown",
        }
    }
}

// ---------------------------------------------------------------------------
// Records
// ---------------------------------------------------------------------------

/// A member of a team.
#[derive(Clone, Debug, PartialEq, Eq)]
pub struct TeamMember {
    pub name: String,
    pub role: String,
    pub status: MemberStatus,
    pub joined_at: String,
    pub thread_id: Option<String>,
    pub workspace_path: Option<String>,
    pub node: Option<String>,
}

/// The language in which prompts are written.
#[derive(Clone, Copy, Debug, PartialEq, Eq, Structural)]
pub enum TeamPromptLanguage {
    En,
    Ja,
}

impl TeamPromptLanguage {
    /// The value of the command line's language option.
    pub open spec fn text(self) -> Seq<char> {
        match self {
            TeamPromptLanguage::En => "en"@,
            TeamPromptLanguage::Ja => "ja"@,
        }
    }

    /// The value of the command line's language option.
    pub fn cli_value(self) -> (out: &'static str)
        ensures
            out@ == self.text(),
    {
        match self {
            TeamPromptLanguage::En => "en",
            TeamPromptLanguage::Ja => "ja",
        }
    }
}

/// A team.
#[derive(Clone, Debug, PartialEq, Eq)]
pub struct TeamConfig {
    pub version: u32,
    pub id: String,
    pub goal: String,
    pub lead: String,
    pub members: Vec<TeamMember>,
    pub language: Option<TeamPromptLanguage>,
    pub created_at: String,
    pub updated_at: String,
}

/// A task of a team.
#[derive(Clone, Debug, PartialEq, Eq)]
pub struct TeamTask {
    pub id: String,
    pub subject: String,
    pub description: String,
    pub owner: Option<String>,
    pub status: TaskStatus,
    pub depends_on: Vec<String>,
    pub result: Option<String>,
    pub created_at: String,
    pub updated_at: String,
}

/// A background job of a team.
#[derive(Clone, Debug, PartialEq, Eq)]
pub struct TeamJob {
    pub id: String,
    pub node: String,
    pub command: String,
    pub cwd: String,
    pub owner: Option<String>,
    pub task_id: Option<String>,
    pub status: TeamJobStatus,
    pub pid: Option<u32>,
    pub log_path: String,
    pub exit_path: String,
    pub exit_code: Option<i32>,
    pub note: String,
    pub artifacts: Vec<String>,
    pub created_at: String,
    pub updated_at: String,
}

/// Something that a team waits for.
#[derive(Clone, Debug, PartialEq, Eq)]
pub struct TeamWait {
    pub id: String,
    pub title: String,
    pub owner: Option<String>,
    pub task_id: Option<String>,
    pub node: Option<String>,
    pub condition: String,
    pub status: TeamWaitStatus,
    pub progress: String,
    pub evidence: Option<String>,
    pub created_at: String,
    pub updated_at: String,
}

/// A machine or container on which members run.
#[derive(Clone, Debug, PartialEq, Eq)]
pub struct TeamNode {
    pub id: String,
    pub kind: TeamNodeKind,
    pub url: Option<String>,
    pub host: Option<String>,
    pub container: Option<String>,
    pub cwd: Option<String>,
    pub status: TeamNodeStatus,
    pub note: String,
    pub created_at: String,
    pub updated_at: String,
}

/// A message in a mailbox.
#[derive(Clone, Debug, PartialEq, Eq)]
pub struct MailMessage {
    pub from: String,
    pub to: String,
    pub message: String,
    pub timestamp: String,
    pub read: bool,
}

/// A line of a team's event log.
#[derive(Debug, PartialEq, Eq)]
pub struct TeamEventRecord {
    pub event: String,
    pub timestamp: String,
    pub data: Json,
}

/// A reply that a member sent beside its main turn.
#[derive(Clone, Debug, PartialEq, Eq)]
pub struct SideChannelContextRecord {
    pub id: String,
    pub member: String,
    pub node: String,
    pub source_thread: String,
    pub side_thread: String,
    pub side_turn: String,
    pub recipients: Vec<String>,
    pub incoming_summary: String,
    pub reply: String,
    pub created_at: String,
    pub status: SideChannelContextStatus,
    pub injected_turns: Vec<String>,
    pub injected_at: Option<String>,
    pub acknowledged_at: Option<String>,
}

/// An entry of a member's activity diary.
#[derive(Clone, Debug, PartialEq, Eq)]
pub struct MemberJournalEntry {
    pub timestamp: String,
    pub status: String,
    pub node: String,
    pub summary: String,
    pub tasks: Vec<String>,
    pub jobs: Vec<String>,
    pub waits: Vec<String>,
    pub messages_received: Vec<String>,
    pub messages_sent: Vec<String>,
    pub events: Vec<String>,
    pub last_output_excerpt: String,
}

// ---------------------------------------------------------------------------
// Identifiers and short texts
// ---------------------------------------------------------------------------

/// `ch` may stand in an identifier.
pub open spec fn is_id_char(ch: char) -> bool {
    ||| 'a' <= ch <= 'z'
    ||| 'A' <= ch <= 'Z'
    ||| '0' <= ch <= '9'
    ||| ch == '-'
    ||| ch == '_'
}

/// `raw` as an identifier that is also a file name: without white space at both ends, and with
/// `-` in place of every other character that may not stand in one.
pub open spec fn id_of(raw: Seq<char>) -> Seq<char> {
    trim(raw).map_values(
        |ch: char|
            if is_id_char(ch) {
                ch
            } else {
                '-'
            },
    )
}

/// `raw` as an identifier that is also a file name.
pub fn sanitize_id(raw: &str) -> (out: String)
    ensures
        out@ == id_of(raw@),
{
    let text = trimmed(raw);
    let chars = chars_of(text.as_str());
    let mut out = String::new();
    for i in 0..chars.len()
        invariant
            chars@ == trim(raw@),
            out@ == id_of(raw@).take(i as int),
    {
        let ch = chars[i];
        let allowed = ('a' <= ch && ch <= 'z') || ('A' <= ch && ch <= 'Z') || ('0' <= ch && ch
            <= '9') || ch == '-' || ch == '_';
        if allowed {
            out.push(ch);
        } else {
            out.push('-');
        }
        assert(out@ =~= id_of(raw@).take(i + 1));
    }
    assert(id_of(raw@).take(chars@.len() as int) =~= id_of(raw@));
    out
}

/// An identifier holds only characters that may stand in one, and stays as it is when it is made
/// into an identifier again.
pub proof fn id_of_is_idempotent(raw: Seq<char>)
    ensures
        forall|i: int| 0 <= i < id_of(raw).len() ==> is_id_char(#[trigger] id_of(raw)[i]),
        id_of(id_of(raw)) == id_of(raw),
{
    let id = id_of(raw);
    trim_start_splits(id);
    if id.len() > 0 {
        assert(is_id_char(id[0]));
        assert(is_id_char(id[id.len() - 1]));
        assert(trim_start(id) == id);
        assert(trim(id) == id);
    } else {
        assert(trim(id) =~= id);
    }
    assert(id_of(id) =~= id);
}

/// `text` on one line: its words with one space between each two, cut behind `max` characters
/// with an ellipsis where it is longer.
pub open spec fn one_line(text: Seq<char>, max: nat) -> Seq<char> {
    let line = join(words(text), seq![' ']);
    if line.len() <= max {
        line
    } else {
        line.take(max as int) + "..."@
    }
}

/// `text` on one line, cut behind `max` characters with an ellipsis where it is longer.
pub fn compact_one_line(text: &str, max: usize) -> (out: String)
    ensures
        out@ == one_line(text@, max as nat),
{
    let parts = words_of(text);
    proof {
        reveal_strlit(" ");
        assert(" "@ =~= seq![' ']);
    }
    let line = join_with(&parts, " ");
    let chars = chars_of(line.as_str());
    if chars.len() <= max {
        line
    } else {
        assert(chars@.subrange(0, max as int) =~= line@.take(max as int));
        let mut out = string_between(&chars, 0, max);
        out.append("...");
        out
    }
}

/// A length of time in its two largest units.
pub open spec fn duration_text(seconds: nat) -> Seq<char> {
    if seconds < 60 {
        decimal(seconds) + "s"@
    } else if seconds < 3600 {
        decimal(seconds / 60) + "m"@ + decimal(seconds % 60) + "s"@
    } else if seconds < 86400 {
        decimal(seconds / 3600) + "h"@ + decimal(seconds % 3600 / 60) + "m"@
    } else {
        decimal(seconds / 86400) + "d"@ + decimal(seconds % 86400 / 3600) + "h"@
    }
}

/// A length of time in its two largest units.
pub fn format_compact_duration(seconds: u64) -> (out: String)
    ensures
        out@ == duration_text(seconds as nat),
{
    if seconds < 60 {
        let mut out = decimal_text(seconds);
        out.append("s");
        out
    } else if seconds < 3600 {
        let mut out = decimal_text(seconds / 60);
        out.append("m");
        out.append(decimal_text(seconds % 60).as_str());
        out.append("s");
        out
    } else if seconds < 86400 {
        let mut out = decimal_text(seconds / 3600);
        out.append("h");
        out.append(decimal_text(seconds % 3600 / 60).as_str());
        out.append("m");
        out
    } else {
        let mut out = decimal_text(seconds / 86400);
        out.append("d");
        out.append(decimal_text(seconds % 86400 / 3600).as_str());
        out.append("h");
        out
    }
}

} // verus!
