//! The realtime view and the debug timeline.

use vstd::prelude::*;

use crate::journal::{tail_chars, tail_of};
use crate::json::{
    json_pretty_text, json_text, optional_text_json, pretty_or_plain, printed, printed_pretty,
    strings_in, texts_json, Json, JsonView,
};
use crate::kanban::{find_location, location_of};
use crate::messages::{last_lines, tail_lines};
use crate::model::{
    duration_text, format_compact_duration, MailMessage, SideChannelContextRecord, TeamConfig,
    TeamEventRecord, TeamMember, TeamNode, TeamTask,
};
use crate::order::{
    in_order, is_ranking, ranked, ranked_is_a_stable_sort, ranked_of_mapped, stable_sort,
    text_comes_before, text_less, text_order_is_a_ranking, Ranking,
};
use crate::split::{contains, filter_of_next, has_text, join, join_with, last_n};
use crate::status::{member_task_status_summary, task_summary};
use crate::text::{is_blank, opt_view, same_text, str_or, text_is_blank, text_or, views};
use crate::time::{rfc3339_millis, sort_key, timestamp_for_ui, timestamp_sort_key, ui_time};

verus! {

// ---------------------------------------------------------------------------
// Where a member runs
// ---------------------------------------------------------------------------

/// The event tells on which node a member runs.
pub open spec fn tells_node(event: Seq<char>) -> bool {
    ||| event == "app_server_member_started"@
    ||| event == "app_server_member_reactive_started"@
    ||| event == "app_server_member_completed"@
    ||| event == "app_server_turn_steered"@
}

fn event_tells_node(event: &str) -> (yes: bool)
    ensures
        yes == tells_node(event@),
{
    same_text(event, "app_server_member_started") || same_text(
        event,
        "app_server_member_reactive_started",
    ) || same_text(event, "app_server_member_completed") || same_text(
        event,
        "app_server_turn_steered",
    )
}

/// The node on which an event says that a member runs.
pub open spec fn node_told(event: TeamEventRecord, member: Seq<char>) -> Option<Seq<char>> {
    if tells_node(event.event@) && event_member(event) == member {
        match event.data@.text_member("node"@) {
            Some(node) => if is_blank(node) {
                None
            } else {
                Some(node)
            },
            None => None,
        }
    } else {
        None
    }
}

/// The member that an event is about; nothing where it names none.
pub open spec fn event_member(event: TeamEventRecord) -> Seq<char> {
    match event.data@.text_member("member"@) {
        Some(member) => member,
        None => ""@,
    }
}

/// The node that the last telling event gives, or `default`.
pub open spec fn last_node_told(
    events: Seq<TeamEventRecord>,
    member: Seq<char>,
    default: Seq<char>,
) -> Seq<char>
    decreases events.len(),
{
    if events.len() == 0 {
        default
    } else {
        match node_told(events.last(), member) {
            Some(node) => node,
            None => last_node_told(events.drop_last(), member, default),
        }
    }
}

/// The node on which a member runs: the one that it is assigned to, or, where that is the local
/// one, the one that the events tell.
pub open spec fn inferred_node(
    events: Option<Seq<TeamEventRecord>>,
    member: Seq<char>,
    default: Seq<char>,
) -> Seq<char> {
    if default != "local"@ {
        default
    } else {
        match events {
            Some(events) => last_node_told(events, member, default),
            None => default,
        }
    }
}

/// The events behind an optional reference.
pub open spec fn events_ref(events: Option<&Vec<TeamEventRecord>>) -> Option<
    Seq<TeamEventRecord>,
> {
    match events {
        Some(events) => Some(events@),
        None => None,
    }
}

/// The node on which a member runs; `events` are the team's events, where they can be read.
pub fn infer_member_node_for_ui(
    events: Option<&Vec<TeamEventRecord>>,
    member: &TeamMember,
    default_node: &str,
) -> (out: String)
    ensures
        out@ == inferred_node(events_ref(events), member.name@, default_node@),
{
    if !same_text(default_node, "local") {
        return default_node.to_string();
    }
    let all = match events {
        Some(all) => all,
        None => {
            return default_node.to_string();
        },
    };
    let mut n: usize = all.len();
    assert(all@.take(n as int) =~= all@);
    while n > 0
        invariant
            n <= all@.len(),
            last_node_told(all@, member.name@, default_node@) == last_node_told(
                all@.take(n as int),
                member.name@,
                default_node@,
            ),
            inferred_node(events_ref(events), member.name@, default_node@) == last_node_told(
                all@,
                member.name@,
                default_node@,
            ),
        decreases n,
    {
        assert(all@.take(n as int).drop_last() =~= all@.take(n - 1));
        let event = &all[n - 1];
        if event_tells_node(event.event.as_str()) {
            let about = match event.data.get_str("member") {
                Some(about) => about,
                None => "",
            };
            if same_text(about, member.name.as_str()) {
                if let Some(node) = event.data.get_str("node") {
                    if !text_is_blank(node) {
                        return node.to_string();
                    }
                }
            }
        }
        n = n - 1;
    }
    default_node.to_string()
}

// ---------------------------------------------------------------------------
// Events as text
// ---------------------------------------------------------------------------

/// An event as the dashboard shows it, with its time in the dashboard's clock.
pub open spec fn event_json(event: TeamEventRecord) -> JsonView {
    JsonView::Object(
        Map::empty().insert("event"@, JsonView::Text(event.event@)).insert(
            "timestamp"@,
            JsonView::Text(ui_time(event.timestamp@)),
        ).insert("data"@, event.data@),
    )
}

/// An event as the dashboard shows it.
pub fn event_record_for_ui(event: &TeamEventRecord) -> (out: String)
    ensures
        out@ == printed(event_json(*event)),
{
    let time = timestamp_for_ui(event.timestamp.as_str());
    let value = Json::empty_object().with_member("event", Json::text(event.event.as_str()))
        .with_member("timestamp", Json::text(time.as_str())).with_member(
        "data",
        event.data.copy(),
    );
    json_text(&value)
}

/// The events, one on each line.
pub open spec fn events_text(events: Seq<TeamEventRecord>) -> Seq<char> {
    join(events.map_values(|event: TeamEventRecord| printed(event_json(event))), "\n"@)
}

fn event_texts(events: &Vec<TeamEventRecord>, from: usize) -> (out: Vec<String>)
    requires
        from <= events@.len(),
    ensures
        views(out@) == events@.skip(from as int).map_values(
            |event: TeamEventRecord| printed(event_json(event)),
        ),
{
    let ghost f = |event: TeamEventRecord| printed(event_json(event));
    let ghost wanted = events@.skip(from as int).map_values(f);
    let mut out: Vec<String> = Vec::new();
    for i in from..events.len()
        invariant
            from <= i <= events@.len(),
            f == (|event: TeamEventRecord| printed(event_json(event))),
            wanted == events@.skip(from as int).map_values(f),
            views(out@) == wanted.take(i - from),
    {
        let ghost before = views(out@);
        let text = event_record_for_ui(&events[i]);
        assert(text@ == wanted[i - from]);
        out.push(text);
        assert(views(out@) =~= before.push(text@));
        assert(views(out@) =~= wanted.take(i + 1 - from));
    }
    assert(views(out@) =~= wanted);
    out
}

/// The events, one on each line.
pub fn render_events_for_ui(events: &Vec<TeamEventRecord>) -> (out: String)
    ensures
        out@ == events_text(events@),
{
    let texts = event_texts(events, 0);
    assert(events@.skip(0) =~= events@);
    join_with(&texts, "\n")
}

// ---------------------------------------------------------------------------
// The realtime view
// ---------------------------------------------------------------------------

/// What was read of a member's mail and threads.
#[derive(Clone, Debug, PartialEq, Eq)]
pub struct MemberStanding {
    pub unread: usize,
    pub direct_unread: usize,
    /// How many seconds the member waits until it may use the model again.
    pub cooldown: Option<u64>,
    pub live: String,
    pub last: String,
    pub inbox: String,
}

/// How long a member waits until it may use the model again; nothing where it does not wait.
pub open spec fn cooldown_text(cooldown: Option<u64>) -> Seq<char> {
    match cooldown {
        Some(seconds) => duration_text(seconds as nat),
        None => ""@,
    }
}

/// How long a member waits until it may use the model again.
pub fn format_cooldown(cooldown: Option<u64>) -> (out: String)
    ensures
        out@ == cooldown_text(cooldown),
{
    match cooldown {
        Some(seconds) => format_compact_duration(seconds),
        None => "".to_string(),
    }
}

/// A member in the realtime view.
#[derive(Clone, Debug, PartialEq, Eq)]
pub struct UiRealtimeMember {
    pub name: String,
    pub role: String,
    pub status: String,
    pub task_status: String,
    pub node: String,
    pub location: String,
    pub unread: usize,
    pub direct_unread: usize,
    pub cooldown: String,
    pub thread: String,
    pub live: String,
    pub last: String,
    pub inbox_tail: String,
}

impl UiRealtimeMember {
    /// The realtime view shows the member as it stands.
    pub open spec fn shows(
        self,
        member: TeamMember,
        standing: MemberStanding,
        tasks: Seq<TeamTask>,
        nodes: Seq<TeamNode>,
        events: Seq<TeamEventRecord>,
    ) -> bool {
        let node = inferred_node(Some(events), member.name@, text_or(member.node, "local"@));
        &&& self.name@ == member.name@
        &&& self.role@ == member.role@
        &&& self.status@ == member.status.text()
        &&& self.task_status@ == task_summary(tasks, member.name@)
        &&& self.node@ == node
        &&& self.location@ == location_of(nodes, node)
        &&& self.unread == standing.unread
        &&& self.direct_unread == standing.direct_unread
        &&& self.cooldown@ == cooldown_text(standing.cooldown)
        &&& self.thread@ == text_or(member.thread_id, ""@)
        &&& self.live@ == tail_of(standing.live@, 20_000)
        &&& self.last@ == tail_of(standing.last@, 10_000)
        &&& self.inbox_tail@ == last_lines(standing.inbox@, 8)
    }
}

fn realtime_member(
    member: &TeamMember,
    standing: &MemberStanding,
    tasks: &Vec<TeamTask>,
    nodes: &Vec<TeamNode>,
    events: &Vec<TeamEventRecord>,
) -> (out: UiRealtimeMember)
    ensures
        out.shows(*member, *standing, tasks@, nodes@, events@),
{
    let node = infer_member_node_for_ui(Some(events), member, str_or(&member.node, "local"));
    let location = find_location(nodes, node.as_str());
    UiRealtimeMember {
        name: member.name.clone(),
        role: member.role.clone(),
        status: member.status.label().to_string(),
        task_status: member_task_status_summary(tasks, member.name.as_str()),
        node,
        location,
        unread: standing.unread,
        direct_unread: standing.direct_unread,
        cooldown: format_cooldown(standing.cooldown),
        thread: str_or(&member.thread_id, "").to_string(),
        live: tail_chars(standing.live.as_str(), 20_000),
        last: tail_chars(standing.last.as_str(), 10_000),
        inbox_tail: tail_lines(standing.inbox.as_str(), 8),
    }
}

/// A message in the realtime view.
#[derive(Clone, Debug, PartialEq, Eq)]
pub struct UiRealtimeMessage {
    pub timestamp: String,
    pub from: String,
    pub to: String,
    pub message: String,
}

/// What a message in the realtime view says.
#[verifier::ext_equal]
pub struct RealtimeMessageView {
    pub timestamp: Seq<char>,
    pub from: Seq<char>,
    pub to: Seq<char>,
    pub message: Seq<char>,
}

impl View for UiRealtimeMessage {
    type V = RealtimeMessageView;

    open spec fn view(&self) -> RealtimeMessageView {
        RealtimeMessageView {
            timestamp: self.timestamp@,
            from: self.from@,
            to: self.to@,
            message: self.message@,
        }
    }
}

/// A target as text: a name, the names of a list with commas between them, or any other value as
/// it is printed.
pub open spec fn target_text(value: JsonView) -> Seq<char> {
    match value {
        JsonView::Array(names) => join(strings_in(names), ","@),
        JsonView::Text(name) => name,
        other => printed(other),
    }
}

/// A target as text.
pub fn format_json_target(value: &Json) -> (out: String)
    ensures
        out@ == target_text(value@),
{
    match value.array_strings() {
        Some(names) => join_with(&names, ","),
        None => match value.as_str() {
            Some(name) => name.to_string(),
            None => json_text(value),
        },
    }
}

/// The event records a message that was sent or taken in.
pub open spec fn is_message(event: TeamEventRecord) -> bool {
    event.event@ == "message_sent"@ || event.event@ == "team_message_ingested"@
}

fn event_is_message(event: &TeamEventRecord) -> (yes: bool)
    ensures
        yes == is_message(*event),
{
    same_text(event.event.as_str(), "message_sent") || same_text(
        event.event.as_str(),
        "team_message_ingested",
    )
}

/// The message of an event, where it has a sender, a target and a text.
pub open spec fn message_in(event: TeamEventRecord) -> Option<RealtimeMessageView> {
    match (
        event.data@.text_member("from"@),
        event.data@.member("to"@),
        event.data@.text_member("message"@),
    ) {
        (Some(from), Some(to), Some(message)) => Some(
            RealtimeMessageView {
                timestamp: event.timestamp@,
                from,
                to: target_text(to),
                message,
            },
        ),
        _ => None,
    }
}

/// The messages of the events that have one.
pub open spec fn messages_in(events: Seq<TeamEventRecord>) -> Seq<RealtimeMessageView>
    decreases events.len(),
{
    if events.len() == 0 {
        seq![]
    } else {
        match message_in(events.last()) {
            Some(message) => messages_in(events.drop_last()).push(message),
            None => messages_in(events.drop_last()),
        }
    }
}

/// The events that record messages.
pub open spec fn message_events(events: Seq<TeamEventRecord>) -> Seq<TeamEventRecord> {
    events.filter(|event: TeamEventRecord| is_message(event))
}

/// The messages of the last sixty events that record one.
pub open spec fn recent_messages(events: Seq<TeamEventRecord>) -> Seq<RealtimeMessageView> {
    messages_in(last_n(message_events(events), 60))
}

/// The views of a list of messages.
pub open spec fn messages_view(messages: Seq<UiRealtimeMessage>) -> Seq<RealtimeMessageView> {
    messages.map_values(|message: UiRealtimeMessage| message@)
}

fn message_of(event: &TeamEventRecord) -> (out: Option<UiRealtimeMessage>)
    ensures
        match out {
            Some(message) => message_in(*event) == Some(message@),
            None => message_in(*event) is None,
        },
{
    match (event.data.get_str("from"), event.data.get("to"), event.data.get_str("message")) {
        (Some(from), Some(to), Some(message)) => {
            let out = UiRealtimeMessage {
                timestamp: event.timestamp.clone(),
                from: from.to_string(),
                to: format_json_target(to),
                message: message.to_string(),
            };
            Some(out)
        },
        _ => None,
    }
}

fn collect_recent_messages(events: &Vec<TeamEventRecord>) -> (out: Vec<UiRealtimeMessage>)
    ensures
        messages_view(out@) == recent_messages(events@),
{
    let ghost keep = |event: TeamEventRecord| is_message(event);
    let ghost at = |i: usize| events@[i as int];
    let mut places: Vec<usize> = Vec::new();
    reveal(Seq::filter);
    assert(places@.map_values(at) =~= events@.take(0).filter(keep));
    for i in 0..events.len()
        invariant
            keep == (|event: TeamEventRecord| is_message(event)),
            at == (|i: usize| events@[i as int]),
            forall|j: int| 0 <= j < places@.len() ==> #[trigger] places@[j] < events@.len(),
            places@.map_values(at) == events@.take(i as int).filter(keep),
    {
        let ghost before = places@.map_values(at);
        proof {
            filter_of_next(events@, keep, i as int);
        }
        if event_is_message(&events[i]) {
            places.push(i);
            assert(places@.map_values(at) =~= before.push(events@[i as int]));
        }
    }
    assert(events@.take(events@.len() as int) =~= events@);
    let from = if places.len() > 60 {
        places.len() - 60
    } else {
        0
    };
    let ghost chosen = last_n(message_events(events@), 60);
    assert(chosen =~= places@.skip(from as int).map_values(at));
    let mut out: Vec<UiRealtimeMessage> = Vec::new();
    assert(messages_view(out@) =~= messages_in(chosen.take(0)));
    for i in from..places.len()
        invariant
            from <= i <= places@.len(),
            at == (|i: usize| events@[i as int]),
            forall|j: int| 0 <= j < places@.len() ==> #[trigger] places@[j] < events@.len(),
            chosen == places@.skip(from as int).map_values(at),
            messages_view(out@) == messages_in(chosen.take(i - from)),
    {
        let ghost before = messages_view(out@);
        assert(chosen.take(i + 1 - from).drop_last() =~= chosen.take(i - from));
        assert(chosen[i - from] == events@[places@[i as int] as int]);
        if let Some(message) = message_of(&events[places[i]]) {
            out.push(message);
            assert(messages_view(out@) =~= before.push(message@));
        }
    }
    assert(chosen.take(places@.len() - from) =~= chosen);
    out
}

/// What the realtime view shows.
pub struct UiRealtimeSnapshot {
    pub team: String,
    pub generated_at: String,
    pub members: Vec<UiRealtimeMember>,
    pub events: Vec<String>,
    pub messages: Vec<UiRealtimeMessage>,
}

/// A standing where nothing was read.
fn no_standing() -> (out: MemberStanding)
    ensures
        is_no_standing(out),
{
    MemberStanding {
        unread: 0,
        direct_unread: 0,
        cooldown: None,
        live: "".to_string(),
        last: "".to_string(),
        inbox: "".to_string(),
    }
}

/// Nothing was read of the member.
pub open spec fn is_no_standing(standing: MemberStanding) -> bool {
    &&& standing.unread == 0
    &&& standing.direct_unread == 0
    &&& standing.cooldown is None
    &&& standing.live@ == ""@
    &&& standing.last@ == ""@
    &&& standing.inbox@ == ""@
}

/// The member is shown as its standing says, or without mail and threads where nothing was read.
pub open spec fn shows_member(
    shown: UiRealtimeMember,
    i: int,
    config: TeamConfig,
    standings: Seq<MemberStanding>,
    tasks: Seq<TeamTask>,
    nodes: Seq<TeamNode>,
    events: Seq<TeamEventRecord>,
) -> bool {
    if i < standings.len() {
        shown.shows(config.members@[i], standings[i], tasks, nodes, events)
    } else {
        exists|standing: MemberStanding|
            is_no_standing(standing) && #[trigger] shown.shows(
                config.members@[i],
                standing,
                tasks,
                nodes,
                events,
            )
    }
}

/// The snapshot is that of the team.
pub open spec fn is_snapshot(
    out: UiRealtimeSnapshot,
    config: TeamConfig,
    standings: Seq<MemberStanding>,
    tasks: Seq<TeamTask>,
    nodes: Seq<TeamNode>,
    events: Seq<TeamEventRecord>,
    now: Seq<char>,
) -> bool {
    &&& out.team@ == config.id@
    &&& out.generated_at@ == now
    &&& out.members@.len() == config.members@.len()
    &&& forall|i: int|
        0 <= i < config.members@.len() ==> shows_member(
            #[trigger] out.members@[i],
            i,
            config,
            standings,
            tasks,
            nodes,
            events,
        )
    &&& views(out.events@) == last_n(events, 80).map_values(
        |event: TeamEventRecord| printed(event_json(event)),
    )
    &&& messages_view(out.messages@) == recent_messages(events)
}

/// The realtime view of a team: its members in order, each with its standing, the last eighty
/// events, and the messages of the last sixty events that record one.
pub fn realtime_snapshot(
    config: &TeamConfig,
    standings: &Vec<MemberStanding>,
    tasks: &Vec<TeamTask>,
    nodes: &Vec<TeamNode>,
    events: &Vec<TeamEventRecord>,
    now: &str,
) -> (out: UiRealtimeSnapshot)
    ensures
        is_snapshot(out, *config, standings@, tasks@, nodes@, events@, now@),
{
    let mut members: Vec<UiRealtimeMember> = Vec::new();
    for i in 0..config.members.len()
        invariant
            members@.len() == i,
            forall|j: int|
                0 <= j < i ==> shows_member(
                    #[trigger] members@[j],
                    j,
                    *config,
                    standings@,
                    tasks@,
                    nodes@,
                    events@,
                ),
    {
        let shown = if i < standings.len() {
            realtime_member(&config.members[i], &standings[i], tasks, nodes, events)
        } else {
            let standing = no_standing();
            realtime_member(&config.members[i], &standing, tasks, nodes, events)
        };
        members.push(shown);
    }
    let from = if events.len() > 80 {
        events.len() - 80
    } else {
        0
    };
    assert(events@.skip(from as int) =~= last_n(events@, 80));
    UiRealtimeSnapshot {
        team: config.id.clone(),
        generated_at: now.to_string(),
        members,
        events: event_texts(events, from),
        messages: collect_recent_messages(events),
    }
}

// ---------------------------------------------------------------------------
// The debug timeline
// ---------------------------------------------------------------------------

/// An entry of the debug timeline.
#[derive(Debug, PartialEq, Eq)]
pub struct UiDebugTimelineItem {
    pub timestamp: String,
    pub kind: String,
    pub title: String,
    pub actor: String,
    pub target: String,
    pub body: String,
    pub meta: Json,
}

/// What an entry of the debug timeline says.
#[verifier::ext_equal]
pub struct TimelineItemView {
    pub timestamp: Seq<char>,
    pub kind: Seq<char>,
    pub title: Seq<char>,
    pub actor: Seq<char>,
    pub target: Seq<char>,
    pub body: Seq<char>,
    pub meta: JsonView,
}

impl View for UiDebugTimelineItem {
    type V = TimelineItemView;

    open spec fn view(&self) -> TimelineItemView {
        TimelineItemView {
            timestamp: self.timestamp@,
            kind: self.kind@,
            title: self.title@,
            actor: self.actor@,
            target: self.target@,
            body: self.body@,
            meta: self.meta@,
        }
    }
}

/// The views of a list of entries.
pub open spec fn items_view(items: Seq<UiDebugTimelineItem>) -> Seq<TimelineItemView> {
    items.map_values(|item: UiDebugTimelineItem| item@)
}

/// The kind of an event: a message from the system or from another sender, something beside a
/// member's main turn, or any other event.
pub open spec fn event_kind(event: TeamEventRecord) -> Seq<char> {
    if is_message(event) {
        if event.data@.text_member("from"@) == Some("system"@) {
            "system"@
        } else {
            "message"@
        }
    } else if has_text(event.event@, "side_channel"@) {
        "side"@
    } else {
        "event"@
    }
}

fn event_kind_of(event: &TeamEventRecord) -> (out: &'static str)
    ensures
        out@ == event_kind(*event),
{
    if event_is_message(event) {
        match event.data.get_str("from") {
            Some(from) => if same_text(from, "system") {
                "system"
            } else {
                "message"
            },
            None => "message",
        }
    } else if contains(event.event.as_str(), "side_channel") {
        "side"
    } else {
        "event"
    }
}

/// Who an event comes from: its sender, or the member that it is about, or nobody.
pub open spec fn event_actor(data: JsonView) -> Seq<char> {
    match data.text_member("from"@) {
        Some(from) => from,
        None => match data.text_member("member"@) {
            Some(member) => member,
            None => ""@,
        },
    }
}

/// Whom an event goes to.
pub open spec fn event_target(data: JsonView) -> Seq<char> {
    match data.member("to"@) {
        Some(to) => target_text(to),
        None => ""@,
    }
}

/// The text of an event: its message, or its data as printed.
pub open spec fn event_body(data: JsonView) -> Seq<char> {
    match data.text_member("message"@) {
        Some(message) => message,
        None => pretty_or_plain(printed_pretty(data), printed(data)),
    }
}

/// A name, or `unknown` where there is none.
pub open spec fn known(name: Seq<char>) -> Seq<char> {
    if name.len() == 0 {
        "unknown"@
    } else {
        name
    }
}

/// The title of an event: who wrote to whom, or the name of the event.
pub open spec fn event_title(event: TeamEventRecord) -> Seq<char> {
    if is_message(event) {
        known(event_actor(event.data@)) + " -> "@ + known(event_target(event.data@))
    } else {
        event.event@
    }
}

/// The entry of an event.
pub open spec fn event_item(event: TeamEventRecord) -> TimelineItemView {
    TimelineItemView {
        timestamp: ui_time(event.timestamp@),
        kind: event_kind(event),
        title: event_title(event),
        actor: event_actor(event.data@),
        target: event_target(event.data@),
        body: event_body(event.data@),
        meta: event.data@,
    }
}

fn event_item_of(event: &TeamEventRecord) -> (out: UiDebugTimelineItem)
    ensures
        out@ == event_item(*event),
{
    let actor = match event.data.get_str("from") {
        Some(from) => from,
        None => match event.data.get_str("member") {
            Some(member) => member,
            None => "",
        },
    };
    let target = match event.data.get("to") {
        Some(to) => format_json_target(to),
        None => "".to_string(),
    };
    assert(""@.len() == 0) by {
        reveal_strlit("");
    }
    let title = if event_is_message(event) {
        let mut title = if actor.is_empty() {
            "unknown".to_string()
        } else {
            actor.to_string()
        };
        title.append(" -> ");
        if target.as_str().is_empty() {
            title.append("unknown");
        } else {
            title.append(target.as_str());
        }
        title
    } else {
        event.event.clone()
    };
    let body = match event.data.get_str("message") {
        Some(message) => message.to_string(),
        None => json_pretty_text(&event.data),
    };
    UiDebugTimelineItem {
        timestamp: timestamp_for_ui(event.timestamp.as_str()),
        kind: event_kind_of(event).to_string(),
        title,
        actor: actor.to_string(),
        target,
        body,
        meta: event.data.copy(),
    }
}

/// A mailbox file: its name and its messages.
pub struct MailboxFile {
    pub name: String,
    pub messages: Vec<MailMessage>,
}

/// The entry of a message in a mailbox.
pub open spec fn mailbox_item(mailbox: Seq<char>, message: MailMessage) -> TimelineItemView {
    TimelineItemView {
        timestamp: ui_time(message.timestamp@),
        kind: if message.from@ == "system"@ {
            "system"@
        } else {
            "message"@
        },
        title: "mailbox "@ + message.from@ + " -> "@ + message.to@,
        actor: message.from@,
        target: message.to@,
        body: message.message@,
        meta: JsonView::Object(
            Map::empty().insert("mailbox"@, JsonView::Text(mailbox)).insert(
                "read"@,
                JsonView::Bool(message.read),
            ).insert("source"@, JsonView::Text("mailbox_file"@)),
        ),
    }
}

/// The entries of the messages in a mailbox.
pub open spec fn mailbox_items(file: MailboxFile) -> Seq<TimelineItemView> {
    file.messages@.map_values(|message: MailMessage| mailbox_item(file.name@, message))
}

/// The entries of all mailboxes.
pub open spec fn all_mailbox_items(files: Seq<MailboxFile>) -> Seq<TimelineItemView>
    decreases files.len(),
{
    if files.len() == 0 {
        seq![]
    } else {
        all_mailbox_items(files.drop_last()) + mailbox_items(files.last())
    }
}

fn mailbox_item_of(mailbox: &str, message: &MailMessage) -> (out: UiDebugTimelineItem)
    ensures
        out@ == mailbox_item(mailbox@, *message),
{
    let mut title = "mailbox ".to_string();
    title.append(message.from.as_str());
    title.append(" -> ");
    title.append(message.to.as_str());
    let kind = if same_text(message.from.as_str(), "system") {
        "system"
    } else {
        "message"
    };
    UiDebugTimelineItem {
        timestamp: timestamp_for_ui(message.timestamp.as_str()),
        kind: kind.to_string(),
        title,
        actor: message.from.clone(),
        target: message.to.clone(),
        body: message.message.clone(),
        meta: Json::empty_object().with_member("mailbox", Json::text(mailbox)).with_member(
            "read",
            Json::flag(message.read),
        ).with_member("source", Json::text("mailbox_file")),
    }
}

/// Adds the entries of the mailboxes.
pub fn collect_mailbox_debug_items(files: &Vec<MailboxFile>, items: &mut Vec<UiDebugTimelineItem>)
    ensures
        items_view(final(items)@) == items_view(old(items)@) + all_mailbox_items(files@),
{
    let ghost start = items_view(items@);
    assert(start + all_mailbox_items(files@.take(0)) =~= start);
    for i in 0..files.len()
        invariant
            items_view(items@) == start + all_mailbox_items(files@.take(i as int)),
    {
        let ghost before = items_view(items@);
        let file = &files[i];
        let ghost wanted = mailbox_items(*file);
        assert(before + wanted.take(0) =~= before);
        for j in 0..file.messages.len()
            invariant
                wanted == mailbox_items(*file),
                items_view(items@) == before + wanted.take(j as int),
        {
            let ghost done = items_view(items@);
            let item = mailbox_item_of(file.name.as_str(), &file.messages[j]);
            assert(item@ == wanted[j as int]);
            items.push(item);
            assert(items_view(items@) =~= done.push(item@));
            assert(items_view(items@) =~= before + wanted.take(j + 1));
        }
        assert(wanted.take(file.messages@.len() as int) =~= wanted);
        assert(files@.take(i + 1).drop_last() =~= files@.take(i as int));
        assert(items_view(items@) =~= start + all_mailbox_items(files@.take(i + 1)));
    }
    assert(files@.take(files@.len() as int) =~= files@);
}

/// The entry of a reply beside a member's main turn.
pub open spec fn side_item(record: SideChannelContextRecord) -> TimelineItemView {
    TimelineItemView {
        timestamp: ui_time(record.created_at@),
        kind: "side"@,
        title: "side-channel "@ + record.status.text() + " @"@ + record.member@,
        actor: record.member@,
        target: join(views(record.recipients@), ","@),
        body: "Incoming handled:\n"@ + record.incoming_summary@ + "\n\nReply sent:\n"@
            + record.reply@,
        meta: JsonView::Object(
            Map::empty().insert("id"@, JsonView::Text(record.id@)).insert(
                "node"@,
                JsonView::Text(record.node@),
            ).insert("source_thread"@, JsonView::Text(record.source_thread@)).insert(
                "side_thread"@,
                JsonView::Text(record.side_thread@),
            ).insert("side_turn"@, JsonView::Text(record.side_turn@)).insert(
                "recipients"@,
                texts_json(views(record.recipients@)),
            ).insert("status"@, JsonView::Text(record.status.key())).insert(
                "injected_turns"@,
                texts_json(views(record.injected_turns@)),
            ).insert("injected_at"@, optional_text_json(opt_view(record.injected_at))).insert(
                "acknowledged_at"@,
                optional_text_json(opt_view(record.acknowledged_at)),
            ).insert("source"@, JsonView::Text("side_channel_context_file"@)),
        ),
    }
}

fn side_item_of(record: &SideChannelContextRecord) -> (out: UiDebugTimelineItem)
    ensures
        out@ == side_item(*record),
{
    let mut title = "side-channel ".to_string();
    title.append(record.status.label());
    title.append(" @");
    title.append(record.member.as_str());
    let mut body = "Incoming handled:\n".to_string();
    body.append(record.incoming_summary.as_str());
    body.append("\n\nReply sent:\n");
    body.append(record.reply.as_str());
    UiDebugTimelineItem {
        timestamp: timestamp_for_ui(record.created_at.as_str()),
        kind: "side".to_string(),
        title,
        actor: record.member.clone(),
        target: join_with(&record.recipients, ","),
        body,
        meta: Json::empty_object().with_member("id", Json::text(record.id.as_str())).with_member(
            "node",
            Json::text(record.node.as_str()),
        ).with_member("source_thread", Json::text(record.source_thread.as_str())).with_member(
            "side_thread",
            Json::text(record.side_thread.as_str()),
        ).with_member("side_turn", Json::text(record.side_turn.as_str())).with_member(
            "recipients",
            Json::texts(&record.recipients),
        ).with_member("status", Json::text(record.status.file_key())).with_member(
            "injected_turns",
            Json::texts(&record.injected_turns),
        ).with_member("injected_at", Json::optional_text(&record.injected_at)).with_member(
            "acknowledged_at",
            Json::optional_text(&record.acknowledged_at),
        ).with_member("source", Json::text("side_channel_context_file")),
    }
}

/// The entries of replies beside members' main turns.
pub open spec fn side_items(records: Seq<SideChannelContextRecord>) -> Seq<TimelineItemView> {
    records.map_values(|record: SideChannelContextRecord| side_item(record))
}

/// Adds the entries of replies beside members' main turns.
pub fn collect_side_channel_debug_items(
    records: &Vec<SideChannelContextRecord>,
    items: &mut Vec<UiDebugTimelineItem>,
)
    ensures
        items_view(final(items)@) == items_view(old(items)@) + side_items(records@),
{
    let ghost start = items_view(items@);
    let ghost wanted = side_items(records@);
    assert(start + wanted.take(0) =~= start);
    for i in 0..records.len()
        invariant
            wanted == side_items(records@),
            items_view(items@) == start + wanted.take(i as int),
    {
        let ghost done = items_view(items@);
        let item = side_item_of(&records[i]);
        assert(item@ == wanted[i as int]);
        items.push(item);
        assert(items_view(items@) =~= done.push(item@));
        assert(items_view(items@) =~= start + wanted.take(i + 1));
    }
    assert(wanted.take(records@.len() as int) =~= wanted);
}

/// The buffer of a member's thread, with its file.
pub struct ThreadBuffer {
    pub member: String,
    pub path: String,
    /// When the file was last changed, in the dashboard's clock, where that is known.
    pub modified: Option<String>,
    pub text: String,
}

/// The entry of a thread's buffer.
pub open spec fn buffer_item(
    buffer: ThreadBuffer,
    directory: Seq<char>,
    kind: Seq<char>,
    now: Seq<char>,
) -> TimelineItemView {
    TimelineItemView {
        timestamp: text_or(buffer.modified, now),
        kind,
        title: kind + " thread buffer @"@ + buffer.member@,
        actor: buffer.member@,
        target: ""@,
        body: tail_of(buffer.text@, 20_000),
        meta: JsonView::Object(
            Map::empty().insert("path"@, JsonView::Text(buffer.path@)).insert(
                "source"@,
                JsonView::Text(directory),
            ),
        ),
    }
}

fn buffer_item_of(buffer: &ThreadBuffer, directory: &str, kind: &str, now: &str) -> (out:
    UiDebugTimelineItem)
    ensures
        out@ == buffer_item(*buffer, directory@, kind@, now@),
{
    let mut title = kind.to_string();
    title.append(" thread buffer @");
    title.append(buffer.member.as_str());
    UiDebugTimelineItem {
        timestamp: str_or(&buffer.modified, now).to_string(),
        kind: kind.to_string(),
        title,
        actor: buffer.member.clone(),
        target: "".to_string(),
        body: tail_chars(buffer.text.as_str(), 20_000),
        meta: Json::empty_object().with_member(
            "path",
            Json::text(buffer.path.as_str()),
        ).with_member("source", Json::text(directory)),
    }
}

/// The entries of the buffers that are not blank.
pub open spec fn buffer_items(
    buffers: Seq<ThreadBuffer>,
    directory: Seq<char>,
    kind: Seq<char>,
    now: Seq<char>,
) -> Seq<TimelineItemView>
    decreases buffers.len(),
{
    if buffers.len() == 0 {
        seq![]
    } else {
        let before = buffer_items(buffers.drop_last(), directory, kind, now);
        if is_blank(buffers.last().text@) {
            before
        } else {
            before.push(buffer_item(buffers.last(), directory, kind, now))
        }
    }
}

/// Adds the entries of the thread buffers that are not blank.
pub fn collect_thread_buffer_debug_items(
    buffers: &Vec<ThreadBuffer>,
    directory: &str,
    kind: &str,
    now: &str,
    items: &mut Vec<UiDebugTimelineItem>,
)
    ensures
        items_view(final(items)@) == items_view(old(items)@) + buffer_items(
            buffers@,
            directory@,
            kind@,
            now@,
        ),
{
    let ghost start = items_view(items@);
    assert(start + buffer_items(buffers@.take(0), directory@, kind@, now@) =~= start);
    for i in 0..buffers.len()
        invariant
            items_view(items@) == start + buffer_items(
                buffers@.take(i as int),
                directory@,
                kind@,
                now@,
            ),
    {
        let ghost done = items_view(items@);
        assert(buffers@.take(i + 1).drop_last() =~= buffers@.take(i as int));
        if !text_is_blank(buffers[i].text.as_str()) {
            let item = buffer_item_of(&buffers[i], directory, kind, now);
            items.push(item);
            assert(items_view(items@) =~= done.push(item@));
            assert(items_view(items@) =~= start + buffer_items(
                buffers@.take(i + 1),
                directory@,
                kind@,
                now@,
            ));
        }
    }
    assert(buffers@.take(buffers@.len() as int) =~= buffers@);
}

/// What the debug timeline is collected from.
pub struct TimelineSources {
    pub events: Vec<TeamEventRecord>,
    pub mailboxes: Vec<MailboxFile>,
    pub side_channel: Vec<SideChannelContextRecord>,
    pub live: Vec<ThreadBuffer>,
    pub last: Vec<ThreadBuffer>,
}

/// All entries, in the order in which they are collected.
pub open spec fn collected_items(sources: TimelineSources, now: Seq<char>) -> Seq<
    TimelineItemView,
> {
    sources.events@.map_values(|event: TeamEventRecord| event_item(event)) + all_mailbox_items(
        sources.mailboxes@,
    ) + side_items(sources.side_channel@) + buffer_items(
        sources.live@,
        "live_messages"@,
        "live"@,
        now,
    ) + buffer_items(sources.last@, "last_messages"@, "last"@, now)
}

/// Earlier entries go first, then by kind, then by title.
pub open spec fn oldest_first() -> spec_fn(TimelineItemView, TimelineItemView) -> bool {
    |a: TimelineItemView, b: TimelineItemView|
        {
            let left = sort_key(rfc3339_millis(a.timestamp));
            let right = sort_key(rfc3339_millis(b.timestamp));
            left < right || (left == right && (text_less(a.kind, b.kind) || (a.kind == b.kind
                && text_less(a.title, b.title))))
        }
}

struct OldestFirst;

impl Ranking<UiDebugTimelineItem> for OldestFirst {
    closed spec fn less() -> spec_fn(UiDebugTimelineItem, UiDebugTimelineItem) -> bool {
        |a: UiDebugTimelineItem, b: UiDebugTimelineItem| oldest_first()(a@, b@)
    }

    fn goes_before(a: &UiDebugTimelineItem, b: &UiDebugTimelineItem) -> (yes: bool) {
        let left = timestamp_sort_key(a.timestamp.as_str());
        let right = timestamp_sort_key(b.timestamp.as_str());
        left < right || (left == right && (text_comes_before(a.kind.as_str(), b.kind.as_str()) || (
        same_text(a.kind.as_str(), b.kind.as_str()) && text_comes_before(
            a.title.as_str(),
            b.title.as_str(),
        ))))
    }
}

/// The debug timeline: the last `limit` entries in order.
pub open spec fn debug_timeline(sources: TimelineSources, now: Seq<char>, limit: nat) -> Seq<
    TimelineItemView,
> {
    last_n(ranked(collected_items(sources, now), oldest_first()), limit as int)
}

/// The debug timeline: the last `limit` entries in order.
pub fn collect_ui_debug_timeline(sources: &TimelineSources, now: &str, limit: usize) -> (out: Vec<
    UiDebugTimelineItem,
>)
    ensures
        items_view(out@) == debug_timeline(*sources, now@, limit as nat),
{
    let mut items: Vec<UiDebugTimelineItem> = Vec::new();
    let ghost wanted = sources.events@.map_values(|event: TeamEventRecord| event_item(event));
    for i in 0..sources.events.len()
        invariant
            wanted == sources.events@.map_values(|event: TeamEventRecord| event_item(event)),
            items_view(items@) == wanted.take(i as int),
    {
        let ghost done = items_view(items@);
        let item = event_item_of(&sources.events[i]);
        assert(item@ == wanted[i as int]);
        items.push(item);
        assert(items_view(items@) =~= done.push(item@));
        assert(items_view(items@) =~= wanted.take(i + 1));
    }
    assert(wanted.take(sources.events@.len() as int) =~= wanted);
    collect_mailbox_debug_items(&sources.mailboxes, &mut items);
    collect_side_channel_debug_items(&sources.side_channel, &mut items);
    collect_thread_buffer_debug_items(&sources.live, "live_messages", "live", now, &mut items);
    collect_thread_buffer_debug_items(&sources.last, "last_messages", "last", now, &mut items);
    let ghost f = |item: UiDebugTimelineItem| item@;
    proof {
        ranked_of_mapped(items@, OldestFirst::less(), f, oldest_first());
    }
    let mut sorted = stable_sort::<UiDebugTimelineItem, OldestFirst>(items);
    let ghost all = sorted@;
    assert(all.skip(0) =~= all);
    let ghost mut dropped: int = 0;
    while sorted.len() > limit
        invariant
            0 <= dropped <= all.len(),
            sorted@ == all.skip(dropped),
            all.len() <= limit ==> dropped == 0,
            all.len() > limit ==> dropped <= all.len() - limit,
        decreases sorted@.len(),
    {
        sorted.remove(0);
        proof {
            dropped = dropped + 1;
        }
        assert(sorted@ =~= all.skip(dropped));
    }
    assert(items_view(sorted@) =~= last_n(all.map_values(f), limit as int));
    sorted
}

/// The most entries of the debug timeline that the dashboard shows.
pub const DEBUG_TIMELINE_LIMIT: usize = 600;

/// What the debug view shows.
pub struct UiDebugTimeline {
    pub team: String,
    pub generated_at: String,
    pub items: Vec<UiDebugTimelineItem>,
}

/// The debug view is that of the team.
pub open spec fn is_debug_snapshot(
    out: UiDebugTimeline,
    config: TeamConfig,
    sources: TimelineSources,
    now: Seq<char>,
) -> bool {
    &&& out.team@ == config.id@
    &&& out.generated_at@ == now
    &&& items_view(out.items@) == debug_timeline(sources, now, DEBUG_TIMELINE_LIMIT as nat)
}

/// The debug view of a team.
pub fn debug_snapshot(config: &TeamConfig, sources: &TimelineSources, now: &str) -> (out:
    UiDebugTimeline)
    ensures
        is_debug_snapshot(out, *config, *sources, now@),
{
    UiDebugTimeline {
        team: config.id.clone(),
        generated_at: now.to_string(),
        items: collect_ui_debug_timeline(sources, now, DEBUG_TIMELINE_LIMIT),
    }
}

/// The order of the timeline is an order.
pub proof fn timeline_order_is_a_ranking()
    ensures
        is_ranking(oldest_first()),
{
    text_order_is_a_ranking();
}

/// The timeline is in order, holds at most `limit` entries, and holds every entry that was
/// collected where those are no more than that.
pub proof fn timeline_is_in_order(sources: TimelineSources, now: Seq<char>, limit: nat)
    ensures
        in_order(debug_timeline(sources, now, limit), oldest_first()),
        debug_timeline(sources, now, limit).len() <= limit,
        collected_items(sources, now).len() <= limit ==> debug_timeline(
            sources,
            now,
            limit,
        ).to_multiset() == collected_items(sources, now).to_multiset(),
{
    timeline_order_is_a_ranking();
    let items = collected_items(sources, now);
    ranked_is_a_stable_sort(items, oldest_first());
    let sorted = ranked(items, oldest_first());
    sorted.to_multiset_ensures();
    items.to_multiset_ensures();
    assert(sorted.len() == items.len());
    let out = debug_timeline(sources, now, limit);
    let from = sorted.len() - out.len();
    assert forall|i: int, j: int| 0 <= i < j < out.len() implies !oldest_first()(
        #[trigger] out[j],
        #[trigger] out[i],
    ) by {
        assert(out[i] == sorted[from + i]);
        assert(out[j] == sorted[from + j]);
    }
}

} // verus!
