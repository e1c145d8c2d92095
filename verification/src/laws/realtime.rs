//! What the realtime view says of members, events and messages.

use vstd::prelude::*;

use crate::json::{printed, JsonView};
use crate::kanban::location_of;
use crate::laws::timeline::{is_clock_time, names, strings_are_the_texts, tells};
use crate::laws::{filter_of_push, has_none, is_last};
use crate::model::{duration_text, MemberStatus, TeamConfig, TeamEventRecord, TeamMember, TeamNode, TeamTask};
use crate::split::last_n;
use crate::status::task_summary;
use crate::text::{is_blank, views};
use crate::timeline::{
    debug_timeline, event_json, inferred_node, is_debug_snapshot, is_snapshot, last_node_told,
    message_events, message_in, messages_in, node_told, recent_messages, MemberStanding,
    RealtimeMessageView, TimelineSources, UiDebugTimeline, UiRealtimeMember, UiRealtimeSnapshot,
};

verus! {

// ---------------------------------------------------------------------------
// Where members are
// ---------------------------------------------------------------------------

/// The event says on which node the member is.
pub open spec fn says_where(member: Seq<char>) -> spec_fn(TeamEventRecord) -> bool {
    |event: TeamEventRecord|
        {
            &&& {
                ||| event.event@ == "app_server_member_started"@
                ||| event.event@ == "app_server_member_reactive_started"@
                ||| event.event@ == "app_server_member_completed"@
                ||| event.event@ == "app_server_turn_steered"@
            }
            &&& tells(event.data@, "member"@, member)
            &&& exists|node: Seq<char>|
                !is_blank(node) && #[trigger] tells(event.data@, "node"@, node)
        }
}

/// A member with a node of its own is there. Any other is on the node that the last event about it
/// tells, or on the local machine where none does or no events can be read.
pub proof fn members_are_where_events_say(
    events: Seq<TeamEventRecord>,
    member: Seq<char>,
    default: Seq<char>,
    i: int,
)
    requires
        member.len() > 0,
    ensures
        default != "local"@ ==> inferred_node(Some(events), member, default) == default,
        inferred_node(None, member, default) == default,
        default == "local"@ && is_last(events, says_where(member), i) ==> tells(
            events[i].data@,
            "node"@,
            inferred_node(Some(events), member, default),
        ),
        default == "local"@ && has_none(events, says_where(member)) ==> inferred_node(
            Some(events),
            member,
            default,
        ) == default,
{
    if default == "local"@ {
        last_teller(events, member, default, i);
    }
}

proof fn last_teller(
    events: Seq<TeamEventRecord>,
    member: Seq<char>,
    default: Seq<char>,
    i: int,
)
    requires
        member.len() > 0,
    ensures
        is_last(events, says_where(member), i) ==> tells(
            events[i].data@,
            "node"@,
            last_node_told(events, member, default),
        ),
        has_none(events, says_where(member)) ==> last_node_told(events, member, default)
            == default,
    decreases events.len(),
{
    if events.len() > 0 {
        let before = events.drop_last();
        let n = events.len() - 1;
        let event = events[n];
        last_teller(before, member, default, i);
        told_or_not(event, member);
        if is_last(events, says_where(member), i) && i < n {
            assert(!says_where(member)(events[n]));
            assert forall|j: int| i < j < before.len() implies !says_where(member)(
                #[trigger] before[j],
            ) by {
                assert(before[j] == events[j]);
            }
        }
        if has_none(events, says_where(member)) {
            assert(!says_where(member)(events[n]));
            assert forall|j: int| 0 <= j < before.len() implies !says_where(member)(
                #[trigger] before[j],
            ) by {
                assert(before[j] == events[j]);
            }
        }
    }
}

proof fn told_or_not(event: TeamEventRecord, member: Seq<char>)
    requires
        member.len() > 0,
    ensures
        says_where(member)(event) <==> node_told(event, member) is Some,
        node_told(event, member) is Some ==> tells(
            event.data@,
            "node"@,
            node_told(event, member)->0,
        ),
{
    reveal_strlit("");
    if node_told(event, member) is Some {
        let node = node_told(event, member)->0;
        assert(tells(event.data@, "node"@, node));
    }
    if says_where(member)(event) {
        let node = choose|node: Seq<char>|
            !is_blank(node) && #[trigger] tells(event.data@, "node"@, node);
        assert(event.data@.text_member("node"@) == Some(node));
    }
}

/// What is shown of a member: its name, role, status and thread, its open tasks, where it is, its
/// mail, how long it waits, and the ends of its threads and its inbox.
pub proof fn members_are_shown(
    shown: UiRealtimeMember,
    member: TeamMember,
    standing: MemberStanding,
    tasks: Seq<TeamTask>,
    nodes: Seq<TeamNode>,
    events: Seq<TeamEventRecord>,
)
    requires
        shown.shows(member, standing, tasks, nodes, events),
    ensures
        shown.name@ == member.name@,
        shown.role@ == member.role@,
        shown.status@ == match member.status {
            MemberStatus::Online => "Online"@,
            MemberStatus::Running => "Running"@,
            MemberStatus::Standby => "Standby"@,
            MemberStatus::Completed => "Completed"@,
            MemberStatus::Failed => "Failed"@,
            MemberStatus::Offline => "Offline"@,
        },
        shown.task_status@ == task_summary(tasks, member.name@),
        member.node is Some ==> shown.node@ == inferred_node(
            Some(events),
            member.name@,
            member.node->0@,
        ),
        member.node is None ==> shown.node@ == inferred_node(
            Some(events),
            member.name@,
            "local"@,
        ),
        shown.location@ == location_of(nodes, shown.node@),
        shown.unread == standing.unread,
        shown.direct_unread == standing.direct_unread,
        standing.cooldown is Some ==> shown.cooldown@ == duration_text(
            standing.cooldown->0 as nat,
        ),
        standing.cooldown is None ==> shown.cooldown@.len() == 0,
        member.thread_id is Some ==> shown.thread@ == member.thread_id->0@,
        member.thread_id is None ==> shown.thread@.len() == 0,
        standing.live@.len() <= 20_000 ==> shown.live@ == standing.live@,
        standing.live@.len() > 20_000 ==> shown.live@ == "... trimmed ...\n"@
            + standing.live@.subrange(
            standing.live@.len() - 20_000,
            standing.live@.len() as int,
        ),
        standing.last@.len() <= 10_000 ==> shown.last@ == standing.last@,
        standing.last@.len() > 10_000 ==> shown.last@ == "... trimmed ...\n"@
            + standing.last@.subrange(
            standing.last@.len() - 10_000,
            standing.last@.len() as int,
        ),
        shown.inbox_tail@ == crate::messages::last_lines(standing.inbox@, 8),
{
    reveal_strlit("");
    if standing.live@.len() > 20_000 {
        assert(standing.live@.skip(standing.live@.len() - 20_000) =~= standing.live@.subrange(
            standing.live@.len() - 20_000,
            standing.live@.len() as int,
        ));
    }
    if standing.last@.len() > 10_000 {
        assert(standing.last@.skip(standing.last@.len() - 10_000) =~= standing.last@.subrange(
            standing.last@.len() - 10_000,
            standing.last@.len() as int,
        ));
    }
}

// ---------------------------------------------------------------------------
// Events and messages
// ---------------------------------------------------------------------------

/// An event is shown with its name, its time in the dashboard's clock and all its data.
pub proof fn events_are_shown_whole(event: TeamEventRecord)
    ensures
        tells(event_json(event), "event"@, event.event@),
        event_json(event) is Object,
        event_json(event)->Object_0.contains_key("timestamp"@),
        event_json(event)->Object_0["timestamp"@] is Text,
        is_clock_time(event_json(event)->Object_0["timestamp"@]->Text_0, event.timestamp@),
        event_json(event)->Object_0.contains_key("data"@),
        event_json(event)->Object_0["data"@] == event.data@,
        event_json(event)->Object_0.dom() =~= set!["event"@, "timestamp"@, "data"@],
{
    reveal_strlit("event");
    reveal_strlit("timestamp");
    reveal_strlit("data");
    assert("event"@.len() == 5 && "timestamp"@.len() == 9 && "data"@.len() == 4);
}

/// The event is about a message that was sent or taken in.
pub open spec fn is_about_mail() -> spec_fn(TeamEventRecord) -> bool {
    |event: TeamEventRecord|
        event.event@ == "message_sent"@ || event.event@ == "team_message_ingested"@
}

/// The event says who wrote what to whom.
pub open spec fn is_whole() -> spec_fn(TeamEventRecord) -> bool {
    |event: TeamEventRecord|
        {
            let data = event.data@;
            &&& exists|from: Seq<char>| #[trigger] tells(data, "from"@, from)
            &&& exists|message: Seq<char>| #[trigger] tells(data, "message"@, message)
            &&& data->Object_0.contains_key("to"@)
        }
}

/// The message is the one that the event is about.
pub open spec fn is_message_of(message: RealtimeMessageView, event: TeamEventRecord) -> bool {
    &&& message.timestamp == event.timestamp@
    &&& tells(event.data@, "from"@, message.from)
    &&& names(message.to, event.data@->Object_0["to"@])
    &&& tells(event.data@, "message"@, message.message)
}

/// The realtime view shows, of the last sixty events about messages, those that say who wrote what
/// to whom, in order.
pub proof fn recent_messages_are_shown(events: Seq<TeamEventRecord>)
    ensures
        ({
            let mail = events.filter(is_about_mail());
            let last = if mail.len() <= 60 {
                mail
            } else {
                mail.subrange(mail.len() - 60, mail.len() as int)
            };
            let whole = last.filter(is_whole());
            &&& recent_messages(events).len() == whole.len()
            &&& forall|i: int|
                0 <= i < whole.len() ==> is_message_of(
                    #[trigger] recent_messages(events)[i],
                    whole[i],
                )
        }),
{
    mail_is_mail(events);
    let mail = events.filter(is_about_mail());
    let last = if mail.len() <= 60 {
        mail
    } else {
        mail.subrange(mail.len() - 60, mail.len() as int)
    };
    assert(last_n(message_events(events), 60) =~= last);
    messages_are_whole(last);
}

proof fn mail_is_mail(events: Seq<TeamEventRecord>)
    ensures
        message_events(events) == events.filter(is_about_mail()),
    decreases events.len(),
{
    reveal(Seq::filter);
    if events.len() > 0 {
        mail_is_mail(events.drop_last());
    }
}

proof fn messages_are_whole(events: Seq<TeamEventRecord>)
    ensures
        messages_in(events).len() == events.filter(is_whole()).len(),
        forall|i: int|
            0 <= i < messages_in(events).len() ==> is_message_of(
                #[trigger] messages_in(events)[i],
                events.filter(is_whole())[i],
            ),
    decreases events.len(),
{
    reveal(Seq::filter);
    if events.len() > 0 {
        let before = events.drop_last();
        messages_are_whole(before);
        assert(events =~= before.push(events.last()));
        filter_of_push(before, events.last(), is_whole());
        one_message_is_whole(events.last());
        let out = messages_in(events);
        let whole = events.filter(is_whole());
        assert forall|i: int| 0 <= i < out.len() implies is_message_of(
            #[trigger] out[i],
            whole[i],
        ) by {
            if i < messages_in(before).len() {
                assert(out[i] == messages_in(before)[i]);
                assert(whole[i] == before.filter(is_whole())[i]);
            }
        }
    }
}

proof fn one_message_is_whole(event: TeamEventRecord)
    ensures
        is_whole()(event) <==> message_in(event) is Some,
        message_in(event) is Some ==> is_message_of(message_in(event)->0, event),
{
    let data = event.data@;
    if data.text_member("from"@) is Some {
        assert(tells(data, "from"@, data.text_member("from"@)->0));
    }
    if data.text_member("message"@) is Some {
        assert(tells(data, "message"@, data.text_member("message"@)->0));
    }
    if data.member("to"@) is Some {
        if let JsonView::Array(items) = data.member("to"@)->0 {
            strings_are_the_texts(items);
        }
    }
}

/// The snapshot names the team and its time, and shows every member in order, the last eighty events
/// and the recent messages.
pub proof fn snapshots_show_the_team(
    out: UiRealtimeSnapshot,
    config: TeamConfig,
    standings: Seq<MemberStanding>,
    tasks: Seq<TeamTask>,
    nodes: Seq<TeamNode>,
    events: Seq<TeamEventRecord>,
    now: Seq<char>,
)
    requires
        is_snapshot(out, config, standings, tasks, nodes, events, now),
        standings.len() == config.members@.len(),
    ensures
        out.team@ == config.id@,
        out.generated_at@ == now,
        out.members@.len() == config.members@.len(),
        forall|i: int|
            0 <= i < out.members@.len() ==> (#[trigger] out.members@[i]).shows(
                config.members@[i],
                standings[i],
                tasks,
                nodes,
                events,
            ),
        out.events@.len() == if events.len() <= 80 {
            events.len()
        } else {
            80
        },
        forall|i: int|
            0 <= i < out.events@.len() ==> (#[trigger] out.events@[i])@ == printed(
                event_json(events[events.len() - out.events@.len() + i]),
            ),
        out.messages@.len() == recent_messages(events).len(),
        forall|i: int|
            0 <= i < out.messages@.len() ==> (#[trigger] out.messages@[i])@ == recent_messages(
                events,
            )[i],
{
    let shown = last_n(events, 80);
    let texts = views(out.events@);
    assert(texts.len() == out.events@.len());
    assert forall|i: int| 0 <= i < out.events@.len() implies (#[trigger] out.events@[i])@
        == printed(event_json(events[events.len() - out.events@.len() + i])) by {
        assert(texts[i] == out.events@[i]@);
        assert(shown[i] == events[events.len() - shown.len() + i]);
    }
    let messages = crate::timeline::messages_view(out.messages@);
    assert(messages.len() == out.messages@.len());
    assert forall|i: int| 0 <= i < out.messages@.len() implies (#[trigger] out.messages@[i])@
        == recent_messages(events)[i] by {
        assert(messages[i] == out.messages@[i]@);
    }
}

/// The debug view names the team and its time, and shows the last six hundred entries.
pub proof fn debug_views_show_the_team(
    out: UiDebugTimeline,
    config: TeamConfig,
    sources: TimelineSources,
    now: Seq<char>,
)
    requires
        is_debug_snapshot(out, config, sources, now),
    ensures
        out.team@ == config.id@,
        out.generated_at@ == now,
        out.items@.len() == debug_timeline(sources, now, 600).len(),
        forall|i: int|
            0 <= i < out.items@.len() ==> (#[trigger] out.items@[i])@ == debug_timeline(
                sources,
                now,
                600,
            )[i],
{
    let items = crate::timeline::items_view(out.items@);
    assert(items.len() == out.items@.len());
    assert forall|i: int| 0 <= i < out.items@.len() implies (#[trigger] out.items@[i])@
        == debug_timeline(sources, now, 600)[i] by {
        assert(items[i] == out.items@[i]@);
    }
}

/// A member of whom nothing was read is shown without mail, without a wait and without threads.
pub proof fn members_without_standing_are_shown(
    out: UiRealtimeSnapshot,
    config: TeamConfig,
    standings: Seq<MemberStanding>,
    tasks: Seq<TeamTask>,
    nodes: Seq<TeamNode>,
    events: Seq<TeamEventRecord>,
    now: Seq<char>,
    i: int,
)
    requires
        is_snapshot(out, config, standings, tasks, nodes, events, now),
        standings.len() <= i < config.members@.len(),
    ensures
        out.members@[i].name@ == config.members@[i].name@,
        out.members@[i].unread == 0,
        out.members@[i].direct_unread == 0,
        out.members@[i].cooldown@.len() == 0,
        out.members@[i].live@.len() == 0,
        out.members@[i].last@.len() == 0,
{
    reveal_strlit("");
    assert(crate::timeline::shows_member(
        out.members@[i],
        i,
        config,
        standings,
        tasks,
        nodes,
        events,
    ));
}

} // verus!
