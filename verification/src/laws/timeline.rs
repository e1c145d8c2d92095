//! What the debug timeline says of its sources.

use vstd::prelude::*;

use crate::json::{printed, printed_pretty, strings_in, JsonView};
use crate::laws::{filter_of_push, ranked_keeps_items, sum_over};
use crate::model::{
    MailMessage, SideChannelContextRecord, SideChannelContextStatus, TeamEventRecord,
};
use crate::order::{ranked, text_less};
use crate::split::{has_text, join};
use crate::text::{is_blank, opt_view, views};
use crate::time::{rfc3339_at_offset, rfc3339_millis};
use crate::timeline::{
    all_mailbox_items, buffer_item, buffer_items, collected_items, debug_timeline, event_item,
    mailbox_item, mailbox_items, oldest_first, side_item, side_items, timeline_order_is_a_ranking,
    MailboxFile, ThreadBuffer, TimelineItemView, TimelineSources,
};

verus! {

// ---------------------------------------------------------------------------
// Values
// ---------------------------------------------------------------------------

/// The value has a member with this text.
pub open spec fn tells(data: JsonView, key: Seq<char>, text: Seq<char>) -> bool {
    &&& data is Object
    &&& data->Object_0.contains_key(key)
    &&& data->Object_0[key] == JsonView::Text(text)
}

/// The value has no member that is a text.
pub open spec fn keeps_quiet(data: JsonView, key: Seq<char>) -> bool {
    forall|text: Seq<char>| !#[trigger] tells(data, key, text)
}

/// The value has a member that lists these texts.
pub open spec fn lists(data: JsonView, key: Seq<char>, texts: Seq<Seq<char>>) -> bool {
    &&& data is Object
    &&& data->Object_0.contains_key(key)
    &&& data->Object_0[key] is Array
    &&& data->Object_0[key]->Array_0.len() == texts.len()
    &&& forall|i: int|
        0 <= i < texts.len() ==> #[trigger] data->Object_0[key]->Array_0[i] == JsonView::Text(
            texts[i],
        )
}

/// The value has a member that is this text, or null where there is none.
pub open spec fn tells_or_null(data: JsonView, key: Seq<char>, text: Option<Seq<char>>) -> bool {
    &&& text is Some ==> tells(data, key, text->0)
    &&& text is None ==> data is Object && data->Object_0.contains_key(key)
        && data->Object_0[key] is Null
}

/// The shown time is the timestamp in the dashboard's clock, nine hours ahead, or the timestamp
/// as it is where it cannot be read.
pub open spec fn is_clock_time(shown: Seq<char>, timestamp: Seq<char>) -> bool {
    match rfc3339_at_offset(timestamp, 32_400) {
        Some(time) => shown == time,
        None => shown == timestamp,
    }
}

/// The value is a text.
pub open spec fn is_text_value() -> spec_fn(JsonView) -> bool {
    |value: JsonView| value is Text
}

/// The text that names a recipient or a list of recipients: the texts of a list with commas
/// between them, and any other value as it is printed.
pub open spec fn names(text: Seq<char>, value: JsonView) -> bool {
    match value {
        JsonView::Text(name) => text == name,
        JsonView::Array(items) => text == join(
            items.filter(is_text_value()).map_values(|item: JsonView| item->Text_0),
            ","@,
        ),
        other => text == printed(other),
    }
}

/// The texts among values are those of the values that are texts, in order.
pub proof fn strings_are_the_texts(items: Seq<JsonView>)
    ensures
        strings_in(items) == items.filter(is_text_value()).map_values(
            |item: JsonView| item->Text_0,
        ),
    decreases items.len(),
{
    let f = |item: JsonView| item->Text_0;
    reveal(Seq::filter);
    if items.len() > 0 {
        let before = items.drop_last();
        strings_are_the_texts(before);
        assert(items =~= before.push(items.last()));
        filter_of_push(before, items.last(), is_text_value());
        assert(strings_in(items) =~= items.filter(is_text_value()).map_values(f));
    } else {
        assert(strings_in(items) =~= items.filter(is_text_value()).map_values(f));
    }
}

// ---------------------------------------------------------------------------
// Entries
// ---------------------------------------------------------------------------

/// The event is about a message.
pub open spec fn is_about_a_message(event: TeamEventRecord) -> bool {
    event.event@ == "message_sent"@ || event.event@ == "team_message_ingested"@
}

/// A name, or a word that stands for none.
pub open spec fn or_unknown(name: Seq<char>) -> Seq<char> {
    if name.len() > 0 {
        name
    } else {
        "unknown"@
    }
}

/// The entry is that of the event.
pub open spec fn is_event_entry(item: TimelineItemView, event: TeamEventRecord) -> bool {
    let data = event.data@;
    &&& is_clock_time(item.timestamp, event.timestamp@)
    &&& item.meta == data
    &&& is_about_a_message(event) && tells(data, "from"@, "system"@) ==> item.kind == "system"@
    &&& is_about_a_message(event) && !tells(data, "from"@, "system"@) ==> item.kind == "message"@
    &&& !is_about_a_message(event) && has_text(event.event@, "side_channel"@) ==> item.kind
        == "side"@
    &&& !is_about_a_message(event) && !has_text(event.event@, "side_channel"@) ==> item.kind
        == "event"@
    &&& forall|from: Seq<char>| #[trigger] tells(data, "from"@, from) ==> item.actor == from
    &&& forall|member: Seq<char>|
        keeps_quiet(data, "from"@) && #[trigger] tells(data, "member"@, member) ==> item.actor
            == member
    &&& keeps_quiet(data, "from"@) && keeps_quiet(data, "member"@) ==> item.actor.len() == 0
    &&& data is Object && data->Object_0.contains_key("to"@) ==> names(
        item.target,
        data->Object_0["to"@],
    )
    &&& !(data is Object && data->Object_0.contains_key("to"@)) ==> item.target.len() == 0
    &&& forall|message: Seq<char>| #[trigger]
        tells(data, "message"@, message) ==> item.body == message
    &&& keeps_quiet(data, "message"@) ==> item.body == match printed_pretty(data) {
        Some(text) => text,
        None => printed(data),
    }
    &&& is_about_a_message(event) ==> item.title == or_unknown(item.actor) + " -> "@ + or_unknown(
        item.target,
    )
    &&& !is_about_a_message(event) ==> item.title == event.event@
}

/// The entry is that of the message in the mailbox.
pub open spec fn is_mailbox_entry(
    item: TimelineItemView,
    mailbox: Seq<char>,
    message: MailMessage,
) -> bool {
    &&& is_clock_time(item.timestamp, message.timestamp@)
    &&& message.from@ == "system"@ ==> item.kind == "system"@
    &&& message.from@ != "system"@ ==> item.kind == "message"@
    &&& item.title == "mailbox "@ + message.from@ + " -> "@ + message.to@
    &&& item.actor == message.from@
    &&& item.target == message.to@
    &&& item.body == message.message@
    &&& tells(item.meta, "mailbox"@, mailbox)
    &&& tells(item.meta, "source"@, "mailbox_file"@)
    &&& item.meta->Object_0.contains_key("read"@)
    &&& item.meta->Object_0["read"@] == JsonView::Bool(message.read)
}

/// The name of a status.
pub open spec fn status_name(status: SideChannelContextStatus) -> Seq<char> {
    match status {
        SideChannelContextStatus::Pending => "Pending"@,
        SideChannelContextStatus::Injected => "Injected"@,
        SideChannelContextStatus::Acknowledged => "Acknowledged"@,
    }
}

/// The word for a status in the files of a team.
pub open spec fn status_word(status: SideChannelContextStatus) -> Seq<char> {
    match status {
        SideChannelContextStatus::Pending => "pending"@,
        SideChannelContextStatus::Injected => "injected"@,
        SideChannelContextStatus::Acknowledged => "acknowledged"@,
    }
}

/// The entry is that of the reply.
pub open spec fn is_side_entry(item: TimelineItemView, record: SideChannelContextRecord) -> bool {
    &&& is_clock_time(item.timestamp, record.created_at@)
    &&& item.kind == "side"@
    &&& item.title == "side-channel "@ + status_name(record.status) + " @"@ + record.member@
    &&& item.actor == record.member@
    &&& item.target == join(views(record.recipients@), ","@)
    &&& item.body == "Incoming handled:\n"@ + record.incoming_summary@ + "\n\nReply sent:\n"@
        + record.reply@
    &&& tells(item.meta, "id"@, record.id@)
    &&& tells(item.meta, "node"@, record.node@)
    &&& tells(item.meta, "source_thread"@, record.source_thread@)
    &&& tells(item.meta, "side_thread"@, record.side_thread@)
    &&& tells(item.meta, "side_turn"@, record.side_turn@)
    &&& tells(item.meta, "status"@, status_word(record.status))
    &&& lists(item.meta, "recipients"@, views(record.recipients@))
    &&& lists(item.meta, "injected_turns"@, views(record.injected_turns@))
    &&& tells_or_null(item.meta, "injected_at"@, opt_view(record.injected_at))
    &&& tells_or_null(item.meta, "acknowledged_at"@, opt_view(record.acknowledged_at))
    &&& tells(item.meta, "source"@, "side_channel_context_file"@)
}

/// The entry is that of the thread buffer. It shows all of the buffer, or its last twenty thousand
/// characters behind a note.
pub open spec fn is_buffer_entry(
    item: TimelineItemView,
    buffer: ThreadBuffer,
    directory: Seq<char>,
    kind: Seq<char>,
    now: Seq<char>,
) -> bool {
    &&& buffer.modified is Some ==> item.timestamp == buffer.modified->0@
    &&& buffer.modified is None ==> item.timestamp == now
    &&& item.kind == kind
    &&& item.title == kind + " thread buffer @"@ + buffer.member@
    &&& item.actor == buffer.member@
    &&& item.target.len() == 0
    &&& buffer.text@.len() <= 20_000 ==> item.body == buffer.text@
    &&& buffer.text@.len() > 20_000 ==> item.body == "... trimmed ...\n"@ + buffer.text@.subrange(
        buffer.text@.len() - 20_000,
        buffer.text@.len() as int,
    )
    &&& tells(item.meta, "path"@, buffer.path@)
    &&& tells(item.meta, "source"@, directory)
}

proof fn keys_of_entries_differ()
    ensures
        "mailbox"@ != "read"@,
        "mailbox"@ != "source"@,
        "read"@ != "source"@,
        "path"@ != "source"@,
        "id"@.len() == 2,
        "node"@.len() == 4,
        "source_thread"@.len() == 13,
        "side_thread"@.len() == 11,
        "side_turn"@.len() == 9,
        "recipients"@.len() == 10,
        "status"@.len() == 6,
        "source"@.len() == 6,
        "status"@ != "source"@,
        "injected_turns"@.len() == 14,
        "injected_at"@.len() == 11,
        "injected_at"@ != "side_thread"@,
        "acknowledged_at"@.len() == 15,
{
    reveal_strlit("mailbox");
    reveal_strlit("read");
    reveal_strlit("source");
    reveal_strlit("path");
    reveal_strlit("id");
    reveal_strlit("node");
    reveal_strlit("source_thread");
    reveal_strlit("side_thread");
    reveal_strlit("side_turn");
    reveal_strlit("recipients");
    reveal_strlit("status");
    reveal_strlit("injected_turns");
    reveal_strlit("injected_at");
    reveal_strlit("acknowledged_at");
    assert("mailbox"@.len() == 7 && "read"@.len() == 4 && "path"@.len() == 4);
    assert("status"@[1] == 't' && "source"@[1] == 'o');
    assert("injected_at"@[0] == 'i' && "side_thread"@[0] == 's');
}

/// Every event has its entry.
pub proof fn events_have_entries(event: TeamEventRecord)
    ensures
        is_event_entry(event_item(event), event),
{
    reveal_strlit("");
    let data = event.data@;
    let item = event_item(event);
    if data is Object && data->Object_0.contains_key("to"@) {
        if let JsonView::Array(items) = data->Object_0["to"@] {
            strings_are_the_texts(items);
        }
    }
    assert(data.text_member("from"@) is Some ==> tells(
        data,
        "from"@,
        data.text_member("from"@)->0,
    ));
    assert(data.text_member("member"@) is Some ==> tells(
        data,
        "member"@,
        data.text_member("member"@)->0,
    ));
    assert(data.text_member("message"@) is Some ==> tells(
        data,
        "message"@,
        data.text_member("message"@)->0,
    ));
}

/// Every message in a mailbox has its entry.
pub proof fn mailbox_messages_have_entries(mailbox: Seq<char>, message: MailMessage)
    ensures
        is_mailbox_entry(mailbox_item(mailbox, message), mailbox, message),
{
    keys_of_entries_differ();
}

/// Every reply beside a main turn has its entry.
pub proof fn side_replies_have_entries(record: SideChannelContextRecord)
    ensures
        is_side_entry(side_item(record), record),
{
    keys_of_entries_differ();
}

/// Every thread buffer has its entry.
pub proof fn buffers_have_entries(
    buffer: ThreadBuffer,
    directory: Seq<char>,
    kind: Seq<char>,
    now: Seq<char>,
)
    ensures
        is_buffer_entry(
            buffer_item(buffer, directory, kind, now),
            buffer,
            directory,
            kind,
            now,
        ),
{
    keys_of_entries_differ();
    reveal_strlit("");
    assert(buffer.text@.len() > 20_000 ==> buffer.text@.skip(buffer.text@.len() - 20_000)
        =~= buffer.text@.subrange(buffer.text@.len() - 20_000, buffer.text@.len() as int));
}

// ---------------------------------------------------------------------------
// The collection
// ---------------------------------------------------------------------------

/// The buffer says something.
pub open spec fn is_filled() -> spec_fn(ThreadBuffer) -> bool {
    |buffer: ThreadBuffer| !is_blank(buffer.text@)
}

/// How many things there are to show.
pub open spec fn source_count(sources: TimelineSources) -> int {
    sources.events@.len() + sum_over(
        sources.mailboxes@,
        |file: MailboxFile| file.messages@.len() as int,
    ) + sources.side_channel@.len() + sources.live@.filter(is_filled()).len()
        + sources.last@.filter(is_filled()).len()
}

proof fn mailbox_entries(files: Seq<MailboxFile>)
    ensures
        all_mailbox_items(files).len() == sum_over(
            files,
            |file: MailboxFile| file.messages@.len() as int,
        ),
        forall|f: int, m: int|
            0 <= f < files.len() && 0 <= m < files[f].messages@.len() ==> all_mailbox_items(
                files,
            ).contains(mailbox_item(files[f].name@, #[trigger] files[f].messages@[m])),
    decreases files.len(),
{
    if files.len() > 0 {
        let before = files.drop_last();
        let n = files.len() - 1;
        mailbox_entries(before);
        let head = all_mailbox_items(before);
        let tail = mailbox_items(files.last());
        let out = all_mailbox_items(files);
        assert forall|f: int, m: int|
            0 <= f < files.len() && 0 <= m < files[f].messages@.len() implies out.contains(
            mailbox_item(files[f].name@, #[trigger] files[f].messages@[m]),
        ) by {
            let item = mailbox_item(files[f].name@, files[f].messages@[m]);
            if f < n {
                assert(before[f] == files[f]);
                assert(head.contains(
                    mailbox_item(before[f].name@, before[f].messages@[m]),
                ));
                let i = choose|i: int| 0 <= i < head.len() && head[i] == item;
                assert(out[i] == item);
            } else {
                assert(tail[m] == item);
                assert(out[head.len() + m] == item);
            }
        }
    }
}

proof fn buffer_entries(
    buffers: Seq<ThreadBuffer>,
    directory: Seq<char>,
    kind: Seq<char>,
    now: Seq<char>,
)
    ensures
        buffer_items(buffers, directory, kind, now).len() == buffers.filter(is_filled()).len(),
        forall|b: int|
            0 <= b < buffers.len() && !is_blank((#[trigger] buffers[b]).text@) ==> buffer_items(
                buffers,
                directory,
                kind,
                now,
            ).contains(buffer_item(buffers[b], directory, kind, now)),
    decreases buffers.len(),
{
    reveal(Seq::filter);
    if buffers.len() > 0 {
        let before = buffers.drop_last();
        let n = buffers.len() - 1;
        buffer_entries(before, directory, kind, now);
        assert(buffers =~= before.push(buffers.last()));
        filter_of_push(before, buffers.last(), is_filled());
        let head = buffer_items(before, directory, kind, now);
        let out = buffer_items(buffers, directory, kind, now);
        assert forall|b: int|
            0 <= b < buffers.len() && !is_blank((#[trigger] buffers[b]).text@) implies out.contains(
            buffer_item(buffers[b], directory, kind, now),
        ) by {
            let item = buffer_item(buffers[b], directory, kind, now);
            if b < n {
                assert(before[b] == buffers[b]);
                assert(head.contains(item));
                let i = choose|i: int| 0 <= i < head.len() && head[i] == item;
                assert(out[i] == item);
            } else {
                assert(out[out.len() - 1] == item);
            }
        }
    }
}

proof fn part_of_concatenation<T>(a: Seq<T>, b: Seq<T>, x: T)
    ensures
        (a + b).contains(x) <==> a.contains(x) || b.contains(x),
{
    let c = a + b;
    if a.contains(x) {
        let i = choose|i: int| 0 <= i < a.len() && a[i] == x;
        assert(c[i] == x);
    }
    if b.contains(x) {
        let i = choose|i: int| 0 <= i < b.len() && b[i] == x;
        assert(c[a.len() + i] == x);
    }
    if c.contains(x) {
        let i = choose|i: int| 0 <= i < c.len() && c[i] == x;
        if i < a.len() {
            assert(a[i] == x);
        } else {
            assert(b[i - a.len()] == x);
        }
    }
}

/// The timeline holds an entry of the event.
pub open spec fn shows_event(items: Seq<TimelineItemView>, event: TeamEventRecord) -> bool {
    exists|i: int| 0 <= i < items.len() && is_event_entry(#[trigger] items[i], event)
}

/// The timeline holds an entry of the message in the mailbox.
pub open spec fn shows_mail(
    items: Seq<TimelineItemView>,
    mailbox: Seq<char>,
    message: MailMessage,
) -> bool {
    exists|i: int| 0 <= i < items.len() && is_mailbox_entry(#[trigger] items[i], mailbox, message)
}

/// The timeline holds an entry of the reply.
pub open spec fn shows_reply(items: Seq<TimelineItemView>, record: SideChannelContextRecord) -> bool {
    exists|i: int| 0 <= i < items.len() && is_side_entry(#[trigger] items[i], record)
}

/// The timeline holds an entry of the thread buffer.
pub open spec fn shows_buffer(
    items: Seq<TimelineItemView>,
    buffer: ThreadBuffer,
    directory: Seq<char>,
    kind: Seq<char>,
    now: Seq<char>,
) -> bool {
    exists|i: int|
        0 <= i < items.len() && is_buffer_entry(
            #[trigger] items[i],
            buffer,
            directory,
            kind,
            now,
        )
}

proof fn everything_is_collected(sources: TimelineSources, now: Seq<char>)
    ensures
        collected_items(sources, now).len() == source_count(sources),
        forall|e: int|
            0 <= e < sources.events@.len() ==> shows_event(
                collected_items(sources, now),
                #[trigger] sources.events@[e],
            ),
        forall|f: int, m: int|
            0 <= f < sources.mailboxes@.len() && 0 <= m < sources.mailboxes@[f].messages@.len()
                ==> shows_mail(
                collected_items(sources, now),
                sources.mailboxes@[f].name@,
                #[trigger] sources.mailboxes@[f].messages@[m],
            ),
        forall|s: int|
            0 <= s < sources.side_channel@.len() ==> shows_reply(
                collected_items(sources, now),
                #[trigger] sources.side_channel@[s],
            ),
        forall|b: int|
            0 <= b < sources.live@.len() && !is_blank((#[trigger] sources.live@[b]).text@)
                ==> shows_buffer(
                collected_items(sources, now),
                sources.live@[b],
                "live_messages"@,
                "live"@,
                now,
            ),
        forall|b: int|
            0 <= b < sources.last@.len() && !is_blank((#[trigger] sources.last@[b]).text@)
                ==> shows_buffer(
                collected_items(sources, now),
                sources.last@[b],
                "last_messages"@,
                "last"@,
                now,
            ),
{
    let all = collected_items(sources, now);
    let a = sources.events@.map_values(|event: TeamEventRecord| event_item(event));
    let b = all_mailbox_items(sources.mailboxes@);
    let c = side_items(sources.side_channel@);
    let d = buffer_items(sources.live@, "live_messages"@, "live"@, now);
    let e = buffer_items(sources.last@, "last_messages"@, "last"@, now);
    mailbox_entries(sources.mailboxes@);
    buffer_entries(sources.live@, "live_messages"@, "live"@, now);
    buffer_entries(sources.last@, "last_messages"@, "last"@, now);
    assert(all == a + b + c + d + e);
    assert forall|x: TimelineItemView|
        a.contains(x) || b.contains(x) || c.contains(x) || d.contains(x) || e.contains(
            x,
        ) implies #[trigger] all.contains(x) by {
        part_of_concatenation(a + b + c + d, e, x);
        part_of_concatenation(a + b + c, d, x);
        part_of_concatenation(a + b, c, x);
        part_of_concatenation(a, b, x);
    }
    assert forall|k: int| 0 <= k < sources.events@.len() implies shows_event(
        all,
        #[trigger] sources.events@[k],
    ) by {
        events_have_entries(sources.events@[k]);
        assert(a[k] == event_item(sources.events@[k]));
        assert(a.contains(a[k]));
        assert(all.contains(a[k]));
    }
    assert forall|f: int, m: int|
        0 <= f < sources.mailboxes@.len() && 0 <= m
            < sources.mailboxes@[f].messages@.len() implies shows_mail(
        all,
        sources.mailboxes@[f].name@,
        #[trigger] sources.mailboxes@[f].messages@[m],
    ) by {
        let message = sources.mailboxes@[f].messages@[m];
        mailbox_messages_have_entries(sources.mailboxes@[f].name@, message);
        assert(all.contains(mailbox_item(sources.mailboxes@[f].name@, message)));
    }
    assert forall|s: int| 0 <= s < sources.side_channel@.len() implies shows_reply(
        all,
        #[trigger] sources.side_channel@[s],
    ) by {
        side_replies_have_entries(sources.side_channel@[s]);
        assert(c[s] == side_item(sources.side_channel@[s]));
        assert(c.contains(c[s]));
        assert(all.contains(c[s]));
    }
    assert forall|k: int|
        0 <= k < sources.live@.len() && !is_blank(
            (#[trigger] sources.live@[k]).text@,
        ) implies shows_buffer(all, sources.live@[k], "live_messages"@, "live"@, now) by {
        buffers_have_entries(sources.live@[k], "live_messages"@, "live"@, now);
        assert(all.contains(buffer_item(sources.live@[k], "live_messages"@, "live"@, now)));
    }
    assert forall|k: int|
        0 <= k < sources.last@.len() && !is_blank(
            (#[trigger] sources.last@[k]).text@,
        ) implies shows_buffer(all, sources.last@[k], "last_messages"@, "last"@, now) by {
        buffers_have_entries(sources.last@[k], "last_messages"@, "last"@, now);
        assert(all.contains(buffer_item(sources.last@[k], "last_messages"@, "last"@, now)));
    }
}

/// Where there is no more to show than the limit, the timeline shows every event, every message in
/// a mailbox, every reply beside a main turn, and every thread buffer that is not blank, and it
/// has as many entries as there are of these.
pub proof fn timeline_shows_everything(sources: TimelineSources, now: Seq<char>, limit: nat)
    requires
        source_count(sources) <= limit,
    ensures
        debug_timeline(sources, now, limit).len() == source_count(sources),
        forall|e: int|
            0 <= e < sources.events@.len() ==> shows_event(
                debug_timeline(sources, now, limit),
                #[trigger] sources.events@[e],
            ),
        forall|f: int, m: int|
            0 <= f < sources.mailboxes@.len() && 0 <= m < sources.mailboxes@[f].messages@.len()
                ==> shows_mail(
                debug_timeline(sources, now, limit),
                sources.mailboxes@[f].name@,
                #[trigger] sources.mailboxes@[f].messages@[m],
            ),
        forall|s: int|
            0 <= s < sources.side_channel@.len() ==> shows_reply(
                debug_timeline(sources, now, limit),
                #[trigger] sources.side_channel@[s],
            ),
        forall|b: int|
            0 <= b < sources.live@.len() && !is_blank((#[trigger] sources.live@[b]).text@)
                ==> shows_buffer(
                debug_timeline(sources, now, limit),
                sources.live@[b],
                "live_messages"@,
                "live"@,
                now,
            ),
        forall|b: int|
            0 <= b < sources.last@.len() && !is_blank((#[trigger] sources.last@[b]).text@)
                ==> shows_buffer(
                debug_timeline(sources, now, limit),
                sources.last@[b],
                "last_messages"@,
                "last"@,
                now,
            ),
{
    everything_is_collected(sources, now);
    timeline_order_is_a_ranking();
    let all = collected_items(sources, now);
    ranked_keeps_items(all, oldest_first());
    let out = debug_timeline(sources, now, limit);
    assert(out == ranked(all, oldest_first()));
    assert forall|i: int| 0 <= i < all.len() implies out.contains(#[trigger] all[i]) by {
        assert(all.contains(all[i]));
    }
    assert forall|e: int| 0 <= e < sources.events@.len() implies shows_event(
        out,
        #[trigger] sources.events@[e],
    ) by {
        let event = sources.events@[e];
        assert(shows_event(all, event));
        let i = choose|i: int| 0 <= i < all.len() && is_event_entry(#[trigger] all[i], event);
        assert(out.contains(all[i]));
        let j = choose|j: int| 0 <= j < out.len() && out[j] == all[i];
        assert(is_event_entry(out[j], event));
    }
    assert forall|f: int, m: int|
        0 <= f < sources.mailboxes@.len() && 0 <= m
            < sources.mailboxes@[f].messages@.len() implies shows_mail(
        out,
        sources.mailboxes@[f].name@,
        #[trigger] sources.mailboxes@[f].messages@[m],
    ) by {
        let name = sources.mailboxes@[f].name@;
        let message = sources.mailboxes@[f].messages@[m];
        assert(shows_mail(all, name, message));
        let i = choose|i: int|
            0 <= i < all.len() && is_mailbox_entry(#[trigger] all[i], name, message);
        assert(out.contains(all[i]));
        let j = choose|j: int| 0 <= j < out.len() && out[j] == all[i];
        assert(is_mailbox_entry(out[j], name, message));
    }
    assert forall|s: int| 0 <= s < sources.side_channel@.len() implies shows_reply(
        out,
        #[trigger] sources.side_channel@[s],
    ) by {
        let record = sources.side_channel@[s];
        assert(shows_reply(all, record));
        let i = choose|i: int| 0 <= i < all.len() && is_side_entry(#[trigger] all[i], record);
        assert(out.contains(all[i]));
        let j = choose|j: int| 0 <= j < out.len() && out[j] == all[i];
        assert(is_side_entry(out[j], record));
    }
    assert forall|b: int|
        0 <= b < sources.live@.len() && !is_blank(
            (#[trigger] sources.live@[b]).text@,
        ) implies shows_buffer(out, sources.live@[b], "live_messages"@, "live"@, now) by {
        buffer_stays(all, out, sources.live@[b], "live_messages"@, "live"@, now);
    }
    assert forall|b: int|
        0 <= b < sources.last@.len() && !is_blank(
            (#[trigger] sources.last@[b]).text@,
        ) implies shows_buffer(out, sources.last@[b], "last_messages"@, "last"@, now) by {
        buffer_stays(all, out, sources.last@[b], "last_messages"@, "last"@, now);
    }
}

proof fn buffer_stays(
    all: Seq<TimelineItemView>,
    out: Seq<TimelineItemView>,
    buffer: ThreadBuffer,
    directory: Seq<char>,
    kind: Seq<char>,
    now: Seq<char>,
)
    requires
        shows_buffer(all, buffer, directory, kind, now),
        forall|i: int| 0 <= i < all.len() ==> out.contains(#[trigger] all[i]),
    ensures
        shows_buffer(out, buffer, directory, kind, now),
{
    let i = choose|i: int|
        0 <= i < all.len() && is_buffer_entry(#[trigger] all[i], buffer, directory, kind, now);
    assert(out.contains(all[i]));
    let j = choose|j: int| 0 <= j < out.len() && out[j] == all[i];
    assert(is_buffer_entry(out[j], buffer, directory, kind, now));
}

// ---------------------------------------------------------------------------
// Order
// ---------------------------------------------------------------------------

/// When an entry happened, in milliseconds; 0 where its time cannot be read.
pub open spec fn moment(item: TimelineItemView) -> int {
    match rfc3339_millis(item.timestamp) {
        Some(millis) => millis as int,
        None => 0,
    }
}

/// An entry does not come later than another: it is older, or as old and its kind comes first, or
/// of the same kind too and its title does not come later.
pub open spec fn comes_no_later(a: TimelineItemView, b: TimelineItemView) -> bool {
    ||| moment(a) < moment(b)
    ||| moment(a) == moment(b) && text_less(a.kind, b.kind)
    ||| moment(a) == moment(b) && a.kind == b.kind && !text_less(b.title, a.title)
}

/// The timeline goes from the oldest entry to the newest. Where there is more to show than the
/// limit, as many entries as the limit stay, and none that is left out is newer than one that
/// stays.
pub proof fn timeline_keeps_the_newest(sources: TimelineSources, now: Seq<char>, limit: nat)
    ensures
        forall|i: int, j: int|
            0 <= i < j < debug_timeline(sources, now, limit).len() ==> comes_no_later(
                #[trigger] debug_timeline(sources, now, limit)[i],
                #[trigger] debug_timeline(sources, now, limit)[j],
            ),
        source_count(sources) > limit ==> debug_timeline(sources, now, limit).len() == limit,
        forall|limit_too: nat, x: TimelineItemView, j: int|
            limit < limit_too && #[trigger] debug_timeline(sources, now, limit_too).contains(x)
                && !debug_timeline(sources, now, limit).contains(x) && 0 <= j < debug_timeline(
                sources,
                now,
                limit,
            ).len() ==> comes_no_later(x, #[trigger] debug_timeline(sources, now, limit)[j]),
{
    everything_is_collected(sources, now);
    timeline_order_is_a_ranking();
    crate::order::text_order_is_a_ranking();
    let less = oldest_first();
    let all = collected_items(sources, now);
    ranked_keeps_items(all, less);
    let sorted = ranked(all, less);
    let out = debug_timeline(sources, now, limit);
    let from = sorted.len() - out.len();
    assert forall|a: TimelineItemView, b: TimelineItemView| !less(b, a) implies #[trigger] comes_no_later(
        a,
        b,
    ) by {
        assert(a.kind == b.kind || text_less(a.kind, b.kind) || text_less(b.kind, a.kind));
    }
    assert forall|i: int, j: int| 0 <= i < j < out.len() implies comes_no_later(
        #[trigger] out[i],
        #[trigger] out[j],
    ) by {
        assert(out[i] == sorted[from + i] && out[j] == sorted[from + j]);
        assert(!less(sorted[from + j], sorted[from + i]));
    }
    assert forall|limit_too: nat, x: TimelineItemView, j: int|
        limit < limit_too && #[trigger] debug_timeline(sources, now, limit_too).contains(x)
            && !out.contains(x) && 0 <= j < out.len() implies comes_no_later(
        x,
        #[trigger] out[j],
    ) by {
        let more = debug_timeline(sources, now, limit_too);
        let k = choose|k: int| 0 <= k < more.len() && more[k] == x;
        let at = sorted.len() - more.len() + k;
        assert(sorted[at] == x);
        if at >= from {
            assert(out[at - from] == x);
        }
        assert(out[j] == sorted[from + j]);
        assert(!less(sorted[from + j], sorted[at]));
    }
}

} // verus!
