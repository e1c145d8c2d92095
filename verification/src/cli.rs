//! Commands of the team command line: what they decide and print.

use vstd::prelude::*;

use crate::json::{texts_json, Json, JsonView};
use crate::model::{id_of, sanitize_id, MailMessage, TeamConfig, TeamMember};
use crate::order::{ranked, stable_sort, text_comes_before, text_less, Ranking};
use crate::shell::{quoted, sh_quote};
use crate::split::{concat, concat_all, filter_of_next, split, split_at_every, split_of_piece};
use crate::text::{
    chars_of, opt_view, same_text, str_or, text_or, trim, trimmed, views,
};

verus! {

// ---------------------------------------------------------------------------
// Recipients
// ---------------------------------------------------------------------------

/// The names of members.
pub open spec fn member_names(members: Seq<TeamMember>) -> Seq<Seq<char>> {
    members.map_values(|member: TeamMember| member.name@)
}

/// Whether a list holds a text.
pub fn holds_text(strings: &Vec<String>, text: &str) -> (yes: bool)
    ensures
        yes == views(strings@).contains(text@),
{
    for i in 0..strings.len()
        invariant
            forall|j: int| 0 <= j < i ==> #[trigger] views(strings@)[j] != text@,
    {
        if same_text(strings[i].as_str(), text) {
            assert(views(strings@)[i as int] == text@);
            return true;
        }
    }
    assert(!views(strings@).contains(text@));
    false
}

/// Whether a member has the name.
pub fn is_member(members: &Vec<TeamMember>, name: &str) -> (yes: bool)
    ensures
        yes == member_names(members@).contains(name@),
{
    for i in 0..members.len()
        invariant
            forall|j: int| 0 <= j < i ==> #[trigger] member_names(members@)[j] != name@,
    {
        if same_text(members[i].name.as_str(), name) {
            assert(member_names(members@)[i as int] == name@);
            return true;
        }
    }
    assert(!member_names(members@).contains(name@));
    false
}

/// The names between commas, each once, in the order in which they first come; empty ones are
/// left out.
pub open spec fn distinct_names(parts: Seq<Seq<char>>) -> Seq<Seq<char>>
    decreases parts.len(),
{
    if parts.len() == 0 {
        seq![]
    } else {
        let before = distinct_names(parts.drop_last());
        let name = trim(parts.last());
        if name.len() == 0 || before.contains(name) {
            before
        } else {
            before.push(name)
        }
    }
}

fn distinct_parts(parts: &Vec<String>) -> (out: Vec<String>)
    ensures
        views(out@) == distinct_names(views(parts@)),
{
    let mut out: Vec<String> = Vec::new();
    assert(views(out@) =~= seq![]);
    for i in 0..parts.len()
        invariant
            views(out@) == distinct_names(views(parts@).take(i as int)),
    {
        let ghost before = views(out@);
        assert(views(parts@).take(i + 1).drop_last() =~= views(parts@).take(i as int));
        let name = trimmed(parts[i].as_str());
        let skip = name.as_str().is_empty() || holds_text(&out, name.as_str());
        if !skip {
            out.push(name);
            assert(views(out@) =~= before.push(name@));
        }
    }
    assert(views(parts@).take(parts@.len() as int) =~= views(parts@));
    out
}

/// Why a message is not sent.
#[derive(Clone, Debug, PartialEq, Eq)]
pub enum MessageError {
    UnknownMember(String),
    MixedAll,
    NoRecipient,
}

/// Why a message is not sent.
pub enum MessageErrorView {
    UnknownMember(Seq<char>),
    MixedAll,
    NoRecipient,
}

impl View for MessageError {
    type V = MessageErrorView;

    open spec fn view(&self) -> MessageErrorView {
        match self {
            MessageError::UnknownMember(name) => MessageErrorView::UnknownMember(name@),
            MessageError::MixedAll => MessageErrorView::MixedAll,
            MessageError::NoRecipient => MessageErrorView::NoRecipient,
        }
    }
}

impl MessageErrorView {
    /// What the sender is told.
    pub open spec fn text(self) -> Seq<char> {
        match self {
            MessageErrorView::UnknownMember(name) => "team member `"@ + name + "` does not exist"@,
            MessageErrorView::MixedAll => {
                "recipient `all` cannot be combined with other recipients"@
            },
            MessageErrorView::NoRecipient => "no recipient is given"@,
        }
    }
}

impl MessageError {
    /// What the sender is told.
    pub fn message(&self) -> (out: String)
        ensures
            out@ == self@.text(),
    {
        match self {
            MessageError::UnknownMember(name) => {
                let mut out = "team member `".to_string();
                out.append(name.as_str());
                out.append("` does not exist");
                out
            },
            MessageError::MixedAll => {
                "recipient `all` cannot be combined with other recipients".to_string()
            },
            MessageError::NoRecipient => "no recipient is given".to_string(),
        }
    }
}

/// Whoever a message can be addressed to: a member, or the user.
pub open spec fn is_recipient(members: Seq<Seq<char>>, name: Seq<char>) -> bool {
    name == "user"@ || members.contains(name)
}

/// The first name that no message can be addressed to.
pub open spec fn first_unknown(members: Seq<Seq<char>>, names: Seq<Seq<char>>) -> Option<Seq<char>>
    decreases names.len(),
{
    if names.len() == 0 {
        None
    } else if !is_recipient(members, names[0]) {
        Some(names[0])
    } else {
        first_unknown(members, names.drop_first())
    }
}

/// Everyone but the sender.
pub open spec fn all_but(sender: Seq<char>) -> spec_fn(Seq<char>) -> bool {
    |name: Seq<char>| name != sender
}

/// Those to whom a message goes: every other member for `all`, else those that are named.
pub open spec fn recipients_of(members: Seq<Seq<char>>, sender: Seq<char>, to: Seq<char>) -> Result<
    Seq<Seq<char>>,
    MessageErrorView,
> {
    let names = distinct_names(split(to, ','));
    if names.len() == 0 {
        Err(MessageErrorView::NoRecipient)
    } else if names.contains("all"@) {
        if names.len() == 1 {
            Ok(members.filter(all_but(sender)))
        } else {
            Err(MessageErrorView::MixedAll)
        }
    } else {
        match first_unknown(members, names) {
            Some(name) => Err(MessageErrorView::UnknownMember(name)),
            None => Ok(names),
        }
    }
}

/// A list of names or the reason why there is none.
pub open spec fn names_view(names: Result<Vec<String>, MessageError>) -> Result<
    Seq<Seq<char>>,
    MessageErrorView,
> {
    match names {
        Ok(names) => Ok(views(names@)),
        Err(error) => Err(error@),
    }
}

fn other_members(members: &Vec<TeamMember>, sender: &str) -> (out: Vec<String>)
    ensures
        views(out@) == member_names(members@).filter(all_but(sender@)),
{
    let mut out: Vec<String> = Vec::new();
    assert(views(out@) =~= member_names(members@).take(0).filter(all_but(sender@)));
    for i in 0..members.len()
        invariant
            views(out@) == member_names(members@).take(i as int).filter(all_but(sender@)),
    {
        let ghost before = views(out@);
        proof {
            filter_of_next(member_names(members@), all_but(sender@), i as int);
        }
        if !same_text(members[i].name.as_str(), sender) {
            out.push(members[i].name.clone());
            assert(views(out@) =~= before.push(member_names(members@)[i as int]));
        }
    }
    assert(member_names(members@).take(members@.len() as int) =~= member_names(members@));
    out
}

/// Those to whom a message goes.
pub fn resolve_message_recipients(config: &TeamConfig, sender: &str, to: &str) -> (names: Result<
    Vec<String>,
    MessageError,
>)
    ensures
        names_view(names) == recipients_of(member_names(config.members@), sender@, to@),
{
    let parts = split_at_every(to, ',');
    let names = distinct_parts(&parts);
    if names.len() == 0 {
        return Err(MessageError::NoRecipient);
    }
    if holds_text(&names, "all") {
        if names.len() == 1 {
            return Ok(other_members(&config.members, sender));
        }
        return Err(MessageError::MixedAll);
    }
    let ghost members = member_names(config.members@);
    let ghost all = views(names@);
    assert(all.skip(0) =~= all);
    for i in 0..names.len()
        invariant
            members == member_names(config.members@),
            all == views(names@),
            first_unknown(members, all) == first_unknown(members, all.skip(i as int)),
            recipients_of(members, sender@, to@) == (match first_unknown(members, all) {
                Some(name) => Err(MessageErrorView::UnknownMember(name)),
                None => Ok(all),
            }),
    {
        assert(all.skip(i as int)[0] == names@[i as int]@);
        assert(all.skip(i as int).drop_first() =~= all.skip(i + 1));
        let known = same_text(names[i].as_str(), "user") || is_member(
            &config.members,
            names[i].as_str(),
        );
        if !known {
            return Err(MessageError::UnknownMember(names[i].clone()));
        }
    }
    assert(all.skip(names@.len() as int) =~= seq![]);
    Ok(names)
}

/// In a team whose members have distinct names nobody gets a message twice, and everyone who gets
/// one is a member or the user.
pub proof fn recipients_are_known(members: Seq<Seq<char>>, sender: Seq<char>, to: Seq<char>)
    requires
        recipients_of(members, sender, to) is Ok,
        members.no_duplicates(),
    ensures
        recipients_of(members, sender, to)->Ok_0.no_duplicates(),
        forall|i: int|
            0 <= i < recipients_of(members, sender, to)->Ok_0.len() ==> is_recipient(
                members,
                #[trigger] recipients_of(members, sender, to)->Ok_0[i],
            ),
{
    let names = distinct_names(split(to, ','));
    let found = recipients_of(members, sender, to)->Ok_0;
    if names.contains("all"@) {
        assert forall|i: int| 0 <= i < found.len() implies is_recipient(
            members,
            #[trigger] found[i],
        ) by {
            members.lemma_filter_contains_rev(all_but(sender), found[i]);
        }
        filter_keeps_distinct(members, all_but(sender));
    } else {
        distinct_names_are_distinct(split(to, ','));
        no_unknown_means_all_known(members, names);
    }
}

proof fn filter_keeps_distinct(names: Seq<Seq<char>>, keep: spec_fn(Seq<char>) -> bool)
    requires
        names.no_duplicates(),
    ensures
        names.filter(keep).no_duplicates(),
    decreases names.len(),
{
    reveal(Seq::filter);
    if names.len() > 0 {
        let rest = names.drop_last();
        filter_keeps_distinct(rest, keep);
        let found = rest.filter(keep);
        if keep(names.last()) {
            assert forall|i: int| 0 <= i < found.len() implies #[trigger] found[i]
                != names.last() by {
                rest.lemma_filter_contains_rev(keep, found[i]);
                let j = rest.index_of(found[i]);
                assert(names[j] == found[i]);
            }
        }
    }
}

proof fn distinct_names_are_distinct(parts: Seq<Seq<char>>)
    ensures
        distinct_names(parts).no_duplicates(),
    decreases parts.len(),
{
    if parts.len() > 0 {
        distinct_names_are_distinct(parts.drop_last());
    }
}

proof fn no_unknown_means_all_known(members: Seq<Seq<char>>, names: Seq<Seq<char>>)
    requires
        first_unknown(members, names) is None,
    ensures
        forall|i: int| 0 <= i < names.len() ==> is_recipient(members, #[trigger] names[i]),
    decreases names.len(),
{
    if names.len() > 0 {
        let rest = names.drop_first();
        no_unknown_means_all_known(members, rest);
        assert forall|i: int| 0 <= i < names.len() implies is_recipient(
            members,
            #[trigger] names[i],
        ) by {
            if i > 0 {
                assert(names[i] == rest[i - 1]);
            }
        }
    }
}

// ---------------------------------------------------------------------------
// Sending
// ---------------------------------------------------------------------------

/// Whoever can send a message without being a member: the runtime and the user.
pub open spec fn is_reserved_sender(name: Seq<char>) -> bool {
    name == "system"@ || name == "user"@
}

/// What sending a message does.
#[derive(Debug)]
pub struct MessagePlan {
    /// The messages, each for the mailbox of its recipient.
    pub messages: Vec<MailMessage>,
    /// What the event log holds of it.
    pub event: Json,
    /// What the sender is told.
    pub notice: String,
}

/// The messages put the same text of the same sender into the mailboxes of the recipients.
pub open spec fn are_messages(
    messages: Seq<MailMessage>,
    sender: Seq<char>,
    recipients: Seq<Seq<char>>,
    text: Seq<char>,
    time: Seq<char>,
) -> bool {
    &&& messages.len() == recipients.len()
    &&& forall|i: int| 0 <= i < messages.len() ==> {
        let message = #[trigger] messages[i];
        &&& message.from@ == sender
        &&& message.to@ == recipients[i]
        &&& message.message@ == text
        &&& message.timestamp@ == time
        &&& !message.read
    }
}

/// What the event log holds of a message.
pub open spec fn message_event(sender: Seq<char>, recipients: Seq<Seq<char>>, text: Seq<char>) -> JsonView {
    JsonView::Object(
        Map::<Seq<char>, JsonView>::empty().insert("from"@, JsonView::Text(sender)).insert(
            "to"@,
            texts_json(recipients),
        ).insert("message"@, JsonView::Text(text)),
    )
}

/// Why a message with this sender and these recipients is not sent, or to whom it goes.
pub open spec fn delivery(members: Seq<Seq<char>>, sender: Seq<char>, to: Seq<char>) -> Result<
    Seq<Seq<char>>,
    MessageErrorView,
> {
    if !is_reserved_sender(sender) && !members.contains(sender) {
        Err(MessageErrorView::UnknownMember(sender))
    } else {
        recipients_of(members, sender, to)
    }
}

/// What sending a message does: an unread copy for every recipient, one event, and a notice.
pub open spec fn is_message_plan(
    plan: Result<MessagePlan, MessageError>,
    members: Seq<Seq<char>>,
    from: Seq<char>,
    to: Seq<char>,
    message: Seq<char>,
    time: Seq<char>,
) -> bool {
    match delivery(members, id_of(from), to) {
        Ok(recipients) => {
            &&& plan matches Ok(plan)
            &&& are_messages(plan.messages@, id_of(from), recipients, message, time)
            &&& plan.event@ == message_event(id_of(from), recipients, message)
            &&& plan.notice@ == "Message sent to "@ + to
        },
        Err(error) => plan matches Err(found) && found@ == error,
    }
}

/// What sending a message does: an unread copy for every recipient, one event, and a notice.
pub fn plan_message(config: &TeamConfig, from: &str, to: &str, message: &str, time: &str) -> (plan:
    Result<MessagePlan, MessageError>)
    ensures
        is_message_plan(plan, member_names(config.members@), from@, to@, message@, time@),
{
    let sender = sanitize_id(from);
    let reserved = same_text(sender.as_str(), "system") || same_text(sender.as_str(), "user");
    if !reserved && !is_member(&config.members, sender.as_str()) {
        return Err(MessageError::UnknownMember(sender));
    }
    let recipients = match resolve_message_recipients(config, sender.as_str(), to) {
        Ok(recipients) => recipients,
        Err(error) => return Err(error),
    };
    let mut messages: Vec<MailMessage> = Vec::new();
    for i in 0..recipients.len()
        invariant
            are_messages(
                messages@,
                sender@,
                views(recipients@).take(i as int),
                message@,
                time@,
            ),
    {
        messages.push(
            MailMessage {
                from: sender.clone(),
                to: recipients[i].clone(),
                message: message.to_string(),
                timestamp: time.to_string(),
                read: false,
            },
        );
    }
    assert(views(recipients@).take(recipients@.len() as int) =~= views(recipients@));
    let event = Json::empty_object().with_member("from", Json::text(sender.as_str())).with_member(
        "to",
        Json::texts(&recipients),
    ).with_member("message", Json::text(message));
    let mut notice = "Message sent to ".to_string();
    notice.append(to);
    Ok(MessagePlan { messages, event, notice })
}

/// A message to one member, or to the user, is delivered there and nowhere else.
pub proof fn one_name_gets_one_message(members: Seq<Seq<char>>, sender: Seq<char>, to: Seq<char>)
    requires
        is_reserved_sender(sender) || members.contains(sender),
        !to.contains(','),
        trim(to).len() > 0,
        trim(to) != "all"@,
        is_recipient(members, trim(to)),
    ensures
        delivery(members, sender, to) == Ok::<Seq<Seq<char>>, MessageErrorView>(seq![trim(to)]),
{
    split_of_piece(to, ',');
    let parts = seq![to];
    assert(parts.drop_last() =~= seq![]);
    assert(distinct_names(parts.drop_last()) =~= seq![]);
    let names = distinct_names(parts);
    assert(names =~= seq![trim(to)]);
    assert(names.drop_first() =~= seq![]);
    assert(first_unknown(members, names.drop_first()) is None);
    assert(first_unknown(members, names) is None);
}

// ---------------------------------------------------------------------------
// Lists
// ---------------------------------------------------------------------------

/// A text filled up with spaces to a width.
pub open spec fn padded(text: Seq<char>, width: nat) -> Seq<char> {
    if text.len() >= width {
        text
    } else {
        text + Seq::new((width - text.len()) as nat, |i: int| ' ')
    }
}

fn pad(text: &str, width: usize) -> (out: String)
    ensures
        out@ == padded(text@, width as nat),
{
    let chars = chars_of(text);
    let mut out = text.to_string();
    if chars.len() >= width {
        return out;
    }
    for i in chars.len()..width
        invariant
            chars@ == text@,
            text@.len() <= i <= width,
            out@ == text@ + Seq::new((i - text@.len()) as nat, |j: int| ' '),
    {
        out.push(' ');
        assert(out@ =~= text@ + Seq::new((i + 1 - text@.len()) as nat, |j: int| ' '));
    }
    assert(out@ =~= padded(text@, width as nat));
    out
}

/// A member as a line of the member list.
pub open spec fn member_line(member: TeamMember) -> Seq<char> {
    padded(member.name@, 20) + " "@ + padded(member.role@, 16) + " "@ + padded(
        text_or(member.node, "local"@),
        16,
    ) + " "@ + member.status.text() + "\n"@
}

/// A member as a line of the member list.
pub fn format_member_line(member: &TeamMember) -> (out: String)
    ensures
        out@ == member_line(*member),
{
    let mut out = pad(member.name.as_str(), 20);
    out.append(" ");
    out.append(pad(member.role.as_str(), 16).as_str());
    out.append(" ");
    out.append(pad(str_or(&member.node, "local"), 16).as_str());
    out.append(" ");
    out.append(member.status.label());
    out.append("\n");
    out
}

/// The member list.
pub open spec fn member_list(members: Seq<TeamMember>) -> Seq<char> {
    concat(members.map_values(|member: TeamMember| member_line(member)))
}

/// The member list.
pub fn format_member_list(members: &Vec<TeamMember>) -> (out: String)
    ensures
        out@ == member_list(members@),
{
    let ghost line = |member: TeamMember| member_line(member);
    let mut lines: Vec<String> = Vec::new();
    for i in 0..members.len()
        invariant
            line == (|member: TeamMember| member_line(member)),
            views(lines@) == members@.map_values(line).take(i as int),
    {
        let ghost before = views(lines@);
        let text = format_member_line(&members[i]);
        lines.push(text);
        assert(views(lines@) =~= before.push(text@));
        assert(views(lines@) =~= members@.map_values(line).take(i + 1));
    }
    assert(views(lines@) =~= members@.map_values(line));
    concat_all(&lines)
}

/// A message as a line of the inbox.
pub open spec fn inbox_line(message: MailMessage) -> Seq<char> {
    "["@ + message.timestamp@ + "] "@ + message.from@ + " -> "@ + message.to@ + ": "@
        + message.message@ + "\n"@
}

/// The inbox of a member.
pub open spec fn inbox_text(member: Seq<char>, messages: Seq<MailMessage>) -> Seq<char> {
    if messages.len() == 0 {
        "Inbox for `"@ + member + "` is empty.\n"@
    } else {
        concat(messages.map_values(|message: MailMessage| inbox_line(message)))
    }
}

/// A text that only a member gets.
pub open spec fn is_member_text(
    out: Result<String, MessageError>,
    members: Seq<Seq<char>>,
    member: Seq<char>,
    text: Seq<char>,
) -> bool {
    if members.contains(member) {
        out matches Ok(found) && found@ == text
    } else {
        out matches Err(error) && error@ == MessageErrorView::UnknownMember(member)
    }
}

/// The inbox of a member of the team.
pub fn read_inbox(config: &TeamConfig, member: &str, messages: &Vec<MailMessage>) -> (out: Result<
    String,
    MessageError,
>)
    ensures
        is_member_text(
            out,
            member_names(config.members@),
            member@,
            inbox_text(member@, messages@),
        ),
{
    if !is_member(&config.members, member) {
        return Err(MessageError::UnknownMember(member.to_string()));
    }
    if messages.len() == 0 {
        let mut out = "Inbox for `".to_string();
        out.append(member);
        out.append("` is empty.\n");
        return Ok(out);
    }
    let ghost line = |message: MailMessage| inbox_line(message);
    let mut lines: Vec<String> = Vec::new();
    for i in 0..messages.len()
        invariant
            line == (|message: MailMessage| inbox_line(message)),
            views(lines@) == messages@.map_values(line).take(i as int),
    {
        let ghost before = views(lines@);
        let message = &messages[i];
        let mut text = "[".to_string();
        text.append(message.timestamp.as_str());
        text.append("] ");
        text.append(message.from.as_str());
        text.append(" -> ");
        text.append(message.to.as_str());
        text.append(": ");
        text.append(message.message.as_str());
        text.append("\n");
        assert(text@ == inbox_line(messages@[i as int]));
        lines.push(text);
        assert(views(lines@) =~= before.push(text@));
        assert(views(lines@) =~= messages@.map_values(line).take(i + 1));
    }
    assert(views(lines@) =~= messages@.map_values(line));
    Ok(concat_all(&lines))
}

// ---------------------------------------------------------------------------
// Logs
// ---------------------------------------------------------------------------

/// The directory of a team that holds the logs asked for.
pub open spec fn log_dir_name(live: bool, last_message: bool) -> Seq<char> {
    if live {
        "live_messages"@
    } else if last_message {
        "last_messages"@
    } else {
        "logs"@
    }
}

/// The directory of a team that holds the logs asked for.
pub fn log_dir(live: bool, last_message: bool) -> (out: &'static str)
    ensures
        out@ == log_dir_name(live, last_message),
{
    if live {
        "live_messages"
    } else if last_message {
        "last_messages"
    } else {
        "logs"
    }
}

/// The file in a team's directory that holds the log of a member.
pub open spec fn log_file(member: Seq<char>, live: bool, last_message: bool) -> Seq<char> {
    log_dir_name(live, last_message) + "/"@ + id_of(member) + if live || last_message {
        ".md"@
    } else {
        ".log"@
    }
}

/// The file in a team's directory that holds the log of a member of the team.
pub fn log_path(config: &TeamConfig, member: &str, live: bool, last_message: bool) -> (out: Result<
    String,
    MessageError,
>)
    ensures
        is_member_text(
            out,
            member_names(config.members@),
            member@,
            log_file(member@, live, last_message),
        ),
{
    if !is_member(&config.members, member) {
        return Err(MessageError::UnknownMember(member.to_string()));
    }
    let mut out = log_dir(live, last_message).to_string();
    out.append("/");
    out.append(sanitize_id(member).as_str());
    if live || last_message {
        out.append(".md");
    } else {
        out.append(".log");
    }
    Ok(out)
}

/// The order of texts.
pub open spec fn by_text() -> spec_fn(String, String) -> bool {
    |a: String, b: String| text_less(a@, b@)
}

/// Ranks strings by their texts.
pub struct ByText;

impl Ranking<String> for ByText {
    open spec fn less() -> spec_fn(String, String) -> bool {
        by_text()
    }

    fn goes_before(a: &String, b: &String) -> (yes: bool) {
        text_comes_before(a.as_str(), b.as_str())
    }
}

/// The files of a directory of logs, in order.
pub open spec fn log_list(dir: Seq<char>, names: Seq<String>) -> Seq<char> {
    if names.len() == 0 {
        "No logs found.\n"@
    } else {
        concat(views(ranked(names, by_text())).map_values(|name: Seq<char>| dir + "/"@ + name + "\n"@))
    }
}

/// The files of a directory of logs, in order.
pub fn list_logs(dir: &str, names: Vec<String>) -> (out: String)
    ensures
        out@ == log_list(dir@, names@),
{
    if names.len() == 0 {
        return "No logs found.\n".to_string();
    }
    let sorted = stable_sort::<String, ByText>(names);
    let ghost line = |name: Seq<char>| dir@ + "/"@ + name + "\n"@;
    let mut lines: Vec<String> = Vec::new();
    for i in 0..sorted.len()
        invariant
            line == (|name: Seq<char>| dir@ + "/"@ + name + "\n"@),
            views(lines@) == views(sorted@).map_values(line).take(i as int),
    {
        let ghost before = views(lines@);
        let mut text = dir.to_string();
        text.append("/");
        text.append(sorted[i].as_str());
        text.append("\n");
        assert(text@ == line(views(sorted@)[i as int]));
        lines.push(text);
        assert(views(lines@) =~= before.push(text@));
        assert(views(lines@) =~= views(sorted@).map_values(line).take(i + 1));
    }
    assert(views(lines@) =~= views(sorted@).map_values(line));
    concat_all(&lines)
}

// ---------------------------------------------------------------------------
// Adding tasks
// ---------------------------------------------------------------------------

/// What the event log calls a task that was added or found.
pub open spec fn task_event_name(reused: bool) -> Seq<char> {
    if reused {
        "task_add_reused_similar_open_task"@
    } else {
        "task_created"@
    }
}

/// What the user is told of it.
pub open spec fn task_notice(id: Seq<char>, reused: bool) -> Seq<char> {
    if reused {
        "Reused task "@ + id
    } else {
        "Created task "@ + id
    }
}

/// A step that follows the adding of a task.
#[derive(Debug)]
pub enum TaskStep {
    /// An event is put into the event log.
    Record { event: &'static str, data: Json },
    /// The tasks that wait for others are looked at again.
    PromoteWaits,
    /// The team's configuration gets a new time.
    TouchConfig,
    /// The user is told.
    Notify { notice: String },
}

/// A step that follows the adding of a task.
#[verifier::ext_equal]
pub enum TaskStepView {
    Record { event: Seq<char>, data: JsonView },
    PromoteWaits,
    TouchConfig,
    Notify { notice: Seq<char> },
}

impl View for TaskStep {
    type V = TaskStepView;

    open spec fn view(&self) -> TaskStepView {
        match self {
            TaskStep::Record { event, data } => TaskStepView::Record { event: event@, data: data@ },
            TaskStep::PromoteWaits => TaskStepView::PromoteWaits,
            TaskStep::TouchConfig => TaskStepView::TouchConfig,
            TaskStep::Notify { notice } => TaskStepView::Notify { notice: notice@ },
        }
    }
}

/// What the event log holds of a task.
pub open spec fn task_event(task: JsonView) -> JsonView {
    JsonView::Object(Map::empty().insert("task"@, task))
}

/// The steps that follow the adding of a task, in order: a new task is recorded before anything
/// else happens; one that was there already is only recorded.
pub open spec fn task_steps(id: Seq<char>, task: JsonView, reused: bool) -> Seq<TaskStepView> {
    let record = TaskStepView::Record { event: task_event_name(reused), data: task_event(task) };
    let notify = TaskStepView::Notify { notice: task_notice(id, reused) };
    if reused {
        seq![record, notify]
    } else {
        seq![record, TaskStepView::PromoteWaits, TaskStepView::TouchConfig, notify]
    }
}

/// The views of a list of steps.
pub open spec fn task_steps_view(steps: Seq<TaskStep>) -> Seq<TaskStepView> {
    steps.map_values(|step: TaskStep| step@)
}

/// The steps that follow the adding of a task, in order; it is new unless a similar open one was
/// found.
pub fn plan_task_steps(id: &str, task: Json, reused: bool) -> (steps: Vec<TaskStep>)
    ensures
        task_steps_view(steps@) == task_steps(id@, task@, reused),
{
    let data = Json::empty_object().with_member("task", task);
    let mut notice = if reused {
        "Reused task ".to_string()
    } else {
        "Created task ".to_string()
    };
    notice.append(id);
    let steps = if reused {
        vec![
            TaskStep::Record { event: "task_add_reused_similar_open_task", data },
            TaskStep::Notify { notice },
        ]
    } else {
        vec![
            TaskStep::Record { event: "task_created", data },
            TaskStep::PromoteWaits,
            TaskStep::TouchConfig,
            TaskStep::Notify { notice },
        ]
    };
    assert(task_steps_view(steps@) =~= task_steps(id@, task@, reused));
    steps
}

/// The events that steps put into the event log, in order, where looking at the waits again puts
/// in `promoted`.
pub open spec fn logged_events(steps: Seq<TaskStepView>, promoted: Seq<Seq<char>>) -> Seq<Seq<char>>
    decreases steps.len(),
{
    if steps.len() == 0 {
        seq![]
    } else {
        logged_events(steps.drop_last(), promoted) + match steps.last() {
            TaskStepView::Record { event, .. } => seq![event],
            TaskStepView::PromoteWaits => promoted,
            _ => seq![],
        }
    }
}

/// The event of a new task comes before every event of a task that need not wait any longer,
/// whatever those are; a task that was there already leads to no such event.
pub proof fn a_new_task_is_logged_first(
    id: Seq<char>,
    task: JsonView,
    promoted: Seq<Seq<char>>,
)
    ensures
        logged_events(task_steps(id, task, false), promoted) == seq!["task_created"@] + promoted,
        logged_events(task_steps(id, task, true), promoted) == seq![
            "task_add_reused_similar_open_task"@,
        ],
{
    let steps = task_steps(id, task, false);
    let one = steps.take(1);
    let two = steps.take(2);
    let three = steps.take(3);
    assert(one.drop_last() =~= seq![]);
    assert(logged_events(one.drop_last(), promoted) =~= seq![]);
    assert(two.drop_last() =~= one);
    assert(three.drop_last() =~= two);
    assert(steps.drop_last() =~= three);
    assert(logged_events(one, promoted) =~= seq!["task_created"@]);
    assert(logged_events(two, promoted) =~= seq!["task_created"@] + promoted);
    assert(logged_events(three, promoted) =~= seq!["task_created"@] + promoted);
    let again = task_steps(id, task, true);
    let first = again.take(1);
    assert(first.drop_last() =~= seq![]);
    assert(logged_events(first.drop_last(), promoted) =~= seq![]);
    assert(again.drop_last() =~= first);
    assert(logged_events(first, promoted) =~= seq!["task_add_reused_similar_open_task"@]);
}

// ---------------------------------------------------------------------------
// The terminal monitor
// ---------------------------------------------------------------------------

/// The name of a monitor session: the one asked for, or one made from the team's.
pub open spec fn session_name(asked: Option<Seq<char>>, team: Seq<char>) -> Seq<char> {
    match asked {
        Some(session) => session,
        None => "codex-team-"@ + id_of(team),
    }
}

/// The name of a monitor session.
pub fn monitor_session(asked: &Option<String>, team: &str) -> (out: String)
    ensures
        out@ == session_name(opt_view(*asked), team@),
{
    match asked {
        Some(session) => session.clone(),
        None => {
            let mut out = "codex-team-".to_string();
            out.append(sanitize_id(team).as_str());
            out
        },
    }
}

/// What is done about a session of the same name.
#[derive(Clone, Debug, PartialEq, Eq)]
pub enum MonitorStart {
    /// There is none.
    Fresh,
    /// It is ended first.
    Replace,
    /// It stays, and the user is told so.
    Refuse(String),
}

/// What is done about a session that may be there already.
pub open spec fn is_monitor_start(
    start: MonitorStart,
    session: Seq<char>,
    is_there: bool,
    force: bool,
) -> bool {
    match start {
        MonitorStart::Fresh => !is_there,
        MonitorStart::Replace => is_there && force,
        MonitorStart::Refuse(text) => {
            &&& is_there && !force
            &&& text@ == "tmux session `"@ + session
                + "` already exists; pass --force or choose --session"@
        },
    }
}

/// What is done about a session of the same name.
pub fn monitor_start(session: &str, exists: bool, force: bool) -> (start: MonitorStart)
    ensures
        is_monitor_start(start, session@, exists, force),
{
    if !exists {
        MonitorStart::Fresh
    } else if force {
        MonitorStart::Replace
    } else {
        let mut text = "tmux session `".to_string();
        text.append(session);
        text.append("` already exists; pass --force or choose --session");
        MonitorStart::Refuse(text)
    }
}

/// The pane with the team's status.
pub open spec fn status_command(exe: Seq<char>, team: Seq<char>) -> Seq<char> {
    "watch -n 2 '"@ + quoted(exe) + " team status --team "@ + quoted(team) + "'"@
}

/// The pane with the team's events.
pub open spec fn events_command(dir: Seq<char>) -> Seq<char> {
    "cd "@ + quoted(dir) + " && touch events.jsonl && tail -n 80 -f events.jsonl"@
}

/// The pane with the team's mailboxes.
pub open spec fn mail_command(dir: Seq<char>) -> Seq<char> {
    "cd "@ + quoted(dir)
        + " && mkdir -p mailboxes && touch mailboxes/.keep && tail -n 40 -F mailboxes/*.jsonl"@
}

/// The pane with what the members write.
pub open spec fn live_command(dir: Seq<char>) -> Seq<char> {
    "cd "@ + quoted(dir)
        + " && mkdir -p live_messages && touch live_messages/.keep && tail -n 80 -F live_messages/*.md"@
}

/// The terminal commands that open a monitor session, in order.
pub open spec fn monitor_commands(
    session: Seq<char>,
    exe: Seq<char>,
    team: Seq<char>,
    dir: Seq<char>,
) -> Seq<Seq<Seq<char>>> {
    seq![
        seq!["new-session"@, "-d"@, "-s"@, session, "-n"@, "team"@, status_command(exe, team)],
        seq!["split-window"@, "-t"@, session, "-h"@, events_command(dir)],
        seq!["split-window"@, "-t"@, session, "-v"@, mail_command(dir)],
        seq!["select-pane"@, "-t"@, session + ":0.0"@],
        seq!["split-window"@, "-t"@, session, "-v"@, live_command(dir)],
        seq!["select-layout"@, "-t"@, session, "tiled"@],
    ]
}

/// Lists of words.
pub open spec fn commands_view(commands: Seq<Vec<String>>) -> Seq<Seq<Seq<char>>> {
    commands.map_values(|words: Vec<String>| views(words@))
}

fn split_window(session: &str, direction: &str, command: String) -> (out: Vec<String>)
    ensures
        views(out@) == seq!["split-window"@, "-t"@, session@, direction@, command@],
{
    let out = vec![
        "split-window".to_string(),
        "-t".to_string(),
        session.to_string(),
        direction.to_string(),
        command,
    ];
    assert(views(out@) =~= seq!["split-window"@, "-t"@, session@, direction@, command@]);
    out
}

/// The terminal commands that open a monitor session, in order.
pub fn plan_monitor(session: &str, exe: &str, team: &str, dir: &str) -> (commands: Vec<Vec<String>>)
    ensures
        commands_view(commands@) == monitor_commands(session@, exe@, team@, dir@),
{
    let mut status = "watch -n 2 '".to_string();
    status.append(sh_quote(exe).as_str());
    status.append(" team status --team ");
    status.append(sh_quote(team).as_str());
    status.append("'");
    let place = sh_quote(dir);
    let mut events = "cd ".to_string();
    events.append(place.as_str());
    events.append(" && touch events.jsonl && tail -n 80 -f events.jsonl");
    let mut mail = "cd ".to_string();
    mail.append(place.as_str());
    mail.append(
        " && mkdir -p mailboxes && touch mailboxes/.keep && tail -n 40 -F mailboxes/*.jsonl",
    );
    let mut live = "cd ".to_string();
    live.append(place.as_str());
    live.append(
        " && mkdir -p live_messages && touch live_messages/.keep && tail -n 80 -F live_messages/*.md",
    );
    let mut pane = session.to_string();
    pane.append(":0.0");
    let open = vec![
        "new-session".to_string(),
        "-d".to_string(),
        "-s".to_string(),
        session.to_string(),
        "-n".to_string(),
        "team".to_string(),
        status,
    ];
    let select = vec!["select-pane".to_string(), "-t".to_string(), pane];
    let layout = vec![
        "select-layout".to_string(),
        "-t".to_string(),
        session.to_string(),
        "tiled".to_string(),
    ];
    proof {
        let expected = monitor_commands(session@, exe@, team@, dir@);
        assert(views(open@) =~= expected[0]);
        assert(views(select@) =~= expected[3]);
        assert(views(layout@) =~= expected[5]);
    }
    let commands = vec![
        open,
        split_window(session, "-h", events),
        split_window(session, "-v", mail),
        select,
        split_window(session, "-v", live),
        layout,
    ];
    assert(commands_view(commands@) =~= monitor_commands(session@, exe@, team@, dir@));
    commands
}

/// What the user is told about a monitor session.
pub open spec fn monitor_text(session: Seq<char>, team: Seq<char>, dir: Seq<char>) -> Seq<char> {
    "tmux monitor: "@ + session + "\nAttach: tmux attach -t "@ + session + "\nTeam: "@ + team
        + "\nState: "@ + dir + "\n"@
}

/// What the user is told about a monitor session.
pub fn monitor_notice(session: &str, team: &str, dir: &str) -> (out: String)
    ensures
        out@ == monitor_text(session@, team@, dir@),
{
    let mut out = "tmux monitor: ".to_string();
    out.append(session);
    out.append("\nAttach: tmux attach -t ");
    out.append(session);
    out.append("\nTeam: ");
    out.append(team);
    out.append("\nState: ");
    out.append(dir);
    out.append("\n");
    out
}

// ---------------------------------------------------------------------------
// Starting servers
// ---------------------------------------------------------------------------

/// How often a new app server is asked whether it is ready.
pub const APP_SERVER_ATTEMPTS: u32 = 50;

/// What is done next about an app server.
#[derive(Clone, Debug, PartialEq, Eq)]
pub enum AppServerStep {
    /// It is used, and the user is told so.
    Use(String),
    /// It is started, after the user is told what became of the one that was registered.
    Start(Option<String>),
    /// It is asked again after a moment.
    Wait,
    /// It is given up, for this reason.
    Fail(String),
}

/// What is done next about an app server.
pub enum AppServerStepView {
    Use(Seq<char>),
    Start(Option<Seq<char>>),
    Wait,
    Fail(Seq<char>),
}

impl View for AppServerStep {
    type V = AppServerStepView;

    open spec fn view(&self) -> AppServerStepView {
        match self {
            AppServerStep::Use(notice) => AppServerStepView::Use(notice@),
            AppServerStep::Start(notice) => AppServerStepView::Start(opt_view(*notice)),
            AppServerStep::Wait => AppServerStepView::Wait,
            AppServerStep::Fail(reason) => AppServerStepView::Fail(reason@),
        }
    }
}

/// A registered app server is used where it is ready, else it is replaced.
pub open spec fn registered_step(url: Option<Seq<char>>, ready: bool) -> AppServerStepView {
    match url {
        Some(url) => if ready {
            AppServerStepView::Use("Using registered app-server: "@ + url)
        } else {
            AppServerStepView::Start(Some("Removing stale app-server registry: "@ + url))
        },
        None => AppServerStepView::Start(None),
    }
}

/// What is done about the app server that is registered.
pub fn check_registered_app_server(url: &Option<String>, ready: bool) -> (step: AppServerStep)
    ensures
        step@ == registered_step(opt_view(*url), ready),
{
    match url {
        Some(url) => if ready {
            let mut notice = "Using registered app-server: ".to_string();
            notice.append(url.as_str());
            AppServerStep::Use(notice)
        } else {
            let mut notice = "Removing stale app-server registry: ".to_string();
            notice.append(url.as_str());
            AppServerStep::Start(Some(notice))
        },
        None => AppServerStep::Start(None),
    }
}

/// A new app server is used as soon as it is ready, and given up where it exits first or is not
/// ready after the last attempt.
pub open spec fn new_server_step(
    url: Seq<char>,
    attempt: nat,
    ready: bool,
    exit: Option<Seq<char>>,
) -> AppServerStepView {
    if attempt >= APP_SERVER_ATTEMPTS {
        AppServerStepView::Fail("shared app-server did not become ready at "@ + url)
    } else if ready {
        AppServerStepView::Use("Started shared app-server: "@ + url)
    } else {
        match exit {
            Some(status) => AppServerStepView::Fail(
                "shared app-server exited early with status "@ + status,
            ),
            None => AppServerStepView::Wait,
        }
    }
}

/// What is done about a new app server after `attempt` earlier attempts.
pub fn check_new_app_server(url: &str, attempt: u32, ready: bool, exit: &Option<String>) -> (step:
    AppServerStep)
    ensures
        step@ == new_server_step(url@, attempt as nat, ready, opt_view(*exit)),
{
    if attempt >= APP_SERVER_ATTEMPTS {
        let mut reason = "shared app-server did not become ready at ".to_string();
        reason.append(url);
        return AppServerStep::Fail(reason);
    }
    if ready {
        let mut notice = "Started shared app-server: ".to_string();
        notice.append(url);
        return AppServerStep::Use(notice);
    }
    match exit {
        Some(status) => {
            let mut reason = "shared app-server exited early with status ".to_string();
            reason.append(status.as_str());
            AppServerStep::Fail(reason)
        },
        None => AppServerStep::Wait,
    }
}

/// What the user is told where the address asked for was taken.
pub open spec fn fallback_text(requested: Seq<char>, actual: Seq<char>) -> Seq<char> {
    "Requested team UI address "@ + requested + " is already in use; using "@ + actual
        + " instead."@
}

/// What the user is told where the address asked for was taken.
pub fn fallback_notice(requested: &str, actual: &str) -> (out: String)
    ensures
        out@ == fallback_text(requested@, actual@),
{
    let mut out = "Requested team UI address ".to_string();
    out.append(requested);
    out.append(" is already in use; using ");
    out.append(actual);
    out.append(" instead.");
    out
}

} // verus!
