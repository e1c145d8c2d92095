//! Rules of the team runtime: when members are interrupted, when threads are renewed, and what
//! they are told.

use vstd::prelude::*;

use crate::http::{ascii_lower, lower, lowercase};
use crate::model::{compact_one_line, one_line, MailMessage, TeamMember, TeamPromptLanguage};
use crate::number::{decimal, usize_text};
use crate::shell::{quoted, sh_quote};
use crate::split::{
    concat, concat_all, contains, has_prefix, has_text, has_text_at, last_n, starts_with,
};
use crate::text::{chars_of, same_text, views};
use crate::token_usage::TeamTokenUsageRecord;

verus! {

// ---------------------------------------------------------------------------
// Renewing threads
// ---------------------------------------------------------------------------

/// The most tokens that a thread of an app server may use before it is renewed.
pub const MAX_APP_SERVER_THREAD_TOTAL_TOKENS: i64 = 500_000;

/// The percentage of its context window that a thread may fill before it is renewed.
pub const MAX_CONTEXT_PERCENT: i64 = 70;

/// A thread used so many tokens, or filled so much of its context window, that it is renewed.
pub open spec fn exceeds_rotation_limit(total: int, window: Option<i64>) -> bool {
    ||| total >= MAX_APP_SERVER_THREAD_TOTAL_TOKENS
    ||| match window {
        Some(window) => window > 0 && total * 100 >= window * MAX_CONTEXT_PERCENT,
        None => false,
    }
}

/// Whether a thread used so much that it is renewed.
pub fn thread_usage_exceeds_rotation_limit(record: &TeamTokenUsageRecord) -> (yes: bool)
    ensures
        yes == exceeds_rotation_limit(
            record.total.total_tokens as int,
            record.model_context_window,
        ),
{
    let total = record.total.total_tokens;
    if total >= MAX_APP_SERVER_THREAD_TOTAL_TOKENS {
        return true;
    }
    match record.model_context_window {
        Some(window) => window > 0 && total as i128 * 100 >= window as i128
            * MAX_CONTEXT_PERCENT as i128,
        None => false,
    }
}

/// A thread that has to be renewed still has to be renewed after it used more.
pub proof fn rotation_limit_is_monotone(total: int, more: int, window: Option<i64>)
    requires
        total <= more,
        exceeds_rotation_limit(total, window),
    ensures
        exceeds_rotation_limit(more, window),
{
}

// ---------------------------------------------------------------------------
// Interrupting members
// ---------------------------------------------------------------------------

/// A message of the runtime itself.
pub open spec fn is_from_system(message: MailMessage) -> bool {
    message.from@ == "system"@
}

/// All messages are nudges of the runtime, so a turn that is under way need not take them in.
pub open spec fn are_deferrable(messages: Seq<MailMessage>) -> bool {
    messages.len() > 0 && forall|i: int|
        0 <= i < messages.len() ==> is_from_system(#[trigger] messages[i])
}

/// Whether all messages are nudges of the runtime.
pub fn active_turn_messages_are_deferrable_system_nudges(messages: &Vec<MailMessage>) -> (yes:
    bool)
    ensures
        yes == are_deferrable(messages@),
{
    for i in 0..messages.len()
        invariant
            forall|j: int| 0 <= j < i ==> is_from_system(#[trigger] messages@[j]),
    {
        if !same_text(messages[i].from.as_str(), "system") {
            assert(!is_from_system(messages@[i as int]));
            return false;
        }
    }
    messages.len() > 0
}

/// The text asks something.
pub open spec fn asks(text: Seq<char>) -> bool {
    has_text(text, "?"@) || has_text(text, "？"@)
}

/// The text says that no reply is needed.
pub open spec fn waives_reply(text: Seq<char>) -> bool {
    has_text(text, "返信不要"@) || has_text(lower(text), "no reply needed"@)
}

/// A busy member answers the message at once: another member asks it something, and does not say
/// that no reply is needed.
pub open spec fn needs_fast_reply(member: Seq<char>, message: MailMessage) -> bool {
    &&& message.to@ == member
    &&& message.from@ != member
    &&& !is_from_system(message)
    &&& asks(message.message@)
    &&& !waives_reply(message.message@)
}

/// Whether a busy member answers the message at once.
pub fn side_channel_message_needs_fast_reply(member: &str, message: &MailMessage) -> (yes: bool)
    ensures
        yes == needs_fast_reply(member@, *message),
{
    let text = message.message.as_str();
    if !same_text(message.to.as_str(), member) || same_text(message.from.as_str(), member)
        || same_text(message.from.as_str(), "system") {
        return false;
    }
    if !contains(text, "?") && !contains(text, "？") {
        return false;
    }
    let lowered = lowercase(text);
    !contains(text, "返信不要") && !contains(lowered.as_str(), "no reply needed")
}

// ---------------------------------------------------------------------------
// Goals
// ---------------------------------------------------------------------------

/// The goal asks the team to go on after a round of work.
pub open spec fn requests_continuation(goal: Seq<char>) -> bool {
    ||| has_text(lower(goal), "continue iterating"@)
    ||| has_text(lower(goal), "keep iterating"@)
    ||| has_text(goal, "繰り返"@)
}

/// Whether the goal asks the team to go on after a round of work.
pub fn team_goal_requests_continuation(goal: &str) -> (yes: bool)
    ensures
        yes == requests_continuation(goal@),
{
    let lowered = lowercase(goal);
    contains(lowered.as_str(), "continue iterating") || contains(
        lowered.as_str(),
        "keep iterating",
    ) || contains(goal, "繰り返")
}

/// The word that is masked.
pub const MASKED_WORD: &'static str = "secretary";

/// The word that stands in its place.
pub const MASKING_WORD: &'static str = "coordinator";

/// A text with the masking word in place of the masked one, in whatever case that is written.
pub open spec fn masked(text: Seq<char>) -> Seq<char>
    decreases text.len(),
{
    if text.len() == 0 {
        text
    } else if has_prefix(lower(text), MASKED_WORD@) && MASKED_WORD@.len() > 0 {
        MASKING_WORD@ + masked(text.skip(MASKED_WORD@.len() as int))
    } else {
        seq![text[0]] + masked(text.drop_first())
    }
}

fn stands_at(chars: &Vec<char>, word: &Vec<char>, at: usize) -> (yes: bool)
    requires
        at <= chars@.len(),
    ensures
        yes == has_prefix(chars@.skip(at as int), word@),
{
    let ghost rest = chars@.skip(at as int);
    if chars.len() - at < word.len() {
        return false;
    }
    for i in 0..word.len()
        invariant
            at + word@.len() <= chars.len(),
            rest == chars@.skip(at as int),
            rest.take(i as int) == word@.take(i as int),
    {
        if chars[at + i] != word[i] {
            assert(rest.take(word@.len() as int)[i as int] != word@[i as int]);
            return false;
        }
        assert(rest.take(i + 1) =~= word@.take(i + 1));
    }
    assert(word@.take(word@.len() as int) =~= word@);
    true
}

/// A text with the masking word in place of the masked one.
pub fn mask_trigger_words(text: &str) -> (out: String)
    ensures
        out@ == masked(text@),
{
    let chars = chars_of(text);
    let total = chars.len();
    let lowered_text = lowercase(text);
    let lowered = chars_of(lowered_text.as_str());
    let word = chars_of(MASKED_WORD);
    proof {
        reveal_strlit("secretary");
    }
    let mut out = String::new();
    let mut at: usize = 0;
    assert(text@.skip(0) =~= text@);
    assert(out@ + masked(text@.skip(0)) =~= masked(text@));
    while at < total
        invariant
            total == chars@.len(),
            chars@ == text@,
            lowered@ == lower(text@),
            word@ == MASKED_WORD@,
            word@.len() == 9,
            at <= total,
            out@ + masked(text@.skip(at as int)) == masked(text@),
        decreases total - at,
    {
        let ghost rest = text@.skip(at as int);
        assert(lower(rest) =~= lower(text@).skip(at as int));
        let same = stands_at(&lowered, &word, at);
        let ghost before = out@;
        if same {
            out.append(MASKING_WORD);
            assert(rest.skip(word@.len() as int) =~= text@.skip(at + word@.len()));
            assert(out@ + masked(text@.skip(at + word@.len())) =~= before + masked(rest));
            at = at + word.len();
        } else {
            out.push(chars[at]);
            assert(rest.drop_first() =~= text@.skip(at + 1));
            assert(out@ + masked(text@.skip(at + 1)) =~= before + masked(rest));
            at = at + 1;
        }
    }
    assert(text@.skip(total as int) =~= seq![]);
    assert(masked(text@.skip(total as int)) =~= seq![]);
    out
}

/// The masked word is nowhere in a masked text, in whatever case.
pub proof fn masked_text_is_free_of_the_word(text: Seq<char>)
    ensures
        !has_text(lower(masked(text)), MASKED_WORD@),
    decreases text.len(),
{
    words_are_spelled();
    let word = MASKED_WORD@;
    let out = masked(text);
    if text.len() > 0 && has_prefix(lower(text), word) {
        let rest = text.skip(9);
        masked_text_is_free_of_the_word(rest);
        assert forall|i: int| !has_text_at(lower(out), word, i) by {
            if has_text_at(lower(out), word, i) {
                assert(lower(out).subrange(i, i + 9)[0] == 's');
                if i < 11 {
                    assert(lower(out)[i] == ascii_lower(MASKING_WORD@[i]));
                } else {
                    assert(lower(out).subrange(i, i + 9) =~= lower(masked(rest)).subrange(
                        i - 11,
                        i - 11 + 9,
                    ));
                    assert(has_text_at(lower(masked(rest)), word, i - 11));
                }
            }
        }
    } else if text.len() > 0 {
        let rest = text.drop_first();
        masked_text_is_free_of_the_word(rest);
        assert forall|i: int| !has_text_at(lower(out), word, i) by {
            if has_text_at(lower(out), word, i) {
                if i == 0 {
                    assert(lower(out).subrange(0, 9)[0] == 's');
                    assert(lower(out).subrange(0, 9) =~= word);
                    assert(lower(masked(rest)).take(8) =~= word.skip(1)) by {
                        assert forall|k: int| 0 <= k < 8 implies lower(masked(rest)).take(8)[k]
                            == word.skip(1)[k] by {
                            assert(lower(out).subrange(0, 9)[k + 1] == word[k + 1]);
                        }
                    }
                    masked_keeps_word_endings(rest, 1);
                    assert(lower(text).take(9) =~= word) by {
                        assert forall|k: int| 0 <= k < 9 implies lower(text).take(9)[k]
                            == word[k] by {
                            if k > 0 {
                                assert(lower(rest).take(8)[k - 1] == word.skip(1)[k - 1]);
                            }
                        }
                    }
                } else {
                    assert(lower(out).subrange(i, i + 9) =~= lower(masked(rest)).subrange(
                        i - 1,
                        i - 1 + 9,
                    ));
                    assert(has_text_at(lower(masked(rest)), word, i - 1));
                }
            }
        }
    }
}

proof fn words_are_spelled()
    ensures
        MASKED_WORD@ == seq!['s', 'e', 'c', 'r', 'e', 't', 'a', 'r', 'y'],
        MASKING_WORD@ == seq!['c', 'o', 'o', 'r', 'd', 'i', 'n', 'a', 't', 'o', 'r'],
{
    reveal_strlit("secretary");
    reveal_strlit("coordinator");
    assert(MASKED_WORD@ =~= seq!['s', 'e', 'c', 'r', 'e', 't', 'a', 'r', 'y']);
    assert(MASKING_WORD@ =~= seq!['c', 'o', 'o', 'r', 'd', 'i', 'n', 'a', 't', 'o', 'r']);
}

proof fn masked_keeps_word_endings(text: Seq<char>, j: int)
    requires
        1 <= j <= 9,
        has_prefix(lower(masked(text)), MASKED_WORD@.skip(j)),
    ensures
        has_prefix(lower(text), MASKED_WORD@.skip(j)),
    decreases 9 - j,
{
    words_are_spelled();
    let word = MASKED_WORD@;
    let ending = word.skip(j);
    let out = masked(text);
    if j < 9 {
        assert(lower(out).take(ending.len() as int)[0] == word[j]);
        assert(text.len() > 0);
        if has_prefix(lower(text), word) {
            assert(lower(out)[0] == ascii_lower(MASKING_WORD@[0]));
            if ending.len() > 1 {
                assert(lower(out).take(ending.len() as int)[1] == ending[1]);
                assert(lower(out)[1] == ascii_lower(MASKING_WORD@[1]));
            }
        } else {
            let rest = text.drop_first();
            assert(lower(masked(rest)).take(ending.len() - 1) =~= word.skip(j + 1)) by {
                assert forall|k: int| 0 <= k < ending.len() - 1 implies #[trigger] lower(
                    masked(rest),
                ).take(ending.len() - 1)[k] == word.skip(j + 1)[k] by {
                    assert(lower(out).take(ending.len() as int)[k + 1] == ending[k + 1]);
                }
            }
            masked_keeps_word_endings(rest, j + 1);
            assert(lower(text).take(ending.len() as int) =~= ending) by {
                assert forall|k: int| 0 <= k < ending.len() implies #[trigger] lower(text).take(
                    ending.len() as int,
                )[k] == ending[k] by {
                    if k > 0 {
                        assert(lower(rest).take(ending.len() - 1)[k - 1] == word.skip(j + 1)[k - 1]);
                    } else {
                        assert(lower(out)[0] == ascii_lower(text[0]));
                    }
                }
            }
        }
    } else {
        assert(ending =~= seq![]);
        assert(lower(text).take(0) =~= ending);
    }
}

// ---------------------------------------------------------------------------
// Prompts
// ---------------------------------------------------------------------------

/// The most messages that a prompt repeats.
pub const MAX_REACTIVE_PROMPT_MESSAGES: usize = 12;

/// The most characters of a message that a prompt repeats.
pub const MAX_PROMPT_MESSAGE_CHARS: usize = 1200;

/// A message as a line of a prompt.
pub open spec fn prompt_line(message: MailMessage) -> Seq<char> {
    "- @"@ + message.from@ + ": "@ + one_line(message.message@, MAX_PROMPT_MESSAGE_CHARS as nat)
        + "\n"@
}

/// Messages as lines of a prompt.
pub open spec fn prompt_lines(messages: Seq<MailMessage>) -> Seq<char> {
    concat(messages.map_values(|message: MailMessage| prompt_line(message)))
}

fn render_prompt_lines(messages: &Vec<MailMessage>, from: usize) -> (out: String)
    requires
        from <= messages@.len(),
    ensures
        out@ == prompt_lines(messages@.skip(from as int)),
{
    let ghost shown = messages@.skip(from as int);
    let ghost line = |message: MailMessage| prompt_line(message);
    let mut out: Vec<String> = Vec::new();
    for i in from..messages.len()
        invariant
            from <= i,
            from <= messages@.len(),
            shown == messages@.skip(from as int),
            line == (|message: MailMessage| prompt_line(message)),
            views(out@) == shown.map_values(line).take(i - from),
    {
        let ghost before = views(out@);
        let message = &messages[i];
        let mut text = "- @".to_string();
        text.append(message.from.as_str());
        text.append(": ");
        text.append(
            compact_one_line(message.message.as_str(), MAX_PROMPT_MESSAGE_CHARS).as_str(),
        );
        text.append("\n");
        assert(text@ == prompt_line(shown[i - from]));
        out.push(text);
        assert(views(out@) =~= before.push(text@));
        assert(views(out@) =~= shown.map_values(line).take(i + 1 - from));
    }
    assert(views(out@) =~= shown.map_values(line));
    concat_all(&out)
}

/// Who a prompt speaks to.
pub open spec fn addressee(member: TeamMember, language: TeamPromptLanguage) -> Seq<char> {
    match language {
        TeamPromptLanguage::En => "You are @"@ + member.name@ + " ("@ + member.role@ + ").\n"@,
        TeamPromptLanguage::Ja => "あなたは @"@ + member.name@ + " ("@ + member.role@
            + ") です。\n"@,
    }
}

fn render_addressee(member: &TeamMember, language: TeamPromptLanguage) -> (out: String)
    ensures
        out@ == addressee(*member, language),
{
    match language {
        TeamPromptLanguage::En => {
            let mut out = "You are @".to_string();
            out.append(member.name.as_str());
            out.append(" (");
            out.append(member.role.as_str());
            out.append(").\n");
            out
        },
        TeamPromptLanguage::Ja => {
            let mut out = "あなたは @".to_string();
            out.append(member.name.as_str());
            out.append(" (");
            out.append(member.role.as_str());
            out.append(") です。\n");
            out
        },
    }
}

/// How a member answers beside its work.
pub const SIDE_REPLY_RULES_EN: &'static str = "Your main turn keeps running. Answer the messages below in a few sentences, do not start new work, and never include TEAM_COMPLETION_CHECKLIST.\n\nMessages:\n";

/// How a member answers beside its work.
pub const SIDE_REPLY_RULES_JA: &'static str = "作業中の turn はそのまま続きます。以下のメッセージに数文で返信し、新しい作業は始めないでください。TEAM_COMPLETION_CHECKLIST を絶対に書かないでください。\n\nメッセージ:\n";

/// What a busy member is told when it answers messages beside its work.
pub open spec fn side_reply_prompt(
    member: TeamMember,
    messages: Seq<MailMessage>,
    language: TeamPromptLanguage,
) -> Seq<char> {
    let rules = match language {
        TeamPromptLanguage::En => SIDE_REPLY_RULES_EN@,
        TeamPromptLanguage::Ja => SIDE_REPLY_RULES_JA@,
    };
    addressee(member, language) + rules + prompt_lines(messages)
}

/// What a busy member is told when it answers messages beside its work.
pub fn build_side_channel_reply_prompt(
    member: &TeamMember,
    messages: &Vec<MailMessage>,
    language: TeamPromptLanguage,
) -> (out: String)
    ensures
        out@ == side_reply_prompt(*member, messages@, language),
{
    let mut out = render_addressee(member, language);
    match language {
        TeamPromptLanguage::En => out.append(SIDE_REPLY_RULES_EN),
        TeamPromptLanguage::Ja => out.append(SIDE_REPLY_RULES_JA),
    }
    assert(messages@.skip(0) =~= messages@);
    out.append(render_prompt_lines(messages, 0).as_str());
    out
}

/// How many older messages a prompt leaves out, where it leaves out any.
pub open spec fn omitted_note(omitted: nat, language: TeamPromptLanguage) -> Seq<char> {
    if omitted == 0 {
        seq![]
    } else {
        match language {
            TeamPromptLanguage::En => "- "@ + decimal(omitted)
                + " older message(s) are omitted; read the mailbox for them.\n"@,
            TeamPromptLanguage::Ja => "- 古いメッセージ "@ + decimal(omitted)
                + " 件は省略しました。mailbox で確認してください。\n"@,
        }
    }
}

/// How a member takes in messages in the middle of its work.
pub const STEER_RULES_EN: &'static str = "New team messages arrived while you work. Take them into account and go on with your task.\n\nMessages:\n";

/// How a member takes in messages in the middle of its work.
pub const STEER_RULES_JA: &'static str = "作業中に新しい team メッセージが届きました。内容を踏まえて作業を続けてください。\n\nメッセージ:\n";

/// What a member is told when messages arrive in the middle of its work: the newest messages,
/// and how many older ones there are.
pub open spec fn steer_prompt(
    member: TeamMember,
    messages: Seq<MailMessage>,
    language: TeamPromptLanguage,
) -> Seq<char> {
    let shown = last_n(messages, MAX_REACTIVE_PROMPT_MESSAGES as int);
    let rules = match language {
        TeamPromptLanguage::En => STEER_RULES_EN@,
        TeamPromptLanguage::Ja => STEER_RULES_JA@,
    };
    addressee(member, language) + rules + omitted_note(
        (messages.len() - shown.len()) as nat,
        language,
    ) + prompt_lines(shown)
}

/// What a member is told when messages arrive in the middle of its work.
pub fn build_reactive_steer_prompt(
    member: &TeamMember,
    messages: &Vec<MailMessage>,
    language: TeamPromptLanguage,
) -> (out: String)
    ensures
        out@ == steer_prompt(*member, messages@, language),
{
    let ghost shown = last_n(messages@, MAX_REACTIVE_PROMPT_MESSAGES as int);
    let omitted: usize = if messages.len() <= MAX_REACTIVE_PROMPT_MESSAGES {
        0
    } else {
        messages.len() - MAX_REACTIVE_PROMPT_MESSAGES
    };
    assert(messages@.skip(omitted as int) =~= shown);
    let mut out = render_addressee(member, language);
    match language {
        TeamPromptLanguage::En => out.append(STEER_RULES_EN),
        TeamPromptLanguage::Ja => out.append(STEER_RULES_JA),
    }
    if omitted > 0 {
        let count = usize_text(omitted);
        let mut note = String::new();
        match language {
            TeamPromptLanguage::En => {
                note.append("- ");
                note.append(count.as_str());
                note.append(" older message(s) are omitted; read the mailbox for them.\n");
            },
            TeamPromptLanguage::Ja => {
                note.append("- 古いメッセージ ");
                note.append(count.as_str());
                note.append(" 件は省略しました。mailbox で確認してください。\n");
            },
        }
        assert(note@ =~= omitted_note(omitted as nat, language));
        out.append(note.as_str());
    } else {
        assert(out@ + omitted_note(0, language) =~= out@);
    }
    out.append(render_prompt_lines(messages, omitted).as_str());
    out
}

/// A prompt repeats at most so many messages, and they are the newest.
pub proof fn steer_prompt_shows_the_newest(messages: Seq<MailMessage>)
    ensures
        ({
            let shown = last_n(messages, MAX_REACTIVE_PROMPT_MESSAGES as int);
            &&& shown.len() <= MAX_REACTIVE_PROMPT_MESSAGES
            &&& shown == messages.skip(messages.len() - shown.len())
            &&& shown.len() < messages.len() ==> shown.len() == MAX_REACTIVE_PROMPT_MESSAGES
        }),
{
    let shown = last_n(messages, MAX_REACTIVE_PROMPT_MESSAGES as int);
    assert(shown =~= messages.skip(messages.len() - shown.len()));
}

/// How the lead lays out the departments of a team.
pub const DESIGN_RULES_EN: &'static str = "You are the lead of a new team. Design the departments that the goal needs, one per line as `name:role:node`, with a coordinator for hand-offs.\n\nNodes:\n";

/// How the lead lays out the departments of a team.
pub const DESIGN_RULES_JA: &'static str = "あなたは新しい team の lead です。goal に必要な部署を 1 行に 1 つ `name:role:node` の形で設計し、引き継ぎ役の coordinator を置いてください。\n\nノード:\n";

/// Nodes as lines of a prompt.
pub open spec fn node_lines(nodes: Seq<Seq<char>>) -> Seq<char> {
    if nodes.len() == 0 {
        "- local\n"@
    } else {
        concat(nodes.map_values(|node: Seq<char>| "- "@ + node + "\n"@))
    }
}

/// What the lead of a new team is told, before words are masked.
pub open spec fn design_text(
    goal: Seq<char>,
    nodes: Seq<Seq<char>>,
    language: TeamPromptLanguage,
) -> Seq<char> {
    let rules = match language {
        TeamPromptLanguage::En => DESIGN_RULES_EN@,
        TeamPromptLanguage::Ja => DESIGN_RULES_JA@,
    };
    rules + node_lines(nodes) + "\nGoal:\n"@ + goal + "\n"@
}

/// What the lead of a new team is told. The word that would make the lead answer the user in place
/// of the team is masked.
pub open spec fn design_prompt(
    goal: Seq<char>,
    nodes: Seq<Seq<char>>,
    language: TeamPromptLanguage,
) -> Seq<char> {
    masked(design_text(goal, nodes, language))
}

/// What the lead of a new team is told.
pub fn build_lead_department_design_prompt(
    goal: &str,
    nodes: &Vec<String>,
    language: TeamPromptLanguage,
) -> (out: String)
    ensures
        out@ == design_prompt(goal@, views(nodes@), language),
        !has_text(lower(out@), MASKED_WORD@),
{
    let ghost line = |node: Seq<char>| "- "@ + node + "\n"@;
    let mut lines: Vec<String> = Vec::new();
    for i in 0..nodes.len()
        invariant
            line == (|node: Seq<char>| "- "@ + node + "\n"@),
            views(lines@) == views(nodes@).map_values(line).take(i as int),
    {
        let ghost before = views(lines@);
        let mut text = "- ".to_string();
        text.append(nodes[i].as_str());
        text.append("\n");
        assert(text@ == line(views(nodes@)[i as int]));
        lines.push(text);
        assert(views(lines@) =~= before.push(text@));
        assert(views(lines@) =~= views(nodes@).map_values(line).take(i + 1));
    }
    assert(views(lines@) =~= views(nodes@).map_values(line));
    let mut out = String::new();
    match language {
        TeamPromptLanguage::En => out.append(DESIGN_RULES_EN),
        TeamPromptLanguage::Ja => out.append(DESIGN_RULES_JA),
    }
    if nodes.len() == 0 {
        out.append("- local\n");
    } else {
        out.append(concat_all(&lines).as_str());
    }
    out.append("\nGoal:\n");
    out.append(goal);
    out.append("\n");
    assert(out@ =~= design_text(goal@, views(nodes@), language));
    proof {
        masked_text_is_free_of_the_word(out@);
    }
    mask_trigger_words(out.as_str())
}

// ---------------------------------------------------------------------------
// Scripts
// ---------------------------------------------------------------------------

/// The container belongs to the team alone: its name starts with the team's.
pub open spec fn is_team_container(team: Seq<char>, container: Seq<char>) -> bool {
    team.len() > 0 && has_prefix(container, team)
}

/// Stops the processes of a team that carry its name. The bracket keeps the search from finding
/// itself.
pub open spec fn stop_team_processes(team: Seq<char>) -> Seq<char> {
    "ps eww -eo pid=,args= | grep '[C]ODEX_TEAM_ID='"@ + quoted(team)
        + " | awk '{print $1}' | xargs -r kill 2>/dev/null || true\n"@
}

/// Stops every app server.
pub const STOP_APP_SERVERS: &'static str = "pkill -f '[c]odex app-server' 2>/dev/null || true\n";

/// What is run in a container to stop a team there. The app servers of a container that others
/// use too are left alone, unless the caller asks for all of them.
pub open spec fn cleanup_script(team: Seq<char>, container: Seq<char>, all: bool) -> Seq<char> {
    if all || is_team_container(team, container) {
        stop_team_processes(team) + STOP_APP_SERVERS@
    } else {
        stop_team_processes(team)
    }
}

/// What is run in a container to stop a team there.
pub fn container_team_cleanup_shell(team: &str, container: &str, all: bool) -> (out: String)
    ensures
        out@ == cleanup_script(team@, container@, all),
{
    let mut out = "ps eww -eo pid=,args= | grep '[C]ODEX_TEAM_ID='".to_string();
    out.append(sh_quote(team).as_str());
    out.append(" | awk '{print $1}' | xargs -r kill 2>/dev/null || true\n");
    if all || (!team.is_empty() && starts_with(container, team)) {
        out.append(STOP_APP_SERVERS);
    }
    out
}

/// Puts the helper of a team on the path of a remote host.
pub const BOOTSTRAP_HEAD: &'static str = r#"set -eu
export PATH="$HOME/bin:/usr/local/bin:/root/bin:$PATH"
mkdir -p "$HOME/bin"
helper_real="$HOME/bin/.codex-team-real"
if [ ! -x "$helper_real" ]; then
  install -m 0755 "$(command -v codex-team)" "$helper_real"
fi
cat > "$HOME/bin/codex-team" <<'CODEX_TEAM_HELPER'
#!/bin/sh
default_team="#;

/// Where the helper reports to.
pub const BOOTSTRAP_RELAY: &'static str = r#"
export CODEX_TEAM_ID="${CODEX_TEAM_ID:-$default_team}"
default_relay="#;

/// What the helper does.
pub const BOOTSTRAP_HELPER: &'static str = r#"
export CODEX_TEAM_RELAY_URL="${CODEX_TEAM_RELAY_URL:-$default_relay}"
case "${1:-} ${2:-}" in
  "wait list") exec curl -fsS "$CODEX_TEAM_RELAY_URL/wait/list" ;;
  "wait add") shift 2; exec curl -fsS --data-urlencode "args=$*" "$CODEX_TEAM_RELAY_URL/wait/add" ;;
  "wait set") shift 2; exec curl -fsS --data-urlencode "args=$*" "$CODEX_TEAM_RELAY_URL/wait/set" ;;
esac
exec timeout "${CODEX_TEAM_HELPER_TIMEOUT:-30s}" "$HOME/bin/.codex-team-real" "$@"
CODEX_TEAM_HELPER
chmod 0755 "$HOME/bin/codex-team"
if [ -w /usr/local/bin ]; then
  install -m 0755 "$helper_real" /usr/local/bin/.codex-team-real
  install -m 0755 "$HOME/bin/codex-team" /usr/local/bin/codex-team
fi
exec codex app-server --listen "#;

/// What is run on a remote host to start an app server for a team.
pub open spec fn bootstrap_script(team: Seq<char>, relay: Seq<char>, listen: Seq<char>) -> Seq<
    char,
> {
    BOOTSTRAP_HEAD@ + quoted(team) + BOOTSTRAP_RELAY@ + quoted(relay) + BOOTSTRAP_HELPER@ + quoted(
        listen,
    ) + "\n"@
}

/// What is run on a remote host to start an app server for a team.
pub fn remote_app_server_bootstrap_script(team: &str, relay: &str, listen: &str) -> (out: String)
    ensures
        out@ == bootstrap_script(team@, relay@, listen@),
{
    let mut out = BOOTSTRAP_HEAD.to_string();
    out.append(sh_quote(team).as_str());
    out.append(BOOTSTRAP_RELAY);
    out.append(sh_quote(relay).as_str());
    out.append(BOOTSTRAP_HELPER);
    out.append(sh_quote(listen).as_str());
    out.append("\n");
    out
}

} // verus!
