//! What the rules of a team come to.

use vstd::prelude::*;

use crate::http::lower;
use crate::laws::{
    ends_with, pair_at_end, piece_at_end, piece_of_itself, piece_of_left, triple_at_end,
};
use crate::model::{one_line, MailMessage, TeamMember, TeamPromptLanguage};
use crate::number::decimal;
use crate::shell::quoted;
use crate::split::{concat, has_prefix, has_text, last_n};
use crate::team_rules::{
    addressee, are_deferrable, bootstrap_script, cleanup_script, design_prompt, design_text,
    exceeds_rotation_limit, masked, needs_fast_reply, node_lines, omitted_note, prompt_line,
    prompt_lines, requests_continuation, side_reply_prompt, steer_prompt, stop_team_processes,
    BOOTSTRAP_HEAD, BOOTSTRAP_HELPER, BOOTSTRAP_RELAY, DESIGN_RULES_EN, DESIGN_RULES_JA,
    SIDE_REPLY_RULES_EN, SIDE_REPLY_RULES_JA, STEER_RULES_EN, STEER_RULES_JA, STOP_APP_SERVERS,
};

verus! {

// ---------------------------------------------------------------------------
// Decisions
// ---------------------------------------------------------------------------

/// A thread is given up once it has used half a million tokens, or seven tenths of the model's
/// window where that is known.
pub proof fn threads_are_given_up(total: int, window: i64)
    ensures
        exceeds_rotation_limit(total, None) <==> total >= 500_000,
        window > 0 ==> (exceeds_rotation_limit(total, Some(window)) <==> total >= 500_000 || 10
            * total >= 7 * window),
        window <= 0 ==> (exceeds_rotation_limit(total, Some(window)) <==> total >= 500_000),
{
}

/// Messages can wait exactly if there are any and all of them come from the system.
pub proof fn system_messages_can_wait(messages: Seq<MailMessage>, i: int)
    ensures
        messages.len() == 0 ==> !are_deferrable(messages),
        0 <= i < messages.len() && messages[i].from@ != "system"@ ==> !are_deferrable(messages),
        messages.len() > 0 && (forall|j: int|
            0 <= j < messages.len() ==> (#[trigger] messages[j]).from@ == "system"@)
            ==> are_deferrable(messages),
{
}

/// A message is answered at once exactly if it goes to the member from someone else who is not the
/// system, asks something, and does not waive the answer.
pub proof fn questions_are_answered_at_once(member: Seq<char>, message: MailMessage)
    ensures
        needs_fast_reply(member, message) <==> {
            let text = message.message@;
            &&& message.to@ == member
            &&& message.from@ != member
            &&& message.from@ != "system"@
            &&& has_text(text, "?"@) || has_text(text, "？"@)
            &&& !has_text(text, "返信不要"@)
            &&& !has_text(lower(text), "no reply needed"@)
        },
{
}

/// A goal asks to go on where it says so in one of three ways.
pub proof fn goals_ask_to_go_on(goal: Seq<char>)
    ensures
        requests_continuation(goal) <==> has_text(lower(goal), "continue iterating"@) || has_text(
            lower(goal),
            "keep iterating"@,
        ) || has_text(goal, "繰り返"@),
{
}

// ---------------------------------------------------------------------------
// Prompts
// ---------------------------------------------------------------------------

/// A prompt repeats each message on a line of its own, with its sender and no more than twelve
/// hundred characters.
pub proof fn prompts_repeat_messages(messages: Seq<MailMessage>)
    ensures
        prompt_lines(messages) == concat(
            Seq::new(messages.len(), |i: int| prompt_line(messages[i])),
        ),
        forall|i: int|
            0 <= i < messages.len() ==> #[trigger] prompt_line(messages[i]) == "- @"@
                + messages[i].from@ + ": "@ + one_line(messages[i].message@, 1200) + "\n"@,
{
    assert(messages.map_values(|message: MailMessage| prompt_line(message)) =~= Seq::new(
        messages.len(),
        |i: int| prompt_line(messages[i]),
    ));
}

/// A prompt for a reply speaks to the member in its language, gives the rules for replies, and
/// repeats all messages.
pub proof fn reply_prompts_hold_their_parts(member: TeamMember, messages: Seq<MailMessage>)
    ensures
        side_reply_prompt(member, messages, TeamPromptLanguage::En) == "You are @"@ + member.name@
            + " ("@ + member.role@ + ").\n"@ + SIDE_REPLY_RULES_EN@ + prompt_lines(messages),
        side_reply_prompt(member, messages, TeamPromptLanguage::Ja) == "あなたは @"@ + member.name@
            + " ("@ + member.role@ + ") です。\n"@ + SIDE_REPLY_RULES_JA@ + prompt_lines(messages),
{
}

/// A prompt that steers a member gives the rules for it, says how many older messages it leaves
/// out, and repeats the last twelve.
pub proof fn steer_prompts_hold_their_parts(member: TeamMember, messages: Seq<MailMessage>)
    ensures
        ({
            let shown = if messages.len() <= 12 {
                messages
            } else {
                messages.subrange(messages.len() - 12, messages.len() as int)
            };
            let left = (messages.len() - shown.len()) as nat;
            let en = steer_prompt(member, messages, TeamPromptLanguage::En);
            let ja = steer_prompt(member, messages, TeamPromptLanguage::Ja);
            &&& ends_with(en, prompt_lines(shown))
            &&& ends_with(ja, prompt_lines(shown))
            &&& has_text(en, STEER_RULES_EN@)
            &&& has_text(ja, STEER_RULES_JA@)
            &&& has_text(en, addressee(member, TeamPromptLanguage::En))
            &&& has_text(ja, addressee(member, TeamPromptLanguage::Ja))
            &&& left > 0 ==> has_text(
                en,
                "- "@ + decimal(left)
                    + " older message(s) are omitted; read the mailbox for them.\n"@,
            )
            &&& left > 0 ==> has_text(
                ja,
                "- 古いメッセージ "@ + decimal(left)
                    + " 件は省略しました。mailbox で確認してください。\n"@,
            )
            &&& left == 0 ==> omitted_note(left, TeamPromptLanguage::En).len() == 0 && omitted_note(
                left,
                TeamPromptLanguage::Ja,
            ).len() == 0
        }),
{
    broadcast use {piece_of_itself, piece_of_left, piece_at_end, pair_at_end, triple_at_end};

    let shown = if messages.len() <= 12 {
        messages
    } else {
        messages.subrange(messages.len() - 12, messages.len() as int)
    };
    assert(last_n(messages, 12) =~= shown);
    let tail = prompt_lines(shown);
    let en = steer_prompt(member, messages, TeamPromptLanguage::En);
    let ja = steer_prompt(member, messages, TeamPromptLanguage::Ja);
    assert(en.skip(en.len() - tail.len()) =~= tail);
    assert(ja.skip(ja.len() - tail.len()) =~= tail);
}

/// A prompt for designing departments gives the rules in its language, the nodes, or the local
/// machine where there are none, and the goal.
pub proof fn design_prompts_hold_their_parts(goal: Seq<char>, nodes: Seq<Seq<char>>)
    ensures
        design_text(goal, nodes, TeamPromptLanguage::En) == DESIGN_RULES_EN@ + node_lines(nodes)
            + "\nGoal:\n"@ + goal + "\n"@,
        design_text(goal, nodes, TeamPromptLanguage::Ja) == DESIGN_RULES_JA@ + node_lines(nodes)
            + "\nGoal:\n"@ + goal + "\n"@,
        nodes.len() == 0 ==> node_lines(nodes) == "- local\n"@,
        nodes.len() > 0 ==> node_lines(nodes) == concat(
            nodes.map_values(|node: Seq<char>| "- "@ + node + "\n"@),
        ),
        forall|language: TeamPromptLanguage| #[trigger]
            design_prompt(goal, nodes, language) == masked(design_text(goal, nodes, language)),
{
}

/// Masking replaces the word, in any case of letters, where it comes first, and leaves every other
/// beginning as it is.
pub proof fn the_word_is_replaced(text: Seq<char>)
    ensures
        masked(Seq::<char>::empty()).len() == 0,
        has_prefix(lower(text), "secretary"@) ==> masked(text) == "coordinator"@ + masked(
            text.skip(9),
        ),
        text.len() > 0 && !has_prefix(lower(text), "secretary"@) ==> masked(text) == seq![text[0]]
            + masked(text.skip(1)),
{
    reveal_strlit("secretary");
    assert("secretary"@.len() == 9);
    if text.len() > 0 {
        assert(text.drop_first() =~= text.skip(1));
    }
    if has_prefix(lower(text), "secretary"@) {
        assert(text.len() > 0);
    }
}

// ---------------------------------------------------------------------------
// Scripts
// ---------------------------------------------------------------------------

/// Cleaning up stops the processes of the team. The app servers are stopped too where all is to be
/// cleaned, or where the container is the team's own, as its name says.
pub proof fn cleaning_up_stops_what_is_the_teams(
    team: Seq<char>,
    container: Seq<char>,
    all: bool,
)
    ensures
        has_text(cleanup_script(team, container, all), stop_team_processes(team)),
        all || (team.len() > 0 && has_prefix(container, team)) ==> cleanup_script(
            team,
            container,
            all,
        ) == stop_team_processes(team) + STOP_APP_SERVERS@,
        !all && !(team.len() > 0 && has_prefix(container, team)) ==> cleanup_script(
            team,
            container,
            all,
        ) == stop_team_processes(team),
        has_text(stop_team_processes(team), quoted(team)),
{
    broadcast use {piece_of_itself, piece_of_left, piece_at_end, pair_at_end, triple_at_end};

}

/// The script that starts a node knows the team, its relay and the address that it listens on, each
/// quoted for the shell.
pub proof fn nodes_are_started_for_the_team(
    team: Seq<char>,
    relay: Seq<char>,
    listen: Seq<char>,
)
    ensures
        bootstrap_script(team, relay, listen) == BOOTSTRAP_HEAD@ + quoted(team) + BOOTSTRAP_RELAY@
            + quoted(relay) + BOOTSTRAP_HELPER@ + quoted(listen) + "\n"@,
{
}

} // verus!
