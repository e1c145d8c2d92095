//! Team messages: the message board, the lead chat and their translation.

use vstd::prelude::*;

use crate::escape::{html, html_escape, query_text, url_encode};
use crate::json::{str_view, strings_in, Json, JsonView};
use crate::model::{id_of, id_of_is_idempotent, sanitize_id, TeamEventRecord};
use crate::split::{
    concat, concat_all, join, join_with, keep_last, last_n, lines, lines_of,
};
use crate::text::{is_blank, opt_view, same_text, text_is_blank, trim, trim_start, views};
use crate::time::{timestamp_for_ui, ui_time};

verus! {

// ---------------------------------------------------------------------------
// Reading messages out of events
// ---------------------------------------------------------------------------

/// The text of a member of an event's data, or `default` where it is not a string.
pub open spec fn data_text(data: JsonView, key: Seq<char>, default: Seq<char>) -> Seq<char> {
    match data.text_member(key) {
        Some(text) => text,
        None => default,
    }
}

fn data_str<'a>(data: &'a Json, key: &str, default: &'a str) -> (out: &'a str)
    ensures
        out@ == data_text(data@, key@, default@),
{
    match data.get_str(key) {
        Some(text) => text,
        None => default,
    }
}

/// The recipients of a message: one name, or the names of a list with `sep` between them.
pub open spec fn recipients_text(to: Option<JsonView>, sep: Seq<char>) -> Seq<char> {
    match to {
        Some(JsonView::Array(names)) => join(strings_in(names), sep),
        Some(JsonView::Text(name)) => name,
        _ => ""@,
    }
}

fn recipients_of(data: &Json, sep: &str) -> (out: String)
    ensures
        out@ == recipients_text(data@.member("to"@), sep@),
{
    match data.get("to") {
        Some(to) => match to.array_strings() {
            Some(names) => join_with(&names, sep),
            None => match to.as_str() {
                Some(name) => name.to_string(),
                None => "".to_string(),
            },
        },
        None => "".to_string(),
    }
}

/// The event records a message that was sent.
pub open spec fn is_sent(event: TeamEventRecord) -> bool {
    event.event@ == "message_sent"@
}

// ---------------------------------------------------------------------------
// The message board
// ---------------------------------------------------------------------------

/// A message on the board.
pub open spec fn board_article(event: TeamEventRecord) -> Seq<char> {
    r#"<article class="msg"><div class="msg-meta"><span>"#@ + html(ui_time(event.timestamp@))
        + r#"</span><span class="pill">"#@ + html(data_text(event.data@, "from"@, ""@)) + " -> "@
        + html(recipients_text(event.data@.member("to"@), ", "@))
        + r#"</span><span class="pill">"#@ + html(data_text(event.data@, "source"@, "mailbox"@))
        + "</span></div><div>"@ + html(data_text(event.data@, "message"@, ""@))
        + "</div></article>"@
}

fn render_board_article(event: &TeamEventRecord) -> (out: String)
    ensures
        out@ == board_article(*event),
{
    let mut out = r#"<article class="msg"><div class="msg-meta"><span>"#.to_string();
    out.append(html_escape(timestamp_for_ui(event.timestamp.as_str()).as_str()).as_str());
    out.append(r#"</span><span class="pill">"#);
    out.append(html_escape(data_str(&event.data, "from", "")).as_str());
    out.append(" -> ");
    out.append(html_escape(recipients_of(&event.data, ", ").as_str()).as_str());
    out.append(r#"</span><span class="pill">"#);
    out.append(html_escape(data_str(&event.data, "source", "mailbox")).as_str());
    out.append("</span></div><div>");
    out.append(html_escape(data_str(&event.data, "message", "")).as_str());
    out.append("</div></article>");
    out
}

/// The messages that were sent, as articles.
pub open spec fn board_articles(events: Seq<TeamEventRecord>) -> Seq<Seq<char>>
    decreases events.len(),
{
    if events.len() == 0 {
        seq![]
    } else if is_sent(events.last()) {
        board_articles(events.drop_last()).push(board_article(events.last()))
    } else {
        board_articles(events.drop_last())
    }
}

/// Articles one after the other, or a note where there are none.
pub open spec fn articles_or(articles: Seq<Seq<char>>, note: Seq<char>) -> Seq<char> {
    if articles.len() == 0 {
        note
    } else {
        concat(articles)
    }
}

fn join_articles(articles: &Vec<String>, note: &str) -> (out: String)
    ensures
        out@ == articles_or(views(articles@), note@),
{
    if articles.len() == 0 {
        note.to_string()
    } else {
        concat_all(articles)
    }
}

/// The message board: a form that asks for a translation, the translation panel, and the last
/// eighty messages.
pub open spec fn message_board(
    events: Seq<TeamEventRecord>,
    team: Seq<char>,
    language: Seq<char>,
    translation: Seq<char>,
) -> Seq<char> {
    "<form method=\"post\" action=\"/translate\" class=\"translate-form\">\n<input type=\"hidden\" name=\"team\" value=\""@
        + html(team) + "\">\n<label>Translate to <select name=\"language\">"@ + language_options(
        known_language(language),
    )
        + "</select></label>\n<button type=\"submit\">Translate</button>\n</form>\n"@
        + translation + "\n<div class=\"messages\">"@ + articles_or(
        last_n(board_articles(events), 80),
        "<p>No team messages yet.</p>"@,
    ) + "</div>"@
}

/// The message board; `translation` is the translation panel for the language.
pub fn render_message_board(
    events: &Vec<TeamEventRecord>,
    team: &str,
    language: &str,
    translation: &str,
) -> (out: String)
    ensures
        out@ == message_board(events@, team@, language@, translation@),
{
    let mut articles: Vec<String> = Vec::new();
    assert(views(articles@) =~= board_articles(events@.take(0)));
    for i in 0..events.len()
        invariant
            views(articles@) == board_articles(events@.take(i as int)),
    {
        let ghost before = views(articles@);
        assert(events@.take(i + 1).drop_last() =~= events@.take(i as int));
        if same_text(events[i].event.as_str(), "message_sent") {
            let article = render_board_article(&events[i]);
            articles.push(article);
            assert(views(articles@) =~= before.push(article@));
        }
    }
    assert(events@.take(events@.len() as int) =~= events@);
    let shown = keep_last(articles, 80);
    let selected = normalize_translation_language(language);
    let mut out = "<form method=\"post\" action=\"/translate\" class=\"translate-form\">\n<input type=\"hidden\" name=\"team\" value=\"".to_string();
    out.append(html_escape(team).as_str());
    out.append("\">\n<label>Translate to <select name=\"language\">");
    out.append(render_language_options(selected.as_str()).as_str());
    out.append("</select></label>\n<button type=\"submit\">Translate</button>\n</form>\n");
    out.append(translation);
    out.append("\n<div class=\"messages\">");
    out.append(join_articles(&shown, "<p>No team messages yet.</p>").as_str());
    out.append("</div>");
    out
}

// ---------------------------------------------------------------------------
// The lead chat
// ---------------------------------------------------------------------------

/// The name is that of the user or the lead.
pub open spec fn is_user_or_lead(name: Seq<char>) -> bool {
    name == "user"@ || name == "lead"@
}

/// One of the recipients is the user or the lead.
pub open spec fn reaches_user_or_lead(to: Option<JsonView>) -> bool {
    match to {
        Some(JsonView::Array(names)) => exists|i: int|
            0 <= i < strings_in(names).len() && is_user_or_lead(#[trigger] strings_in(names)[i]),
        Some(JsonView::Text(name)) => is_user_or_lead(name),
        _ => false,
    }
}

/// The message belongs to the chat between the user and the lead.
pub open spec fn is_lead_chat(event: TeamEventRecord) -> bool {
    is_sent(event) && (is_user_or_lead(data_text(event.data@, "from"@, ""@))
        || reaches_user_or_lead(event.data@.member("to"@)))
}

fn name_is_user_or_lead(name: &str) -> (yes: bool)
    ensures
        yes == is_user_or_lead(name@),
{
    same_text(name, "user") || same_text(name, "lead")
}

fn data_reaches_user_or_lead(data: &Json) -> (yes: bool)
    ensures
        yes == reaches_user_or_lead(data@.member("to"@)),
{
    match data.get("to") {
        Some(to) => match to.array_strings() {
            Some(names) => {
                let ghost all = strings_in(to@->Array_0);
                for i in 0..names.len()
                    invariant
                        data@.member("to"@) == Some(to@),
                        to@ is Array,
                        all == strings_in(to@->Array_0),
                        all == views(names@),
                        forall|j: int| 0 <= j < i ==> !is_user_or_lead(#[trigger] all[j]),
                {
                    if name_is_user_or_lead(names[i].as_str()) {
                        assert(is_user_or_lead(all[i as int]));
                        return true;
                    }
                }
                false
            },
            None => match to.as_str() {
                Some(name) => name_is_user_or_lead(name),
                None => false,
            },
        },
        None => false,
    }
}

fn event_is_lead_chat(event: &TeamEventRecord) -> (yes: bool)
    ensures
        yes == is_lead_chat(*event),
{
    same_text(event.event.as_str(), "message_sent") && (name_is_user_or_lead(
        data_str(&event.data, "from", ""),
    ) || data_reaches_user_or_lead(&event.data))
}

/// A message of the lead chat.
pub open spec fn chat_article(event: TeamEventRecord) -> Seq<char> {
    let from = data_text(event.data@, "from"@, ""@);
    r#"<article class="msg chat-"#@ + (if from == "user"@ {
        "user"@
    } else {
        "lead"@
    }) + r#""><div class="msg-meta"><span>"#@ + html(ui_time(event.timestamp@))
        + r#"</span><span class="pill">"#@ + html(from) + " -> "@ + html(
        recipients_text(event.data@.member("to"@), ", "@),
    ) + "</span></div><div>"@ + html(data_text(event.data@, "message"@, ""@))
        + "</div></article>"@
}

fn render_chat_article(event: &TeamEventRecord) -> (out: String)
    ensures
        out@ == chat_article(*event),
{
    let from = data_str(&event.data, "from", "");
    let mut out = r#"<article class="msg chat-"#.to_string();
    if same_text(from, "user") {
        out.append("user");
    } else {
        out.append("lead");
    }
    out.append(r#""><div class="msg-meta"><span>"#);
    out.append(html_escape(timestamp_for_ui(event.timestamp.as_str()).as_str()).as_str());
    out.append(r#"</span><span class="pill">"#);
    out.append(html_escape(from).as_str());
    out.append(" -> ");
    out.append(html_escape(recipients_of(&event.data, ", ").as_str()).as_str());
    out.append("</span></div><div>");
    out.append(html_escape(data_str(&event.data, "message", "")).as_str());
    out.append("</div></article>");
    out
}

/// The messages of the lead chat, as articles.
pub open spec fn chat_articles(events: Seq<TeamEventRecord>) -> Seq<Seq<char>>
    decreases events.len(),
{
    if events.len() == 0 {
        seq![]
    } else if is_lead_chat(events.last()) {
        chat_articles(events.drop_last()).push(chat_article(events.last()))
    } else {
        chat_articles(events.drop_last())
    }
}

/// The last lines of a text.
pub open spec fn last_lines(text: Seq<char>, n: nat) -> Seq<char> {
    join(last_n(lines(text), n as int), "\n"@)
}

/// The last lines of a text.
pub fn tail_lines(text: &str, n: usize) -> (out: String)
    ensures
        out@ == last_lines(text@, n as nat),
{
    let all = lines_of(text);
    let kept = keep_last(all, n);
    join_with(&kept, "\n")
}

/// The lead's live thread, where there is something in it.
pub open spec fn lead_thread(live: Option<Seq<char>>) -> Seq<char> {
    match live {
        Some(text) => if is_blank(text) {
            ""@
        } else {
            r#"<details class="lead-live"><summary>Lead Thread</summary><pre>"#@ + html(
                last_lines(text, 80),
            ) + "</pre></details>"@
        },
        None => ""@,
    }
}

fn render_lead_thread(live: &Option<String>) -> (out: String)
    ensures
        out@ == lead_thread(opt_view(*live)),
{
    match live {
        Some(text) => if text_is_blank(text.as_str()) {
            "".to_string()
        } else {
            let mut out = r#"<details class="lead-live"><summary>Lead Thread</summary><pre>"#.to_string();
            out.append(html_escape(tail_lines(text.as_str(), 80).as_str()).as_str());
            out.append("</pre></details>");
            out
        },
        None => "".to_string(),
    }
}

/// The lead chat: a form, the last thirty messages, and the lead's live thread.
pub open spec fn lead_chat(
    events: Seq<TeamEventRecord>,
    team: Seq<char>,
    live: Option<Seq<char>>,
) -> Seq<char> {
    "<form method=\"post\" action=\"/message\" class=\"lead-chat-form\">\n<input type=\"hidden\" name=\"team\" value=\""@
        + html(team)
        + "\">\n<input type=\"hidden\" name=\"to\" value=\"lead\">\n<label>Message to lead <textarea name=\"message\" rows=\"5\" placeholder=\"追加指示、方針変更、確認したいことを書いてください\"></textarea></label>\n<button type=\"submit\">Send to Lead</button>\n</form>\n<div class=\"messages lead-chat\">"@
        + articles_or(last_n(chat_articles(events), 30), "<p>No lead chat yet.</p>"@) + "</div>"@
        + lead_thread(live)
}

/// The lead chat; `live` is the lead's live thread, where it can be read.
pub fn render_lead_chat(events: &Vec<TeamEventRecord>, team: &str, live: &Option<String>) -> (out:
    String)
    ensures
        out@ == lead_chat(events@, team@, opt_view(*live)),
{
    let mut articles: Vec<String> = Vec::new();
    assert(views(articles@) =~= chat_articles(events@.take(0)));
    for i in 0..events.len()
        invariant
            views(articles@) == chat_articles(events@.take(i as int)),
    {
        let ghost before = views(articles@);
        assert(events@.take(i + 1).drop_last() =~= events@.take(i as int));
        if event_is_lead_chat(&events[i]) {
            let article = render_chat_article(&events[i]);
            articles.push(article);
            assert(views(articles@) =~= before.push(article@));
        }
    }
    assert(events@.take(events@.len() as int) =~= events@);
    let shown = keep_last(articles, 30);
    let mut out = "<form method=\"post\" action=\"/message\" class=\"lead-chat-form\">\n<input type=\"hidden\" name=\"team\" value=\"".to_string();
    out.append(html_escape(team).as_str());
    out.append(
        "\">\n<input type=\"hidden\" name=\"to\" value=\"lead\">\n<label>Message to lead <textarea name=\"message\" rows=\"5\" placeholder=\"追加指示、方針変更、確認したいことを書いてください\"></textarea></label>\n<button type=\"submit\">Send to Lead</button>\n</form>\n<div class=\"messages lead-chat\">",
    );
    out.append(join_articles(&shown, "<p>No lead chat yet.</p>").as_str());
    out.append("</div>");
    out.append(render_lead_thread(live).as_str());
    out
}

// ---------------------------------------------------------------------------
// Translation
// ---------------------------------------------------------------------------

/// The languages into which messages are translated: their codes and their names.
pub open spec fn languages() -> Seq<(Seq<char>, Seq<char>)> {
    seq![
        ("ja"@, "Japanese"@),
        ("en"@, "English"@),
        ("ko"@, "Korean"@),
        ("zh"@, "Chinese"@),
        ("es"@, "Spanish"@),
        ("fr"@, "French"@),
        ("de"@, "German"@),
    ]
}

/// The codes and the names of a list of languages.
pub open spec fn languages_view(list: Seq<(&'static str, &'static str)>) -> Seq<
    (Seq<char>, Seq<char>),
> {
    list.map_values(|language: (&'static str, &'static str)| (language.0@, language.1@))
}

/// The languages into which messages are translated.
pub fn translation_languages() -> (out: Vec<(&'static str, &'static str)>)
    ensures
        languages_view(out@) == languages(),
{
    let mut out: Vec<(&'static str, &'static str)> = Vec::new();
    out.push(("ja", "Japanese"));
    out.push(("en", "English"));
    out.push(("ko", "Korean"));
    out.push(("zh", "Chinese"));
    out.push(("es", "Spanish"));
    out.push(("fr", "French"));
    out.push(("de", "German"));
    assert(languages_view(out@) =~= languages());
    out
}

/// The name of the first language with a code.
pub open spec fn label_in(list: Seq<(Seq<char>, Seq<char>)>, code: Seq<char>) -> Option<Seq<char>>
    decreases list.len(),
{
    if list.len() == 0 {
        None
    } else if list[0].0 == code {
        Some(list[0].1)
    } else {
        label_in(list.drop_first(), code)
    }
}

/// The name of a language.
pub open spec fn language_label(code: Seq<char>) -> Option<Seq<char>> {
    label_in(languages(), code)
}

/// The name of a language.
pub fn translation_language_label(language: &str) -> (out: Option<&'static str>)
    ensures
        str_view(out) == language_label(language@),
{
    let list = translation_languages();
    let ghost all = languages();
    assert(all.skip(0) =~= all);
    for i in 0..list.len()
        invariant
            all == languages(),
            all == languages_view(list@),
            label_in(all, language@) == label_in(all.skip(i as int), language@),
    {
        assert(all.skip(i as int).drop_first() =~= all.skip(i + 1));
        assert(all[i as int] == (list@[i as int].0@, list@[i as int].1@));
        if same_text(list[i].0, language) {
            return Some(list[i].1);
        }
    }
    None
}

/// The code of a language, if messages are translated into it; Japanese where they are not.
pub open spec fn known_language(language: Seq<char>) -> Seq<char> {
    let code = id_of(language);
    if language_label(code) is Some {
        code
    } else {
        "ja"@
    }
}

/// The code of a language, if messages are translated into it; Japanese where they are not.
pub fn normalize_translation_language(language: &str) -> (out: String)
    ensures
        out@ == known_language(language@),
{
    let code = sanitize_id(language);
    if translation_language_label(code.as_str()).is_some() {
        code
    } else {
        "ja".to_string()
    }
}

/// A normalised language has a name, and stays as it is when it is normalised again.
pub proof fn known_language_is_idempotent(language: Seq<char>)
    ensures
        language_label(known_language(language)) is Some,
        known_language(known_language(language)) == known_language(language),
{
    id_of_is_idempotent(language);
    assert(languages()[0].0 == "ja"@);
    if language_label(id_of(language)) is None {
        reveal_strlit("ja");
        let ja = "ja"@;
        assert(ja[0] == 'j' && ja[1] == 'a' && ja.len() == 2);
        assert(trim_start(ja) == ja);
        assert(trim(ja) == ja);
        assert(id_of(ja) =~= ja);
    }
}

/// One choice of the language menu.
pub open spec fn language_option(code: Seq<char>, label: Seq<char>, selected: Seq<char>) -> Seq<
    char,
> {
    r#"<option value=""#@ + html(code) + r#"""#@ + (if code == selected {
        " selected"@
    } else {
        ""@
    }) + ">"@ + html(label) + "</option>"@
}

/// The choices of the language menu.
pub open spec fn language_options(selected: Seq<char>) -> Seq<char> {
    concat(
        languages().map_values(
            |language: (Seq<char>, Seq<char>)| language_option(language.0, language.1, selected),
        ),
    )
}

/// The choices of the language menu.
pub fn render_language_options(selected: &str) -> (out: String)
    ensures
        out@ == language_options(selected@),
{
    let list = translation_languages();
    let ghost f = |language: (Seq<char>, Seq<char>)|
        language_option(language.0, language.1, selected@);
    let ghost wanted = languages().map_values(f);
    let mut options: Vec<String> = Vec::new();
    for i in 0..list.len()
        invariant
            languages() == languages_view(list@),
            f == (|language: (Seq<char>, Seq<char>)|
                language_option(language.0, language.1, selected@)),
            wanted == languages().map_values(f),
            views(options@) == wanted.take(i as int),
    {
        let ghost before = views(options@);
        let mut option = r#"<option value=""#.to_string();
        option.append(html_escape(list[i].0).as_str());
        option.append(r#"""#);
        if same_text(list[i].0, selected) {
            option.append(" selected");
        } else {
            option.append("");
        }
        option.append(">");
        option.append(html_escape(list[i].1).as_str());
        option.append("</option>");
        assert(languages()[i as int] == (list@[i as int].0@, list@[i as int].1@));
        assert(option@ == wanted[i as int]);
        options.push(option);
        assert(views(options@) =~= before.push(option@));
        assert(views(options@) =~= wanted.take(i + 1));
    }
    assert(wanted.take(list@.len() as int) =~= wanted);
    concat_all(&options)
}

/// The directory of the translations, in the team's directory.
pub const TRANSLATION_DIR: &'static str = "translations";

/// The file of a translation in the translations directory.
pub open spec fn translation_file(language: Seq<char>, extension: Seq<char>) -> Seq<char> {
    TRANSLATION_DIR@ + "/messages-"@ + known_language(language) + extension
}

fn translation_path(language: &str, extension: &str) -> (out: String)
    ensures
        out@ == translation_file(language@, extension@),
{
    let mut out = TRANSLATION_DIR.to_string();
    out.append("/messages-");
    out.append(normalize_translation_language(language).as_str());
    out.append(extension);
    out
}

/// The path of a translation, in the team's directory.
pub fn translation_output_path(language: &str) -> (out: String)
    ensures
        out@ == translation_file(language@, ".md"@),
{
    translation_path(language, ".md")
}

/// The path of a translation's status, in the team's directory.
pub fn translation_status_path(language: &str) -> (out: String)
    ensures
        out@ == translation_file(language@, ".status"@),
{
    translation_path(language, ".status")
}

/// The path of a translation's log, in the team's directory.
pub fn translation_log_path(language: &str) -> (out: String)
    ensures
        out@ == translation_file(language@, ".log"@),
{
    translation_path(language, ".log")
}

/// The name of a language, or its code where it has none.
pub open spec fn label_or_code(language: Seq<char>) -> Seq<char> {
    match language_label(language) {
        Some(label) => label,
        None => language,
    }
}

/// The translation panel: the translation, or the status of one that was asked for, or nothing.
pub open spec fn translation_panel(
    output: Option<Seq<char>>,
    status: Option<Seq<char>>,
    team: Seq<char>,
    language: Seq<char>,
) -> Seq<char> {
    match (output, status) {
        (Some(translated), _) => {
            r#"<details open class="translation"><summary>Translated Team Messages: "#@ + html(
                label_or_code(language),
            ) + "</summary><pre>"@ + html(translated) + "</pre></details>"@
        },
        (None, Some(status)) => {
            r#"<details open class="translation"><summary>Translation Status: "#@ + html(
                label_or_code(language),
            ) + "</summary><pre>"@ + html(status) + r#"</pre><p><a href="/?team="#@ + query_text(
                team,
            ) + "&translation="@ + query_text(language)
                + r#"">Refresh translation</a></p></details>"#@
        },
        (None, None) => ""@,
    }
}

/// The translation panel; `output` and `status` are the files of the translation, where they
/// exist.
pub fn render_translation_panel(
    output: &Option<String>,
    status: &Option<String>,
    team: &str,
    language: &str,
) -> (out: String)
    ensures
        out@ == translation_panel(opt_view(*output), opt_view(*status), team@, language@),
{
    let label = match translation_language_label(language) {
        Some(label) => label,
        None => language,
    };
    match output {
        Some(translated) => {
            let mut out = r#"<details open class="translation"><summary>Translated Team Messages: "#.to_string();
            out.append(html_escape(label).as_str());
            out.append("</summary><pre>");
            out.append(html_escape(translated.as_str()).as_str());
            out.append("</pre></details>");
            out
        },
        None => match status {
            Some(status) => {
                let mut out = r#"<details open class="translation"><summary>Translation Status: "#.to_string();
                out.append(html_escape(label).as_str());
                out.append("</summary><pre>");
                out.append(html_escape(status.as_str()).as_str());
                out.append(r#"</pre><p><a href="/?team="#);
                out.append(url_encode(team).as_str());
                out.append("&translation=");
                out.append(url_encode(language).as_str());
                out.append(r#"">Refresh translation</a></p></details>"#);
                out
            },
            None => "".to_string(),
        },
    }
}

/// A line of the message log that is translated.
pub open spec fn log_line(event: TeamEventRecord) -> Seq<char> {
    "- ["@ + event.timestamp@ + "] "@ + data_text(event.data@, "from"@, ""@) + " -> "@
        + recipients_text(event.data@.member("to"@), ", "@) + " ("@ + data_text(
        event.data@,
        "source"@,
        "mailbox"@,
    ) + "): "@ + data_text(event.data@, "message"@, ""@)
}

fn log_line_of(event: &TeamEventRecord) -> (out: String)
    ensures
        out@ == log_line(*event),
{
    let mut out = "- [".to_string();
    out.append(event.timestamp.as_str());
    out.append("] ");
    out.append(data_str(&event.data, "from", ""));
    out.append(" -> ");
    out.append(recipients_of(&event.data, ", ").as_str());
    out.append(" (");
    out.append(data_str(&event.data, "source", "mailbox"));
    out.append("): ");
    out.append(data_str(&event.data, "message", ""));
    out
}

/// The lines of the messages that were sent.
pub open spec fn log_lines(events: Seq<TeamEventRecord>) -> Seq<Seq<char>>
    decreases events.len(),
{
    if events.len() == 0 {
        seq![]
    } else if is_sent(events.last()) {
        log_lines(events.drop_last()).push(log_line(events.last()))
    } else {
        log_lines(events.drop_last())
    }
}

/// The message log that is translated: the last `limit` messages.
pub open spec fn translation_source(events: Seq<TeamEventRecord>, limit: nat) -> Seq<char> {
    join(last_n(log_lines(events), limit as int), "\n"@)
}

/// The message log that is translated: the last `limit` messages.
pub fn team_messages_translation_source(events: &Vec<TeamEventRecord>, limit: usize) -> (out:
    String)
    ensures
        out@ == translation_source(events@, limit as nat),
{
    let mut all: Vec<String> = Vec::new();
    assert(views(all@) =~= log_lines(events@.take(0)));
    for i in 0..events.len()
        invariant
            views(all@) == log_lines(events@.take(i as int)),
    {
        let ghost before = views(all@);
        assert(events@.take(i + 1).drop_last() =~= events@.take(i as int));
        if same_text(events[i].event.as_str(), "message_sent") {
            let line = log_line_of(&events[i]);
            all.push(line);
            assert(views(all@) =~= before.push(line@));
        }
    }
    assert(events@.take(events@.len() as int) =~= events@);
    let kept = keep_last(all, limit);
    join_with(&kept, "\n")
}

/// What the prompt says before the name of the language.
pub const PROMPT_OPENING: &'static str = "Translate the following Codex team message log into ";

/// What the prompt says between the name of the language and the log.
pub const PROMPT_RULES: &'static str = r#".

Purpose:
- The user reads the dashboard in their native language.
- Keep technical terms, commands, paths, IDs, thread IDs, file names, and code literals unchanged unless a short explanation is useful.
- Preserve the message order and speaker/recipient metadata.
- Make the translation natural and easy to skim.
- Do not add new facts or commentary.

Format:
- Markdown.
- Use one bullet per message.
- Start each bullet with timestamp and "from -> to".

Message log:
"#;

/// The name under which a translation is asked for.
pub open spec fn translation_label(language: Seq<char>) -> Seq<char> {
    match language_label(known_language(language)) {
        Some(label) => label,
        None => "Japanese"@,
    }
}

/// The prompt that asks for a translation of a message log.
pub open spec fn translation_prompt_text(label: Seq<char>, source: Seq<char>) -> Seq<char> {
    PROMPT_OPENING@ + label + PROMPT_RULES@ + source + "\n"@
}

/// What a translation needs.
pub struct TranslationJob {
    pub language: String,
    pub label: String,
    pub prompt: String,
}

/// The message of a translation that has nothing to translate.
pub const NOTHING_TO_TRANSLATE: &'static str = "no team messages to translate";

/// What is translated, where there is anything to translate.
pub open spec fn is_translation_plan(
    job: Result<TranslationJob, &'static str>,
    events: Seq<TeamEventRecord>,
    language: Seq<char>,
) -> bool {
    match job {
        Ok(job) => {
            &&& !is_blank(translation_source(events, 120))
            &&& job.language@ == known_language(language)
            &&& job.label@ == translation_label(language)
            &&& job.prompt@ == translation_prompt_text(
                translation_label(language),
                translation_source(events, 120),
            )
        },
        Err(message) => is_blank(translation_source(events, 120)) && message@
            == NOTHING_TO_TRANSLATE@,
    }
}

/// Plans the translation of a team's last 120 messages, or says that there are none.
pub fn plan_translation(events: &Vec<TeamEventRecord>, language: &str) -> (job: Result<
    TranslationJob,
    &'static str,
>)
    ensures
        is_translation_plan(job, events@, language@),
{
    let source = team_messages_translation_source(events, 120);
    if text_is_blank(source.as_str()) {
        return Err(NOTHING_TO_TRANSLATE);
    }
    let code = normalize_translation_language(language);
    let label = match translation_language_label(code.as_str()) {
        Some(label) => label,
        None => "Japanese",
    };
    let mut prompt = PROMPT_OPENING.to_string();
    prompt.append(label);
    prompt.append(PROMPT_RULES);
    prompt.append(source.as_str());
    prompt.append("\n");
    Ok(TranslationJob { language: code, label: label.to_string(), prompt })
}

/// Where a translation stands.
pub enum TranslationStage {
    Queued,
    Running,
    Completed,
    /// It ended with an error message.
    Failed(String),
    /// It ended with an exit status, written as the status shows it.
    Exited(String),
}

/// What a status file says: the stage, the time, and where to look.
pub open spec fn status_text(
    stage: TranslationStage,
    label: Seq<char>,
    time: Seq<char>,
    path: Seq<char>,
) -> Seq<char> {
    match stage {
        TranslationStage::Queued => "queued translation to "@ + label + "\nqueued_at="@ + time
            + "\nlog="@ + path + "\n"@,
        TranslationStage::Running => "running translation to "@ + label + "\nstarted_at="@ + time
            + "\nlog="@ + path + "\n"@,
        TranslationStage::Completed => "completed translation to "@ + label + "\ncompleted_at="@
            + time + "\noutput="@ + path + "\n"@,
        TranslationStage::Failed(error) => "failed translation to "@ + label + "\nfailed_at="@
            + time + "\nerror="@ + error@ + "\nlog="@ + path + "\n"@,
        TranslationStage::Exited(status) => "failed translation to "@ + label + "\nfailed_at="@
            + time + "\nstatus="@ + status@ + "\nlog="@ + path + "\n"@,
    }
}

/// What a status file says: the stage, the time, and where to look.
pub fn translation_status(stage: &TranslationStage, label: &str, time: &str, path: &str) -> (out:
    String)
    ensures
        out@ == status_text(*stage, label@, time@, path@),
{
    match stage {
        TranslationStage::Queued => {
            let mut out = "queued translation to ".to_string();
            out.append(label);
            out.append("\nqueued_at=");
            out.append(time);
            out.append("\nlog=");
            out.append(path);
            out.append("\n");
            out
        },
        TranslationStage::Running => {
            let mut out = "running translation to ".to_string();
            out.append(label);
            out.append("\nstarted_at=");
            out.append(time);
            out.append("\nlog=");
            out.append(path);
            out.append("\n");
            out
        },
        TranslationStage::Completed => {
            let mut out = "completed translation to ".to_string();
            out.append(label);
            out.append("\ncompleted_at=");
            out.append(time);
            out.append("\noutput=");
            out.append(path);
            out.append("\n");
            out
        },
        TranslationStage::Failed(error) => {
            let mut out = "failed translation to ".to_string();
            out.append(label);
            out.append("\nfailed_at=");
            out.append(time);
            out.append("\nerror=");
            out.append(error.as_str());
            out.append("\nlog=");
            out.append(path);
            out.append("\n");
            out
        },
        TranslationStage::Exited(status) => {
            let mut out = "failed translation to ".to_string();
            out.append(label);
            out.append("\nfailed_at=");
            out.append(time);
            out.append("\nstatus=");
            out.append(status.as_str());
            out.append("\nlog=");
            out.append(path);
            out.append("\n");
            out
        },
    }
}

/// What the event log calls a stage.
pub open spec fn stage_event(stage: TranslationStage) -> Seq<char> {
    match stage {
        TranslationStage::Queued => "ui_translation_queued"@,
        TranslationStage::Running => "ui_translation_started"@,
        TranslationStage::Completed => "ui_translation_completed"@,
        TranslationStage::Failed(_) => "ui_translation_failed"@,
        TranslationStage::Exited(_) => "ui_translation_failed"@,
    }
}

/// What the event log calls a stage.
pub fn translation_event(stage: &TranslationStage) -> (out: &'static str)
    ensures
        out@ == stage_event(*stage),
{
    match stage {
        TranslationStage::Queued => "ui_translation_queued",
        TranslationStage::Running => "ui_translation_started",
        TranslationStage::Completed => "ui_translation_completed",
        TranslationStage::Failed(_) => "ui_translation_failed",
        TranslationStage::Exited(_) => "ui_translation_failed",
    }
}

/// The arguments of the command that translates: it works in a directory, writes its answer to a
/// file, and gets a prompt.
pub open spec fn translation_args(cwd: Seq<char>, output: Seq<char>, prompt: Seq<char>) -> Seq<
    Seq<char>,
> {
    seq!["exec"@, "--skip-git-repo-check"@, "-C"@, cwd, "-o"@, output, prompt]
}

/// The arguments of the command that translates.
pub fn translation_command(cwd: &str, output: &str, prompt: &str) -> (args: Vec<String>)
    ensures
        views(args@) == translation_args(cwd@, output@, prompt@),
{
    let args = vec![
        "exec".to_string(),
        "--skip-git-repo-check".to_string(),
        "-C".to_string(),
        cwd.to_string(),
        "-o".to_string(),
        output.to_string(),
        prompt.to_string(),
    ];
    assert(views(args@) =~= translation_args(cwd@, output@, prompt@));
    args
}

} // verus!
