//! What the dashboard does with a request.

use vstd::prelude::*;

use crate::cli::{delivery, one_name_gets_one_message, MessageErrorView};
use crate::form::{
    entries_of, field, filled_field, form_fields, form_filled, form_get, form_value,
    missing_field, params_view, parse_form, split_ui_lines, text_map,
};
use crate::http::{
    params_location, redirect_team_ui, redirect_team_ui_with_params, redirect_text, response_text,
    team_location, write_http_response, HttpRequest, RequestView,
};
use crate::model::{id_of, sanitize_id, TeamConfig, TeamPromptLanguage};
use crate::order::StringMap;
use crate::page::{default_ui_cwd, expand_home, expanded};
use crate::split::lines;
use crate::text::{is_blank, is_text, opt_view, same_text, text_or, trim, trimmed, views};

verus! {

/// What the page was asked to show.
pub struct PageQuery {
    pub team: Option<String>,
    pub cwd: Option<String>,
    pub task: Option<String>,
    pub translation: Option<String>,
}

/// A new team as it was asked for.
pub struct NewTeamForm {
    pub goal: String,
    pub cwd: Option<String>,
    pub app_server_url: Option<String>,
    pub id: Option<String>,
    pub members: Vec<String>,
    pub nodes: Vec<String>,
    pub discuss_rounds: String,
    pub no_keep_alive: bool,
    pub bypass_sandbox: bool,
}

/// What to do with a request.
pub enum UiAction {
    Page(PageQuery),
    Realtime { team: String },
    Debug { team: String },
    Message { team: String, from: String, to: String, message: String },
    Translate { team: String, language: String },
    Resume { team: String },
    Stop { team: String },
    Delete { team: String },
    New(NewTeamForm),
    NotFound,
    Refuse { message: String },
}

/// What a new team's form says.
#[verifier::ext_equal]
pub struct NewTeamView {
    pub goal: Seq<char>,
    pub cwd: Option<Seq<char>>,
    pub app_server_url: Option<Seq<char>>,
    pub id: Option<Seq<char>>,
    pub members: Seq<Seq<char>>,
    pub nodes: Seq<Seq<char>>,
    pub discuss_rounds: Seq<char>,
    pub no_keep_alive: bool,
    pub bypass_sandbox: bool,
}

impl View for NewTeamForm {
    type V = NewTeamView;

    open spec fn view(&self) -> NewTeamView {
        NewTeamView {
            goal: self.goal@,
            cwd: opt_view(self.cwd),
            app_server_url: opt_view(self.app_server_url),
            id: opt_view(self.id),
            members: views(self.members@),
            nodes: views(self.nodes@),
            discuss_rounds: self.discuss_rounds@,
            no_keep_alive: self.no_keep_alive,
            bypass_sandbox: self.bypass_sandbox,
        }
    }
}

/// What to do with a request, by the texts in it.
#[verifier::ext_equal]
pub enum ActionView {
    Page {
        team: Option<Seq<char>>,
        cwd: Option<Seq<char>>,
        task: Option<Seq<char>>,
        translation: Option<Seq<char>>,
    },
    Realtime { team: Seq<char> },
    Debug { team: Seq<char> },
    Message { team: Seq<char>, from: Seq<char>, to: Seq<char>, message: Seq<char> },
    Translate { team: Seq<char>, language: Seq<char> },
    Resume { team: Seq<char> },
    Stop { team: Seq<char> },
    Delete { team: Seq<char> },
    New(NewTeamView),
    NotFound,
    Refuse { message: Seq<char> },
}

impl View for UiAction {
    type V = ActionView;

    open spec fn view(&self) -> ActionView {
        match self {
            UiAction::Page(query) => ActionView::Page {
                team: opt_view(query.team),
                cwd: opt_view(query.cwd),
                task: opt_view(query.task),
                translation: opt_view(query.translation),
            },
            UiAction::Realtime { team } => ActionView::Realtime { team: team@ },
            UiAction::Debug { team } => ActionView::Debug { team: team@ },
            UiAction::Message { team, from, to, message } => ActionView::Message {
                team: team@,
                from: from@,
                to: to@,
                message: message@,
            },
            UiAction::Translate { team, language } => ActionView::Translate {
                team: team@,
                language: language@,
            },
            UiAction::Resume { team } => ActionView::Resume { team: team@ },
            UiAction::Stop { team } => ActionView::Stop { team: team@ },
            UiAction::Delete { team } => ActionView::Delete { team: team@ },
            UiAction::New(form) => ActionView::New(form@),
            UiAction::NotFound => ActionView::NotFound,
            UiAction::Refuse { message } => ActionView::Refuse { message: message@ },
        }
    }
}

/// The message that says that a query names no team.
pub const MISSING_TEAM_PARAMETER: &'static str = "missing query parameter `team`";

/// The sender of a message that is posted from the page.
pub const PAGE_SENDER: &'static str = "user";

/// The value of a field that is not blank, or a default.
pub open spec fn filled_or(
    form: Map<Seq<char>, Seq<char>>,
    key: Seq<char>,
    default: Seq<char>,
) -> Seq<char> {
    match filled_field(form, key) {
        Some(value) => value,
        None => default,
    }
}

/// The value of a field, or nothing.
pub open spec fn field_or_empty(form: Map<Seq<char>, Seq<char>>, key: Seq<char>) -> Seq<char> {
    match field(form, key) {
        Some(value) => value,
        None => ""@,
    }
}

/// The identifier that a form gives for a new team, where it gives one.
pub open spec fn asked_id(form: Map<Seq<char>, Seq<char>>) -> Option<Seq<char>> {
    match field(form, "id"@) {
        Some(raw) => if id_of(raw).len() == 0 {
            None
        } else {
            Some(id_of(raw))
        },
        None => None,
    }
}

/// The number of discussion rounds that a form gives, or none.
pub open spec fn asked_rounds(form: Map<Seq<char>, Seq<char>>) -> Seq<char> {
    match field(form, "discuss_rounds"@) {
        Some(raw) => if trim(raw).len() == 0 {
            "0"@
        } else {
            trim(raw)
        },
        None => "0"@,
    }
}

/// What a new team's form says. A form that does not show the choice counts as one in which the
/// sandbox is bypassed.
pub open spec fn new_team_in(form: Map<Seq<char>, Seq<char>>, goal: Seq<char>) -> NewTeamView {
    NewTeamView {
        goal,
        cwd: filled_field(form, "cwd"@),
        app_server_url: filled_field(form, "app_server_url"@),
        id: asked_id(form),
        members: entries_of(lines(field_or_empty(form, "members"@))),
        nodes: entries_of(lines(field_or_empty(form, "nodes"@))),
        discuss_rounds: asked_rounds(form),
        no_keep_alive: form.contains_key("no_keep_alive"@),
        bypass_sandbox: form.contains_key("dangerously_bypass"@) || !form.contains_key(
            "dangerously_bypass_present"@,
        ),
    }
}

/// What to do with a posted form.
pub open spec fn posted_action(path: Seq<char>, form: Map<Seq<char>, Seq<char>>) -> ActionView {
    let team = filled_field(form, "team"@);
    let no_team = ActionView::Refuse { message: missing_field("team"@) };
    if path == "/message"@ {
        match team {
            None => no_team,
            Some(team) => match filled_field(form, "message"@) {
                None => ActionView::Refuse { message: missing_field("message"@) },
                Some(message) => ActionView::Message {
                    team,
                    from: PAGE_SENDER@,
                    to: filled_or(form, "to"@, "lead"@),
                    message,
                },
            },
        }
    } else if path == "/translate"@ {
        match team {
            None => no_team,
            Some(team) => ActionView::Translate {
                team,
                language: filled_or(form, "language"@, "ja"@),
            },
        }
    } else if path == "/resume"@ {
        match team {
            None => no_team,
            Some(team) => ActionView::Resume { team },
        }
    } else if path == "/stop"@ {
        match team {
            None => no_team,
            Some(team) => ActionView::Stop { team },
        }
    } else if path == "/delete"@ {
        match team {
            None => no_team,
            Some(team) => ActionView::Delete { team },
        }
    } else if path == "/new"@ {
        match filled_field(form, "goal"@) {
            None => ActionView::Refuse { message: missing_field("goal"@) },
            Some(goal) => ActionView::New(new_team_in(form, goal)),
        }
    } else {
        ActionView::NotFound
    }
}

/// What to do with a request.
pub open spec fn action_for(request: RequestView) -> ActionView {
    if request.method == "GET"@ {
        let team = filled_field(request.query, "team"@);
        let no_team = ActionView::Refuse { message: MISSING_TEAM_PARAMETER@ };
        if request.path == "/"@ {
            ActionView::Page {
                team: field(request.query, "team"@),
                cwd: field(request.query, "cwd"@),
                task: field(request.query, "task"@),
                translation: field(request.query, "translation"@),
            }
        } else if request.path == "/realtime"@ {
            match team {
                None => no_team,
                Some(team) => ActionView::Realtime { team },
            }
        } else if request.path == "/debug"@ {
            match team {
                None => no_team,
                Some(team) => ActionView::Debug { team },
            }
        } else {
            ActionView::NotFound
        }
    } else if request.method == "POST"@ {
        posted_action(request.path, form_fields(request.body))
    } else {
        ActionView::NotFound
    }
}

fn form_filled_or(form: &StringMap<String>, key: &str, default: &str) -> (out: String)
    ensures
        out@ == filled_or(text_map(form@), key@, default@),
{
    match form_filled(form, key) {
        Some(value) => value,
        None => default.to_string(),
    }
}

fn form_or_empty(form: &StringMap<String>, key: &str) -> (out: String)
    ensures
        out@ == field_or_empty(text_map(form@), key@),
{
    match form_get(form, key) {
        Some(value) => value,
        None => "".to_string(),
    }
}

fn new_team_form(form: &StringMap<String>, goal: String) -> (out: NewTeamForm)
    ensures
        out@ == new_team_in(text_map(form@), goal@),
{
    let id = match form_get(form, "id") {
        Some(raw) => {
            let id = sanitize_id(raw.as_str());
            if id.as_str().is_empty() {
                None
            } else {
                Some(id)
            }
        },
        None => None,
    };
    let discuss_rounds = match form_get(form, "discuss_rounds") {
        Some(raw) => {
            let rounds = trimmed(raw.as_str());
            if rounds.as_str().is_empty() {
                "0".to_string()
            } else {
                rounds
            }
        },
        None => "0".to_string(),
    };
    NewTeamForm {
        goal,
        cwd: form_filled(form, "cwd"),
        app_server_url: form_filled(form, "app_server_url"),
        id,
        members: split_ui_lines(form_or_empty(form, "members").as_str()),
        nodes: split_ui_lines(form_or_empty(form, "nodes").as_str()),
        discuss_rounds,
        no_keep_alive: form.contains_key("no_keep_alive"),
        bypass_sandbox: form.contains_key("dangerously_bypass") || !form.contains_key(
            "dangerously_bypass_present",
        ),
    }
}

fn route_post(path: &str, form: &StringMap<String>) -> (action: UiAction)
    ensures
        action@ == posted_action(path@, text_map(form@)),
{
    if same_text(path, "/message") {
        match form_value(form, "team") {
            Err(message) => UiAction::Refuse { message },
            Ok(team) => match form_value(form, "message") {
                Err(message) => UiAction::Refuse { message },
                Ok(message) => UiAction::Message {
                    team,
                    from: PAGE_SENDER.to_string(),
                    to: form_filled_or(form, "to", "lead"),
                    message,
                },
            },
        }
    } else if same_text(path, "/translate") {
        match form_value(form, "team") {
            Err(message) => UiAction::Refuse { message },
            Ok(team) => UiAction::Translate {
                team,
                language: form_filled_or(form, "language", "ja"),
            },
        }
    } else if same_text(path, "/resume") {
        match form_value(form, "team") {
            Err(message) => UiAction::Refuse { message },
            Ok(team) => UiAction::Resume { team },
        }
    } else if same_text(path, "/stop") {
        match form_value(form, "team") {
            Err(message) => UiAction::Refuse { message },
            Ok(team) => UiAction::Stop { team },
        }
    } else if same_text(path, "/delete") {
        match form_value(form, "team") {
            Err(message) => UiAction::Refuse { message },
            Ok(team) => UiAction::Delete { team },
        }
    } else if same_text(path, "/new") {
        match form_value(form, "goal") {
            Err(message) => UiAction::Refuse { message },
            Ok(goal) => UiAction::New(new_team_form(form, goal)),
        }
    } else {
        UiAction::NotFound
    }
}

/// What to do with a request.
pub fn handle_team_ui_request(request: &HttpRequest) -> (action: UiAction)
    ensures
        action@ == action_for(request@),
{
    let path = request.path.as_str();
    if same_text(request.method.as_str(), "GET") {
        if same_text(path, "/") {
            UiAction::Page(
                PageQuery {
                    team: form_get(&request.query, "team"),
                    cwd: form_get(&request.query, "cwd"),
                    task: form_get(&request.query, "task"),
                    translation: form_get(&request.query, "translation"),
                },
            )
        } else if same_text(path, "/realtime") {
            match form_filled(&request.query, "team") {
                Some(team) => UiAction::Realtime { team },
                None => UiAction::Refuse { message: MISSING_TEAM_PARAMETER.to_string() },
            }
        } else if same_text(path, "/debug") {
            match form_filled(&request.query, "team") {
                Some(team) => UiAction::Debug { team },
                None => UiAction::Refuse { message: MISSING_TEAM_PARAMETER.to_string() },
            }
        } else {
            UiAction::NotFound
        }
    } else if same_text(request.method.as_str(), "POST") {
        let form = parse_form(request.body.as_str());
        route_post(path, &form)
    } else {
        UiAction::NotFound
    }
}

/// A request that changes anything has to be posted: whatever a GET request asks for, it only
/// reads.
pub proof fn get_requests_only_read(request: RequestView)
    requires
        request.method == "GET"@,
    ensures
        action_for(request) is Page || action_for(request) is Realtime || action_for(
            request,
        ) is Debug || action_for(request) is NotFound || action_for(request) is Refuse,
{
}

/// A request that is let through names a team that is not blank, wherever it acts on one.
pub proof fn actions_name_a_team(request: RequestView)
    ensures
        match action_for(request) {
            ActionView::Realtime { team } => !is_blank(team),
            ActionView::Debug { team } => !is_blank(team),
            ActionView::Message { team, message, .. } => !is_blank(team) && !is_blank(message),
            ActionView::Translate { team, .. } => !is_blank(team),
            ActionView::Resume { team } => !is_blank(team),
            ActionView::Stop { team } => !is_blank(team),
            ActionView::Delete { team } => !is_blank(team),
            ActionView::New(form) => !is_blank(form.goal),
            _ => true,
        },
{
}

// ---------------------------------------------------------------------------
// The answers
// ---------------------------------------------------------------------------

/// What a request came to.
#[derive(Clone, Debug, PartialEq, Eq)]
pub enum UiOutcome {
    /// The page is shown.
    Page { html: String },
    /// A snapshot is handed to the page.
    Json { text: String },
    /// The browser is sent to the page, with a team selected where one is given.
    Redirect { team: Option<String> },
    /// The browser is sent to the page, where a translation of a team's messages is shown.
    Translating { team: String, language: String },
    /// There is no such route.
    NotFound,
    /// The request failed.
    Failed { message: String },
}

/// What a request came to, by the texts in it.
#[verifier::ext_equal]
pub enum OutcomeView {
    Page { html: Seq<char> },
    Json { text: Seq<char> },
    Redirect { team: Option<Seq<char>> },
    Translating { team: Seq<char>, language: Seq<char> },
    NotFound,
    Failed { message: Seq<char> },
}

impl View for UiOutcome {
    type V = OutcomeView;

    open spec fn view(&self) -> OutcomeView {
        match self {
            UiOutcome::Page { html } => OutcomeView::Page { html: html@ },
            UiOutcome::Json { text } => OutcomeView::Json { text: text@ },
            UiOutcome::Redirect { team } => OutcomeView::Redirect { team: opt_view(*team) },
            UiOutcome::Translating { team, language } => OutcomeView::Translating {
                team: team@,
                language: language@,
            },
            UiOutcome::NotFound => OutcomeView::NotFound,
            UiOutcome::Failed { message } => OutcomeView::Failed { message: message@ },
        }
    }
}

/// The content type of the page.
pub const HTML_TYPE: &'static str = "text/html; charset=utf-8";

/// The content type of a snapshot.
pub const JSON_TYPE: &'static str = "application/json; charset=utf-8";

/// The answer to a request that nothing serves.
pub open spec fn not_found_text() -> Seq<char> {
    response_text("404 Not Found"@, "text/plain"@, "not found\n"@)
}

/// The answer to a request that failed.
pub open spec fn failure_text(message: Seq<char>) -> Seq<char> {
    response_text("500 Internal Server Error"@, "text/plain"@, "error: "@ + message + "\n"@)
}

/// The answer to a request.
pub open spec fn answer_text(outcome: OutcomeView) -> Seq<char> {
    match outcome {
        OutcomeView::Page { html } => response_text("200 OK"@, HTML_TYPE@, html),
        OutcomeView::Json { text } => response_text("200 OK"@, JSON_TYPE@, text),
        OutcomeView::Redirect { team } => redirect_text(team_location(team)),
        OutcomeView::Translating { team, language } => redirect_text(
            params_location(seq![("team"@, team), ("translation"@, language)]),
        ),
        OutcomeView::NotFound => not_found_text(),
        OutcomeView::Failed { message } => failure_text(message),
    }
}

/// The answer to a request.
pub fn answer(outcome: &UiOutcome) -> (out: String)
    ensures
        out@ == answer_text(outcome@),
{
    match outcome {
        UiOutcome::Page { html } => write_http_response("200 OK", HTML_TYPE, html.as_str()),
        UiOutcome::Json { text } => write_http_response("200 OK", JSON_TYPE, text.as_str()),
        UiOutcome::Redirect { team } => redirect_team_ui(team),
        UiOutcome::Translating { team, language } => {
            let params = vec![("team", team.as_str()), ("translation", language.as_str())];
            assert(params_view(params@) =~= seq![("team"@, team@), ("translation"@, language@)]);
            redirect_team_ui_with_params(&params)
        },
        UiOutcome::NotFound => write_http_response("404 Not Found", "text/plain", "not found\n"),
        UiOutcome::Failed { message } => {
            let mut body = "error: ".to_string();
            body.append(message.as_str());
            body.append("\n");
            write_http_response("500 Internal Server Error", "text/plain", body.as_str())
        },
    }
}

/// The texts of a result.
pub open spec fn done_view(done: Result<String, String>) -> Result<Seq<char>, Seq<char>> {
    match done {
        Ok(given) => Ok(given@),
        Err(message) => Err(message@),
    }
}

/// What an action came to. `done` is what doing it gave: the page, the text of the snapshot, or
/// the identifier of the team that was resumed or started, and otherwise an empty text; or the
/// message of the error. Where there is nothing to do, it does not matter.
pub open spec fn outcome_of(action: ActionView, done: Result<Seq<char>, Seq<char>>) -> OutcomeView {
    match (action, done) {
        (ActionView::NotFound, _) => OutcomeView::NotFound,
        (ActionView::Refuse { message }, _) => OutcomeView::Failed { message },
        (_, Err(message)) => OutcomeView::Failed { message },
        (ActionView::Page { .. }, Ok(html)) => OutcomeView::Page { html },
        (ActionView::Realtime { .. }, Ok(text)) => OutcomeView::Json { text },
        (ActionView::Debug { .. }, Ok(text)) => OutcomeView::Json { text },
        (ActionView::Message { team, .. }, Ok(_)) => OutcomeView::Redirect { team: Some(team) },
        (ActionView::Translate { team, language }, Ok(_)) => OutcomeView::Translating {
            team,
            language,
        },
        (ActionView::Resume { .. }, Ok(id)) => OutcomeView::Redirect { team: Some(id) },
        (ActionView::Stop { team }, Ok(_)) => OutcomeView::Redirect { team: Some(team) },
        (ActionView::Delete { .. }, Ok(_)) => OutcomeView::Redirect { team: None },
        (ActionView::New(_), Ok(id)) => OutcomeView::Redirect { team: Some(id) },
    }
}

/// What an action came to; `done` is what doing it gave.
pub fn finish_action(action: &UiAction, done: &Result<String, String>) -> (outcome: UiOutcome)
    ensures
        outcome@ == outcome_of(action@, done_view(*done)),
{
    match action {
        UiAction::NotFound => return UiOutcome::NotFound,
        UiAction::Refuse { message } => return UiOutcome::Failed { message: message.clone() },
        _ => {},
    }
    let given = match done {
        Ok(given) => given,
        Err(message) => return UiOutcome::Failed { message: message.clone() },
    };
    match action {
        UiAction::Page(_) => UiOutcome::Page { html: given.clone() },
        UiAction::Realtime { .. } => UiOutcome::Json { text: given.clone() },
        UiAction::Debug { .. } => UiOutcome::Json { text: given.clone() },
        UiAction::Message { team, .. } => UiOutcome::Redirect { team: Some(team.clone()) },
        UiAction::Translate { team, language } => UiOutcome::Translating {
            team: team.clone(),
            language: language.clone(),
        },
        UiAction::Resume { .. } => UiOutcome::Redirect { team: Some(given.clone()) },
        UiAction::Stop { team } => UiOutcome::Redirect { team: Some(team.clone()) },
        UiAction::Delete { .. } => UiOutcome::Redirect { team: None },
        UiAction::New(_) => UiOutcome::Redirect { team: Some(given.clone()) },
        UiAction::NotFound => UiOutcome::NotFound,
        UiAction::Refuse { message } => UiOutcome::Failed { message: message.clone() },
    }
}

/// The dashboard serves the route.
pub open spec fn is_route(method: Seq<char>, path: Seq<char>) -> bool {
    ||| method == "GET"@ && (path == "/"@ || path == "/realtime"@ || path == "/debug"@)
    ||| method == "POST"@ && (path == "/message"@ || path == "/translate"@ || path == "/resume"@
        || path == "/stop"@ || path == "/delete"@ || path == "/new"@)
}

/// Exactly the requests for routes that the dashboard does not serve lead to nothing, and they
/// are answered so whatever else happens.
pub proof fn unknown_routes_are_not_found(
    request: RequestView,
    done: Result<Seq<char>, Seq<char>>,
)
    ensures
        action_for(request) is NotFound <==> !is_route(request.method, request.path),
        !is_route(request.method, request.path) ==> answer_text(
            outcome_of(action_for(request), done),
        ) == not_found_text(),
{
    reveal_strlit("GET");
    reveal_strlit("POST");
    assert("GET"@.len() != "POST"@.len());
}

/// A message that is posted goes out from the user, to the member that was named or to the
/// lead; once it is out, the browser is sent back to the team.
pub proof fn posted_messages_are_from_the_user(request: RequestView, given: Seq<char>)
    requires
        request.method == "POST"@,
        request.path == "/message"@,
        filled_field(form_fields(request.body), "team"@) is Some,
        filled_field(form_fields(request.body), "message"@) is Some,
    ensures
        ({
            let form = form_fields(request.body);
            let team = filled_field(form, "team"@)->0;
            &&& action_for(request) == ActionView::Message {
                team,
                from: "user"@,
                to: filled_or(form, "to"@, "lead"@),
                message: filled_field(form, "message"@)->0,
            }
            &&& answer_text(outcome_of(action_for(request), Ok(given))) == redirect_text(
                team_location(Some(team)),
            )
        }),
{
    reveal_strlit("GET");
    reveal_strlit("POST");
    assert("GET"@.len() != "POST"@.len());
}

/// A message that is posted without a recipient is delivered once: to the lead of a team that has
/// one, from the user.
pub proof fn messages_without_recipient_go_to_the_lead(
    request: RequestView,
    members: Seq<Seq<char>>,
)
    requires
        request.method == "POST"@,
        request.path == "/message"@,
        filled_field(form_fields(request.body), "team"@) is Some,
        filled_field(form_fields(request.body), "message"@) is Some,
        filled_field(form_fields(request.body), "to"@) is None,
        members.contains("lead"@),
    ensures
        action_for(request) matches ActionView::Message { from, to, .. } && id_of(from) == "user"@
            && delivery(members, id_of(from), to) == Ok::<Seq<Seq<char>>, MessageErrorView>(
            seq!["lead"@],
        ),
{
    posted_messages_are_from_the_user(request, ""@);
    reveal_strlit("lead");
    reveal_strlit("user");
    reveal_strlit("all");
    assert(trim("lead"@) =~= "lead"@);
    assert(trim("user"@) =~= "user"@);
    assert(id_of("user"@) =~= "user"@);
    assert("all"@.len() != "lead"@.len());
    one_name_gets_one_message(members, "user"@, "lead"@);
}

/// A request that is refused, or whose action fails, is answered with the reason.
pub proof fn failures_are_answered(request: RequestView, done: Result<Seq<char>, Seq<char>>)
    ensures
        action_for(request) matches ActionView::Refuse { message } ==> answer_text(
            outcome_of(action_for(request), done),
        ) == failure_text(message),
        is_route(request.method, request.path) && !(action_for(request) is Refuse) ==> (
        done matches Err(message) ==> answer_text(outcome_of(action_for(request), done))
            == failure_text(message)),
{
    unknown_routes_are_not_found(request, done);
}

// ---------------------------------------------------------------------------
// The commands that the page starts
// ---------------------------------------------------------------------------

fn push_arg(args: &mut Vec<String>, arg: &str)
    ensures
        views(final(args)@) == views(old(args)@).push(arg@),
{
    args.push(arg.to_string());
    assert(views(args@) =~= views(old(args)@).push(arg@));
}

/// Each value behind a flag.
pub open spec fn flagged(flag: Seq<char>, values: Seq<Seq<char>>) -> Seq<Seq<char>>
    decreases values.len(),
{
    if values.len() == 0 {
        seq![]
    } else {
        flagged(flag, values.drop_last()).push(flag).push(values.last())
    }
}

fn push_flagged(args: &mut Vec<String>, flag: &str, values: &Vec<String>)
    ensures
        views(final(args)@) == views(old(args)@) + flagged(flag@, views(values@)),
{
    let ghost before = views(args@);
    assert(before + flagged(flag@, views(values@).take(0)) =~= before);
    for i in 0..values.len()
        invariant
            views(args@) == before + flagged(flag@, views(values@).take(i as int)),
    {
        let ghost done = views(args@);
        assert(views(values@).take(i + 1).drop_last() =~= views(values@).take(i as int));
        push_arg(args, flag);
        push_arg(args, values[i].as_str());
        assert(views(args@) =~= before + flagged(flag@, views(values@).take(i + 1)));
    }
    assert(views(values@).take(values@.len() as int) =~= views(values@));
}

/// The directory in which a new team starts: the one that its form gives, or the usual one.
pub open spec fn start_cwd(
    asked: Option<Seq<char>>,
    default_cwd: Option<String>,
    home: Seq<char>,
) -> Seq<char> {
    match asked {
        Some(path) => expanded(path, home),
        None => expanded(text_or(default_cwd, home), home),
    }
}

/// The directory in which a new team starts.
pub fn new_team_cwd(form: &NewTeamForm, default_cwd: &Option<String>, home: &str) -> (out: String)
    ensures
        out@ == start_cwd(form@.cwd, *default_cwd, home@),
{
    match &form.cwd {
        Some(path) => expand_home(path.as_str(), home),
        None => expand_home(default_ui_cwd(default_cwd, home).as_str(), home),
    }
}

/// The identifier of a new team: the one that its form gives, or one made from the time.
pub open spec fn start_id(asked: Option<Seq<char>>, stamp: Seq<char>) -> Seq<char> {
    match asked {
        Some(id) => id,
        None => "team-"@ + stamp,
    }
}

/// The identifier of a new team.
pub fn new_team_id(form: &NewTeamForm, stamp: &str) -> (out: String)
    ensures
        out@ == start_id(form@.id, stamp@),
{
    match &form.id {
        Some(id) => id.clone(),
        None => {
            let mut out = "team-".to_string();
            out.append(stamp);
            out
        },
    }
}

/// The arguments that say which app server to use: another than the registered one by its
/// address, the registered one by none, and none by a flag of its own.
pub open spec fn server_args(url: Option<Seq<char>>, registered: Option<Seq<char>>) -> Seq<
    Seq<char>,
> {
    match url {
        Some(url) => if registered == Some(url) {
            seq![]
        } else {
            seq!["--app-server-url"@, url]
        },
        None => seq!["--no-app-server-registry"@],
    }
}

/// The arguments of the command that starts a new team.
pub open spec fn new_team_args(
    form: NewTeamView,
    team: Seq<char>,
    cwd: Seq<char>,
    registered: Option<Seq<char>>,
) -> Seq<Seq<char>> {
    seq!["team"@, "swarm"@, "--id"@, team] + flagged("--node"@, form.nodes) + flagged(
        "--member"@,
        form.members,
    ) + seq!["--app-server"@, "--discuss-rounds"@, form.discuss_rounds, "--cd"@, cwd] + (
    if form.bypass_sandbox {
        seq!["--dangerously-bypass-approvals-and-sandbox"@]
    } else {
        seq![]
    }) + (if form.no_keep_alive {
        seq!["--no-keep-alive"@]
    } else {
        seq![]
    }) + server_args(form.app_server_url, registered) + seq![form.goal]
}

/// The arguments of the command that starts a new team.
pub fn new_team_command(
    form: &NewTeamForm,
    team: &str,
    cwd: &str,
    registered: &Option<String>,
) -> (args: Vec<String>)
    ensures
        views(args@) == new_team_args(form@, team@, cwd@, opt_view(*registered)),
{
    let mut args: Vec<String> = Vec::new();
    push_arg(&mut args, "team");
    push_arg(&mut args, "swarm");
    push_arg(&mut args, "--id");
    push_arg(&mut args, team);
    assert(views(args@) =~= seq!["team"@, "swarm"@, "--id"@, team@]);
    push_flagged(&mut args, "--node", &form.nodes);
    push_flagged(&mut args, "--member", &form.members);
    let ghost before = views(args@);
    push_arg(&mut args, "--app-server");
    push_arg(&mut args, "--discuss-rounds");
    push_arg(&mut args, form.discuss_rounds.as_str());
    push_arg(&mut args, "--cd");
    push_arg(&mut args, cwd);
    assert(views(args@) =~= before + seq![
        "--app-server"@,
        "--discuss-rounds"@,
        form.discuss_rounds@,
        "--cd"@,
        cwd@,
    ]);
    let ghost before = views(args@);
    if form.bypass_sandbox {
        push_arg(&mut args, "--dangerously-bypass-approvals-and-sandbox");
    }
    assert(views(args@) =~= before + (if form.bypass_sandbox {
        seq!["--dangerously-bypass-approvals-and-sandbox"@]
    } else {
        seq![]
    }));
    let ghost before = views(args@);
    if form.no_keep_alive {
        push_arg(&mut args, "--no-keep-alive");
    }
    assert(views(args@) =~= before + (if form.no_keep_alive {
        seq!["--no-keep-alive"@]
    } else {
        seq![]
    }));
    let ghost before = views(args@);
    match &form.app_server_url {
        Some(url) => {
            if !is_text(registered, url.as_str()) {
                push_arg(&mut args, "--app-server-url");
                push_arg(&mut args, url.as_str());
            }
        },
        None => {
            push_arg(&mut args, "--no-app-server-registry");
        },
    }
    assert(views(args@) =~= before + server_args(
        opt_view(form.app_server_url),
        opt_view(*registered),
    ));
    let ghost before = views(args@);
    push_arg(&mut args, form.goal.as_str());
    assert(views(args@) =~= before + seq![form.goal@]);
    args
}

/// The arguments of the command that resumes a team.
pub open spec fn resume_args(team: Seq<char>, language: Option<TeamPromptLanguage>) -> Seq<
    Seq<char>,
> {
    seq![
        "team"@,
        "resume"@,
        "--team"@,
        team,
        "--dangerously-bypass-approvals-and-sandbox"@,
    ] + match language {
        Some(language) => seq!["--language"@, language.text()],
        None => seq![],
    }
}

/// The arguments of the command that resumes a team.
pub fn resume_command(config: &TeamConfig) -> (args: Vec<String>)
    ensures
        views(args@) == resume_args(config.id@, config.language),
{
    let mut args: Vec<String> = Vec::new();
    push_arg(&mut args, "team");
    push_arg(&mut args, "resume");
    push_arg(&mut args, "--team");
    push_arg(&mut args, config.id.as_str());
    push_arg(&mut args, "--dangerously-bypass-approvals-and-sandbox");
    if let Some(language) = config.language {
        push_arg(&mut args, "--language");
        push_arg(&mut args, language.cli_value());
    }
    assert(views(args@) =~= resume_args(config.id@, config.language));
    args
}

} // verus!
