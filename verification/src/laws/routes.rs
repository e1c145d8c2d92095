//! What requests lead to, and the commands that the page starts.

use vstd::prelude::*;

use crate::form::{entries_of, form_fields, is_entry, line_entries};
use crate::http::{
    params_location, redirect_text, response_text, team_location, RequestView,
};
use crate::model::{id_of, TeamPromptLanguage};
use crate::page::{expanded, shown_cwd};
use crate::route::{
    action_for, answer_text, flagged, new_team_args, new_team_in, outcome_of, posted_action,
    resume_args, server_args, start_cwd, start_id, ActionView, NewTeamView,
};
use crate::split::{lines, split};
use crate::text::{is_blank, trim};

verus! {

// ---------------------------------------------------------------------------
// Actions
// ---------------------------------------------------------------------------

/// The field is given and not blank.
pub open spec fn is_filled(form: Map<Seq<char>, Seq<char>>, key: Seq<char>) -> bool {
    form.contains_key(key) && !is_blank(form[key])
}

proof fn paths_differ()
    ensures
        "/message"@ != "/translate"@,
        "/message"@ != "/resume"@,
        "/message"@ != "/stop"@,
        "/message"@ != "/delete"@,
        "/message"@ != "/new"@,
        "/translate"@ != "/resume"@,
        "/translate"@ != "/stop"@,
        "/translate"@ != "/delete"@,
        "/translate"@ != "/new"@,
        "/resume"@ != "/stop"@,
        "/resume"@ != "/delete"@,
        "/resume"@ != "/new"@,
        "/stop"@ != "/delete"@,
        "/stop"@ != "/new"@,
        "/delete"@ != "/new"@,
        "/"@ != "/realtime"@,
        "/"@ != "/debug"@,
        "/realtime"@ != "/debug"@,
        "GET"@ != "POST"@,
{
    reveal_strlit("/message");
    reveal_strlit("/translate");
    reveal_strlit("/resume");
    reveal_strlit("/stop");
    reveal_strlit("/delete");
    reveal_strlit("/new");
    reveal_strlit("/");
    reveal_strlit("/realtime");
    reveal_strlit("/debug");
    reveal_strlit("GET");
    reveal_strlit("POST");
    assert("/message"@[1] == 'm' && "/translate"@[1] == 't' && "/resume"@[1] == 'r' && "/stop"@[1]
        == 's' && "/delete"@[1] == 'd' && "/new"@[1] == 'n');
    assert("/"@.len() == 1 && "/realtime"@.len() == 9 && "/debug"@.len() == 6);
    assert("GET"@.len() == 3 && "POST"@.len() == 4);
}

/// A form that is posted for a team does what its path says with that team.
pub proof fn posts_do_what_their_paths_say(form: Map<Seq<char>, Seq<char>>)
    requires
        is_filled(form, "team"@),
    ensures
        is_filled(form, "language"@) ==> posted_action("/translate"@, form)
            == (ActionView::Translate { team: form["team"@], language: form["language"@] }),
        !is_filled(form, "language"@) ==> posted_action("/translate"@, form)
            == (ActionView::Translate { team: form["team"@], language: "ja"@ }),
        posted_action("/resume"@, form) == (ActionView::Resume { team: form["team"@] }),
        posted_action("/stop"@, form) == (ActionView::Stop { team: form["team"@] }),
        posted_action("/delete"@, form) == (ActionView::Delete { team: form["team"@] }),
        is_filled(form, "message"@) && is_filled(form, "to"@) ==> posted_action("/message"@, form)
            == (ActionView::Message {
            team: form["team"@],
            from: "user"@,
            to: form["to"@],
            message: form["message"@],
        }),
        is_filled(form, "message"@) && !is_filled(form, "to"@) ==> posted_action("/message"@, form)
            == (ActionView::Message {
            team: form["team"@],
            from: "user"@,
            to: "lead"@,
            message: form["message"@],
        }),
        !is_filled(form, "message"@) ==> posted_action("/message"@, form)
            == (ActionView::Refuse { message: "missing form field `"@ + "message"@ + "`"@ }),
{
    paths_differ();
}

/// A form that names no team is refused wherever it needs one, and a new team needs a goal.
pub proof fn posts_need_their_fields(form: Map<Seq<char>, Seq<char>>)
    ensures
        !is_filled(form, "team"@) ==> ({
            let refused = ActionView::Refuse { message: "missing form field `"@ + "team"@ + "`"@ };
            &&& posted_action("/message"@, form) == refused
            &&& posted_action("/translate"@, form) == refused
            &&& posted_action("/resume"@, form) == refused
            &&& posted_action("/stop"@, form) == refused
            &&& posted_action("/delete"@, form) == refused
        }),
        !is_filled(form, "goal"@) ==> posted_action("/new"@, form) == (ActionView::Refuse {
            message: "missing form field `"@ + "goal"@ + "`"@,
        }),
        is_filled(form, "goal"@) ==> posted_action("/new"@, form) is New
            && posted_action("/new"@, form)->New_0.goal == form["goal"@],
{
    paths_differ();
}

/// A GET request shows the page that is asked for, or a snapshot of the team that it names.
pub proof fn gets_show_what_is_asked_for(request: RequestView)
    requires
        request.method == "GET"@,
    ensures
        request.path == "/"@ ==> {
            let action = action_for(request);
            &&& action is Page
            &&& is_field(action->Page_team, request.query, "team"@)
            &&& is_field(action->cwd, request.query, "cwd"@)
            &&& is_field(action->task, request.query, "task"@)
            &&& is_field(action->translation, request.query, "translation"@)
        },
        request.path == "/realtime"@ && is_filled(request.query, "team"@) ==> action_for(request)
            == (ActionView::Realtime { team: request.query["team"@] }),
        request.path == "/debug"@ && is_filled(request.query, "team"@) ==> action_for(request)
            == (ActionView::Debug { team: request.query["team"@] }),
        (request.path == "/realtime"@ || request.path == "/debug"@) && !is_filled(
            request.query,
            "team"@,
        ) ==> action_for(request) == (ActionView::Refuse {
            message: "missing query parameter `team`"@,
        }),
{
    paths_differ();
}

/// The value is that of a field, or none where there is no such field.
pub open spec fn is_field(
    value: Option<Seq<char>>,
    form: Map<Seq<char>, Seq<char>>,
    key: Seq<char>,
) -> bool {
    &&& form.contains_key(key) ==> value == Some(form[key])
    &&& !form.contains_key(key) ==> value is None
}

/// A POST request is taken by its path and the fields of its body.
pub proof fn posts_are_taken_by_their_bodies(request: RequestView)
    requires
        request.method == "POST"@,
    ensures
        action_for(request) == posted_action(request.path, form_fields(request.body)),
{
    paths_differ();
}

/// What was done is answered: with the page or the snapshot, or by sending the browser to the team
/// that it was done with; nowhere in particular after a team is gone.
pub proof fn finished_actions_are_answered(
    given: Seq<char>,
    team: Seq<char>,
    other: Seq<char>,
    form: NewTeamView,
    text: Seq<char>,
)
    ensures
        forall|cwd: Option<Seq<char>>, task: Option<Seq<char>>, language: Option<Seq<char>>|
            answer_text(
                outcome_of(
                    #[trigger] page_action(cwd, task, language),
                    Ok(given),
                ),
            ) == response_text("200 OK"@, "text/html; charset=utf-8"@, given),
        answer_text(outcome_of(ActionView::Realtime { team }, Ok(given))) == response_text(
            "200 OK"@,
            "application/json; charset=utf-8"@,
            given,
        ),
        answer_text(outcome_of(ActionView::Debug { team }, Ok(given))) == response_text(
            "200 OK"@,
            "application/json; charset=utf-8"@,
            given,
        ),
        answer_text(
            outcome_of(
                ActionView::Message { team, from: "user"@, to: other, message: text },
                Ok(given),
            ),
        ) == redirect_text(team_location(Some(team))),
        answer_text(outcome_of(ActionView::Translate { team, language: other }, Ok(given)))
            == redirect_text(params_location(seq![("team"@, team), ("translation"@, other)])),
        answer_text(outcome_of(ActionView::Resume { team }, Ok(given))) == redirect_text(
            team_location(Some(given)),
        ),
        answer_text(outcome_of(ActionView::Stop { team }, Ok(given))) == redirect_text(
            team_location(Some(team)),
        ),
        answer_text(outcome_of(ActionView::Delete { team }, Ok(given))) == redirect_text(
            team_location(None),
        ),
        answer_text(outcome_of(ActionView::New(form), Ok(given))) == redirect_text(
            team_location(Some(given)),
        ),
        answer_text(outcome_of(ActionView::NotFound, Ok(given))) == response_text(
            "404 Not Found"@,
            "text/plain"@,
            "not found\n"@,
        ),
        answer_text(outcome_of(ActionView::Refuse { message: text }, Ok(given))) == response_text(
            "500 Internal Server Error"@,
            "text/plain"@,
            "error: "@ + text + "\n"@,
        ),
        answer_text(outcome_of(ActionView::Stop { team }, Err(text))) == response_text(
            "500 Internal Server Error"@,
            "text/plain"@,
            "error: "@ + text + "\n"@,
        ),
{
}

/// The action that shows the page.
pub open spec fn page_action(
    cwd: Option<Seq<char>>,
    task: Option<Seq<char>>,
    translation: Option<Seq<char>>,
) -> ActionView {
    ActionView::Page { team: None, cwd, task, translation }
}

// ---------------------------------------------------------------------------
// New teams
// ---------------------------------------------------------------------------

/// The value is that of a field that is not blank, or none.
pub open spec fn is_filled_field(
    value: Option<Seq<char>>,
    form: Map<Seq<char>, Seq<char>>,
    key: Seq<char>,
) -> bool {
    &&& is_filled(form, key) ==> value == Some(form[key])
    &&& !is_filled(form, key) ==> value is None
}

/// A new team has what its form gives: a directory and a server where they are not blank, an
/// identifier where one remains of it, the entries of the two lists, and the number of rounds or
/// none. It is kept alive unless the form says otherwise, and runs in a sandbox only where the
/// form shows that choice and leaves it.
pub proof fn new_teams_have_what_their_forms_give(
    form: Map<Seq<char>, Seq<char>>,
    goal: Seq<char>,
)
    ensures
        new_team_in(form, goal).goal == goal,
        is_filled_field(new_team_in(form, goal).cwd, form, "cwd"@),
        is_filled_field(new_team_in(form, goal).app_server_url, form, "app_server_url"@),
        form.contains_key("id"@) && id_of(form["id"@]).len() > 0 ==> new_team_in(form, goal).id
            == Some(id_of(form["id"@])),
        !(form.contains_key("id"@) && id_of(form["id"@]).len() > 0) ==> new_team_in(
            form,
            goal,
        ).id is None,
        form.contains_key("members"@) ==> new_team_in(form, goal).members == entries_of(
            lines(form["members"@]),
        ),
        !form.contains_key("members"@) ==> new_team_in(form, goal).members.len() == 0,
        form.contains_key("nodes"@) ==> new_team_in(form, goal).nodes == entries_of(
            lines(form["nodes"@]),
        ),
        !form.contains_key("nodes"@) ==> new_team_in(form, goal).nodes.len() == 0,
        is_filled(form, "discuss_rounds"@) ==> new_team_in(form, goal).discuss_rounds == trim(
            form["discuss_rounds"@],
        ),
        !is_filled(form, "discuss_rounds"@) ==> new_team_in(form, goal).discuss_rounds == "0"@,
        new_team_in(form, goal).no_keep_alive <==> form.contains_key("no_keep_alive"@),
        !new_team_in(form, goal).bypass_sandbox <==> form.contains_key(
            "dangerously_bypass_present"@,
        ) && !form.contains_key("dangerously_bypass"@),
{
    reveal_strlit("");
    let none = ""@;
    assert(none =~= Seq::<char>::empty());
    let pieces = split(none, '\n');
    assert(pieces =~= seq![Seq::<char>::empty()]);
    assert(lines(none) =~= seq![]);
    assert(entries_of(lines(none)) =~= seq![]);
    if form.contains_key("discuss_rounds"@) {
        crate::text::trim_is_empty_iff_blank(form["discuss_rounds"@]);
    }
}

/// The entry is the trimmed text between two commas, and is neither empty nor a comment.
pub open spec fn is_entry_of(line: Seq<char>, entry: Seq<char>) -> bool {
    &&& entry.len() > 0
    &&& entry[0] != '#'
    &&& exists|i: int| 0 <= i < split(line, ',').len() && trim(#[trigger] split(line, ',')[i])
        == entry
}

/// The entries of a line are the texts between its commas, trimmed, without those that are empty or
/// begin with a hash; those of several lines follow one another.
pub proof fn entries_stand_between_commas(line: Seq<char>, all: Seq<Seq<char>>)
    ensures
        forall|entry: Seq<char>| #[trigger]
            line_entries(line).contains(entry) <==> is_entry_of(line, entry),
        entries_of(all.push(line)) == entries_of(all) + line_entries(line),
        entries_of(seq![]) == Seq::<Seq<char>>::empty(),
{
    assert(all.push(line).drop_last() =~= all);
    let pieces = split(line, ',').map_values(|piece: Seq<char>| trim(piece));
    let keep = |entry: Seq<char>| is_entry(entry);
    let out = line_entries(line);
    assert(out == pieces.filter(keep));
    assert forall|entry: Seq<char>| #[trigger] out.contains(entry) <==> is_entry_of(
        line,
        entry,
    ) by {
        if out.contains(entry) {
            let k = choose|k: int| 0 <= k < out.len() && out[k] == entry;
            pieces.lemma_filter_pred(keep, k);
            pieces.lemma_filter_contains_rev(keep, entry);
            let i = choose|i: int| 0 <= i < pieces.len() && pieces[i] == entry;
            assert(trim(split(line, ',')[i]) == entry);
        }
        if is_entry_of(line, entry) {
            let i = choose|i: int|
                0 <= i < split(line, ',').len() && trim(#[trigger] split(line, ',')[i]) == entry;
            assert(pieces[i] == entry);
            pieces.lemma_filter_contains(keep, i);
        }
    }
}

proof fn flags_stand_before_values(flag: Seq<char>, values: Seq<Seq<char>>)
    ensures
        flagged(flag, values).len() == 2 * values.len(),
        forall|i: int|
            0 <= i < values.len() ==> flagged(flag, values)[2 * i + 1] == #[trigger] values[i]
                && flagged(flag, values)[2 * i] == flag,
    decreases values.len(),
{
    if values.len() > 0 {
        let before = values.drop_last();
        flags_stand_before_values(flag, before);
        let head = flagged(flag, before);
        let out = flagged(flag, values);
        assert forall|i: int| 0 <= i < values.len() implies out[2 * i + 1]
            == #[trigger] values[i] && out[2 * i] == flag by {
            if i < before.len() {
                assert(before[i] == values[i]);
                assert(out[2 * i + 1] == head[2 * i + 1]);
                assert(out[2 * i] == head[2 * i]);
            }
        }
    }
}

/// At a place stands a flag, and its value behind it.
pub open spec fn is_pair(args: Seq<Seq<char>>, at: int, flag: Seq<char>, value: Seq<char>) -> bool {
    args[at] == flag && args[at + 1] == value
}

/// The command of a new team names the team first and its goal last. Between them come its nodes
/// and its members, each behind its flag, its rounds and its directory, and then a switch for each
/// choice that was made.
pub proof fn new_teams_are_started_as_asked(
    form: NewTeamView,
    team: Seq<char>,
    cwd: Seq<char>,
    registered: Option<Seq<char>>,
)
    ensures
        ({
            let args = new_team_args(form, team, cwd, registered);
            let nodes = form.nodes.len() as int;
            let members = form.members.len() as int;
            let at = 4 + 2 * nodes + 2 * members;
            let bypass: int = if form.bypass_sandbox {
                1
            } else {
                0
            };
            let short: int = if form.no_keep_alive {
                1
            } else {
                0
            };
            let server: int = if form.app_server_url is None {
                1
            } else if form.app_server_url == registered {
                0
            } else {
                2
            };
            &&& args.len() == at + 5 + bypass + short + server + 1
            &&& args[0] == "team"@ && args[1] == "swarm"@ && args[2] == "--id"@ && args[3] == team
            &&& forall|i: int|
                0 <= i < nodes ==> is_pair(args, 4 + 2 * i, "--node"@, #[trigger] form.nodes[i])
            &&& forall|i: int|
                0 <= i < members ==> is_pair(
                    args,
                    4 + 2 * nodes + 2 * i,
                    "--member"@,
                    #[trigger] form.members[i],
                )
            &&& args[at] == "--app-server"@ && args[at + 1] == "--discuss-rounds"@
            &&& args[at + 2] == form.discuss_rounds && args[at + 3] == "--cd"@ && args[at + 4]
                == cwd
            &&& form.bypass_sandbox ==> args[at + 5]
                == "--dangerously-bypass-approvals-and-sandbox"@
            &&& form.no_keep_alive ==> args[at + 5 + bypass] == "--no-keep-alive"@
            &&& form.app_server_url is None ==> args[at + 5 + bypass + short]
                == "--no-app-server-registry"@
            &&& form.app_server_url is Some && form.app_server_url != registered ==> args[at + 5
                + bypass + short] == "--app-server-url"@ && args[at + 6 + bypass + short]
                == form.app_server_url->0
            &&& args.last() == form.goal
        }),
{
    flags_stand_before_values("--node"@, form.nodes);
    flags_stand_before_values("--member"@, form.members);
    let a = seq!["team"@, "swarm"@, "--id"@, team];
    let b = flagged("--node"@, form.nodes);
    let c = flagged("--member"@, form.members);
    let args = new_team_args(form, team, cwd, registered);
    let nodes = form.nodes.len() as int;
    let members = form.members.len() as int;
    assert forall|i: int| 0 <= i < nodes implies is_pair(
        args,
        4 + 2 * i,
        "--node"@,
        #[trigger] form.nodes[i],
    ) by {
        assert(args[4 + 2 * i] == b[2 * i]);
        assert(args[5 + 2 * i] == b[2 * i + 1]);
        let value = form.nodes[i];
        assert(b[2 * i + 1] == value && b[2 * i] == "--node"@);
    }
    assert forall|i: int| 0 <= i < members implies is_pair(
        args,
        4 + 2 * nodes + 2 * i,
        "--member"@,
        #[trigger] form.members[i],
    ) by {
        assert(args[4 + 2 * nodes + 2 * i] == c[2 * i]);
        assert(args[5 + 2 * nodes + 2 * i] == c[2 * i + 1]);
        let value = form.members[i];
        assert(c[2 * i + 1] == value && c[2 * i] == "--member"@);
    }
    let at = 4 + 2 * nodes + 2 * members;
    let d = seq!["--app-server"@, "--discuss-rounds"@, form.discuss_rounds, "--cd"@, cwd];
    let e = if form.bypass_sandbox {
        seq!["--dangerously-bypass-approvals-and-sandbox"@]
    } else {
        seq![]
    };
    let f = if form.no_keep_alive {
        seq!["--no-keep-alive"@]
    } else {
        seq![]
    };
    let g = server_args(form.app_server_url, registered);
    assert(args == a + b + c + d + e + f + g + seq![form.goal]);
    assert(args[at] == d[0] && args[at + 1] == d[1] && args[at + 2] == d[2] && args[at + 3] == d[3]
        && args[at + 4] == d[4]);
    assert(e.len() > 0 ==> args[at + 5] == e[0]);
    let after = at + 5 + e.len();
    assert(f.len() > 0 ==> args[after as int] == f[0]);
    let last = after + f.len();
    assert(g.len() > 0 ==> args[last as int] == g[0]);
    assert(g.len() > 1 ==> args[last + 1] == g[1]);
    assert(args.last() == form.goal);
    assert(args[0] == a[0] && args[1] == a[1] && args[2] == a[2] && args[3] == a[3]);
    assert(args.len() == last + g.len() + 1);
    assert(form.app_server_url is None ==> g.len() == 1 && g[0] == "--no-app-server-registry"@);
    assert(form.app_server_url is Some && form.app_server_url != registered ==> g.len() == 2 && g[0]
        == "--app-server-url"@ && g[1] == form.app_server_url->0);
    assert(form.app_server_url is Some && form.app_server_url == registered ==> g.len() == 0);
}

/// A team is resumed by its identifier, outside the sandbox, and in its language where it has one.
pub proof fn teams_are_resumed(team: Seq<char>)
    ensures
        resume_args(team, None) == seq![
            "team"@,
            "resume"@,
            "--team"@,
            team,
            "--dangerously-bypass-approvals-and-sandbox"@,
        ],
        resume_args(team, Some(TeamPromptLanguage::En)) == resume_args(team, None).push(
            "--language"@,
        ).push("en"@),
        resume_args(team, Some(TeamPromptLanguage::Ja)) == resume_args(team, None).push(
            "--language"@,
        ).push("ja"@),
{
    assert(resume_args(team, None) =~= seq![
        "team"@,
        "resume"@,
        "--team"@,
        team,
        "--dangerously-bypass-approvals-and-sandbox"@,
    ]);
    assert(resume_args(team, Some(TeamPromptLanguage::En)) =~= resume_args(team, None).push(
        "--language"@,
    ).push("en"@));
    assert(resume_args(team, Some(TeamPromptLanguage::Ja)) =~= resume_args(team, None).push(
        "--language"@,
    ).push("ja"@));
}

/// A new team has the identifier that was asked for, or one made from the time.
pub proof fn new_teams_have_identifiers(id: Seq<char>, stamp: Seq<char>)
    ensures
        start_id(Some(id), stamp) == id,
        start_id(None, stamp) == "team-"@ + stamp,
{
}

/// A tilde at the start of a path, alone or before a slash, stands for the home directory, and
/// every other path for itself.
pub proof fn tildes_stand_for_home(path: Seq<char>, rest: Seq<char>, home: Seq<char>)
    ensures
        expanded(seq!['~'], home) == home,
        expanded(seq!['~', '/'] + rest, home) == home + seq!['/'] + rest,
        (path.len() == 0 || path[0] != '~') ==> expanded(path, home) == path,
        path.len() > 1 && path[1] != '/' ==> expanded(path, home) == path,
{
    reveal_strlit("~");
    reveal_strlit("~/");
    reveal_strlit("/");
    assert("~"@ =~= seq!['~']);
    assert("~/"@ =~= seq!['~', '/']);
    assert("/"@ =~= seq!['/']);
    let long = seq!['~', '/'] + rest;
    assert(long.len() >= 2);
    assert(long.take(2) =~= "~/"@);
    assert(long.skip(2) =~= rest);
    if path.len() >= 2 {
        assert(path.take(2)[0] == path[0] && path.take(2)[1] == path[1]);
    }
}

/// A new team starts in the directory that was asked for, or in the usual one, or at home; the page
/// shows the same directories.
pub proof fn teams_start_where_they_are_asked_to(
    asked: Option<Seq<char>>,
    default_cwd: Option<String>,
    home: Seq<char>,
)
    ensures
        asked is Some ==> start_cwd(asked, default_cwd, home) == expanded(asked->0, home)
            && shown_cwd(asked, default_cwd, home) == expanded(asked->0, home),
        asked is None && default_cwd is Some ==> start_cwd(asked, default_cwd, home) == expanded(
            default_cwd->0@,
            home,
        ) && shown_cwd(asked, default_cwd, home) == default_cwd->0@,
        asked is None && default_cwd is None ==> start_cwd(asked, default_cwd, home) == expanded(
            home,
            home,
        ) && shown_cwd(asked, default_cwd, home) == home,
{
}

} // verus!
