//! The HTTP that the dashboard speaks.

use vstd::prelude::*;
use vstd::utf8::{decode_utf8, encode_utf8, valid_utf8};

use crate::escape::{query_text, url_encode};
use crate::form::{
    encode_query, fields_of, form_fields, params_map, params_view, parse_form,
    parse_form_inverts_encode_query, query_of, text_map,
};
use crate::number::{
    decimal, decimal_is_digits, is_digit, parse_unsigned, unsigned, unsigned_reads_decimal,
    usize_text,
};
use crate::order::StringMap;
use crate::split::{
    cut_last, cut_once, find_any, has_prefix, index_of_any, index_of_any_from_position,
    last_index_of, last_index_of_is_last, lines, lines_of, rsplit_once, split, split_once,
    starts_with, strip_prefix, without_prefix, words, words_of,
};
use crate::text::{chars_of, opt_view, same_text, string_between, trim, trimmed, views};

verus! {

// ---------------------------------------------------------------------------
// Bytes as text
// ---------------------------------------------------------------------------

/// The text of bytes that are meant to be UTF-8, with replacement characters where they are not.
pub uninterp spec fn utf8_lossy(bytes: Seq<u8>) -> Seq<char>;

/// `String::from_utf8_lossy`: valid UTF-8 is decoded, and anything else is replaced.
#[verifier::external_body]
fn lossy_text(bytes: &[u8]) -> (out: String)
    ensures
        out@ == utf8_lossy(bytes@),
        valid_utf8(bytes@) ==> out@ == decode_utf8(bytes@),
{
    String::from_utf8_lossy(bytes).to_string()
}

/// An ASCII capital as its small letter; any other character as it is.
pub open spec fn ascii_lower(ch: char) -> char {
    if 'A' <= ch <= 'Z' {
        (ch as u32 + 32) as char
    } else {
        ch
    }
}

/// A text with its ASCII capitals as small letters.
pub open spec fn lower(text: Seq<char>) -> Seq<char> {
    text.map_values(|ch: char| ascii_lower(ch))
}

/// A text with its ASCII capitals as small letters.
pub fn lowercase(text: &str) -> (out: String)
    ensures
        out@ == lower(text@),
{
    let mut out = String::new();
    for ch in it: text.chars()
        invariant
            it.seq() == text@,
            out@ == lower(text@).take(it.index() as int),
    {
        if 'A' <= ch && ch <= 'Z' {
            out.push((ch as u8 + 32) as char);
        } else {
            out.push(ch);
        }
        assert(out@ =~= lower(text@).take(it.index() + 1));
    }
    assert(lower(text@).take(text@.len() as int) =~= lower(text@));
    out
}

// ---------------------------------------------------------------------------
// Reading a request
// ---------------------------------------------------------------------------

/// The most bytes that a request's head may take.
pub const MAX_HEAD_BYTES: usize = 1_048_576;

/// Why a request cannot be read.
#[derive(Clone, Copy, Debug, PartialEq, Eq, Structural)]
pub enum HttpRequestError {
    TooLarge,
    Malformed,
    Empty,
}

impl HttpRequestError {
    /// The message of the error.
    pub open spec fn text(self) -> Seq<char> {
        match self {
            HttpRequestError::TooLarge => "HTTP request too large"@,
            HttpRequestError::Malformed => "malformed HTTP request"@,
            HttpRequestError::Empty => "empty HTTP request"@,
        }
    }

    /// The message of the error.
    pub fn message(self) -> (out: &'static str)
        ensures
            out@ == self.text(),
    {
        match self {
            HttpRequestError::TooLarge => "HTTP request too large",
            HttpRequestError::Malformed => "malformed HTTP request",
            HttpRequestError::Empty => "empty HTTP request",
        }
    }
}

/// A request.
#[derive(Debug)]
pub struct HttpRequest {
    pub method: String,
    pub path: String,
    pub query: StringMap<String>,
    pub body: String,
}

/// What a request says.
#[verifier::ext_equal]
pub struct RequestView {
    pub method: Seq<char>,
    pub path: Seq<char>,
    pub query: Map<Seq<char>, Seq<char>>,
    pub body: Seq<char>,
}

impl View for HttpRequest {
    type V = RequestView;

    open spec fn view(&self) -> RequestView {
        RequestView {
            method: self.method@,
            path: self.path@,
            query: text_map(self.query@),
            body: self.body@,
        }
    }
}

/// An empty line ends at `at + 4`.
pub open spec fn blank_line_at(bytes: Seq<u8>, at: int) -> bool {
    &&& 0 <= at <= bytes.len() - 4
    &&& bytes[at] == 13
    &&& bytes[at + 1] == 10
    &&& bytes[at + 2] == 13
    &&& bytes[at + 3] == 10
}

/// Where the head of a request ends, behind its first empty line from `from` on.
pub open spec fn head_end_from(bytes: Seq<u8>, from: int) -> Option<int>
    decreases bytes.len() - from,
{
    if from > bytes.len() - 4 {
        None
    } else if blank_line_at(bytes, from) {
        Some(from + 4)
    } else {
        head_end_from(bytes, from + 1)
    }
}

/// Where the head of a request ends, if it is complete.
pub open spec fn head_end(bytes: Seq<u8>) -> Option<int> {
    head_end_from(bytes, 0)
}

/// The length that a header line gives for the body.
pub open spec fn line_length(line: Seq<char>) -> Option<nat> {
    match cut_once(line, ':') {
        Some(pair) => if lower(pair.0) == "content-length"@ {
            unsigned(trim(pair.1), usize::MAX as nat)
        } else {
            None
        },
        None => None,
    }
}

/// The length that the first line with one gives for the body; 0 where no line gives one.
pub open spec fn body_length(all: Seq<Seq<char>>) -> nat
    decreases all.len(),
{
    if all.len() == 0 {
        0
    } else {
        match line_length(all[0]) {
            Some(length) => length,
            None => body_length(all.drop_first()),
        }
    }
}

/// The first word of a request line.
pub open spec fn request_method(line: Seq<char>) -> Seq<char> {
    if words(line).len() > 0 {
        words(line)[0]
    } else {
        seq![]
    }
}

/// The second word of a request line, or the root path where there is none.
pub open spec fn request_target(line: Seq<char>) -> Seq<char> {
    if words(line).len() > 1 {
        words(line)[1]
    } else {
        "/"@
    }
}

/// The path and the fields of a request's target.
pub open spec fn target_parts(target: Seq<char>) -> (Seq<char>, Map<Seq<char>, Seq<char>>) {
    match cut_once(target, '?') {
        Some(pair) => (pair.0, form_fields(pair.1)),
        None => (target, Map::empty()),
    }
}

/// The bytes of the body: as many as the head announces, or as many as there are.
pub open spec fn body_bytes(bytes: Seq<u8>, end: int, length: nat) -> Seq<u8> {
    if end + length <= bytes.len() {
        bytes.subrange(end, end + length)
    } else {
        bytes.skip(end)
    }
}

/// The request with a head and a body.
pub open spec fn request_of(head: Seq<char>, body: Seq<char>) -> Result<
    RequestView,
    HttpRequestError,
> {
    if lines(head).len() == 0 {
        Err(HttpRequestError::Empty)
    } else {
        let line = lines(head)[0];
        let parts = target_parts(request_target(line));
        Ok(RequestView { method: request_method(line), path: parts.0, query: parts.1, body })
    }
}

/// The request that the bytes hold, where the head ends at `end` and reads `head`.
pub open spec fn request_with_head(bytes: Seq<u8>, end: int, head: Seq<char>) -> Result<
    RequestView,
    HttpRequestError,
> {
    request_of(head, utf8_lossy(body_bytes(bytes, end, body_length(lines(head)))))
}

/// The request that the bytes hold.
pub open spec fn request_in(bytes: Seq<u8>) -> Result<RequestView, HttpRequestError> {
    match head_end(bytes) {
        None => Err(HttpRequestError::Malformed),
        Some(end) => request_with_head(bytes, end, utf8_lossy(bytes.take(end))),
    }
}

/// What to do after a chunk of a request was read.
pub enum ReadAction {
    ReadMore,
    Done(Result<HttpRequest, HttpRequestError>),
}

/// The view of a request or an error.
pub open spec fn request_view(request: Result<HttpRequest, HttpRequestError>) -> Result<
    RequestView,
    HttpRequestError,
> {
    match request {
        Ok(request) => Ok(request@),
        Err(error) => Err(error),
    }
}

/// More has to be read: the connection is open, and the head is neither complete nor too large,
/// or the head is complete and announces more of a body than is there.
pub open spec fn needs_more(bytes: Seq<u8>, closed: bool) -> bool {
    !closed && match head_end(bytes) {
        None => bytes.len() <= MAX_HEAD_BYTES,
        Some(end) => {
            let all = lines(utf8_lossy(bytes.take(end)));
            all.len() > 0 && bytes.len() < end + body_length(all)
        },
    }
}

/// A head was read to its end at `end` and reads `head`, and it announces more of a body than is
/// there.
pub open spec fn body_is_short(bytes: Seq<u8>, end: int, head: Seq<char>) -> bool {
    lines(head).len() > 0 && bytes.len() < end + body_length(lines(head))
}

/// What is done with bytes whose head ends at `end` and reads `head`: more is read where the body is
/// short and more may come; else the request is that of the head and, where the body is UTF-8,
/// of the text of the body.
pub open spec fn is_action_for_head(
    action: ReadAction,
    bytes: Seq<u8>,
    closed: bool,
    end: int,
    head: Seq<char>,
) -> bool {
    let body = body_bytes(bytes, end, body_length(lines(head)));
    match action {
        ReadAction::ReadMore => !closed && body_is_short(bytes, end, head),
        ReadAction::Done(request) => {
            &&& closed || !body_is_short(bytes, end, head)
            &&& valid_utf8(body) ==> request_view(request) == request_of(head, decode_utf8(body))
        },
    }
}

/// What the bytes come to once no more has to be read.
pub open spec fn request_outcome(bytes: Seq<u8>, closed: bool) -> Result<
    RequestView,
    HttpRequestError,
> {
    if !closed && head_end(bytes) is None {
        Err(HttpRequestError::TooLarge)
    } else {
        request_in(bytes)
    }
}

proof fn head_end_is_within(bytes: Seq<u8>, from: int)
    requires
        0 <= from,
    ensures
        match head_end_from(bytes, from) {
            Some(end) => from + 4 <= end <= bytes.len(),
            None => true,
        },
    decreases bytes.len() - from,
{
    if from <= bytes.len() - 4 && !blank_line_at(bytes, from) {
        head_end_is_within(bytes, from + 1);
    }
}

fn find_head_end(bytes: &Vec<u8>) -> (end: Option<usize>)
    ensures
        match end {
            Some(end) => head_end(bytes@) == Some(end as int) && end <= bytes@.len(),
            None => head_end(bytes@) is None,
        },
{
    let total = bytes.len();
    if total < 4 {
        return None;
    }
    let last = total - 4;
    let mut at: usize = 0;
    while at <= last
        invariant
            total == bytes@.len(),
            last == total - 4,
            at <= last + 1,
            head_end(bytes@) == head_end_from(bytes@, at as int),
        decreases last + 1 - at,
    {
        if bytes[at] == 13 && bytes[at + 1] == 10 && bytes[at + 2] == 13 && bytes[at + 3] == 10 {
            return Some(at + 4);
        }
        at = at + 1;
    }
    None
}

fn line_length_of(line: &str) -> (length: Option<usize>)
    ensures
        match length {
            Some(length) => line_length(line@) == Some(length as nat),
            None => line_length(line@) is None,
        },
{
    match split_once(line, ':') {
        Some((name, value)) => {
            let name = lowercase(name.as_str());
            if same_text(name.as_str(), "content-length") {
                let value = trimmed(value.as_str());
                match parse_unsigned(value.as_str(), usize::MAX as u64) {
                    Some(length) => Some(length as usize),
                    None => None,
                }
            } else {
                None
            }
        },
        None => None,
    }
}

fn body_length_of(all: &Vec<String>) -> (length: usize)
    ensures
        length == body_length(views(all@)),
{
    assert(views(all@).skip(0) =~= views(all@));
    for i in 0..all.len()
        invariant
            body_length(views(all@)) == body_length(views(all@).skip(i as int)),
    {
        assert(views(all@).skip(i as int).drop_first() =~= views(all@).skip(i + 1));
        if let Some(length) = line_length_of(all[i].as_str()) {
            return length;
        }
    }
    0
}

fn copy_bytes(bytes: &Vec<u8>, from: usize, to: usize) -> (out: Vec<u8>)
    requires
        from <= to <= bytes@.len(),
    ensures
        out@ == bytes@.subrange(from as int, to as int),
{
    let mut out: Vec<u8> = Vec::new();
    for i in from..to
        invariant
            from <= i <= to <= bytes@.len(),
            out@ == bytes@.subrange(from as int, i as int),
    {
        out.push(bytes[i]);
    }
    out
}

/// What the head of a request says.
pub struct RequestHead {
    pub method: String,
    pub path: String,
    pub query: StringMap<String>,
    pub body_length: usize,
}

/// What the head of a request says, unless it has no line.
pub fn read_head(head: &str) -> (out: Result<RequestHead, HttpRequestError>)
    ensures
        match out {
            Ok(read) => {
                let line = lines(head@)[0];
                let parts = target_parts(request_target(line));
                &&& lines(head@).len() > 0
                &&& read.method@ == request_method(line)
                &&& read.path@ == parts.0
                &&& text_map(read.query@) == parts.1
                &&& read.body_length == body_length(lines(head@))
            },
            Err(error) => lines(head@).len() == 0 && error == HttpRequestError::Empty,
        },
{
    let all = lines_of(head);
    if all.len() == 0 {
        return Err(HttpRequestError::Empty);
    }
    let body_length = body_length_of(&all);
    assert(all@[0]@ == lines(head@)[0]);
    let line = words_of(all[0].as_str());
    let method = if line.len() > 0 {
        line[0].clone()
    } else {
        String::new()
    };
    assert(method@ =~= request_method(all@[0]@));
    let target = if line.len() > 1 {
        line[1].clone()
    } else {
        "/".to_string()
    };
    let (path, query) = match split_once(target.as_str(), '?') {
        Some((path, query)) => (path, parse_form(query.as_str())),
        None => (target, StringMap::new()),
    };
    assert(text_map(query@) =~= target_parts(target@).1);
    Ok(RequestHead { method, path, query, body_length })
}

/// Decides what to do with the bytes of a request that were read so far; `closed` says that the
/// other side sends no more.
pub fn read_http_request(bytes: &Vec<u8>, closed: bool) -> (action: ReadAction)
    ensures
        match action {
            ReadAction::ReadMore => needs_more(bytes@, closed),
            ReadAction::Done(request) => !needs_more(bytes@, closed) && request_view(request)
                == request_outcome(bytes@, closed),
        },
        head_end(bytes@) matches Some(end) ==> valid_utf8(bytes@.take(end)) ==> is_action_for_head(
            action,
            bytes@,
            closed,
            end,
            decode_utf8(bytes@.take(end)),
        ),
{
    let total = bytes.len();
    match find_head_end(bytes) {
        None => if closed {
            ReadAction::Done(Err(HttpRequestError::Malformed))
        } else if total <= MAX_HEAD_BYTES {
            ReadAction::ReadMore
        } else {
            ReadAction::Done(Err(HttpRequestError::TooLarge))
        },
        Some(end) => {
            let head_bytes = copy_bytes(bytes, 0, end);
            assert(head_bytes@ =~= bytes@.take(end as int));
            let head = lossy_text(head_bytes.as_slice());
            let read = match read_head(head.as_str()) {
                Ok(read) => read,
                Err(error) => return ReadAction::Done(Err(error)),
            };
            let length = read.body_length;
            if !closed && total - end < length {
                return ReadAction::ReadMore;
            }
            let stop = if total - end < length {
                total
            } else {
                end + length
            };
            let body = copy_bytes(bytes, end, stop);
            assert(body@ =~= body_bytes(bytes@, end as int, length as nat));
            let request = HttpRequest {
                method: read.method,
                path: read.path,
                query: read.query,
                body: lossy_text(body.as_slice()),
            };
            assert(request@ =~= request_outcome(bytes@, closed)->Ok_0);
            ReadAction::Done(Ok(request))
        },
    }
}

proof fn head_end_of_longer(bytes: Seq<u8>, more: Seq<u8>, from: int)
    requires
        0 <= from,
        head_end_from(bytes, from) is Some,
    ensures
        head_end_from(bytes + more, from) == head_end_from(bytes, from),
    decreases bytes.len() - from,
{
    if blank_line_at(bytes, from) {
        assert(blank_line_at(bytes + more, from));
    } else {
        assert(!blank_line_at(bytes + more, from));
        head_end_of_longer(bytes, more, from + 1);
    }
}

/// Once a request is complete, what follows it does not change it.
pub proof fn request_ignores_what_follows(bytes: Seq<u8>, more: Seq<u8>)
    requires
        !needs_more(bytes, false),
        request_outcome(bytes, false) is Ok,
    ensures
        !needs_more(bytes + more, false),
        request_outcome(bytes + more, false) == request_outcome(bytes, false),
{
    head_end_is_within(bytes, 0);
    head_end_of_longer(bytes, more, 0);
    let end = head_end(bytes)->0;
    assert((bytes + more).take(end) =~= bytes.take(end));
    let length = body_length(lines(utf8_lossy(bytes.take(end))));
    assert(body_bytes(bytes + more, end, length) =~= body_bytes(bytes, end, length));
}

// ---------------------------------------------------------------------------
// Responses
// ---------------------------------------------------------------------------

/// A response with a body.
pub open spec fn response_text(status: Seq<char>, content_type: Seq<char>, body: Seq<char>) -> Seq<
    char,
> {
    "HTTP/1.1 "@ + status + "\r\nContent-Type: "@ + content_type + "\r\nContent-Length: "@
        + decimal(encode_utf8(body).len()) + "\r\nConnection: close\r\n\r\n"@ + body
}

/// A response with a body.
pub fn write_http_response(status: &str, content_type: &str, body: &str) -> (out: String)
    ensures
        out@ == response_text(status@, content_type@, body@),
{
    let mut out = "HTTP/1.1 ".to_string();
    out.append(status);
    out.append("\r\nContent-Type: ");
    out.append(content_type);
    out.append("\r\nContent-Length: ");
    out.append(usize_text(body.as_bytes().len()).as_str());
    out.append("\r\nConnection: close\r\n\r\n");
    out.append(body);
    out
}

/// A response that sends the browser to `location`.
pub open spec fn redirect_text(location: Seq<char>) -> Seq<char> {
    "HTTP/1.1 303 See Other\r\nLocation: "@ + location
        + "\r\nContent-Type: text/plain\r\nContent-Length: "@ + decimal(
        encode_utf8("redirect\n"@).len(),
    ) + "\r\nConnection: close\r\n\r\n"@ + "redirect\n"@
}

/// A response that sends the browser to `location`.
pub fn write_redirect_response(location: &str) -> (out: String)
    ensures
        out@ == redirect_text(location@),
{
    let body = "redirect\n";
    let mut out = "HTTP/1.1 303 See Other\r\nLocation: ".to_string();
    out.append(location);
    out.append("\r\nContent-Type: text/plain\r\nContent-Length: ");
    out.append(usize_text(body.as_bytes().len()).as_str());
    out.append("\r\nConnection: close\r\n\r\n");
    out.append(body);
    out
}

/// The address of the dashboard, with `team` selected where one is given.
pub open spec fn team_location(team: Option<Seq<char>>) -> Seq<char> {
    match team {
        Some(team) => "/?team="@ + query_text(team),
        None => "/"@,
    }
}

/// Sends the browser to the dashboard, with `team` selected where one is given.
pub fn redirect_team_ui(team: &Option<String>) -> (out: String)
    ensures
        out@ == redirect_text(team_location(opt_view(*team))),
{
    let location = match team {
        Some(team) => {
            let mut location = "/?team=".to_string();
            location.append(url_encode(team.as_str()).as_str());
            location
        },
        None => "/".to_string(),
    };
    write_redirect_response(location.as_str())
}

/// The address of the dashboard with parameters.
pub open spec fn params_location(params: Seq<(Seq<char>, Seq<char>)>) -> Seq<char> {
    let query = query_of(params);
    if query.len() == 0 {
        "/"@
    } else {
        "/"@ + "?"@ + query
    }
}

/// Sends the browser to the dashboard with parameters.
pub fn redirect_team_ui_with_params(params: &Vec<(&str, &str)>) -> (out: String)
    ensures
        out@ == redirect_text(params_location(params_view(params@))),
{
    let query = encode_query(params);
    let mut location = "/".to_string();
    if !query.as_str().is_empty() {
        location.append("?");
        location.append(query.as_str());
    }
    write_redirect_response(location.as_str())
}

/// A browser that follows the redirect asks for the parameters that the redirect was given.
pub proof fn redirect_keeps_params(params: Seq<(Seq<char>, Seq<char>)>)
    ensures
        target_parts(params_location(params)).0 == "/"@,
        target_parts(params_location(params)).1 == params_map(params),
{
    let query = query_of(params);
    parse_form_inverts_encode_query(params);
    reveal_strlit("/");
    reveal_strlit("?");
    let location = params_location(params);
    assert(seq!['?'].contains('?')) by {
        assert(seq!['?'][0] == '?');
    }
    if query.len() == 0 {
        assert(query =~= seq![]);
        assert(split(Seq::<char>::empty(), '&') =~= seq![Seq::<char>::empty()]);
        assert(fields_of(seq![Seq::<char>::empty()].drop_last()) =~= Map::empty());
        assert(form_fields(query) =~= Map::empty());
        assert(!seq!['?'].contains(location[0]));
        index_of_any_from_position(location, seq!['?'], 1);
    } else {
        assert(location[0] == '/');
        assert(location[1] == '?');
        assert(!seq!['?'].contains(location[0]));
        index_of_any_from_position(location, seq!['?'], 1);
        assert(location.take(1) =~= "/"@);
        assert(location.skip(2) =~= query);
    }
}

// ---------------------------------------------------------------------------
// The app server
// ---------------------------------------------------------------------------

/// `ch` is a square bracket.
pub open spec fn is_bracket(ch: char) -> bool {
    ch == '[' || ch == ']'
}

/// A text without the square brackets at its front.
pub open spec fn trim_brackets_start(text: Seq<char>) -> Seq<char>
    decreases text.len(),
{
    if text.len() > 0 && is_bracket(text[0]) {
        trim_brackets_start(text.drop_first())
    } else {
        text
    }
}

/// A text without the square brackets at its end.
pub open spec fn trim_brackets_end(text: Seq<char>) -> Seq<char>
    decreases text.len(),
{
    if text.len() > 0 && is_bracket(text.last()) {
        trim_brackets_end(text.drop_last())
    } else {
        text
    }
}

/// The host and the port of a web socket address: `ws://`, then a host, a colon and a port up to
/// the first slash, question mark or number sign. Square brackets round the host are dropped.
pub open spec fn ws_host_port(url: Seq<char>) -> Option<(Seq<char>, u16)> {
    match without_prefix(url, "ws://"@) {
        None => None,
        Some(rest) => {
            let authority = rest.take(index_of_any(rest, seq!['/', '?', '#']));
            match cut_last(authority, ':') {
                None => None,
                Some(pair) => match unsigned(pair.1, u16::MAX as nat) {
                    None => None,
                    Some(port) => if pair.0.len() == 0 {
                        None
                    } else {
                        Some((trim_brackets_end(trim_brackets_start(pair.0)), port as u16))
                    },
                },
            }
        },
    }
}

/// A character that ends the host and port of an address.
pub open spec fn ends_authority(ch: char) -> bool {
    ch == '/' || ch == '?' || ch == '#'
}

/// The address that is made of a host and a port gives them back; square brackets round the host
/// are dropped.
pub proof fn ws_address_is_read_back(host: Seq<char>, port: u16)
    requires
        host.len() > 0,
        forall|i: int| 0 <= i < host.len() ==> !ends_authority(#[trigger] host[i]),
    ensures
        ws_host_port("ws://"@ + host + ":"@ + decimal(port as nat)) == Some(
            (trim_brackets_end(trim_brackets_start(host)), port),
        ),
{
    reveal_strlit("ws://");
    reveal_strlit(":");
    let digits = decimal(port as nat);
    let rest = host + ":"@ + digits;
    let url = "ws://"@ + host + ":"@ + digits;
    assert(url.take(5) =~= "ws://"@);
    assert(url.skip(5) =~= rest);
    decimal_is_digits(port as nat);
    unsigned_reads_decimal(port as nat, u16::MAX as nat);
    let set = seq!['/', '?', '#'];
    assert forall|i: int| 0 <= i < rest.len() implies !set.contains(#[trigger] rest[i]) by {
        if i < host.len() {
            assert(rest[i] == host[i]);
        } else if i > host.len() {
            assert(rest[i] == digits[i - host.len() - 1]);
            assert(is_digit(digits[i - host.len() - 1]));
        }
    }
    index_of_any_from_position(rest, set, rest.len() as int);
    assert(rest.take(rest.len() as int) =~= rest);
    last_index_of_is_last(rest, ':');
    let at = last_index_of(rest, ':');
    assert(rest[host.len() as int] == ':');
    if at > host.len() {
        assert(rest[at] == digits[at - host.len() - 1]);
        assert(is_digit(digits[at - host.len() - 1]));
    }
    assert(at == host.len());
    assert(rest.take(at) =~= host);
    assert(rest.skip(at + 1) =~= digits);
}

fn without_brackets(text: &str) -> (out: String)
    ensures
        out@ == trim_brackets_end(trim_brackets_start(text@)),
{
    let chars = chars_of(text);
    let mut from: usize = 0;
    assert(text@.skip(0) =~= text@);
    while from < chars.len() && (chars[from] == '[' || chars[from] == ']')
        invariant
            chars@ == text@,
            from <= chars@.len(),
            trim_brackets_start(text@) == trim_brackets_start(text@.skip(from as int)),
        decreases chars@.len() - from,
    {
        assert(text@.skip(from as int).drop_first() =~= text@.skip(from + 1));
        from = from + 1;
    }
    let ghost rest = text@.skip(from as int);
    let mut to: usize = chars.len();
    assert(rest.take(to - from) =~= rest);
    while to > from && (chars[to - 1] == '[' || chars[to - 1] == ']')
        invariant
            chars@ == text@,
            from <= to <= chars@.len(),
            rest == text@.skip(from as int),
            trim_brackets_end(rest) == trim_brackets_end(rest.take(to - from)),
        decreases to,
    {
        assert(rest.take(to - from).drop_last() =~= rest.take(to - from - 1));
        to = to - 1;
    }
    assert(rest.take(to - from) =~= chars@.subrange(from as int, to as int));
    string_between(&chars, from, to)
}

/// The host and the port of a web socket address.
pub fn parse_ws_host_port(url: &str) -> (out: Option<(String, u16)>)
    ensures
        match out {
            Some((host, port)) => ws_host_port(url@) == Some((host@, port)),
            None => ws_host_port(url@) is None,
        },
{
    let rest = match strip_prefix(url, "ws://") {
        Some(rest) => rest,
        None => {
            return None;
        },
    };
    let chars = chars_of(rest.as_str());
    let mut ends: Vec<char> = Vec::new();
    ends.push('/');
    ends.push('?');
    ends.push('#');
    assert(ends@ =~= seq!['/', '?', '#']);
    let at = find_any(&chars, &ends);
    assert(chars@.subrange(0, at as int) =~= rest@.take(at as int));
    let authority = string_between(&chars, 0, at);
    let (host, port) = match rsplit_once(authority.as_str(), ':') {
        Some(pair) => pair,
        None => {
            return None;
        },
    };
    match parse_unsigned(port.as_str(), u16::MAX as u64) {
        Some(port) => {
            if host.as_str().is_empty() {
                None
            } else {
                Some((without_brackets(host.as_str()), port as u16))
            }
        },
        None => None,
    }
}

/// The request that asks an app server whether it is ready.
pub open spec fn readyz_request_text(host: Seq<char>, port: nat) -> Seq<char> {
    "GET /readyz HTTP/1.1\r\nHost: "@ + host + ":"@ + decimal(port)
        + "\r\nConnection: close\r\n\r\n"@
}

/// The request that asks an app server whether it is ready.
pub fn readyz_request(host: &str, port: u16) -> (out: String)
    ensures
        out@ == readyz_request_text(host@, port as nat),
{
    let mut out = "GET /readyz HTTP/1.1\r\nHost: ".to_string();
    out.append(host);
    out.append(":");
    out.append(usize_text(port as usize).as_str());
    out.append("\r\nConnection: close\r\n\r\n");
    out
}

/// The answer says that the server is ready.
pub open spec fn says_ready(answer: Seq<char>) -> bool {
    has_prefix(answer, "HTTP/1.1 200"@)
}

/// Whether the first bytes of a response say that the app server is ready.
pub fn app_server_readyz(response: &Vec<u8>) -> (ready: bool)
    ensures
        ready == says_ready(utf8_lossy(response@)),
        valid_utf8(response@) ==> ready == says_ready(decode_utf8(response@)),
{
    let text = lossy_text(response.as_slice());
    starts_with(text.as_str(), "HTTP/1.1 200")
}

} // verus!
