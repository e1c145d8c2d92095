//! How requests are read and answers are written.

use vstd::prelude::*;

use crate::escape::{hex_value, query_decoded, query_meaning, query_text, UrlDecodeError};
use crate::form::{fields_of, form_fields};
use crate::http::{
    blank_line_at, body_bytes, body_length, head_end, head_end_from, line_length, lower,
    needs_more, params_location, readyz_request_text, redirect_text, request_of, request_outcome,
    response_text, says_ready, target_parts, team_location, trim_brackets_end, trim_brackets_start,
    utf8_lossy, ws_host_port, HttpRequestError, RequestView,
};
use crate::laws::texts::texts_are_cut_at_a_character;
use crate::laws::{
    begins_with, ends_with, first_of_rest, has_none, is_first, none_of_rest, pair_at_end, piece_at_end,
    piece_of_itself, piece_of_left, triple_at_end,
};
use crate::number::{decimal, unsigned};
use crate::split::{has_text, lines, without_prefix, words};
use crate::text::trim;
use vstd::utf8::{decode_utf8, encode_utf8, valid_utf8};

verus! {

// ---------------------------------------------------------------------------
// Heads and bodies
// ---------------------------------------------------------------------------

/// Two line breaks stand at a place: a carriage return and a line feed, twice.
pub open spec fn is_blank_line(bytes: Seq<u8>, at: int) -> bool {
    &&& 0 <= at
    &&& at + 4 <= bytes.len()
    &&& bytes[at] == 0x0d && bytes[at + 1] == 0x0a && bytes[at + 2] == 0x0d && bytes[at + 3] == 0x0a
}

proof fn heads_end_from(bytes: Seq<u8>, from: int)
    requires
        0 <= from,
    ensures
        head_end_from(bytes, from) is Some ==> {
            let end = head_end_from(bytes, from)->0;
            &&& from <= end - 4
            &&& is_blank_line(bytes, end - 4)
            &&& forall|at: int| from <= at < end - 4 ==> !#[trigger] is_blank_line(bytes, at)
        },
        head_end_from(bytes, from) is None ==> forall|at: int|
            from <= at ==> !#[trigger] is_blank_line(bytes, at),
    decreases bytes.len() - from,
{
    if from <= bytes.len() - 4 {
        assert(blank_line_at(bytes, from) == is_blank_line(bytes, from));
        if !blank_line_at(bytes, from) {
            heads_end_from(bytes, from + 1);
        }
    }
}

/// The head of a request ends behind its first blank line, and nowhere where it has none.
pub proof fn heads_end_with_a_blank_line(bytes: Seq<u8>)
    ensures
        head_end(bytes) is Some ==> {
            let end = head_end(bytes)->0;
            &&& is_blank_line(bytes, end - 4)
            &&& forall|at: int| 0 <= at < end - 4 ==> !#[trigger] is_blank_line(bytes, at)
        },
        head_end(bytes) is None <==> forall|at: int| !#[trigger] is_blank_line(bytes, at),
{
    heads_end_from(bytes, 0);
    if head_end(bytes) is Some {
        assert(is_blank_line(bytes, head_end(bytes)->0 - 4));
    } else {
        assert forall|at: int| !#[trigger] is_blank_line(bytes, at) by {}
    }
}

/// The line gives the length of the body: its name is `content-length`, in any case of letters, and
/// behind the colon stands a number.
pub open spec fn gives_length() -> spec_fn(Seq<char>) -> bool {
    |line: Seq<char>| line_length(line) is Some
}

/// A line gives a length exactly if it is the name, a colon, and a number with or without white
/// space around it.
pub proof fn length_lines_give_a_length(name: Seq<char>, value: Seq<char>)
    requires
        !name.contains(':'),
    ensures
        lower(name) == "content-length"@ ==> line_length(name.push(':') + value) == unsigned(
            trim(value),
            usize::MAX as nat,
        ),
        lower(name) != "content-length"@ ==> line_length(name.push(':') + value) is None,
        line_length(name) is None,
{
    texts_are_cut_at_a_character(name, ':', value);
}

/// Letters are compared without their case.
pub proof fn cases_do_not_matter(text: Seq<char>)
    ensures
        lower(text).len() == text.len(),
        forall|i: int|
            0 <= i < text.len() && 'A' <= text[i] <= 'Z' ==> #[trigger] lower(text)[i] == (text[i]
                as u32 + 32) as char,
        forall|i: int|
            0 <= i < text.len() && !('A' <= text[i] <= 'Z') ==> #[trigger] lower(text)[i]
                == text[i],
{
}

/// The body is as long as the first line says that gives a length, and empty where none does.
pub proof fn bodies_are_as_long_as_told(all: Seq<Seq<char>>, i: int)
    ensures
        is_first(all, gives_length(), i) ==> Some(body_length(all)) == line_length(all[i]),
        has_none(all, gives_length()) ==> body_length(all) == 0,
    decreases all.len(),
{
    if all.len() > 0 {
        none_of_rest(all, gives_length());
        if line_length(all[0]) is None {
            first_of_rest(all, gives_length(), i);
            bodies_are_as_long_as_told(all.drop_first(), i - 1);
        } else if i > 0 {
            assert(gives_length()(all[0]));
        }
    }
}

/// The body is what follows the head, up to the length that was told.
pub proof fn bodies_follow_heads(bytes: Seq<u8>, end: int, length: nat)
    requires
        0 <= end <= bytes.len(),
    ensures
        end + length <= bytes.len() ==> body_bytes(bytes, end, length) == bytes.subrange(
            end,
            end + length,
        ),
        end + length > bytes.len() ==> body_bytes(bytes, end, length) == bytes.subrange(
            end,
            bytes.len() as int,
        ),
{
    if end + length > bytes.len() {
        assert(bytes.skip(end) =~= bytes.subrange(end, bytes.len() as int));
    }
}

/// A request is read on until its head is whole, up to a mebibyte, and then until its body is
/// there. One without a head is malformed once nothing follows, and too large otherwise.
pub proof fn requests_are_read_to_their_end(bytes: Seq<u8>, closed: bool)
    ensures
        closed ==> !needs_more(bytes, closed),
        !closed && head_end(bytes) is None ==> (needs_more(bytes, closed) <==> bytes.len()
            <= 1024 * 1024),
        !closed && head_end(bytes) is Some ==> {
            let all = lines(utf8_lossy(bytes.take(head_end(bytes)->0)));
            needs_more(bytes, closed) <==> all.len() > 0 && bytes.len() < head_end(bytes)->0
                + body_length(all)
        },
        closed && head_end(bytes) is None ==> request_outcome(bytes, closed) == Err::<
            RequestView,
            HttpRequestError,
        >(HttpRequestError::Malformed),
        !closed && head_end(bytes) is None ==> request_outcome(bytes, closed) == Err::<
            RequestView,
            HttpRequestError,
        >(HttpRequestError::TooLarge),
        head_end(bytes) is Some ==> {
            let end = head_end(bytes)->0;
            let head = utf8_lossy(bytes.take(end));
            request_outcome(bytes, closed) == request_of(
                head,
                utf8_lossy(body_bytes(bytes, end, body_length(lines(head)))),
            )
        },
{
}

/// The first line of the head names the method and the target, which is the root where none is
/// given. What stands behind a question mark in the target is the query.
pub proof fn request_lines_name_method_and_target(head: Seq<char>, body: Seq<char>)
    ensures
        lines(head).len() == 0 ==> request_of(head, body) == Err::<RequestView, HttpRequestError>(
            HttpRequestError::Empty,
        ),
        lines(head).len() > 0 ==> {
            let line = words(lines(head)[0]);
            let request = request_of(head, body)->Ok_0;
            let target = if line.len() > 1 {
                line[1]
            } else {
                seq!['/']
            };
            &&& request_of(head, body) is Ok
            &&& line.len() > 0 ==> request.method == line[0]
            &&& line.len() == 0 ==> request.method.len() == 0
            &&& request.path == target_parts(target).0
            &&& request.query == target_parts(target).1
            &&& request.body == body
        },
{
    reveal_strlit("/");
    assert("/"@ =~= seq!['/']);
}

/// A target is a path, or a path and a query with a question mark between them.
pub proof fn targets_have_a_query(path: Seq<char>, query: Seq<char>)
    requires
        !path.contains('?'),
    ensures
        target_parts(path.push('?') + query) == (path, form_fields(query)),
        target_parts(path).0 == path,
        target_parts(path).1 == Map::<Seq<char>, Seq<char>>::empty(),
{
    texts_are_cut_at_a_character(path, '?', query);
}

/// What is wrong with a request is told.
pub proof fn request_errors_are_told()
    ensures
        HttpRequestError::TooLarge.text() == "HTTP request too large"@,
        HttpRequestError::Malformed.text() == "malformed HTTP request"@,
        HttpRequestError::Empty.text() == "empty HTTP request"@,
{
}

// ---------------------------------------------------------------------------
// Forms
// ---------------------------------------------------------------------------

/// The fields of a form stand between ampersands: a name and a value with an equals sign between
/// them, or a name alone. A later field with the same name wins, and one that cannot be decoded is
/// passed over.
pub proof fn fields_stand_between_ampersands(
    parts: Seq<Seq<char>>,
    name: Seq<char>,
    value: Seq<char>,
)
    requires
        !name.contains('='),
    ensures
        fields_of(Seq::<Seq<char>>::empty()) == Map::<Seq<char>, Seq<char>>::empty(),
        ({
            let part = name.push('=') + value;
            let before = fields_of(parts);
            let after = fields_of(parts.push(part));
            &&& query_meaning(name) is Ok && query_meaning(value) is Ok ==> after == before.insert(
                query_meaning(name)->Ok_0,
                query_meaning(value)->Ok_0,
            )
            &&& query_meaning(name) is Err || query_meaning(value) is Err ==> after == before
        }),
        name.len() > 0 && query_meaning(name) is Ok && query_meaning(Seq::<char>::empty()) is Ok
            ==> fields_of(parts.push(name)) == fields_of(parts).insert(
            query_meaning(name)->Ok_0,
            query_meaning(Seq::<char>::empty())->Ok_0,
        ),
        fields_of(parts.push(Seq::<char>::empty())) == fields_of(parts),
{
    let part = name.push('=') + value;
    texts_are_cut_at_a_character(name, '=', value);
    assert(parts.push(part).drop_last() =~= parts);
    assert(parts.push(name).drop_last() =~= parts);
    assert(parts.push(Seq::<char>::empty()).drop_last() =~= parts);
    assert(part.len() > 0);
    let none: Seq<char> = seq![];
    assert(none =~= Seq::<char>::empty());
}

// ---------------------------------------------------------------------------
// Answers
// ---------------------------------------------------------------------------

/// An answer begins with its status, says what it holds and how many bytes that is, and ends with
/// it behind a blank line.
pub proof fn answers_say_what_they_hold(
    status: Seq<char>,
    content_type: Seq<char>,
    body: Seq<char>,
)
    ensures
        has_text(response_text(status, content_type, body), "HTTP/1.1 "@ + status),
        has_text(
            response_text(status, content_type, body),
            "\r\nContent-Type: "@ + content_type,
        ),
        has_text(
            response_text(status, content_type, body),
            "\r\nContent-Length: "@ + decimal(encode_utf8(body).len()),
        ),
        has_text(
            response_text(status, content_type, body),
            "\r\nConnection: close\r\n\r\n"@ + body,
        ),
        ends_with(response_text(status, content_type, body), body),
{
    broadcast use {piece_of_itself, piece_of_left, piece_at_end, pair_at_end, triple_at_end};

    let text = response_text(status, content_type, body);
    assert(text.skip(text.len() - body.len()) =~= body);
}

/// A redirect names the place that the browser is sent to.
pub proof fn redirects_name_their_place(location: Seq<char>)
    ensures
        has_text(
            redirect_text(location),
            "HTTP/1.1 303 See Other\r\nLocation: "@ + location,
        ),
        has_text(redirect_text(location), "\r\nConnection: close\r\n\r\n"@ + "redirect\n"@),
{
    broadcast use {piece_of_itself, piece_of_left, piece_at_end, pair_at_end, triple_at_end};

}

/// The dashboard shows a team by its name in the query, and none without a query.
pub proof fn locations_name_the_team(team: Seq<char>)
    ensures
        team_location(Some(team)) == "/?team="@ + query_text(team),
        team_location(None) == "/"@,
        params_location(seq![]) == "/"@,
{
    let none: Seq<(Seq<char>, Seq<char>)> = seq![];
    assert(none.map_values(
        |param: (Seq<char>, Seq<char>)| query_text(param.0) + "="@ + query_text(param.1),
    ) =~= seq![]);
}

// ---------------------------------------------------------------------------
// Servers
// ---------------------------------------------------------------------------

/// A server is asked whether it is ready at its host and port.
pub proof fn readiness_is_asked_for(host: Seq<char>, port: nat)
    ensures
        readyz_request_text(host, port) == "GET /readyz HTTP/1.1\r\nHost: "@ + host + ":"@
            + decimal(port) + "\r\nConnection: close\r\n\r\n"@,
{
}

/// An address has the scheme of websockets, a host and a port; anything else is none.
pub proof fn addresses_have_host_and_port(url: Seq<char>, host: Seq<char>, port: Seq<char>)
    requires
        !port.contains(':'),
        !host.contains('/') && !host.contains('?') && !host.contains('#'),
        !port.contains('/') && !port.contains('?') && !port.contains('#'),
    ensures
        without_prefix(url, "ws://"@) is None ==> ws_host_port(url) is None,
        unsigned(port, 65535) is None ==> ws_host_port("ws://"@ + (host.push(':') + port)) is None,
        host.len() == 0 ==> ws_host_port("ws://"@ + (host.push(':') + port)) is None,
        !host.contains(':') ==> ws_host_port("ws://"@ + host) is None,
        host.len() > 0 && host[0] != '[' && host[0] != ']' && host.last() != '[' && host.last()
            != ']' && unsigned(port, 65535) is Some ==> ws_host_port(
            "ws://"@ + (host.push(':') + port),
        ) == Some((host, unsigned(port, 65535)->0 as u16)),
{
    let rest = host.push(':') + port;
    crate::laws::texts::prefixes_are_taken_off(url, "ws://"@, rest);
    crate::laws::texts::prefixes_are_taken_off(url, "ws://"@, host);
    texts_are_cut_at_a_character(host, ':', port);
    let ends = seq!['/', '?', '#'];
    assert forall|i: int| 0 <= i < rest.len() implies !ends.contains(#[trigger] rest[i]) by {
        if i < host.len() {
            assert(host.contains(host[i]));
        } else if i > host.len() {
            assert(port.contains(port[i - host.len() - 1]));
            assert(rest[i] == port[i - host.len() - 1]);
        }
    }
    no_end(rest);
    assert forall|i: int| 0 <= i < host.len() implies !ends.contains(#[trigger] host[i]) by {
        assert(host.contains(host[i]));
    }
    no_end(host);
    assert(rest.take(rest.len() as int) =~= rest);
    assert(host.take(host.len() as int) =~= host);
}

proof fn no_end(text: Seq<char>)
    requires
        forall|i: int| 0 <= i < text.len() ==> !seq!['/', '?', '#'].contains(#[trigger] text[i]),
    ensures
        crate::split::index_of_any(text, seq!['/', '?', '#']) == text.len(),
{
    crate::split::index_of_any_is_first(text, seq!['/', '?', '#']);
}

/// A server is ready exactly if its answer begins with the status of success.
pub proof fn success_means_ready(rest: Seq<char>, answer: Seq<char>)
    ensures
        says_ready("HTTP/1.1 200"@ + rest),
        says_ready(answer) ==> answer.len() >= 12 && answer.subrange(0, 12) == "HTTP/1.1 200"@,
{
    reveal_strlit("HTTP/1.1 200");
    assert("HTTP/1.1 200"@.len() == 12);
    assert(("HTTP/1.1 200"@ + rest).take(12) =~= "HTTP/1.1 200"@);
    if says_ready(answer) {
        assert(answer.take(12) =~= answer.subrange(0, 12));
    }
}

/// No bracket is left at either end of a host, and nothing but brackets is taken away there.
pub proof fn no_bracket_is_left(text: Seq<char>)
    ensures
        trim_brackets_start(text).len() > 0 ==> trim_brackets_start(text)[0] != '['
            && trim_brackets_start(text)[0] != ']',
        trim_brackets_end(text).len() > 0 ==> trim_brackets_end(text).last() != '['
            && trim_brackets_end(text).last() != ']',
        ends_with(text, trim_brackets_start(text)),
        forall|i: int|
            0 <= i < text.len() - trim_brackets_start(text).len() ==> #[trigger] text[i] == '['
                || text[i] == ']',
        begins_with(text, trim_brackets_end(text)),
        forall|i: int|
            trim_brackets_end(text).len() <= i < text.len() ==> #[trigger] text[i] == '[' || text[i]
                == ']',
    decreases text.len(),
{
    if text.len() > 0 {
        let rest = text.drop_first();
        let before = text.drop_last();
        no_bracket_is_left(rest);
        no_bracket_is_left(before);
        if text[0] == '[' || text[0] == ']' {
            let out = trim_brackets_start(text);
            assert(out == trim_brackets_start(rest));
            assert(text.skip(text.len() - out.len()) =~= rest.skip(rest.len() - out.len()));
            assert forall|i: int| 0 <= i < text.len() - out.len() implies #[trigger] text[i] == '['
                || text[i] == ']' by {
                if i > 0 {
                    assert(rest[i - 1] == text[i]);
                }
            }
        } else {
            assert(text.skip(0) =~= text);
        }
        if text.last() == '[' || text.last() == ']' {
            let out = trim_brackets_end(text);
            assert(out == trim_brackets_end(before));
            assert(text.take(out.len() as int) =~= before.take(out.len() as int));
            assert forall|i: int| out.len() <= i < text.len() implies #[trigger] text[i] == '['
                || text[i] == ']' by {
                if i < before.len() {
                    assert(before[i] == text[i]);
                }
            }
        } else {
            assert(text.take(text.len() as int) =~= text);
        }
    } else {
        assert(text.skip(0) =~= text);
        assert(text.take(0) =~= text);
    }
}

/// Square brackets around a host are dropped.
pub proof fn brackets_are_dropped(host: Seq<char>)
    requires
        host.len() > 0,
        host[0] != '[' && host[0] != ']',
        host.last() != '[' && host.last() != ']',
    ensures
        trim_brackets_end(trim_brackets_start(host)) == host,
        trim_brackets_end(trim_brackets_start(seq!['['] + host + seq![']'])) == host,
{
    let all = seq!['['] + host + seq![']'];
    let rest = host + seq![']'];
    assert(all.drop_first() =~= rest);
    assert(rest[0] == host[0]);
    assert(trim_brackets_start(rest) == rest);
    assert(trim_brackets_start(all) == rest);
    assert(rest.drop_last() =~= host);
    assert(trim_brackets_end(host) == host);
    assert(trim_brackets_end(rest) == host);
}

/// The value of a hexadecimal digit, in either case.
pub open spec fn is_hex(byte: u8, value: int) -> bool {
    ||| 0x30 <= byte <= 0x39 && value == byte - 0x30
    ||| 0x41 <= byte <= 0x46 && value == byte - 0x37
    ||| 0x61 <= byte <= 0x66 && value == byte - 0x57
}

/// In a query a plus stands for a space, a percent sign with two hexadecimal digits for a byte, and
/// every other byte for itself; a percent sign with anything else behind it is a mistake.
pub proof fn queries_are_decoded_byte_by_byte(
    first: u8,
    high: u8,
    low: u8,
    rest: Seq<u8>,
    h: int,
    l: int,
)
    requires
        query_decoded(rest) is Some,
    ensures
        query_decoded(Seq::<u8>::empty()) == Some(Seq::<u8>::empty()),
        first == 0x2b ==> query_decoded(seq![first] + rest) == Some(
            seq![0x20u8] + query_decoded(rest)->0,
        ),
        first != 0x2b && first != 0x25 ==> query_decoded(seq![first] + rest) == Some(
            seq![first] + query_decoded(rest)->0,
        ),
        is_hex(high, h) && is_hex(low, l) ==> query_decoded(seq![0x25u8, high, low] + rest) == Some(
            seq![(16 * h + l) as u8] + query_decoded(rest)->0,
        ),
        high != 0x2b && (forall|v: int| !#[trigger] is_hex(high, v)) ==> query_decoded(
            seq![0x25u8, high, low] + rest,
        ) is None,
        (forall|v: int| !#[trigger] is_hex(low, v)) ==> query_decoded(
            seq![0x25u8, high, low] + rest,
        ) is None,
{
    let one = seq![first] + rest;
    assert(one.skip(1) =~= rest);
    assert(one[0] == first);
    let three = seq![0x25u8, high, low] + rest;
    assert(three.skip(3) =~= rest);
    assert(three[0] == 0x25 && three[1] == high && three[2] == low);
    if hex_value(high) is Some {
        assert(is_hex(high, hex_value(high)->0 as int));
    }
    if hex_value(low) is Some {
        assert(is_hex(low, hex_value(low)->0 as int));
    }
}

/// A query text is decoded to the text that its bytes are, and is a mistake where they are none.
pub proof fn queries_are_decoded_to_texts(raw: Seq<char>)
    ensures
        query_decoded(encode_utf8(raw)) is None ==> query_meaning(raw) == Err::<
            Seq<char>,
            UrlDecodeError,
        >(UrlDecodeError::InvalidEscape),
        query_decoded(encode_utf8(raw)) is Some && !valid_utf8(query_decoded(encode_utf8(raw))->0)
            ==> query_meaning(raw) == Err::<Seq<char>, UrlDecodeError>(UrlDecodeError::InvalidUtf8),
        query_decoded(encode_utf8(raw)) is Some && valid_utf8(query_decoded(encode_utf8(raw))->0)
            ==> query_meaning(raw) == Ok::<Seq<char>, UrlDecodeError>(
            decode_utf8(query_decoded(encode_utf8(raw))->0),
        ),
{
}

} // verus!
