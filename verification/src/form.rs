//! Form bodies and query strings.

use vstd::prelude::*;

use crate::escape::{
    is_query_char, query_meaning, query_text, query_text_is_plain, url_decode,
    url_decode_inverts_url_encode, url_encode,
};
use crate::order::StringMap;
use crate::split::{
    cut_once, filter_of_next, index_of_any_from_position, join, join_with, lines, lines_of, split,
    split_at_every, split_of_join, split_once,
};
use crate::text::{chars_of, is_blank, opt_view, text_is_blank, trim, trimmed, views};

verus! {

/// The key and the value of one part of a form, before decoding: what stands before and after the
/// first equals sign, or the whole part and nothing where there is none.
pub open spec fn raw_pair(part: Seq<char>) -> (Seq<char>, Seq<char>) {
    match cut_once(part, '=') {
        Some(pair) => pair,
        None => (part, seq![]),
    }
}

/// The key and the value of one part of a form, where both can be decoded.
pub open spec fn field_of(part: Seq<char>) -> Option<(Seq<char>, Seq<char>)> {
    let pair = raw_pair(part);
    match (query_meaning(pair.0), query_meaning(pair.1)) {
        (Ok(key), Ok(value)) => Some((key, value)),
        _ => None,
    }
}

/// The fields that the parts of a form give: the last part with a key wins, and empty parts and
/// parts that cannot be decoded give none.
pub open spec fn fields_of(parts: Seq<Seq<char>>) -> Map<Seq<char>, Seq<char>>
    decreases parts.len(),
{
    if parts.len() == 0 {
        Map::empty()
    } else {
        let before = fields_of(parts.drop_last());
        if parts.last().len() == 0 {
            before
        } else {
            match field_of(parts.last()) {
                Some(field) => before.insert(field.0, field.1),
                None => before,
            }
        }
    }
}

/// The fields of a form body or a query string.
pub open spec fn form_fields(raw: Seq<char>) -> Map<Seq<char>, Seq<char>> {
    fields_of(split(raw, '&'))
}

/// The texts of a map of strings.
pub open spec fn text_map(map: Map<Seq<char>, String>) -> Map<Seq<char>, Seq<char>> {
    map.map_values(|value: String| value@)
}

/// The fields of a form body or a query string.
pub fn parse_form(raw: &str) -> (form: StringMap<String>)
    ensures
        text_map(form@) == form_fields(raw@),
{
    let parts = split_at_every(raw, '&');
    let ghost all = views(parts@);
    let mut form: StringMap<String> = StringMap::new();
    assert(text_map(form@) =~= fields_of(all.take(0)));
    for i in 0..parts.len()
        invariant
            all == views(parts@),
            text_map(form@) == fields_of(all.take(i as int)),
    {
        let ghost before = text_map(form@);
        assert(all.take(i + 1).drop_last() =~= all.take(i as int));
        let part = parts[i].as_str();
        if !part.is_empty() {
            let (raw_key, raw_value) = match split_once(part, '=') {
                Some(pair) => pair,
                None => (part.to_string(), String::new()),
            };
            assert((raw_key@, raw_value@) == raw_pair(part@));
            let key = url_decode(raw_key.as_str());
            let value = url_decode(raw_value.as_str());
            match (key, value) {
                (Ok(key), Ok(value)) => {
                    form.insert(key, value);
                    assert(text_map(form@) =~= before.insert(key@, value@));
                },
                _ => {},
            }
        }
    }
    assert(all.take(parts@.len() as int) =~= all);
    form
}

/// The value of a field that is not blank.
pub open spec fn filled_field(form: Map<Seq<char>, Seq<char>>, key: Seq<char>) -> Option<Seq<char>> {
    if form.contains_key(key) && !is_blank(form[key]) {
        Some(form[key])
    } else {
        None
    }
}

/// The value of a field.
pub open spec fn field(form: Map<Seq<char>, Seq<char>>, key: Seq<char>) -> Option<Seq<char>> {
    if form.contains_key(key) {
        Some(form[key])
    } else {
        None
    }
}

/// The value of a field.
pub fn form_get(form: &StringMap<String>, key: &str) -> (value: Option<String>)
    ensures
        opt_view(value) == field(text_map(form@), key@),
{
    match form.get(key) {
        Some(value) => Some(value.clone()),
        None => None,
    }
}

/// The value of a field that is not blank.
pub fn form_filled(form: &StringMap<String>, key: &str) -> (value: Option<String>)
    ensures
        opt_view(value) == filled_field(text_map(form@), key@),
{
    match form.get(key) {
        Some(value) => if text_is_blank(value.as_str()) {
            None
        } else {
            Some(value.clone())
        },
        None => None,
    }
}

/// The message that says that a required form field is missing.
pub open spec fn missing_field(key: Seq<char>) -> Seq<char> {
    "missing form field `"@ + key + "`"@
}

/// The value of a required form field, or the message that says that it is missing or blank.
pub fn form_value(form: &StringMap<String>, key: &str) -> (value: Result<String, String>)
    ensures
        match value {
            Ok(value) => filled_field(text_map(form@), key@) == Some(value@),
            Err(message) => filled_field(text_map(form@), key@) is None && message@
                == missing_field(key@),
        },
{
    match form_filled(form, key) {
        Some(value) => Ok(value),
        None => {
            let mut message = "missing form field `".to_string();
            message.append(key);
            message.append("`");
            Err(message)
        },
    }
}

// ---------------------------------------------------------------------------
// Query strings
// ---------------------------------------------------------------------------

/// The parameters, encoded as a query string.
pub open spec fn query_of(params: Seq<(Seq<char>, Seq<char>)>) -> Seq<char> {
    join(
        params.map_values(
            |param: (Seq<char>, Seq<char>)| query_text(param.0) + "="@ + query_text(param.1),
        ),
        "&"@,
    )
}

/// The views of a list of parameters.
pub open spec fn params_view(params: Seq<(&str, &str)>) -> Seq<(Seq<char>, Seq<char>)> {
    params.map_values(|param: (&str, &str)| (param.0@, param.1@))
}

/// The parameters, encoded as a query string.
pub fn encode_query(params: &Vec<(&str, &str)>) -> (out: String)
    ensures
        out@ == query_of(params_view(params@)),
{
    let ghost wanted = params_view(params@).map_values(
        |param: (Seq<char>, Seq<char>)| query_text(param.0) + "="@ + query_text(param.1),
    );
    let mut parts: Vec<String> = Vec::new();
    for i in 0..params.len()
        invariant
            wanted == params_view(params@).map_values(
                |param: (Seq<char>, Seq<char>)| query_text(param.0) + "="@ + query_text(param.1),
            ),
            views(parts@) == wanted.take(i as int),
    {
        let ghost before = views(parts@);
        let mut part = url_encode(params[i].0);
        part.append("=");
        part.append(url_encode(params[i].1).as_str());
        parts.push(part);
        assert(part@ == wanted[i as int]);
        assert(views(parts@) =~= before.push(part@));
        assert(views(parts@) =~= wanted.take(i + 1));
    }
    assert(wanted.take(params@.len() as int) =~= wanted);
    join_with(&parts, "&")
}

/// The fields that the parameters stand for: the last one with a key wins.
pub open spec fn params_map(params: Seq<(Seq<char>, Seq<char>)>) -> Map<Seq<char>, Seq<char>>
    decreases params.len(),
{
    if params.len() == 0 {
        Map::empty()
    } else {
        params_map(params.drop_last()).insert(params.last().0, params.last().1)
    }
}

/// Reading an encoded query gives the parameters back, the last one where a key comes twice.
pub proof fn parse_form_inverts_encode_query(params: Seq<(Seq<char>, Seq<char>)>)
    ensures
        form_fields(query_of(params)) == params_map(params),
{
    let parts = params.map_values(
        |param: (Seq<char>, Seq<char>)| query_text(param.0) + "="@ + query_text(param.1),
    );
    reveal_strlit("=");
    reveal_strlit("&");
    assert("&"@ =~= seq!['&']);
    if params.len() == 0 {
        assert(query_of(params) =~= seq![]);
        assert(split(Seq::<char>::empty(), '&') =~= seq![Seq::<char>::empty()]);
        assert(fields_of(seq![Seq::<char>::empty()].drop_last()) =~= Map::empty());
        assert(fields_of(seq![Seq::<char>::empty()]) =~= Map::empty());
    } else {
        assert forall|i: int| 0 <= i < parts.len() implies !(#[trigger] parts[i]).contains('&') by {
            encoded_param_is_plain(params[i].0, params[i].1);
        }
        split_of_join(parts, '&');
        fields_of_encoded(params, parts);
    }
}

proof fn encoded_param_is_plain(key: Seq<char>, value: Seq<char>)
    ensures
        !(query_text(key) + "="@ + query_text(value)).contains('&'),
        cut_once(query_text(key) + "="@ + query_text(value), '=') == Some(
            (query_text(key), query_text(value)),
        ),
{
    reveal_strlit("=");
    let k = query_text(key);
    let v = query_text(value);
    let part = k + "="@ + v;
    query_text_is_plain(key);
    query_text_is_plain(value);
    assert forall|i: int| 0 <= i < part.len() implies part[i] != '&' by {
        if i < k.len() {
            assert(part[i] == k[i]);
        } else if i > k.len() {
            assert(part[i] == v[i - k.len() - 1]);
        }
    }
    assert(part[k.len() as int] == '=');
    assert(seq!['='].contains('=')) by {
        assert(seq!['='][0] == '=');
    }
    assert forall|i: int| 0 <= i < k.len() implies !seq!['='].contains(#[trigger] part[i]) by {
        assert(part[i] == k[i]);
        assert(is_query_char(k[i]));
    }
    index_of_any_from_position(part, seq!['='], k.len() as int);
    assert(part.take(k.len() as int) =~= k);
    assert(part.skip(k.len() as int + 1) =~= v);
}

proof fn fields_of_encoded(params: Seq<(Seq<char>, Seq<char>)>, parts: Seq<Seq<char>>)
    requires
        parts.len() == params.len(),
        forall|i: int|
            0 <= i < params.len() ==> #[trigger] parts[i] == query_text(params[i].0) + "="@
                + query_text(params[i].1),
    ensures
        fields_of(parts) == params_map(params),
    decreases params.len(),
{
    if params.len() > 0 {
        let n = params.len() - 1;
        assert forall|i: int| 0 <= i < n implies #[trigger] parts.drop_last()[i] == query_text(
            params.drop_last()[i].0,
        ) + "="@ + query_text(params.drop_last()[i].1) by {
            assert(parts.drop_last()[i] == parts[i]);
        }
        fields_of_encoded(params.drop_last(), parts.drop_last());
        encoded_param_is_plain(params[n].0, params[n].1);
        url_decode_inverts_url_encode(params[n].0);
        url_decode_inverts_url_encode(params[n].1);
        reveal_strlit("=");
        assert(parts[n].len() > 0);
    }
}

// ---------------------------------------------------------------------------
// Lists in text areas
// ---------------------------------------------------------------------------

/// An entry of a list counts if it is not empty and no comment.
pub open spec fn is_entry(entry: Seq<char>) -> bool {
    entry.len() > 0 && entry[0] != '#'
}

/// The entries on one line: what stands between the commas, trimmed, without empty ones and
/// comments.
pub open spec fn line_entries(line: Seq<char>) -> Seq<Seq<char>> {
    split(line, ',').map_values(|piece: Seq<char>| trim(piece)).filter(
        |entry: Seq<char>| is_entry(entry),
    )
}

/// The entries on all lines, in order.
pub open spec fn entries_of(all: Seq<Seq<char>>) -> Seq<Seq<char>>
    decreases all.len(),
{
    if all.len() == 0 {
        seq![]
    } else {
        entries_of(all.drop_last()) + line_entries(all.last())
    }
}

/// The entries of a list that was typed over lines and with commas.
pub fn split_ui_lines(raw: &str) -> (out: Vec<String>)
    ensures
        views(out@) == entries_of(lines(raw@)),
{
    let all = lines_of(raw);
    let mut out: Vec<String> = Vec::new();
    assert(views(out@) =~= entries_of(views(all@).take(0)));
    for i in 0..all.len()
        invariant
            views(all@) == lines(raw@),
            views(out@) == entries_of(views(all@).take(i as int)),
    {
        let ghost keep = |entry: Seq<char>| is_entry(entry);
        let ghost before = views(out@);
        let pieces = split_at_every(all[i].as_str(), ',');
        let ghost entries = views(pieces@).map_values(|piece: Seq<char>| trim(piece));
        reveal(Seq::filter);
        assert(before + entries.take(0).filter(keep) =~= before);
        for j in 0..pieces.len()
            invariant
                entries == views(pieces@).map_values(|piece: Seq<char>| trim(piece)),
                keep == (|entry: Seq<char>| is_entry(entry)),
                views(out@) == before + entries.take(j as int).filter(keep),
        {
            let ghost done = views(out@);
            proof {
                filter_of_next(entries, keep, j as int);
            }
            let entry = trimmed(pieces[j].as_str());
            assert(entry@ == entries[j as int]);
            let chars = chars_of(entry.as_str());
            if chars.len() > 0 && chars[0] != '#' {
                out.push(entry);
                assert(views(out@) =~= done.push(entry@));
                assert(views(out@) =~= before + entries.take(j + 1).filter(keep));
            }
        }
        assert(entries.take(pieces@.len() as int) =~= entries);
        assert(views(all@).take(i + 1).drop_last() =~= views(all@).take(i as int));
    }
    assert(views(all@).take(all@.len() as int) =~= views(all@));
    out
}

} // verus!
