//! Cutting texts into pieces and putting pieces together.

use vstd::prelude::*;

use crate::text::{char_is_white_space, chars_of, is_white_space, opt_view, string_between, string_of, views};

verus! {

// ---------------------------------------------------------------------------
// Putting together
// ---------------------------------------------------------------------------

/// The parts one after the other.
pub open spec fn concat(parts: Seq<Seq<char>>) -> Seq<char>
    decreases parts.len(),
{
    if parts.len() == 0 {
        seq![]
    } else {
        concat(parts.drop_last()) + parts.last()
    }
}

/// The parts one after the other, with `sep` between each two.
pub open spec fn join(parts: Seq<Seq<char>>, sep: Seq<char>) -> Seq<char>
    decreases parts.len(),
{
    if parts.len() == 0 {
        seq![]
    } else if parts.len() == 1 {
        parts[0]
    } else {
        join(parts.drop_last(), sep) + sep + parts.last()
    }
}

/// The parts one after the other.
pub fn concat_all(parts: &Vec<String>) -> (out: String)
    ensures
        out@ == concat(views(parts@)),
{
    let mut out = String::new();
    for i in 0..parts.len()
        invariant
            out@ == concat(views(parts@).take(i as int)),
    {
        assert(views(parts@).take(i + 1).drop_last() =~= views(parts@).take(i as int));
        out.append(parts[i].as_str());
    }
    assert(views(parts@).take(parts@.len() as int) =~= views(parts@));
    out
}

/// The parts one after the other, with `sep` between each two.
pub fn join_with(parts: &Vec<String>, sep: &str) -> (out: String)
    ensures
        out@ == join(views(parts@), sep@),
{
    let mut out = String::new();
    for i in 0..parts.len()
        invariant
            out@ == join(views(parts@).take(i as int), sep@),
    {
        assert(views(parts@).take(i + 1).drop_last() =~= views(parts@).take(i as int));
        if i > 0 {
            out.append(sep);
        }
        out.append(parts[i].as_str());
        assert(i == 0 ==> out@ =~= views(parts@)[0]);
    }
    assert(views(parts@).take(parts@.len() as int) =~= views(parts@));
    out
}

// ---------------------------------------------------------------------------
// Picking and mapping item by item
// ---------------------------------------------------------------------------

/// What filtering keeps of one more item.
pub proof fn filter_of_next<T>(items: Seq<T>, keep: spec_fn(T) -> bool, i: int)
    requires
        0 <= i < items.len(),
    ensures
        items.take(i + 1).filter(keep) == (if keep(items[i]) {
            items.take(i).filter(keep).push(items[i])
        } else {
            items.take(i).filter(keep)
        }),
{
    reveal(Seq::filter);
    assert(items.take(i + 1).drop_last() =~= items.take(i));
}

// ---------------------------------------------------------------------------
// Ends of sequences
// ---------------------------------------------------------------------------

/// At most the first `n` items.
pub open spec fn first_n<T>(items: Seq<T>, n: int) -> Seq<T> {
    if items.len() <= n {
        items
    } else {
        items.take(n)
    }
}

/// At most the last `n` items.
pub open spec fn last_n<T>(items: Seq<T>, n: int) -> Seq<T> {
    if items.len() <= n {
        items
    } else {
        items.skip(items.len() - n)
    }
}

/// At most the last `n` strings.
pub fn keep_last(strings: Vec<String>, n: usize) -> (out: Vec<String>)
    ensures
        views(out@) == last_n(views(strings@), n as int),
{
    if strings.len() <= n {
        return strings;
    }
    let from = strings.len() - n;
    let mut out: Vec<String> = Vec::new();
    for i in from..strings.len()
        invariant
            from == strings@.len() - n,
            from <= i,
            views(out@) == views(strings@).subrange(from as int, i as int),
    {
        let ghost before = views(out@);
        out.push(strings[i].clone());
        assert(views(out@) =~= before.push(strings@[i as int]@));
        assert(views(out@) =~= views(strings@).subrange(from as int, i + 1));
    }
    assert(views(out@) =~= last_n(views(strings@), n as int));
    out
}

// ---------------------------------------------------------------------------
// Finding
// ---------------------------------------------------------------------------

/// `text` starts with `prefix`.
pub open spec fn has_prefix(text: Seq<char>, prefix: Seq<char>) -> bool {
    &&& prefix.len() <= text.len()
    &&& text.take(prefix.len() as int) == prefix
}

/// `text` without `prefix`, where it starts with it.
pub open spec fn without_prefix(text: Seq<char>, prefix: Seq<char>) -> Option<Seq<char>> {
    if has_prefix(text, prefix) {
        Some(text.skip(prefix.len() as int))
    } else {
        None
    }
}

/// `needle` stands somewhere in `text`.
pub open spec fn has_text(text: Seq<char>, needle: Seq<char>) -> bool {
    exists|i: int| #[trigger] has_text_at(text, needle, i)
}

/// `needle` stands in `text` at position `i`.
pub open spec fn has_text_at(text: Seq<char>, needle: Seq<char>, i: int) -> bool {
    &&& 0 <= i <= text.len() - needle.len()
    &&& text.subrange(i, i + needle.len()) == needle
}

/// The first position of one of `set` in `text`, or its length where there is none.
pub open spec fn index_of_any(text: Seq<char>, set: Seq<char>) -> int
    decreases text.len(),
{
    if text.len() == 0 || set.contains(text[0]) {
        0
    } else {
        1 + index_of_any(text.drop_first(), set)
    }
}

/// The last position of `ch` in `text`, or -1 where there is none.
pub open spec fn last_index_of(text: Seq<char>, ch: char) -> int
    decreases text.len(),
{
    if text.len() == 0 {
        -1
    } else if text.last() == ch {
        text.len() - 1
    } else {
        last_index_of(text.drop_last(), ch)
    }
}

/// `index_of_any` is the first position that holds one of the set.
pub proof fn index_of_any_is_first(text: Seq<char>, set: Seq<char>)
    ensures
        0 <= index_of_any(text, set) <= text.len(),
        index_of_any(text, set) < text.len() ==> set.contains(text[index_of_any(text, set)]),
        forall|i: int|
            0 <= i < index_of_any(text, set) ==> !set.contains(#[trigger] text[i]),
    decreases text.len(),
{
    if text.len() > 0 && !set.contains(text[0]) {
        let rest = text.drop_first();
        index_of_any_is_first(rest, set);
        assert forall|i: int| 0 <= i < index_of_any(text, set) implies !set.contains(
            #[trigger] text[i],
        ) by {
            if i > 0 {
                assert(rest[i - 1] == text[i]);
            }
        }
    }
}

/// A position that holds one of the set, with none before it, is `index_of_any`.
pub proof fn index_of_any_from_position(text: Seq<char>, set: Seq<char>, at: int)
    requires
        0 <= at <= text.len(),
        at < text.len() ==> set.contains(text[at]),
        forall|i: int| 0 <= i < at ==> !set.contains(#[trigger] text[i]),
    ensures
        index_of_any(text, set) == at,
{
    index_of_any_is_first(text, set);
    let found = index_of_any(text, set);
    if found < at {
        assert(!set.contains(text[found]));
    }
    if at < found {
        assert(!set.contains(text[at]));
    }
}

/// `last_index_of` is the last position that holds the character.
pub proof fn last_index_of_is_last(text: Seq<char>, ch: char)
    ensures
        -1 <= last_index_of(text, ch) < text.len(),
        last_index_of(text, ch) >= 0 ==> text[last_index_of(text, ch)] == ch,
        forall|i: int| last_index_of(text, ch) < i < text.len() ==> #[trigger] text[i] != ch,
    decreases text.len(),
{
    if text.len() > 0 && text.last() != ch {
        let rest = text.drop_last();
        last_index_of_is_last(rest, ch);
        assert forall|i: int| last_index_of(text, ch) < i < text.len() implies #[trigger] text[i]
            != ch by {
            if i < text.len() - 1 {
                assert(rest[i] == text[i]);
            }
        }
    }
}

/// Whether `text` starts with `prefix`.
pub fn starts_with(text: &str, prefix: &str) -> (yes: bool)
    ensures
        yes == has_prefix(text@, prefix@),
{
    let text = chars_of(text);
    let prefix = chars_of(prefix);
    matches_at(&text, &prefix, 0)
}

/// Whether `needle` stands in `text` at position `at`.
fn matches_at(text: &Vec<char>, needle: &Vec<char>, at: usize) -> (yes: bool)
    requires
        at <= text@.len(),
    ensures
        yes == has_text_at(text@, needle@, at as int),
        at == 0 ==> yes == has_prefix(text@, needle@),
{
    assert(needle@.len() <= text@.len() ==> text@.subrange(0, needle@.len() as int) =~= text@.take(
        needle@.len() as int,
    ));
    let total = text.len();
    if needle.len() > total - at {
        return false;
    }
    for i in 0..needle.len()
        invariant
            total == text@.len(),
            at + needle@.len() <= total,
            forall|j: int| 0 <= j < i ==> text@[at + j] == #[trigger] needle@[j],
    {
        if text[at + i] != needle[i] {
            assert(text@.subrange(at as int, at + needle@.len())[i as int] != needle@[i as int]);
            return false;
        }
    }
    assert(text@.subrange(at as int, at + needle@.len()) =~= needle@);
    true
}

/// Whether `needle` stands somewhere in `text`.
pub fn contains(text: &str, needle: &str) -> (yes: bool)
    ensures
        yes == has_text(text@, needle@),
{
    let chars = chars_of(text);
    let wanted = chars_of(needle);
    let mut at: usize = 0;
    while at < chars.len()
        invariant
            chars@ == text@,
            wanted@ == needle@,
            at <= chars@.len(),
            forall|i: int| 0 <= i < at ==> !has_text_at(text@, needle@, i),
        decreases chars@.len() - at,
    {
        if matches_at(&chars, &wanted, at) {
            return true;
        }
        at = at + 1;
    }
    matches_at(&chars, &wanted, at)
}

/// `text` without `prefix`, where it starts with it.
pub fn strip_prefix(text: &str, prefix: &str) -> (out: Option<String>)
    ensures
        opt_view(out) == without_prefix(text@, prefix@),
{
    let text = chars_of(text);
    let prefix = chars_of(prefix);
    if matches_at(&text, &prefix, 0) {
        assert(text@.subrange(prefix@.len() as int, text@.len() as int) =~= text@.skip(
            prefix@.len() as int,
        ));
        Some(string_between(&text, prefix.len(), text.len()))
    } else {
        None
    }
}

/// The first position of one of `set` in `text`, or its length where there is none.
pub fn find_any(text: &Vec<char>, set: &Vec<char>) -> (at: usize)
    ensures
        at == index_of_any(text@, set@),
        at <= text@.len(),
{
    let mut at: usize = 0;
    while at < text.len()
        invariant
            at <= text@.len(),
            forall|i: int| 0 <= i < at ==> !set@.contains(#[trigger] text@[i]),
        decreases text@.len() - at,
    {
        let mut found = false;
        for j in 0..set.len()
            invariant
                at < text@.len(),
                found == exists|i: int| 0 <= i < j && #[trigger] set@[i] == text@[at as int],
        {
            if set[j] == text[at] {
                found = true;
            }
        }
        if found {
            proof {
                index_of_any_from_position(text@, set@, at as int);
            }
            return at;
        }
        at = at + 1;
    }
    proof {
        index_of_any_from_position(text@, set@, at as int);
    }
    at
}

/// The first position of `ch` in `text`, where there is one.
pub open spec fn position(text: Seq<char>, ch: char) -> Option<int> {
    let at = index_of_any(text, seq![ch]);
    if at < text.len() {
        Some(at)
    } else {
        None
    }
}

/// The text before and after the first `ch`, where there is one.
pub open spec fn cut_once(text: Seq<char>, ch: char) -> Option<(Seq<char>, Seq<char>)> {
    match position(text, ch) {
        Some(at) => Some((text.take(at), text.skip(at + 1))),
        None => None,
    }
}

/// The text before and after the last `ch`, where there is one.
pub open spec fn cut_last(text: Seq<char>, ch: char) -> Option<(Seq<char>, Seq<char>)> {
    let at = last_index_of(text, ch);
    if at >= 0 {
        Some((text.take(at), text.skip(at + 1)))
    } else {
        None
    }
}

/// The views of an optional pair of strings.
pub open spec fn pair_view(pair: Option<(String, String)>) -> Option<(Seq<char>, Seq<char>)> {
    match pair {
        Some(pair) => Some((pair.0@, pair.1@)),
        None => None,
    }
}

/// The text before and after the first `ch`, where there is one.
pub fn split_once(text: &str, ch: char) -> (out: Option<(String, String)>)
    ensures
        pair_view(out) == cut_once(text@, ch),
{
    let chars = chars_of(text);
    let mut set: Vec<char> = Vec::new();
    set.push(ch);
    assert(set@ =~= seq![ch]);
    let at = find_any(&chars, &set);
    if at < chars.len() {
        assert(chars@.subrange(0, at as int) =~= text@.take(at as int));
        assert(chars@.subrange(at + 1, chars@.len() as int) =~= text@.skip(at + 1));
        Some((string_between(&chars, 0, at), string_between(&chars, at + 1, chars.len())))
    } else {
        None
    }
}

/// The text before and after the last `ch`, where there is one.
pub fn rsplit_once(text: &str, ch: char) -> (out: Option<(String, String)>)
    ensures
        pair_view(out) == cut_last(text@, ch),
{
    let chars = chars_of(text);
    let mut end: usize = chars.len();
    assert(text@.take(end as int) =~= text@);
    while end > 0
        invariant
            chars@ == text@,
            end <= chars@.len(),
            last_index_of(text@, ch) == last_index_of(text@.take(end as int), ch),
        decreases end,
    {
        if chars[end - 1] == ch {
            let at = end - 1;
            assert(chars@.subrange(0, at as int) =~= text@.take(at as int));
            assert(chars@.subrange(at + 1, chars@.len() as int) =~= text@.skip(at + 1));
            return Some((string_between(&chars, 0, at), string_between(&chars, end, chars.len())));
        }
        assert(text@.take(end as int).drop_last() =~= text@.take(end - 1));
        end = end - 1;
    }
    None
}

// ---------------------------------------------------------------------------
// Cutting at every separator
// ---------------------------------------------------------------------------

/// The pieces of `text` between the characters `sep`; always one more than there are separators.
pub open spec fn split(text: Seq<char>, sep: char) -> Seq<Seq<char>>
    decreases text.len(),
{
    if text.len() == 0 {
        seq![seq![]]
    } else {
        let before = split(text.drop_last(), sep);
        if text.last() == sep {
            before.push(seq![])
        } else {
            before.drop_last().push(before.last().push(text.last()))
        }
    }
}

/// A text has at least one piece.
pub proof fn split_is_not_empty(text: Seq<char>, sep: char)
    ensures
        split(text, sep).len() >= 1,
    decreases text.len(),
{
    if text.len() > 0 {
        split_is_not_empty(text.drop_last(), sep);
    }
}

/// Joining the pieces of a text with the separator gives the text back.
pub proof fn join_of_split(text: Seq<char>, sep: char)
    ensures
        join(split(text, sep), seq![sep]) == text,
    decreases text.len(),
{
    if text.len() > 0 {
        let before = text.drop_last();
        join_of_split(before, sep);
        split_is_not_empty(before, sep);
        let parts = split(before, sep);
        if text.last() == sep {
            assert(split(text, sep).drop_last() =~= parts);
            assert(join(split(text, sep), seq![sep]) =~= text);
        } else {
            let last = parts.last().push(text.last());
            assert(split(text, sep).drop_last() =~= parts.drop_last());
            if parts.len() == 1 {
                assert(split(text, sep)[0] == last);
                assert(last =~= text);
            } else {
                assert(join(split(text, sep), seq![sep]) =~= join(parts, seq![sep]).push(
                    text.last(),
                ));
                assert(join(parts, seq![sep]).push(text.last()) =~= text);
            }
        }
    }
}

/// The pieces of `text` between the characters `sep`.
pub fn split_at_every(text: &str, sep: char) -> (out: Vec<String>)
    ensures
        views(out@) == split(text@, sep),
        out@.len() >= 1,
{
    let mut out: Vec<String> = Vec::new();
    let mut piece: Vec<char> = Vec::new();
    assert(views(out@).push(piece@) =~= split(text@.take(0), sep));
    for ch in it: text.chars()
        invariant
            it.seq() == text@,
            views(out@).push(piece@) == split(text@.take(it.index() as int), sep),
    {
        let ghost done = text@.take(it.index() as int);
        let ghost before = views(out@).push(piece@);
        assert(text@.take(it.index() + 1).drop_last() =~= done);
        assert(before.drop_last() =~= views(out@));
        if ch == sep {
            out.push(string_of(&piece));
            piece = Vec::new();
            assert(views(out@) =~= before);
            assert(views(out@).push(piece@) =~= before.push(seq![]));
        } else {
            piece.push(ch);
        }
    }
    let ghost before = views(out@);
    out.push(string_of(&piece));
    assert(views(out@) =~= before.push(piece@));
    assert(text@.take(text@.len() as int) =~= text@);
    out
}

proof fn split_of_separator_and_piece(text: Seq<char>, sep: char, piece: Seq<char>)
    requires
        !piece.contains(sep),
    ensures
        split(text.push(sep) + piece, sep) == split(text, sep).push(piece),
    decreases piece.len(),
{
    let whole = text.push(sep) + piece;
    if piece.len() == 0 {
        assert(whole =~= text.push(sep));
        assert(whole.drop_last() =~= text);
        assert(piece =~= seq![]);
    } else {
        let before = piece.drop_last();
        assert forall|i: int| 0 <= i < before.len() implies before[i] != sep by {
            assert(piece.contains(piece[i]));
        }
        assert(piece.contains(piece.last()));
        split_of_separator_and_piece(text, sep, before);
        assert(whole.drop_last() =~= text.push(sep) + before);
        assert(before.push(piece.last()) =~= piece);
        assert(split(text, sep).push(before).drop_last() =~= split(text, sep));
    }
}

/// A text without the separator is one piece.
pub proof fn split_of_piece(piece: Seq<char>, sep: char)
    requires
        !piece.contains(sep),
    ensures
        split(piece, sep) == seq![piece],
    decreases piece.len(),
{
    if piece.len() == 0 {
        assert(piece =~= seq![]);
    } else {
        let before = piece.drop_last();
        assert forall|i: int| 0 <= i < before.len() implies before[i] != sep by {
            assert(piece.contains(piece[i]));
        }
        assert(piece.contains(piece.last()));
        split_of_piece(before, sep);
        assert(before.push(piece.last()) =~= piece);
        assert(split(piece, sep) =~= seq![piece]);
    }
}

/// Cutting joined parts at the separator gives the parts back, if there are any and none of them
/// holds the separator.
pub proof fn split_of_join(parts: Seq<Seq<char>>, sep: char)
    requires
        parts.len() > 0,
        forall|i: int| 0 <= i < parts.len() ==> !(#[trigger] parts[i]).contains(sep),
    ensures
        split(join(parts, seq![sep]), sep) == parts,
    decreases parts.len(),
{
    let last = parts[parts.len() - 1];
    if parts.len() == 1 {
        split_of_piece(parts[0], sep);
        assert(parts =~= seq![parts[0]]);
    } else {
        let before = parts.drop_last();
        assert forall|i: int| 0 <= i < before.len() implies !(#[trigger] before[i]).contains(
            sep,
        ) by {
            assert(before[i] == parts[i]);
        }
        split_of_join(before, sep);
        split_of_separator_and_piece(join(before, seq![sep]), sep, last);
        assert(join(before, seq![sep]) + seq![sep] =~= join(before, seq![sep]).push(sep));
        assert(before.push(last) =~= parts);
    }
}

/// A line without one carriage return at its end.
pub open spec fn without_carriage_return(line: Seq<char>) -> Seq<char> {
    if line.len() > 0 && line.last() == '\r' {
        line.drop_last()
    } else {
        line
    }
}

/// The lines of `text`: the pieces that end in a line feed, each without one carriage return
/// before it, and what follows the last line feed, where anything does.
pub open spec fn lines(text: Seq<char>) -> Seq<Seq<char>> {
    let pieces = split(text, '\n');
    let ended = pieces.drop_last().map_values(|line: Seq<char>| without_carriage_return(line));
    if pieces.last().len() > 0 {
        ended.push(pieces.last())
    } else {
        ended
    }
}

/// The lines of `text`.
pub fn lines_of(text: &str) -> (out: Vec<String>)
    ensures
        views(out@) == lines(text@),
{
    let mut pieces = split_at_every(text, '\n');
    let ghost all = views(pieces@);
    let last = pieces.len() - 1;
    let mut out: Vec<String> = Vec::new();
    for i in 0..last
        invariant
            last == pieces@.len() - 1,
            all == views(pieces@),
            views(out@) == all.take(i as int).map_values(
                |line: Seq<char>| without_carriage_return(line),
            ),
    {
        let ghost done = views(out@);
        let mut line = chars_of(pieces[i].as_str());
        if line.len() > 0 && line[line.len() - 1] == '\r' {
            line.pop();
        }
        out.push(string_of(&line));
        assert(line@ =~= without_carriage_return(all[i as int]));
        assert(views(out@) =~= done.push(line@));
        assert(all.take(i + 1) =~= all.take(i as int).push(all[i as int]));
        assert(views(out@) =~= all.take(i + 1).map_values(
            |line: Seq<char>| without_carriage_return(line),
        ));
    }
    let ghost done = views(out@);
    assert(all.take(last as int) =~= all.drop_last());
    if !pieces[last].as_str().is_empty() {
        out.push(pieces[last].clone());
        assert(views(out@) =~= done.push(all.last()));
    }
    out
}

/// The words of `text`: its longest runs without white space.
pub open spec fn words(text: Seq<char>) -> Seq<Seq<char>>
    decreases text.len(),
{
    if text.len() == 0 {
        seq![]
    } else {
        let before = text.drop_last();
        if is_white_space(text.last()) {
            words(before)
        } else if before.len() == 0 || is_white_space(before.last()) {
            words(before).push(seq![text.last()])
        } else {
            words(before).drop_last().push(words(before).last().push(text.last()))
        }
    }
}

/// The words of `text`.
pub fn words_of(text: &str) -> (out: Vec<String>)
    ensures
        views(out@) == words(text@),
{
    let mut out: Vec<String> = Vec::new();
    let mut word: Vec<char> = Vec::new();
    assert(views(out@) =~= words(text@.take(0)));
    for ch in it: text.chars()
        invariant
            it.seq() == text@,
            word@.len() == 0 <==> (it.index() == 0 || is_white_space(text@[it.index() - 1])),
            word@.len() == 0 ==> views(out@) == words(text@.take(it.index() as int)),
            word@.len() > 0 ==> views(out@).push(word@) == words(text@.take(it.index() as int)),
    {
        let ghost done = text@.take(it.index() as int);
        let ghost before = views(out@);
        assert(text@.take(it.index() + 1).drop_last() =~= done);
        if char_is_white_space(ch) {
            if word.len() > 0 {
                out.push(string_of(&word));
                assert(views(out@) =~= before.push(word@));
                word = Vec::new();
            }
        } else {
            let ghost had = word@;
            word.push(ch);
            assert(had.len() == 0 ==> word@ =~= seq![ch]);
            assert(before.push(had).drop_last() =~= before);
        }
    }
    let ghost before = views(out@);
    assert(text@.take(text@.len() as int) =~= text@);
    if word.len() > 0 {
        out.push(string_of(&word));
        assert(views(out@) =~= before.push(word@));
    }
    out
}

} // verus!
