//! What texts, numbers and times come to.

use vstd::prelude::*;

use crate::escape::{html, query_byte};
use crate::laws::timeline::is_clock_time;
use crate::model::{id_of, one_line};
use crate::number::{decimal, decimal_is_digits, integer, is_digit, unsigned};
use crate::order::text_less;
use crate::split::{
    concat, cut_last, cut_once, join, lines, split, without_carriage_return, without_prefix, words,
};
use crate::text::{is_blank, is_white_space, trim, trim_end_splits, trim_start, trim_start_splits};
use crate::time::{rfc3339_millis, sort_key, ui_time};

verus! {

// ---------------------------------------------------------------------------
// White space
// ---------------------------------------------------------------------------

/// White space is what Unicode calls so: the tab, the line breaks, the space, the two controls and
/// the wide, narrow and fixed spaces.
pub proof fn white_space_is_that_of_unicode(ch: char)
    ensures
        is_white_space(ch) <==> ch == ' ' || ('\t' <= ch <= '\r') || ch == '\u{85}' || ch
            == '\u{a0}' || ch == '\u{1680}' || ('\u{2000}' <= ch <= '\u{200a}') || ch == '\u{2028}'
            || ch == '\u{2029}' || ch == '\u{202f}' || ch == '\u{205f}' || ch == '\u{3000}',
{
}

/// A text is white space, what trimming leaves of it, and white space again; and what is left
/// neither begins nor ends with white space.
pub proof fn trimming_takes_white_space_away(text: Seq<char>)
    ensures
        exists|before: Seq<char>, after: Seq<char>|
            is_blank(before) && is_blank(after) && text == #[trigger] (before + trim(text) + after),
        trim(text).len() > 0 ==> !is_white_space(trim(text)[0]) && !is_white_space(
            trim(text).last(),
        ),
{
    trim_start_splits(text);
    let rest = trim_start(text);
    trim_end_splits(rest);
    let before = text.take(text.len() - rest.len());
    let after = rest.skip(trim(text).len() as int);
    assert(rest =~= trim(text) + after);
    assert(text =~= before + trim(text) + after);
    if trim(text).len() > 0 {
        assert(trim(text)[0] == rest[0]);
    }
}

/// A text without white space that is not empty is a word; there are none in white space; and the
/// words on both sides of white space follow one another.
pub proof fn words_stand_between_white_space(left: Seq<char>, gap: char, right: Seq<char>)
    requires
        is_white_space(gap),
    ensures
        words(left.push(gap) + right) == words(left) + words(right),
        left.len() > 0 && (forall|i: int|
            0 <= i < left.len() ==> !is_white_space(#[trigger] left[i])) ==> words(left)
            == seq![left],
        words(Seq::<char>::empty()) == Seq::<Seq<char>>::empty(),
{
    words_behind_a_gap(left, gap, right);
    if left.len() > 0 && (forall|i: int|
        0 <= i < left.len() ==> !is_white_space(#[trigger] left[i])) {
        one_word(left);
    }
}

proof fn words_behind_a_gap(left: Seq<char>, gap: char, right: Seq<char>)
    requires
        is_white_space(gap),
    ensures
        words(left.push(gap) + right) == words(left) + words(right),
    decreases right.len(),
{
    let all = left.push(gap) + right;
    if right.len() == 0 {
        assert(all =~= left.push(gap));
        assert(all.drop_last() =~= left);
        assert(words(right) =~= seq![]);
        assert(words(all) =~= words(left) + words(right));
    } else {
        let before = right.drop_last();
        words_behind_a_gap(left, gap, before);
        assert(all.drop_last() =~= left.push(gap) + before);
        assert(all.last() == right.last());
        let done = left.push(gap) + before;
        if before.len() == 0 {
            assert(done.last() == gap);
        } else {
            assert(done.last() == before.last());
        }
        if !is_white_space(right.last()) {
            if before.len() == 0 || is_white_space(before.last()) {
                assert(words(all) =~= words(left) + words(right));
            } else {
                last_word_exists(before);
                assert(words(done).last() == words(before).last());
                assert(words(all) =~= words(left) + words(right));
            }
        }
    }
}

proof fn last_word_exists(text: Seq<char>)
    requires
        text.len() > 0,
        !is_white_space(text.last()),
    ensures
        words(text).len() > 0,
{
}

proof fn one_word(text: Seq<char>)
    requires
        text.len() > 0,
        forall|i: int| 0 <= i < text.len() ==> !is_white_space(#[trigger] text[i]),
    ensures
        words(text) == seq![text],
    decreases text.len(),
{
    let before = text.drop_last();
    if before.len() == 0 {
        assert(text =~= seq![text.last()]);
        assert(words(before) =~= seq![]);
        assert(words(text) =~= seq![text]);
    } else {
        assert forall|i: int| 0 <= i < before.len() implies !is_white_space(
            #[trigger] before[i],
        ) by {
            assert(before[i] == text[i]);
        }
        one_word(before);
        assert(!is_white_space(text[before.len() - 1]));
        assert(before.push(text.last()) =~= text);
        assert(words(text) =~= seq![text]);
    }
}

/// A text is put on one line by its words, and what goes beyond the limit is cut off with dots.
pub proof fn long_lines_are_cut(text: Seq<char>, max: nat)
    ensures
        ({
            let line = join(words(text), seq![' ']);
            &&& line.len() <= max ==> one_line(text, max) == line
            &&& line.len() > max ==> one_line(text, max) == line.subrange(0, max as int) + seq![
                '.',
                '.',
                '.',
            ]
        }),
{
    reveal_strlit("...");
    assert("..."@ =~= seq!['.', '.', '.']);
    let line = join(words(text), seq![' ']);
    if line.len() > max {
        assert(line.take(max as int) =~= line.subrange(0, max as int));
    }
}

/// Parts are joined with the separator between each two of them, and put together without any.
pub proof fn parts_are_joined(parts: Seq<Seq<char>>, part: Seq<char>, sep: Seq<char>)
    ensures
        join(seq![part], sep) == part,
        parts.len() > 0 ==> join(parts.push(part), sep) == join(parts, sep) + sep + part,
        concat(parts.push(part)) == concat(parts) + part,
        concat(Seq::<Seq<char>>::empty()).len() == 0,
{
    assert(parts.push(part).drop_last() =~= parts);
    let one = seq![part];
    assert(one.drop_last() =~= seq![]);
    assert(concat(one.drop_last()).len() == 0);
    assert(join(one, sep) =~= part);
}

// ---------------------------------------------------------------------------
// Lines
// ---------------------------------------------------------------------------

proof fn split_behind_first(line: Seq<char>, sep: char, rest: Seq<char>)
    requires
        !line.contains(sep),
    ensures
        split(line.push(sep) + rest, sep) == seq![line] + split(rest, sep),
    decreases rest.len(),
{
    let all = line.push(sep) + rest;
    crate::split::split_is_not_empty(rest, sep);
    if rest.len() == 0 {
        assert(all =~= line.push(sep));
        assert(all.drop_last() =~= line);
        crate::split::split_of_piece(line, sep);
        assert(rest =~= seq![]);
        assert(split(all, sep) =~= seq![line] + split(rest, sep));
    } else {
        let before = rest.drop_last();
        split_behind_first(line, sep, before);
        crate::split::split_is_not_empty(before, sep);
        assert(all.drop_last() =~= line.push(sep) + before);
        assert(split(all, sep) =~= seq![line] + split(rest, sep));
    }
}

/// A line ends with a line feed, before which one carriage return does not count; the last line
/// needs none, and there is no line behind a line feed at the end.
pub proof fn lines_end_with_line_feeds(line: Seq<char>, rest: Seq<char>)
    requires
        !line.contains('\n'),
    ensures
        lines(Seq::<char>::empty()) == Seq::<Seq<char>>::empty(),
        line.len() > 0 ==> lines(line) == seq![line],
        line.len() > 0 && line.last() == '\r' ==> lines(line.push('\n') + rest) == seq![
            line.take(line.len() - 1),
        ] + lines(rest),
        !(line.len() > 0 && line.last() == '\r') ==> lines(line.push('\n') + rest) == seq![line]
            + lines(rest),
{
    let none = Seq::<char>::empty();
    assert(split(none, '\n') =~= seq![none]);
    assert(lines(none) =~= seq![]);
    crate::split::split_of_piece(line, '\n');
    if line.len() > 0 {
        assert(split(line, '\n').drop_last() =~= seq![]);
        assert(lines(line) =~= seq![line]);
    }
    split_behind_first(line, '\n', rest);
    crate::split::split_is_not_empty(rest, '\n');
    let pieces = split(line.push('\n') + rest, '\n');
    let after = split(rest, '\n');
    let f = |line: Seq<char>| without_carriage_return(line);
    assert(pieces.drop_last() =~= seq![line] + after.drop_last());
    assert(pieces.drop_last().map_values(f) =~= seq![without_carriage_return(line)]
        + after.drop_last().map_values(f));
    assert(pieces.last() == after.last());
    assert(lines(line.push('\n') + rest) =~= seq![without_carriage_return(line)] + lines(rest));
    if line.len() > 0 {
        assert(line.drop_last() =~= line.take(line.len() - 1));
    }
}

/// A text is cut at the first or the last place where a character stands.
pub proof fn texts_are_cut_at_a_character(left: Seq<char>, ch: char, right: Seq<char>)
    ensures
        !left.contains(ch) ==> cut_once(left.push(ch) + right, ch) == Some((left, right)),
        !right.contains(ch) ==> cut_last(left.push(ch) + right, ch) == Some((left, right)),
        !left.contains(ch) ==> cut_once(left, ch) is None && cut_last(left, ch) is None,
{
    let all = left.push(ch) + right;
    if !left.contains(ch) {
        first_place(all, ch, left.len() as int);
        assert(all.take(left.len() as int) =~= left);
        assert(all.skip(left.len() + 1 as int) =~= right);
        no_place(left, ch);
    }
    if !right.contains(ch) {
        last_place(all, ch, left.len() as int);
        assert(all.take(left.len() as int) =~= left);
        assert(all.skip(left.len() + 1 as int) =~= right);
    }
}

proof fn first_place(text: Seq<char>, ch: char, at: int)
    requires
        0 <= at < text.len(),
        text[at] == ch,
        forall|i: int| 0 <= i < at ==> text[i] != ch,
    ensures
        crate::split::position(text, ch) == Some(at),
{
    crate::split::index_of_any_is_first(text, seq![ch]);
    let found = crate::split::index_of_any(text, seq![ch]);
    assert(seq![ch][0] == ch);
    assert(seq![ch].contains(ch));
    assert(seq![ch].contains(text[at]));
    if found < at {
        assert(seq![ch].contains(text[found]));
    }
}

proof fn no_place(text: Seq<char>, ch: char)
    requires
        !text.contains(ch),
    ensures
        crate::split::position(text, ch) is None,
        crate::split::last_index_of(text, ch) < 0,
{
    crate::split::index_of_any_is_first(text, seq![ch]);
    crate::split::last_index_of_is_last(text, ch);
    let found = crate::split::index_of_any(text, seq![ch]);
    if found < text.len() {
        assert(seq![ch].contains(text[found]));
        assert(text.contains(text[found]));
    }
    let last = crate::split::last_index_of(text, ch);
    if last >= 0 {
        assert(text.contains(text[last]));
    }
}

proof fn last_place(text: Seq<char>, ch: char, at: int)
    requires
        0 <= at < text.len(),
        text[at] == ch,
        !text.skip(at + 1).contains(ch),
    ensures
        crate::split::last_index_of(text, ch) == at,
{
    crate::split::last_index_of_is_last(text, ch);
    let last = crate::split::last_index_of(text, ch);
    if last > at {
        assert(text.skip(at + 1)[last - at - 1] == ch);
        assert(text.skip(at + 1).contains(ch));
    }
}

/// A prefix is taken off where the text has it.
pub proof fn prefixes_are_taken_off(text: Seq<char>, prefix: Seq<char>, rest: Seq<char>)
    ensures
        without_prefix(prefix + rest, prefix) == Some(rest),
        without_prefix(text, prefix) is Some ==> text == prefix + without_prefix(text, prefix)->0,
{
    assert((prefix + rest).take(prefix.len() as int) =~= prefix);
    assert((prefix + rest).skip(prefix.len() as int) =~= rest);
    if without_prefix(text, prefix) is Some {
        assert(text =~= prefix + text.skip(prefix.len() as int));
    }
}

// ---------------------------------------------------------------------------
// Identifiers and escapes
// ---------------------------------------------------------------------------

/// An identifier has the trimmed text's letters, digits, dashes and underscores, and a dash for
/// each other character.
pub proof fn identifiers_keep_letters_and_digits(raw: Seq<char>)
    ensures
        id_of(raw).len() == trim(raw).len(),
        forall|i: int|
            0 <= i < trim(raw).len() ==> {
                let ch = trim(raw)[i];
                let kept = ('a' <= ch <= 'z') || ('A' <= ch <= 'Z') || ('0' <= ch <= '9') || ch
                    == '-' || ch == '_';
                (#[trigger] id_of(raw)[i]) == if kept {
                    ch
                } else {
                    '-'
                }
            },
{
}

/// Four characters have a form of their own in HTML, and every other one stands for itself.
pub proof fn html_forms_of_characters(ch: char)
    ensures
        ch == '&' ==> html(seq![ch]) == "&amp;"@,
        ch == '<' ==> html(seq![ch]) == "&lt;"@,
        ch == '>' ==> html(seq![ch]) == "&gt;"@,
        ch == '"' ==> html(seq![ch]) == "&quot;"@,
        ch != '&' && ch != '<' && ch != '>' && ch != '"' ==> html(seq![ch]) == seq![ch],
{
    let one = seq![ch];
    assert(one.drop_last() =~= seq![]);
    assert(html(one.drop_last()) =~= seq![]);
    assert(html(one) =~= crate::escape::html_char(ch));
}

/// In a query, letters, digits and four marks stand for themselves, a plus for a space, and the
/// other bytes are written as a percent sign with two hexadecimal digits.
pub proof fn query_forms_of_bytes(byte: u8)
    ensures
        (0x41 <= byte <= 0x5a) || (0x61 <= byte <= 0x7a) || (0x30 <= byte <= 0x39) || byte == 0x2d
            || byte == 0x2e || byte == 0x5f || byte == 0x7e ==> query_byte(byte) == seq![
            byte as char,
        ],
        byte == 0x20 ==> query_byte(byte) == seq!['+'],
        !((0x41 <= byte <= 0x5a) || (0x61 <= byte <= 0x7a) || (0x30 <= byte <= 0x39) || byte == 0x2d
            || byte == 0x2e || byte == 0x5f || byte == 0x7e || byte == 0x20) ==> query_byte(
            byte,
        ).len() == 3 && query_byte(byte)[0] == '%',
{
}

// ---------------------------------------------------------------------------
// Order, numbers and times
// ---------------------------------------------------------------------------

/// Texts are ordered by their first difference, and a text comes after those that it begins with.
pub proof fn texts_are_ordered_by_their_first_difference(
    same: Seq<char>,
    a: char,
    b: char,
    left: Seq<char>,
    right: Seq<char>,
)
    ensures
        a < b ==> text_less(same.push(a) + left, same.push(b) + right),
        text_less(same, same.push(a) + left),
        !text_less(same.push(a) + left, same),
    decreases same.len(),
{
    let x = same.push(a) + left;
    let y = same.push(b) + right;
    if same.len() > 0 {
        let rest = same.drop_first();
        texts_are_ordered_by_their_first_difference(rest, a, b, left, right);
        assert(x.drop_first() =~= rest.push(a) + left);
        assert(y.drop_first() =~= rest.push(b) + right);
        assert(x[0] == same[0] && y[0] == same[0]);
    } else {
        assert(x[0] == a && y[0] == b);
    }
}

/// A number is written in decimal digits without leading zeros, and a negative one with a minus.
pub proof fn numbers_are_written_in_digits(n: nat, digit: nat)
    requires
        digit < 10,
    ensures
        decimal(digit) == seq![('0' as u32 + digit) as char],
        n > 0 ==> decimal(10 * n + digit) == decimal(n) + decimal(digit),
        n > 0 ==> integer(-(n as int)) == seq!['-'] + decimal(n),
        integer(n as int) == decimal(n),
{
    if n > 0 {
        let m = 10 * n + digit;
        assert(m / 10 == n && m % 10 == digit);
        assert(decimal(m) =~= decimal(n) + decimal(digit));
    }
}

/// A number is read from its digits, which may stand behind a plus sign, as long as it is not too
/// large; nothing else is a number.
pub proof fn numbers_are_read_from_digits(n: nat, max: nat, text: Seq<char>)
    ensures
        n <= max ==> unsigned(decimal(n), max) == Some(n) && unsigned(
            seq!['+'] + decimal(n),
            max,
        ) == Some(n),
        n > max ==> unsigned(decimal(n), max) is None,
        unsigned(Seq::<char>::empty(), max) is None,
        (exists|i: int| 0 < i < text.len() && !is_digit(#[trigger] text[i])) ==> unsigned(
            text,
            max,
        ) is None,
        text.len() > 0 && text[0] != '+' && !is_digit(text[0]) ==> unsigned(text, max) is None,
{
    decimal_is_digits(n);
    assert(is_digit(decimal(n)[0]));
    let signed = seq!['+'] + decimal(n);
    assert(signed.drop_first() =~= decimal(n));
    if exists|i: int| 0 < i < text.len() && !is_digit(#[trigger] text[i]) {
        let i = choose|i: int| 0 < i < text.len() && !is_digit(#[trigger] text[i]);
        if text[0] == '+' {
            assert(text.drop_first()[i - 1] == text[i]);
        }
    }
}

/// Times are shown in the dashboard's clock, and ordered by their milliseconds.
pub proof fn times_are_shown_in_the_clock(timestamp: Seq<char>)
    ensures
        is_clock_time(ui_time(timestamp), timestamp),
        rfc3339_millis(timestamp) is Some ==> sort_key(rfc3339_millis(timestamp))
            == rfc3339_millis(timestamp)->0,
        rfc3339_millis(timestamp) is None ==> sort_key(rfc3339_millis(timestamp)) == 0,
{
}

} // verus!
