//! Escaping for HTML and for URL queries.

use vstd::prelude::*;
use vstd::utf8::{decode_utf8, encode_utf8, is_ascii_chars, valid_utf8};

verus! {

// ---------------------------------------------------------------------------
// HTML
// ---------------------------------------------------------------------------

/// What stands for one character in HTML text and attribute values.
pub open spec fn html_char(ch: char) -> Seq<char> {
    if ch == '&' {
        "&amp;"@
    } else if ch == '<' {
        "&lt;"@
    } else if ch == '>' {
        "&gt;"@
    } else if ch == '"' {
        "&quot;"@
    } else {
        seq![ch]
    }
}

/// The HTML form of a text: each character replaced by what stands for it.
pub open spec fn html(text: Seq<char>) -> Seq<char>
    decreases text.len(),
{
    if text.len() == 0 {
        seq![]
    } else {
        html(text.drop_last()) + html_char(text.last())
    }
}

/// Escapes the characters that HTML gives a meaning.
pub fn html_escape(raw: &str) -> (out: String)
    ensures
        out@ == html(raw@),
{
    let mut out = String::new();
    for ch in it: raw.chars()
        invariant
            it.seq() == raw@,
            out@ == html(raw@.take(it.index() as int)),
    {
        assert(raw@.take(it.index() + 1).drop_last() =~= raw@.take(it.index() as int));
        let ghost before = out@;
        if ch == '&' {
            out.append("&amp;");
        } else if ch == '<' {
            out.append("&lt;");
        } else if ch == '>' {
            out.append("&gt;");
        } else if ch == '"' {
            out.append("&quot;");
        } else {
            out.push(ch);
            assert(out@ =~= before + seq![ch]);
        }
    }
    assert(raw@.take(raw@.len() as int) =~= raw@);
    out
}

/// Escaping two texts put together is escaping each and putting the results together.
pub proof fn html_of_concatenation(left: Seq<char>, right: Seq<char>)
    ensures
        html(left + right) == html(left) + html(right),
    decreases right.len(),
{
    if right.len() == 0 {
        assert(left + right =~= left);
        assert(html(left) + html(right) =~= html(left));
    } else {
        html_of_concatenation(left, right.drop_last());
        assert((left + right).drop_last() =~= left + right.drop_last());
        assert(html(left + right) =~= html(left) + html(right));
    }
}

/// An escaped text holds no angle bracket and no double quote, so it can neither open or close an
/// element nor leave an attribute value.
pub proof fn html_has_no_markup(text: Seq<char>)
    ensures
        forall|i: int|
            0 <= i < html(text).len() ==> {
                let ch = #[trigger] html(text)[i];
                ch != '<' && ch != '>' && ch != '"'
            },
    decreases text.len(),
{
    reveal_strlit("&amp;");
    reveal_strlit("&lt;");
    reveal_strlit("&gt;");
    reveal_strlit("&quot;");
    if text.len() > 0 {
        let before = html(text.drop_last());
        html_has_no_markup(text.drop_last());
        assert forall|i: int| 0 <= i < html(text).len() implies ({
            let ch = #[trigger] html(text)[i];
            ch != '<' && ch != '>' && ch != '"'
        }) by {
            if i < before.len() {
                assert(html(text)[i] == before[i]);
            } else {
                assert(html(text)[i] == html_char(text.last())[i - before.len()]);
            }
        }
    }
}

/// Two texts with the same HTML form are the same.
pub proof fn html_is_injective(a: Seq<char>, b: Seq<char>)
    requires
        html(a) == html(b),
    ensures
        a == b,
    decreases a.len(),
{
    reveal_strlit("&amp;");
    reveal_strlit("&lt;");
    reveal_strlit("&gt;");
    reveal_strlit("&quot;");
    if a.len() == 0 || b.len() == 0 {
        html_is_longer(a);
        html_is_longer(b);
        assert(a =~= b);
    } else {
        html_from_front(a);
        html_from_front(b);
        let left = html_char(a[0]);
        let right = html_char(b[0]);
        let ghost whole = html(a);
        assert(whole[0] == left[0] && whole[0] == right[0]);
        if whole[0] == '&' {
            assert(whole[1] == left[1] && whole[1] == right[1]);
        }
        assert(a[0] == b[0]);
        assert(whole.skip(left.len() as int) =~= html(a.drop_first()));
        assert(whole.skip(right.len() as int) =~= html(b.drop_first()));
        html_is_injective(a.drop_first(), b.drop_first());
        assert(a =~= seq![a[0]] + a.drop_first());
        assert(b =~= seq![b[0]] + b.drop_first());
    }
}

proof fn html_from_front(text: Seq<char>)
    requires
        text.len() > 0,
    ensures
        html(text) == html_char(text[0]) + html(text.drop_first()),
{
    let first = seq![text[0]];
    assert(text =~= first + text.drop_first());
    html_of_concatenation(first, text.drop_first());
    assert(html(first.drop_last()) =~= seq![]);
    assert(html(first) =~= html_char(text[0]));
}

proof fn html_is_longer(text: Seq<char>)
    ensures
        html(text).len() >= text.len(),
    decreases text.len(),
{
    reveal_strlit("&amp;");
    reveal_strlit("&lt;");
    reveal_strlit("&gt;");
    reveal_strlit("&quot;");
    if text.len() > 0 {
        html_is_longer(text.drop_last());
    }
}

// ---------------------------------------------------------------------------
// URL queries
// ---------------------------------------------------------------------------

/// The bytes that stand for themselves in a query.
pub open spec fn is_unreserved(byte: u8) -> bool {
    ||| 0x41 <= byte <= 0x5a
    ||| 0x61 <= byte <= 0x7a
    ||| 0x30 <= byte <= 0x39
    ||| byte == 0x2d
    ||| byte == 0x5f
    ||| byte == 0x2e
    ||| byte == 0x7e
}

/// The characters of query forms: the unreserved ones, the plus sign and the percent sign.
pub open spec fn is_query_char(ch: char) -> bool {
    ||| 'A' <= ch <= 'Z'
    ||| 'a' <= ch <= 'z'
    ||| '0' <= ch <= '9'
    ||| ch == '-'
    ||| ch == '_'
    ||| ch == '.'
    ||| ch == '~'
    ||| ch == '+'
    ||| ch == '%'
}

/// The upper-case hexadecimal digit for a value below sixteen.
pub open spec fn hex_digit(value: u8) -> char {
    if value < 10 {
        (0x30 + value) as char
    } else {
        (0x37 + value) as char
    }
}

/// What stands for one byte in a query.
pub open spec fn query_byte(byte: u8) -> Seq<char> {
    if is_unreserved(byte) {
        seq![byte as char]
    } else if byte == 0x20 {
        seq!['+']
    } else {
        seq!['%', hex_digit(byte / 16), hex_digit(byte % 16)]
    }
}

/// What stands for a sequence of bytes in a query.
pub open spec fn query_bytes(bytes: Seq<u8>) -> Seq<char>
    decreases bytes.len(),
{
    if bytes.len() == 0 {
        seq![]
    } else {
        query_byte(bytes[0]) + query_bytes(bytes.drop_first())
    }
}

/// The query form of a text: its UTF-8 bytes, each replaced by what stands for it.
pub open spec fn query_text(text: Seq<char>) -> Seq<char> {
    query_bytes(encode_utf8(text))
}

/// The hexadecimal digit for `value`.
fn hex_digit_of(value: u8) -> (digit: char)
    requires
        value < 16,
    ensures
        digit == hex_digit(value),
{
    if value < 10 {
        (0x30 + value) as char
    } else {
        (0x37 + value) as char
    }
}

/// Encodes a text for use as a key or a value of a query.
pub fn url_encode(raw: &str) -> (out: String)
    ensures
        out@ == query_text(raw@),
{
    let bytes = raw.as_bytes();
    let mut out = String::new();
    assert(bytes@.skip(0) =~= bytes@);
    for i in 0..bytes.len()
        invariant
            bytes@ == encode_utf8(raw@),
            query_bytes(bytes@) == out@ + query_bytes(bytes@.skip(i as int)),
    {
        let byte = bytes[i];
        let ghost before = out@;
        let ghost rest = bytes@.skip(i as int);
        assert(rest.drop_first() =~= bytes@.skip(i + 1));
        if (0x41 <= byte && byte <= 0x5a) || (0x61 <= byte && byte <= 0x7a) || (0x30 <= byte
            && byte <= 0x39) || byte == 0x2d || byte == 0x5f || byte == 0x2e || byte == 0x7e {
            out.push(byte as char);
        } else if byte == 0x20 {
            out.push('+');
        } else {
            out.push('%');
            out.push(hex_digit_of(byte / 16));
            out.push(hex_digit_of(byte % 16));
        }
        assert(out@ =~= before + query_byte(byte));
        assert(before + (query_byte(byte) + query_bytes(rest.drop_first())) =~= out@ + query_bytes(
            rest.drop_first(),
        ));
    }
    assert(out@ + query_bytes(bytes@.skip(bytes@.len() as int)) =~= out@);
    out
}

/// The value of a hexadecimal digit in either case.
pub open spec fn hex_value(byte: u8) -> Option<u8> {
    if 0x30 <= byte <= 0x39 {
        Some((byte - 0x30) as u8)
    } else if 0x41 <= byte <= 0x46 {
        Some((byte - 0x37) as u8)
    } else if 0x61 <= byte <= 0x66 {
        Some((byte - 0x57) as u8)
    } else {
        None
    }
}

/// The value of the two bytes after a percent sign: two hexadecimal digits, or a plus sign and one.
pub open spec fn hex_pair(high: u8, low: u8) -> Option<u8> {
    match (hex_value(high), hex_value(low)) {
        (Some(h), Some(l)) => Some((h * 16 + l) as u8),
        (None, Some(l)) => if high == 0x2b {
            Some(l)
        } else {
            None
        },
        _ => None,
    }
}

/// The bytes that a query form stands for, or `None` where a percent sign with two bytes after it
/// is not followed by a hexadecimal number. A percent sign nearer to the end stands for itself.
pub open spec fn query_decoded(bytes: Seq<u8>) -> Option<Seq<u8>>
    decreases bytes.len(),
{
    if bytes.len() == 0 {
        Some(seq![])
    } else if bytes[0] == 0x25 && bytes.len() > 2 {
        match (hex_pair(bytes[1], bytes[2]), query_decoded(bytes.skip(3))) {
            (Some(value), Some(rest)) => Some(seq![value] + rest),
            _ => None,
        }
    } else {
        let first = if bytes[0] == 0x2b {
            0x20u8
        } else {
            bytes[0]
        };
        match query_decoded(bytes.skip(1)) {
            Some(rest) => Some(seq![first] + rest),
            None => None,
        }
    }
}

/// Why a query form stands for no text.
#[derive(Debug, Clone, Copy, PartialEq, Eq, Structural)]
pub enum UrlDecodeError {
    /// A percent sign is not followed by a hexadecimal number.
    InvalidEscape,
    /// The bytes are not UTF-8.
    InvalidUtf8,
}

/// The text that a query form stands for.
pub open spec fn query_meaning(raw: Seq<char>) -> Result<Seq<char>, UrlDecodeError> {
    match query_decoded(encode_utf8(raw)) {
        Some(bytes) => if valid_utf8(bytes) {
            Ok(decode_utf8(bytes))
        } else {
            Err(UrlDecodeError::InvalidUtf8)
        },
        None => Err(UrlDecodeError::InvalidEscape),
    }
}

/// The text or the error of a decoding.
pub open spec fn decoded_view(r: Result<String, UrlDecodeError>) -> Result<
    Seq<char>,
    UrlDecodeError,
> {
    match r {
        Ok(s) => Ok(s@),
        Err(e) => Err(e),
    }
}

/// `String::from_utf8` gives the string that the bytes encode, and fails exactly when they are not
/// UTF-8.
#[verifier::external_body]
fn string_from_utf8(bytes: Vec<u8>) -> (out: Option<String>)
    ensures
        out is Some <==> valid_utf8(bytes@),
        out matches Some(s) ==> s@ == decode_utf8(bytes@),
{
    String::from_utf8(bytes).ok()
}

/// The value of a hexadecimal digit.
fn hex_value_of(byte: u8) -> (value: Option<u8>)
    ensures
        value == hex_value(byte),
        value matches Some(v) ==> v < 16,
{
    if 0x30 <= byte && byte <= 0x39 {
        Some(byte - 0x30)
    } else if 0x41 <= byte && byte <= 0x46 {
        Some(byte - 0x37)
    } else if 0x61 <= byte && byte <= 0x66 {
        Some(byte - 0x57)
    } else {
        None
    }
}

/// Decodes a key or a value of a query.
pub fn url_decode(raw: &str) -> (out: Result<String, UrlDecodeError>)
    ensures
        decoded_view(out) == query_meaning(raw@),
{
    let bytes = raw.as_bytes();
    let total = bytes.len();
    let mut out: Vec<u8> = Vec::new();
    let mut at: usize = 0;
    assert(bytes@.skip(0) =~= bytes@);
    assert(query_decoded(bytes@) matches Some(all) ==> all =~= out@ + all);
    while at < total
        invariant
            bytes@ == encode_utf8(raw@),
            total == bytes@.len(),
            at <= total,
            query_decoded(bytes@) is Some <==> query_decoded(bytes@.skip(at as int)) is Some,
            query_decoded(bytes@) is Some ==> query_decoded(bytes@)->0 == out@ + query_decoded(
                bytes@.skip(at as int),
            )->0,
        decreases total - at,
    {
        let byte = bytes[at];
        let ghost before = out@;
        let ghost rest = bytes@.skip(at as int);
        assert(rest[0] == byte);
        assert(rest.skip(1) =~= bytes@.skip(at + 1));
        if byte == 0x25 && total - at > 2 {
            let high = bytes[at + 1];
            let low = bytes[at + 2];
            assert(rest[1] == high && rest[2] == low);
            assert(rest.skip(3) =~= bytes@.skip(at + 3));
            let value: u8 = match (hex_value_of(high), hex_value_of(low)) {
                (Some(h), Some(l)) => h * 16 + l,
                (None, Some(l)) => {
                    if high != 0x2b {
                        return Err(UrlDecodeError::InvalidEscape);
                    }
                    l
                },
                _ => {
                    return Err(UrlDecodeError::InvalidEscape);
                },
            };
            out.push(value);
            at = at + 3;
            assert(out@ =~= before + seq![value]);
        } else {
            let value: u8 = if byte == 0x2b {
                0x20
            } else {
                byte
            };
            out.push(value);
            at = at + 1;
            assert(out@ =~= before + seq![value]);
        }
        assert(query_decoded(bytes@) is Some ==> query_decoded(bytes@)->0 =~= out@ + query_decoded(
            bytes@.skip(at as int),
        )->0);
    }
    assert(query_decoded(bytes@) is Some ==> query_decoded(bytes@)->0 =~= out@);
    match string_from_utf8(out) {
        Some(text) => Ok(text),
        None => Err(UrlDecodeError::InvalidUtf8),
    }
}

/// Decoding what `url_encode` wrote gives the text back.
pub proof fn url_decode_inverts_url_encode(text: Seq<char>)
    ensures
        query_meaning(query_text(text)) == Ok::<Seq<char>, UrlDecodeError>(text),
{
    let bytes = encode_utf8(text);
    query_bytes_are_ascii(bytes);
    vstd::utf8::is_ascii_chars_encode_utf8(query_bytes(bytes));
    assert(encode_utf8(query_bytes(bytes)) =~= narrow(query_bytes(bytes)));
    query_decoded_inverts_query_bytes(bytes);
    vstd::utf8::encode_utf8_valid_utf8(text);
    vstd::utf8::encode_utf8_decode_utf8(text);
}

/// The query form of a text holds only unreserved characters, plus signs and percent signs, so it
/// can stand in a query between `?`, `&`, `=` and `#`.
pub proof fn query_text_is_plain(text: Seq<char>)
    ensures
        forall|i: int|
            0 <= i < query_text(text).len() ==> is_query_char(#[trigger] query_text(text)[i]),
{
    query_bytes_are_plain(encode_utf8(text));
}

proof fn query_bytes_are_plain(bytes: Seq<u8>)
    ensures
        forall|i: int|
            0 <= i < query_bytes(bytes).len() ==> is_query_char(#[trigger] query_bytes(bytes)[i]),
    decreases bytes.len(),
{
    if bytes.len() > 0 {
        let first = query_byte(bytes[0]);
        let rest = query_bytes(bytes.drop_first());
        query_bytes_are_plain(bytes.drop_first());
        assert forall|i: int| 0 <= i < query_bytes(bytes).len() implies is_query_char(
            #[trigger] query_bytes(bytes)[i],
        ) by {
            if i < first.len() {
                assert(query_bytes(bytes)[i] == first[i]);
            } else {
                assert(query_bytes(bytes)[i] == rest[i - first.len()]);
            }
        }
    }
}

proof fn query_bytes_are_ascii(bytes: Seq<u8>)
    ensures
        is_ascii_chars(query_bytes(bytes)),
{
    query_bytes_are_plain(bytes);
    assert forall|i: int| 0 <= i < query_bytes(bytes).len() implies '\0'
        <= #[trigger] query_bytes(bytes)[i] <= '\u{7f}' by {
        assert(is_query_char(query_bytes(bytes)[i]));
    }
}

/// ASCII characters as bytes.
spec fn narrow(chars: Seq<char>) -> Seq<u8> {
    Seq::new(chars.len(), |i: int| chars[i] as u8)
}

proof fn query_decoded_inverts_query_bytes(bytes: Seq<u8>)
    ensures
        query_decoded(narrow(query_bytes(bytes))) == Some(bytes),
    decreases bytes.len(),
{
    let all = narrow(query_bytes(bytes));
    if bytes.len() == 0 {
        assert(all =~= seq![]);
    } else {
        let first = bytes[0];
        let rest = bytes.drop_first();
        query_decoded_inverts_query_bytes(rest);
        assert(bytes =~= seq![first] + rest);
        assert(query_bytes(bytes) == query_byte(first) + query_bytes(rest));
        let width = query_byte(first).len() as int;
        assert(all.skip(width) =~= narrow(query_bytes(rest)));
        assert(all[0] == query_byte(first)[0] as u8);
        if width == 3 {
            assert(all[1] == query_byte(first)[1] as u8);
            assert(all[2] == query_byte(first)[2] as u8);
        }
    }
}

} // verus!
