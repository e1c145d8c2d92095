//! Text for the shell.

use vstd::prelude::*;

use crate::text::chars_of;

verus! {

/// What stands in a quoted word for a character.
pub open spec fn quoted_char(ch: char) -> Seq<char> {
    if ch == '\'' {
        seq!['\'', '\\', '\'', '\'']
    } else {
        seq![ch]
    }
}

/// What stands in a quoted word for a text.
pub open spec fn quoted_chars(text: Seq<char>) -> Seq<char>
    decreases text.len(),
{
    if text.len() == 0 {
        seq![]
    } else {
        quoted_chars(text.drop_last()) + quoted_char(text.last())
    }
}

/// A text as one word of a shell command.
pub open spec fn quoted(text: Seq<char>) -> Seq<char> {
    seq!['\''] + quoted_chars(text) + seq!['\'']
}

/// A text as one word of a shell command.
pub fn sh_quote(text: &str) -> (out: String)
    ensures
        out@ == quoted(text@),
{
    let chars = chars_of(text);
    let mut out = String::new();
    out.push('\'');
    assert(out@ =~= seq!['\''] + quoted_chars(text@.take(0)));
    for i in 0..chars.len()
        invariant
            chars@ == text@,
            out@ == seq!['\''] + quoted_chars(text@.take(i as int)),
    {
        let ghost before = out@;
        if chars[i] == '\'' {
            out.push('\'');
            out.push('\\');
            out.push('\'');
            out.push('\'');
        } else {
            out.push(chars[i]);
        }
        proof {
            assert(out@ =~= before + quoted_char(text@[i as int]));
            assert(text@.take(i + 1).drop_last() =~= text@.take(i as int));
            assert(out@ =~= seq!['\''] + quoted_chars(text@.take(i + 1)));
        }
    }
    assert(text@.take(chars@.len() as int) =~= text@);
    out.push('\'');
    assert(out@ =~= quoted(text@));
    out
}

/// The word that a shell reads in a text without blanks outside quotes: between single quotes each
/// character stands for itself, elsewhere a backslash takes its meaning from the next character.
/// There is none where a quote is left open or nothing follows a backslash.
pub open spec fn shell_word(text: Seq<char>, inside: bool) -> Option<Seq<char>>
    decreases text.len(),
{
    if text.len() == 0 {
        if inside {
            None
        } else {
            Some(seq![])
        }
    } else if text[0] == '\'' {
        shell_word(text.drop_first(), !inside)
    } else if text[0] == '\\' && !inside {
        if text.len() < 2 {
            None
        } else {
            match shell_word(text.skip(2), false) {
                Some(rest) => Some(seq![text[1]] + rest),
                None => None,
            }
        }
    } else {
        match shell_word(text.drop_first(), inside) {
            Some(rest) => Some(seq![text[0]] + rest),
            None => None,
        }
    }
}

/// A shell reads a quoted text as one word, and the word is the text.
pub proof fn shell_reads_quoted_text(text: Seq<char>)
    ensures
        shell_word(quoted(text), false) == Some(text),
{
    let rest = quoted_chars(text) + seq!['\''];
    assert(quoted(text).drop_first() =~= rest);
    assert(shell_word(seq!['\''], true) == Some(Seq::<char>::empty())) by {
        assert(seq!['\''].drop_first() =~= Seq::<char>::empty());
        assert(shell_word(Seq::<char>::empty(), false) == Some(Seq::<char>::empty()));
    }
    shell_reads_quoted_chars(text, seq!['\'']);
    assert(text + seq![] =~= text);
}

proof fn shell_reads_quoted_chars(text: Seq<char>, rest: Seq<char>)
    requires
        shell_word(rest, true) is Some,
    ensures
        shell_word(quoted_chars(text) + rest, true) == Some(text + shell_word(rest, true)->0),
    decreases text.len(),
{
    let tail = shell_word(rest, true)->0;
    if text.len() == 0 {
        assert(quoted_chars(text) + rest =~= rest);
        assert(text + tail =~= tail);
    } else {
        let ch = text.last();
        let next = quoted_char(ch) + rest;
        assert(shell_word(next, true) == Some(seq![ch] + tail)) by {
            if ch == '\'' {
                assert(next.drop_first() =~= seq!['\\', '\'', '\''] + rest);
                let second = next.drop_first();
                assert(second.skip(2) =~= seq!['\''] + rest);
                assert((seq!['\''] + rest).drop_first() =~= rest);
                assert(shell_word(seq!['\''] + rest, false) == Some(tail));
                assert(shell_word(second, false) == Some(seq!['\''] + tail));
            } else {
                assert(next.drop_first() =~= rest);
            }
        }
        shell_reads_quoted_chars(text.drop_last(), next);
        assert(quoted_chars(text) + rest =~= quoted_chars(text.drop_last()) + next);
        assert(text.drop_last() + (seq![ch] + tail) =~= text + tail);
    }
}

} // verus!
