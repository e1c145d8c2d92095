//! Pieces of HTML that several panels share.

use vstd::prelude::*;

use crate::escape::{html, html_escape};
use crate::split::{concat, concat_all};
use crate::text::views;

verus! {

/// A table cell.
pub open spec fn cell(content: Seq<char>) -> Seq<char> {
    "<td>"@ + content + "</td>"@
}

/// A table row with plain cells.
pub open spec fn table_row(cells: Seq<Seq<char>>) -> Seq<char> {
    "<tr>"@ + concat(cells.map_values(|content: Seq<char>| cell(content))) + "</tr>"@
}

/// A table row with plain cells.
pub fn render_row(cells: &Vec<String>) -> (out: String)
    ensures
        out@ == table_row(views(cells@)),
{
    let ghost wanted = views(cells@).map_values(|content: Seq<char>| cell(content));
    let mut parts: Vec<String> = Vec::new();
    for i in 0..cells.len()
        invariant
            wanted == views(cells@).map_values(|content: Seq<char>| cell(content)),
            views(parts@) == wanted.take(i as int),
    {
        let ghost before = views(parts@);
        let mut part = "<td>".to_string();
        part.append(cells[i].as_str());
        part.append("</td>");
        parts.push(part);
        assert(views(parts@) =~= before.push(part@));
        assert(views(parts@) =~= wanted.take(i + 1));
    }
    assert(wanted.take(cells@.len() as int) =~= wanted);
    let mut out = "<tr>".to_string();
    out.append(concat_all(&parts).as_str());
    out.append("</tr>");
    out
}

/// A text as code.
pub open spec fn code(text: Seq<char>) -> Seq<char> {
    "<code>"@ + html(text) + "</code>"@
}

/// A text as code.
pub fn render_code(text: &str) -> (out: String)
    ensures
        out@ == code(text@),
{
    let mut out = "<code>".to_string();
    out.append(html_escape(text).as_str());
    out.append("</code>");
    out
}

} // verus!
