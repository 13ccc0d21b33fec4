//! Tables of text, drawn by `prettytable`.

use vstd::prelude::*;
use crate::text::{chars_of, string_of};

verus! {

/// The text that `prettytable` draws for a table in its default format that
/// it makes of `rows`: one row for each element, one left-aligned cell for
/// each text.
pub uninterp spec fn table_text(rows: Seq<Seq<Seq<char>>>) -> Seq<char>;

/// The character that opens a terminal escape sequence.
pub const ESCAPE: char = '\u{1b}';

/// What stands for an escape character in a cell.
pub const REPLACEMENT: char = '\u{fffd}';

/// `text` as a cell shows it: each escape character replaced.
pub open spec fn printable(text: Seq<char>) -> Seq<char> {
    text.map_values(|c: char| if c == ESCAPE { REPLACEMENT } else { c })
}

/// `rows` as a table shows them: each cell made printable.
pub open spec fn printable_rows(rows: Seq<Seq<Seq<char>>>) -> Seq<Seq<Seq<char>>> {
    rows.map_values(|row: Seq<Seq<char>>| row.map_values(|cell: Seq<char>| printable(cell)))
}

/// `prettytable::Table::from` on the rows, then `to_string` on the table.
///
/// The contract only names the result: the text depends on the texts handed
/// in, on their order, and on nothing else. A cell keeps the lines of its
/// text, so two lists of texts may be drawn alike.
///
/// Making a cell measures its text, and the measuring fails an assertion on
/// some texts that hold an escape sequence; a text without the escape
/// character never gets there.
#[verifier::external_body]
fn draw_table(rows: &Vec<Vec<String>>) -> (text: String)
    requires
        forall|i: int, j: int|
            0 <= i < rows.len() && 0 <= j < rows[i].len() ==> !(#[trigger] rows[i][j])@.contains(
                ESCAPE,
            ),
    ensures
        text@ == table_text(rows.deep_view()),
{
    prettytable::Table::from(rows).to_string()
}

/// `text` with each escape character replaced.
pub fn printable_string(text: &str) -> (shown: String)
    ensures
        shown@ == printable(text@),
        !shown@.contains(ESCAPE),
{
    let chars = chars_of(text);
    let mut shown: Vec<char> = Vec::new();
    let mut i: usize = 0;
    while i < chars.len()
        invariant
            i <= chars.len(),
            shown@ == printable(chars@.take(i as int)),
        decreases chars.len() - i,
    {
        let c = chars[i];
        proof {
            assert(printable(chars@.take(i + 1)) == printable(chars@.take(i as int)).push(
                if c == ESCAPE { REPLACEMENT } else { c },
            ));
        }
        if c == ESCAPE {
            shown.push(REPLACEMENT);
        } else {
            shown.push(c);
        }
        i = i + 1;
    }
    proof {
        assert(chars@.take(chars.len() as int) == chars@);
    }
    string_of(&shown)
}

/// Draws `rows` as a table, one line of cells for each row, every cell made
/// printable.
pub fn render_table(rows: &Vec<Vec<String>>) -> (text: String)
    ensures
        text@ == table_text(printable_rows(rows.deep_view())),
{
    let mut shown: Vec<Vec<String>> = Vec::new();
    let mut i: usize = 0;
    while i < rows.len()
        invariant
            i <= rows.len(),
            shown.deep_view() == printable_rows(rows.deep_view().take(i as int)),
            forall|k: int, j: int|
                0 <= k < shown.len() && 0 <= j < shown[k].len() ==> !(#[trigger] shown[k][j])@.contains(
                    ESCAPE,
                ),
        decreases rows.len() - i,
    {
        let row = &rows[i];
        let mut cells: Vec<String> = Vec::new();
        let mut j: usize = 0;
        while j < row.len()
            invariant
                j <= row.len(),
                cells.len() == j,
                forall|k: int| 0 <= k < j ==> (#[trigger] cells[k])@ == printable(row[k]@),
                forall|k: int| 0 <= k < j ==> !(#[trigger] cells[k])@.contains(ESCAPE),
            decreases row.len() - j,
        {
            cells.push(printable_string(row[j].as_str()));
            j = j + 1;
        }
        proof {
            let next = printable_rows(rows.deep_view().take(i + 1));
            assert(cells.deep_view() == next[i as int]);
            assert(next == shown.deep_view().push(cells.deep_view()));
        }
        shown.push(cells);
        i = i + 1;
    }
    proof {
        assert(rows.deep_view().take(rows.len() as int) == rows.deep_view());
    }
    draw_table(&shown)
}

} // verus!
