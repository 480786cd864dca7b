//! The comma-separated form in which rows are exported.
use crate::quote::{doubled, law_quoted_round_trip, quote, quoted, read_quoted};
use crate::text::{chars_of, join, joined, law_joining};
use vstd::prelude::*;

verus! {

/// Whether a cell has to stand between quotes: it holds a comma, a double quote or a line
/// feed.
pub open spec fn needs_quotes(cell: Seq<char>) -> bool {
    cell.contains(',') || cell.contains('"') || cell.contains('\n')
}

/// A cell as it is written.
pub open spec fn cell_form(cell: Seq<char>) -> Seq<char> {
    if needs_quotes(cell) {
        quoted(cell)
    } else {
        cell
    }
}

/// The cells of a row as they are written.
pub open spec fn cell_forms(row: Seq<Seq<char>>) -> Seq<Seq<char>> {
    row.map_values(|c: Seq<char>| cell_form(c))
}

/// Written cells with commas between them, and a line feed.
pub open spec fn line_of(forms: Seq<Seq<char>>) -> Seq<char> {
    joined(forms, seq![',']).push('\n')
}

/// A row as it is written.
pub open spec fn row_form(row: Seq<Seq<char>>) -> Seq<char> {
    line_of(cell_forms(row))
}

/// The rows as they are written, one after the other.
pub open spec fn rows_form(rows: Seq<Seq<Seq<char>>>) -> Seq<char>
    decreases rows.len(),
{
    if rows.len() == 0 {
        seq![]
    } else {
        rows_form(rows.drop_last()) + row_form(rows.last())
    }
}

/// The whole export: a line with the column names as they are, then the rows.
pub open spec fn csv_form(cols: Seq<Seq<char>>, rows: Seq<Seq<Seq<char>>>) -> Seq<char> {
    line_of(cols) + rows_form(rows)
}

/// Tells whether a cell has to stand between quotes.
pub fn quotes_needed(cell: &str) -> (r: bool)
    ensures
        r == needs_quotes(cell@),
{
    let chars = chars_of(cell);
    let mut i: usize = 0;
    while i < chars.len()
        invariant
            i <= chars@.len(),
            chars@ == cell@,
            forall|k: int|
                0 <= k < i ==> #[trigger] cell@[k] != ',' && cell@[k] != '"' && cell@[k] != '\n',
        decreases chars@.len() - i,
    {
        let c = chars[i];
        if c == ',' || c == '"' || c == '\n' {
            assert(cell@.contains(cell@[i as int]));
            return true;
        }
        i += 1;
    }
    false
}

/// Writes one row.
fn push_row(out: &mut String, row: &Vec<String>)
    ensures
        final(out)@ == old(out)@ + row_form(row.deep_view()),
{
    let ghost start = out@;
    let ghost forms = cell_forms(row.deep_view());
    let mut i: usize = 0;
    assert(joined(forms.take(0), seq![',']) =~= seq![]);
    while i < row.len()
        invariant
            i <= row@.len(),
            forms == cell_forms(row.deep_view()),
            out@ == start + joined(forms.take(i as int), seq![',']),
        decreases row@.len() - i,
    {
        let ghost next = forms.take(i + 1);
        proof {
            assert(next.drop_last() =~= forms.take(i as int));
            assert(next.last() == cell_form(row@[i as int]@));
        }
        if i > 0 {
            out.push(',');
        }
        let ghost mid = out@;
        if quotes_needed(row[i].as_str()) {
            out.append(quote(row[i].as_str()).as_str());
        } else {
            out.append(row[i].as_str());
        }
        proof {
            assert(out@ == mid + next.last());
            if i == 0 {
                assert(out@ =~= start + next[0]);
            } else {
                assert(out@ =~= start + (joined(next.drop_last(), seq![',']) + seq![',']
                    + next.last()));
            }
        }
        i += 1;
    }
    out.push('\n');
    proof {
        assert(forms.take(i as int) =~= forms);
        assert(out@ =~= start + row_form(row.deep_view()));
    }
}

/// Writes an export: the column names, then the rows.
pub fn write_csv(cols: &Vec<String>, rows: &Vec<Vec<String>>) -> (r: String)
    ensures
        r@ == csv_form(cols.deep_view(), rows.deep_view()),
{
    proof {
        reveal_strlit(",");
        assert(","@ =~= seq![',']);
    }
    let mut out = join(cols, ",");
    out.push('\n');
    let ghost head = out@;
    let mut i: usize = 0;
    assert(out@ =~= head + rows_form(rows.deep_view().take(0)));
    while i < rows.len()
        invariant
            i <= rows@.len(),
            out@ == head + rows_form(rows.deep_view().take(i as int)),
        decreases rows@.len() - i,
    {
        let ghost before = out@;
        push_row(&mut out, &rows[i]);
        proof {
            let next = rows.deep_view().take(i + 1);
            assert(next.drop_last() =~= rows.deep_view().take(i as int));
            assert(next.last() == rows@[i as int].deep_view());
            assert(out@ =~= head + rows_form(next));
        }
        i += 1;
    }
    proof {
        assert(rows.deep_view().take(i as int) =~= rows.deep_view());
    }
    out
}

/// The number of characters in front of the first comma or line feed.
pub open spec fn plain_len(s: Seq<char>) -> nat
    decreases s.len(),
{
    if s.len() == 0 || s[0] == ',' || s[0] == '\n' {
        0
    } else {
        plain_len(s.skip(1)) + 1
    }
}

/// Reads one cell: a quoted one, or all up to the next comma or line feed. Gives the cell and
/// what follows it.
pub open spec fn read_cell(s: Seq<char>) -> Option<(Seq<char>, Seq<char>)> {
    if s.len() > 0 && s[0] == '"' {
        read_quoted(s.skip(1))
    } else {
        let n = plain_len(s) as int;
        Some((s.take(n), s.skip(n)))
    }
}

/// Reads one row: cells with commas between them, up to a line feed. Gives the row and what
/// follows it.
pub open spec fn read_row(s: Seq<char>) -> Option<(Seq<Seq<char>>, Seq<char>)>
    decreases s.len(),
{
    match read_cell(s) {
        Some((cell, rest)) => if rest.len() == 0 || rest.len() > s.len() {
            None
        } else if rest[0] == '\n' {
            Some((seq![cell], rest.skip(1)))
        } else if rest[0] == ',' {
            match read_row(rest.skip(1)) {
                Some((cells, after)) => Some((seq![cell] + cells, after)),
                None => None,
            }
        } else {
            None
        },
        None => None,
    }
}

/// Reads rows up to the end of the text.
pub open spec fn read_rows(s: Seq<char>) -> Option<Seq<Seq<Seq<char>>>>
    decreases s.len(),
{
    if s.len() == 0 {
        Some(seq![])
    } else {
        match read_row(s) {
            Some((row, rest)) => if rest.len() < s.len() {
                match read_rows(rest) {
                    Some(rows) => Some(seq![row] + rows),
                    None => None,
                }
            } else {
                None
            },
            None => None,
        }
    }
}

proof fn lemma_plain_len(cell: Seq<char>, rest: Seq<char>)
    requires
        !cell.contains(','),
        !cell.contains('\n'),
        rest.len() > 0,
        rest[0] == ',' || rest[0] == '\n',
    ensures
        plain_len(cell + rest) == cell.len(),
    decreases cell.len(),
{
    let s = cell + rest;
    if cell.len() == 0 {
        assert(s =~= rest);
    } else {
        assert(s[0] == cell[0]);
        assert(cell.contains(cell[0]));
        let tail = cell.skip(1);
        assert forall|c: char| tail.contains(c) implies cell.contains(c) by {
            let i = choose|i: int| 0 <= i < tail.len() && tail[i] == c;
            assert(cell[i + 1] == c);
        }
        lemma_plain_len(tail, rest);
        assert(s.skip(1) =~= tail + rest);
    }
}

/// Whether a text that stands without quotes is read as it is: it holds no comma and no line
/// feed and does not start with a quote.
pub open spec fn reads_plain(text: Seq<char>) -> bool {
    !text.contains(',') && !text.contains('\n') && (text.len() == 0 || text[0] != '"')
}

/// Whether `form` is a way to write `cell`.
pub open spec fn writes(form: Seq<char>, cell: Seq<char>) -> bool {
    form == quoted(cell) || form == cell && reads_plain(cell)
}

/// Whether `forms` are ways to write the cells of a row.
pub open spec fn writes_row(forms: Seq<Seq<char>>, row: Seq<Seq<char>>) -> bool {
    forms.len() == row.len() && forall|i: int|
        0 <= i < row.len() ==> writes(#[trigger] forms[i], row[i])
}

proof fn lemma_read_cell(form: Seq<char>, cell: Seq<char>, rest: Seq<char>)
    requires
        writes(form, cell),
        rest.len() > 0,
        rest[0] == ',' || rest[0] == '\n',
    ensures
        read_cell(form + rest) == Some((cell, rest)),
{
    let s = form + rest;
    if form == quoted(cell) {
        law_quoted_round_trip(cell, rest);
    } else {
        lemma_plain_len(cell, rest);
        if cell.len() > 0 {
            assert(s[0] == cell[0]);
        } else {
            assert(s[0] == rest[0]);
        }
        assert(s.take(cell.len() as int) =~= cell);
        assert(s.skip(cell.len() as int) =~= rest);
    }
}

proof fn lemma_cell_forms(row: Seq<Seq<char>>)
    ensures
        writes_row(cell_forms(row), row),
{
    assert forall|i: int| 0 <= i < row.len() implies writes(
        #[trigger] cell_forms(row)[i],
        row[i],
    ) by {
        let cell = row[i];
        if !needs_quotes(cell) && cell.len() > 0 {
            assert(cell.contains(cell[0]));
        }
    }
}

proof fn lemma_joined_front(parts: Seq<Seq<char>>, sep: Seq<char>)
    requires
        parts.len() > 1,
    ensures
        joined(parts, sep) == parts[0] + sep + joined(parts.skip(1), sep),
    decreases parts.len(),
{
    let tail = parts.skip(1);
    if parts.len() == 2 {
        assert(joined(parts.drop_last(), sep) == parts[0]);
        assert(joined(tail, sep) == parts[1]);
    } else {
        lemma_joined_front(parts.drop_last(), sep);
        assert(parts.drop_last().skip(1) =~= tail.drop_last());
        assert(joined(parts, sep) =~= parts[0] + sep + joined(tail, sep));
    }
}

proof fn lemma_line_front(forms: Seq<Seq<char>>)
    requires
        forms.len() > 0,
    ensures
        line_of(forms) == forms[0] + if forms.len() == 1 {
            seq!['\n']
        } else {
            seq![','] + line_of(forms.skip(1))
        },
{
    if forms.len() == 1 {
        assert(line_of(forms) =~= forms[0] + seq!['\n']);
    } else {
        lemma_joined_front(forms, seq![',']);
        assert(line_of(forms) =~= forms[0] + (seq![','] + line_of(forms.skip(1))));
    }
}

proof fn lemma_read_row(forms: Seq<Seq<char>>, row: Seq<Seq<char>>, rest: Seq<char>)
    requires
        row.len() > 0,
        writes_row(forms, row),
    ensures
        read_row(line_of(forms) + rest) == Some((row, rest)),
    decreases row.len(),
{
    lemma_line_front(forms);
    let s = line_of(forms) + rest;
    assert(writes(forms[0], row[0]));
    if row.len() == 1 {
        let after = seq!['\n'] + rest;
        assert(s =~= forms[0] + after);
        lemma_read_cell(forms[0], row[0], after);
        assert(after.skip(1) =~= rest);
        assert(seq![row[0]] =~= row);
    } else {
        let tail = row.skip(1);
        let tail_forms = forms.skip(1);
        let after = seq![','] + (line_of(tail_forms) + rest);
        assert(s =~= forms[0] + after);
        lemma_read_cell(forms[0], row[0], after);
        assert(after.skip(1) =~= line_of(tail_forms) + rest);
        assert forall|i: int| 0 <= i < tail.len() implies writes(
            #[trigger] tail_forms[i],
            tail[i],
        ) by {
            assert(writes(forms[i + 1], row[i + 1]));
        }
        lemma_read_row(tail_forms, tail, rest);
        assert(seq![row[0]] + tail =~= row);
    }
}

proof fn lemma_rows_form_front(rows: Seq<Seq<Seq<char>>>)
    requires
        rows.len() > 0,
    ensures
        rows_form(rows) == row_form(rows[0]) + rows_form(rows.skip(1)),
    decreases rows.len(),
{
    let tail = rows.skip(1);
    if rows.len() == 1 {
        assert(rows_form(rows.drop_last()) =~= seq![]);
        assert(rows_form(tail) =~= seq![]);
        assert(rows_form(rows) =~= row_form(rows[0]) + rows_form(tail));
    } else {
        lemma_rows_form_front(rows.drop_last());
        assert(rows.drop_last().skip(1) =~= tail.drop_last());
        assert(rows_form(rows) =~= row_form(rows[0]) + rows_form(tail));
    }
}

/// Reading written rows gives back exactly those rows, whatever their cells hold. A row
/// without cells is left out: it is written like a row with one empty cell.
pub proof fn law_rows_round_trip(rows: Seq<Seq<Seq<char>>>)
    requires
        forall|i: int| 0 <= i < rows.len() ==> (#[trigger] rows[i]).len() > 0,
    ensures
        read_rows(rows_form(rows)) == Some(rows),
    decreases rows.len(),
{
    if rows.len() == 0 {
        assert(rows =~= seq![]);
    } else {
        let tail = rows.skip(1);
        lemma_rows_form_front(rows);
        lemma_cell_forms(rows[0]);
        lemma_read_row(cell_forms(rows[0]), rows[0], rows_form(tail));
        law_rows_round_trip(tail);
        assert(rows_form(rows).len() > rows_form(tail).len());
        assert(seq![rows[0]] + tail =~= rows);
    }
}

/// Reading an export gives back the column names and the rows. Column names are written as
/// they are, so a name that holds a comma or a line feed or starts with a quote is not read
/// back; neither are a row without cells and an export without columns.
pub proof fn law_export_round_trip(cols: Seq<Seq<char>>, rows: Seq<Seq<Seq<char>>>)
    requires
        cols.len() > 0,
        forall|i: int| 0 <= i < cols.len() ==> reads_plain(#[trigger] cols[i]),
        forall|i: int| 0 <= i < rows.len() ==> (#[trigger] rows[i]).len() > 0,
    ensures
        read_rows(csv_form(cols, rows)) == Some(seq![cols] + rows),
{
    assert(writes_row(cols, cols));
    lemma_read_row(cols, cols, rows_form(rows));
    law_rows_round_trip(rows);
    assert(csv_form(cols, rows).len() > rows_form(rows).len());
}

/// A cell stands in a line as it is, unless it holds a comma, a double quote or a line feed.
/// It then stands between double quotes, with those inside written twice.
pub proof fn law_cells_are_quoted_where_needed(cell: Seq<char>)
    ensures
        !cell.contains(',') && !cell.contains('"') && !cell.contains('\n') ==> row_form(
            seq![cell],
        ) == cell + seq!['\n'],
        cell.contains(',') || cell.contains('"') || cell.contains('\n') ==> row_form(seq![cell])
            == seq!['"'] + doubled(cell) + seq!['"', '\n'],
{
    let forms = cell_forms(seq![cell]);
    assert(forms =~= seq![cell_form(cell)]);
    assert(row_form(seq![cell]) =~= cell_form(cell) + seq!['\n']);
    if needs_quotes(cell) {
        assert(row_form(seq![cell]) =~= seq!['"'] + doubled(cell) + seq!['"', '\n']);
    }
}

/// The cells of a row stand one after the other, with a comma between neighbours, and each as
/// it would stand alone. A row without cells is an empty line.
pub proof fn law_cells_follow_each_other(a: Seq<Seq<char>>, b: Seq<Seq<char>>)
    requires
        a.len() > 0,
        b.len() > 0,
    ensures
        row_form(a + b) == row_form(a).drop_last() + seq![','] + row_form(b),
        row_form(seq![]) == seq!['\n'],
{
    let sep = seq![','];
    law_joining(cell_forms(a), cell_forms(b), sep);
    assert(cell_forms(a + b) =~= cell_forms(a) + cell_forms(b));
    assert(row_form(a).drop_last() =~= joined(cell_forms(a), sep));
    assert(row_form(a + b) =~= row_form(a).drop_last() + sep + row_form(b));
    let none = Seq::<Seq<char>>::empty();
    assert(cell_forms(none) =~= none);
    assert(row_form(none) =~= seq!['\n']);
}

/// The rows of an export stand one after the other, none is left out, and in front of them
/// stands one line with the column names, which are parted by commas and stand as they are.
pub proof fn law_rows_follow_each_other(
    cols: Seq<Seq<char>>,
    a: Seq<Seq<Seq<char>>>,
    b: Seq<Seq<Seq<char>>>,
    row: Seq<Seq<char>>,
)
    ensures
        csv_form(cols, a + b) == csv_form(cols, a) + rows_form(b),
        rows_form(seq![row]) == row_form(row),
        csv_form(cols, seq![]) == joined(cols, seq![',']) + seq!['\n'],
    decreases b.len(),
{
    let none = Seq::<Seq<Seq<char>>>::empty();
    assert(rows_form(none) =~= seq![]);
    assert(seq![row].drop_last() =~= none);
    assert(rows_form(seq![row]) =~= row_form(row));
    assert(csv_form(cols, none) =~= joined(cols, seq![',']) + seq!['\n']);
    if b.len() == 0 {
        assert(a + b =~= a);
        assert(csv_form(cols, a) + rows_form(b) =~= csv_form(cols, a));
    } else {
        law_rows_follow_each_other(cols, a, b.drop_last(), row);
        assert((a + b).drop_last() =~= a + b.drop_last());
        assert((a + b).last() == b.last());
        assert(csv_form(cols, a + b) =~= csv_form(cols, a + b.drop_last()) + row_form(b.last()));
        assert(csv_form(cols, a + b) =~= csv_form(cols, a) + rows_form(b));
    }
}

} // verus!
