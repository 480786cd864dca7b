//! What is printed in answer to commands and statements.
use crate::number::{count_text, decimal};
use crate::rows::{ForeignKey, QueryResult, ResultView};
use crate::text::joined;
use comfy_table::Table;
use vstd::prelude::*;

verus! {

/// The text of a table with a header and rows, as `comfy_table` draws it.
pub uninterp spec fn table_text(header: Seq<Seq<char>>, rows: Seq<Seq<Seq<char>>>) -> Seq<char>;

/// The report on a table that was drawn and has `n` rows.
pub open spec fn rows_report(table: Seq<char>, n: nat) -> Seq<char> {
    if n == 0 {
        "[0 rows]\n"@
    } else {
        table + "\n["@ + decimal(n) + " row(s)]\n"@
    }
}

/// The report on the result of a statement.
pub open spec fn result_report(result: ResultView) -> Seq<char> {
    match result {
        ResultView::Rows { cols, rows } => rows_report(table_text(cols, rows), rows.len()),
        ResultView::Ack { rowcount } => "OK, "@ + decimal(rowcount) + " row(s) affected.\n"@,
    }
}

/// Each text on a line of its own.
pub open spec fn lines_of(texts: Seq<Seq<char>>) -> Seq<char>
    decreases texts.len(),
{
    if texts.len() == 0 {
        seq![]
    } else {
        lines_of(texts.drop_last()) + texts.last() + seq!['\n']
    }
}

/// Each text on a line of its own, or a line that says there is none.
pub open spec fn list_report(texts: Seq<Seq<char>>, none: Seq<char>) -> Seq<char> {
    if texts.len() == 0 {
        none + seq!['\n']
    } else {
        lines_of(texts)
    }
}

/// The report on the definition of a table.
pub open spec fn ddl_report(ddl: Option<Seq<char>>) -> Seq<char> {
    match ddl {
        Some(text) => text + seq!['\n'],
        None => "(no ddl)\n"@,
    }
}

/// The column names of a list of foreign keys.
pub open spec fn key_header() -> Seq<Seq<char>> {
    seq!["from"@, "ref_table"@, "ref_col"@, "actions"@]
}

/// A foreign key as a row.
pub open spec fn key_row(key: (Seq<char>, Seq<char>, Seq<char>, Seq<char>)) -> Seq<Seq<char>> {
    seq![key.0, key.1, key.2, key.3]
}

/// Foreign keys as rows.
pub open spec fn key_rows(
    keys: Seq<(Seq<char>, Seq<char>, Seq<char>, Seq<char>)>,
) -> Seq<Seq<Seq<char>>> {
    keys.map_values(|key: (Seq<char>, Seq<char>, Seq<char>, Seq<char>)| key_row(key))
}

/// The report on the `n` foreign keys of a table, drawn as `drawn`.
pub open spec fn drawn_keys_report(table: Seq<char>, n: nat, drawn: Seq<char>) -> Seq<char> {
    if n == 0 {
        "(no foreign keys on "@ + table + ")\n"@
    } else {
        drawn + seq!['\n']
    }
}

/// The report on the foreign keys of a table.
pub open spec fn keys_report(
    table: Seq<char>,
    keys: Seq<(Seq<char>, Seq<char>, Seq<char>, Seq<char>)>,
) -> Seq<char> {
    drawn_keys_report(table, keys.len(), table_text(key_header(), key_rows(keys)))
}

/// The report on an export.
pub open spec fn export_report(path: Seq<char>, n: nat) -> Seq<char> {
    "wrote "@ + path + ", "@ + decimal(n) + " rows\n"@
}

/// `comfy_table::Table` with `set_header`, `add_rows` and `to_string`: draws a table whose
/// cells are the given texts. The text depends on the header and the rows alone, as the cells
/// have no style and the arrangement of the content is the default one, which asks for no
/// width; it has the name `table_text`.
#[verifier::external_body]
fn draw_table(header: &Vec<String>, rows: &Vec<Vec<String>>) -> (r: String)
    ensures
        r@ == table_text(header.deep_view(), rows.deep_view()),
{
    let mut table = Table::new();
    table.set_header(header).add_rows(rows);
    table.to_string()
}

/// Reports on a table that was drawn and has `n` rows.
pub fn report_rows(table: &str, n: usize) -> (r: String)
    ensures
        r@ == rows_report(table@, n as nat),
{
    if n == 0 {
        return "[0 rows]\n".to_owned();
    }
    let mut out = table.to_owned();
    out.append("\n[");
    out.append(count_text(n).as_str());
    out.append(" row(s)]\n");
    out
}

/// Reports on the result of a statement.
pub fn print_result(result: &QueryResult) -> (r: String)
    ensures
        r@ == result_report(result@),
{
    match result {
        QueryResult::Rows { cols, rows } => {
            if rows.len() == 0 {
                return report_rows("", 0);
            }
            let table = draw_table(cols, rows);
            report_rows(table.as_str(), rows.len())
        },
        QueryResult::Ack { rowcount } => {
            let mut out = "OK, ".to_owned();
            out.append(count_text(*rowcount).as_str());
            out.append(" row(s) affected.\n");
            out
        },
    }
}

/// Reports texts, each on a line of its own, or that there is none.
fn report_list(texts: &Vec<String>, none: &str) -> (r: String)
    ensures
        r@ == list_report(texts.deep_view(), none@),
{
    if texts.len() == 0 {
        let mut out = none.to_owned();
        out.push('\n');
        assert(out@ =~= none@ + seq!['\n']);
        return out;
    }
    let ghost all = texts.deep_view();
    let mut out = String::new();
    let mut i: usize = 0;
    assert(out@ =~= lines_of(all.take(0)));
    while i < texts.len()
        invariant
            i <= texts@.len(),
            all == texts.deep_view(),
            out@ == lines_of(all.take(i as int)),
        decreases texts@.len() - i,
    {
        proof {
            assert(all.take(i + 1).drop_last() =~= all.take(i as int));
            assert(all.take(i + 1).last() == texts@[i as int]@);
        }
        let ghost before = out@;
        out.append(texts[i].as_str());
        out.push('\n');
        assert(out@ =~= before + texts@[i as int]@ + seq!['\n']);
        i += 1;
    }
    proof {
        assert(all.take(i as int) =~= all);
    }
    out
}

/// Reports the names of the tables.
pub fn report_tables(names: &Vec<String>) -> (r: String)
    ensures
        r@ == list_report(names.deep_view(), "<no tables>"@),
{
    report_list(names, "<no tables>")
}

/// Reports the names that a search found.
pub fn report_hits(names: &Vec<String>) -> (r: String)
    ensures
        r@ == list_report(names.deep_view(), "(no matches)"@),
{
    report_list(names, "(no matches)")
}

/// Reports the definition of a table.
pub fn report_ddl(ddl: &Option<String>) -> (r: String)
    ensures
        r@ == ddl_report(ddl.deep_view()),
{
    match ddl {
        Some(text) => {
            let mut out = text.clone();
            out.push('\n');
            assert(out@ =~= text@ + seq!['\n']);
            out
        },
        None => "(no ddl)\n".to_owned(),
    }
}

/// The column names of a list of foreign keys.
pub(crate) fn make_key_header() -> (r: Vec<String>)
    ensures
        r.deep_view() == key_header(),
{
    let out = vec![
        "from".to_owned(),
        "ref_table".to_owned(),
        "ref_col".to_owned(),
        "actions".to_owned(),
    ];
    assert(out.deep_view() =~= key_header());
    out
}

/// The foreign keys `from..to` as rows.
pub(crate) fn make_key_rows(keys: &Vec<ForeignKey>, from: usize, to: usize) -> (r: Vec<Vec<String>>)
    requires
        from <= to <= keys@.len(),
    ensures
        r.deep_view() == key_rows(keys.deep_view().subrange(from as int, to as int)),
{
    let mut out: Vec<Vec<String>> = Vec::new();
    let mut i: usize = from;
    while i < to
        invariant
            from <= i <= to <= keys@.len(),
            out@.len() == i - from,
            forall|k: int|
                0 <= k < i - from ==> (#[trigger] out@[k]).deep_view() == key_row(
                    keys@[from + k].deep_view(),
                ),
        decreases to - i,
    {
        let key = &keys[i];
        let row = vec![key.0.clone(), key.1.clone(), key.2.clone(), key.3.clone()];
        assert(row.deep_view() =~= key_row(key.deep_view()));
        out.push(row);
        i += 1;
    }
    assert(out.deep_view() =~= key_rows(keys.deep_view().subrange(from as int, to as int)));
    out
}

/// Reports the `n` foreign keys of a table, which are drawn already.
pub fn report_drawn_keys(table: &str, n: usize, drawn: &str) -> (r: String)
    ensures
        r@ == drawn_keys_report(table@, n as nat, drawn@),
{
    if n == 0 {
        let mut out = "(no foreign keys on ".to_owned();
        out.append(table);
        out.append(")\n");
        out
    } else {
        let mut out = drawn.to_owned();
        out.push('\n');
        assert(out@ =~= drawn@ + seq!['\n']);
        out
    }
}

/// Reports the foreign keys of a table.
pub fn report_keys(table: &str, keys: &Vec<ForeignKey>) -> (r: String)
    ensures
        r@ == keys_report(table@, keys.deep_view()),
{
    if keys.len() == 0 {
        return report_drawn_keys(table, 0, "");
    }
    proof {
        assert(keys.deep_view().subrange(0, keys@.len() as int) =~= keys.deep_view());
    }
    let drawn = draw_table(&make_key_header(), &make_key_rows(keys, 0, keys.len()));
    report_drawn_keys(table, keys.len(), drawn.as_str())
}

/// Reports an export of `n` rows.
pub fn report_export(path: &str, n: usize) -> (r: String)
    ensures
        r@ == export_report(path@, n as nat),
{
    let mut out = "wrote ".to_owned();
    out.append(path);
    out.append(", ");
    out.append(count_text(n).as_str());
    out.append(" rows\n");
    out
}

/// The report on rows is the table drawn of all of them under their column names, and then
/// their number. Where there are none it says so.
pub proof fn law_all_rows_are_reported(cols: Seq<Seq<char>>, rows: Seq<Seq<Seq<char>>>)
    ensures
        rows.len() > 0 ==> result_report(ResultView::Rows { cols, rows }) == table_text(cols, rows)
            + "\n["@ + decimal(rows.len()) + " row(s)]\n"@,
        rows.len() == 0 ==> result_report(ResultView::Rows { cols, rows }) == "[0 rows]\n"@,
{
}

/// The report on changed rows tells how many they are.
pub proof fn law_changes_are_reported(n: nat)
    ensures
        result_report(ResultView::Ack { rowcount: n }) == "OK, "@ + decimal(n)
            + " row(s) affected.\n"@,
{
}

/// A list has each of its texts on a line of its own, in their order, and nothing else; where
/// there is none it says so.
pub proof fn law_lists_are_reported(a: Seq<Seq<char>>, b: Seq<Seq<char>>, none: Seq<char>)
    ensures
        a.len() > 0 && b.len() > 0 ==> list_report(a + b, none) == list_report(a, none)
            + list_report(b, none),
        a.len() == 1 ==> list_report(a, none) == a[0] + seq!['\n'],
        a.len() == 0 ==> list_report(a, none) == none + seq!['\n'],
    decreases b.len(),
{
    let empty = Seq::<Seq<char>>::empty();
    assert(lines_of(empty) =~= seq![]);
    if a.len() == 1 {
        assert(a.drop_last() =~= empty);
        assert(lines_of(a) =~= a[0] + seq!['\n']);
    }
    if a.len() > 0 && b.len() > 0 {
        assert((a + b).drop_last() =~= a + b.drop_last());
        assert((a + b).last() == b.last());
        if b.len() == 1 {
            assert(a + b.drop_last() =~= a);
            assert(b.drop_last() =~= empty);
        } else {
            law_lists_are_reported(a, b.drop_last(), none);
        }
        assert(lines_of(a + b) =~= lines_of(a) + lines_of(b));
    }
}

/// A definition is printed as it is, on lines of its own.
pub proof fn law_definitions_are_reported(text: Seq<char>)
    ensures
        ddl_report(Some(text)) == text + seq!['\n'],
        ddl_report(None) == "(no ddl)\n"@,
{
}

/// The report on foreign keys is a table with a row for each of them: the column it is on, the
/// table and the column it refers to, and its actions. Where there are none, the report names
/// the table.
pub proof fn law_all_keys_are_reported(
    table: Seq<char>,
    keys: Seq<(Seq<char>, Seq<char>, Seq<char>, Seq<char>)>,
)
    ensures
        keys.len() > 0 ==> keys_report(table, keys) == table_text(
            seq!["from"@, "ref_table"@, "ref_col"@, "actions"@],
            Seq::new(
                keys.len(),
                |i: int| seq![keys[i].0, keys[i].1, keys[i].2, keys[i].3],
            ),
        ) + seq!['\n'],
        keys.len() == 0 ==> keys_report(table, keys) == "(no foreign keys on "@ + table + ")\n"@,
{
    let rows = Seq::new(
        keys.len(),
        |i: int| seq![keys[i].0, keys[i].1, keys[i].2, keys[i].3],
    );
    assert(key_rows(keys) =~= rows);
}

/// The report on an export tells the path and the number of rows.
pub proof fn law_exports_are_reported(path: Seq<char>, n: nat)
    ensures
        export_report(path, n) == "wrote "@ + path + ", "@ + decimal(n) + " rows\n"@,
{
}

/// A list is its texts with line feeds between them and one at the end.
pub proof fn law_list_is_joined_by_line_feeds(texts: Seq<Seq<char>>, none: Seq<char>)
    requires
        texts.len() > 0,
    ensures
        list_report(texts, none) == joined(texts, seq!['\n']) + seq!['\n'],
    decreases texts.len(),
{
    let empty = Seq::<Seq<char>>::empty();
    assert(lines_of(empty) =~= seq![]);
    if texts.len() == 1 {
        assert(texts.drop_last() =~= empty);
    } else {
        law_list_is_joined_by_line_feeds(texts.drop_last(), none);
    }
    assert(lines_of(texts) =~= joined(texts, seq!['\n']) + seq!['\n']);
}

} // verus!
