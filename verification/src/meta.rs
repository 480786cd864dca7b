//! The commands that start with a dot.
use crate::csv::{csv_form, law_export_round_trip, reads_plain, write_csv};
use crate::db::{
    after_opening, ddl_query, export_for, keys_query, law_keys_query_names_the_table,
    law_preview_names_the_table, preview_query, preview_sql, tables_query, DbView, Opening,
    Statement, StatementView, DB, FOREIGN_KEYS_ON,
};
use crate::failure::{Failure, FailureView, Verb};
use crate::find::{
    find_tables, found, law_case_does_not_count, law_found, law_found_as_often, lower, lower_text,
    same_but_case,
};
use crate::number::{decimal, law_count_round_trip, number_in, parse_count};
use crate::order::in_order;
use crate::pattern::selects;
use crate::quote::read_quoted;
use crate::report::{
    ddl_report, export_report, keys_report, law_all_keys_are_reported,
    law_list_is_joined_by_line_feeds, list_report, print_result, report_ddl, report_export,
    report_hits, report_keys, report_tables, result_report, table_text,
};
use crate::rows::{
    cell_text, ddl_in, is_whole_key, keys_in, law_all_keys_are_read, law_all_names_are_read,
    law_all_rows_are_read, names_in, read_ddl, read_keys, read_names, read_rows, rows_in,
    rows_result, text_or_empty, Answer, KeyRow, ResultView,
};
use crate::text::{
    behind_words, has_part, is_word, joined, law_behind_words, law_joined_words,
    law_words_are_words, part_at, rest_behind, same, split_words, trimmed, words,
};
use vstd::prelude::*;

verus! {

/// The answer to `.help`.
pub const HELP: &'static str = "Meta commands:
  .open <file.db>      open/create SQLite DB
  .ls                  list tables
  .ddl <table>         show CREATE TABLE
  .preview <table> [n] preview first n rows (default 50)
  .quit                exit
SQL:
  Type any SQL and press Enter.
.fk [table]          list foreign keys (defaults to current table)
.goto <table>        jump to referenced table name
.find <pattern>      filter tables by substring (case-insensitive)
.exportcsv <path> <SELECT ...>
                     run a SELECT and write results to CSV
.ui                   open interactive UI (arrow keys to navigate, Enter to preview, D to show DDL, F for FKs, Q to quit)
";

/// The answer to a command that is not known.
pub const UNKNOWN: &'static str = "Unknown meta. Try .help\n";

/// The number of rows that a preview shows unless told otherwise.
pub const PREVIEW_ROWS: usize = 50;

/// What a command asks for.
#[derive(Debug, PartialEq, Eq)]
pub enum Action {
    /// Print the text.
    Print(String),
    /// Open the database in the file of that path and send it the setup.
    Open { path: String, setup: String },
    /// List the tables.
    ListTables { statement: Statement },
    /// Show the definition of a table.
    ShowDdl { statement: Statement },
    /// Show the first rows of the table.
    Preview { table: String, statement: Statement },
    /// List the foreign keys of the table.
    ShowKeys { table: String, statement: Statement },
    /// List the tables whose names hold the pattern, which is in lower case.
    Find { pattern: String, statement: Statement },
    /// Write the rows to the file of that path.
    Export { path: String, statement: Statement },
    /// Start the navigator on the tables.
    Ui { statement: Statement },
    /// Leave the program.
    Quit,
}

/// An action with its texts as sequences of characters.
pub enum ActionView {
    Print(Seq<char>),
    Open { path: Seq<char>, setup: Seq<char> },
    ListTables { statement: StatementView },
    ShowDdl { statement: StatementView },
    Preview { table: Seq<char>, statement: StatementView },
    ShowKeys { table: Seq<char>, statement: StatementView },
    Find { pattern: Seq<char>, statement: StatementView },
    Export { path: Seq<char>, statement: StatementView },
    Ui { statement: StatementView },
    Quit,
}

impl View for Action {
    type V = ActionView;

    open spec fn view(&self) -> ActionView {
        match *self {
            Action::Print(text) => ActionView::Print(text@),
            Action::Open { path, setup } => ActionView::Open { path: path@, setup: setup@ },
            Action::ListTables { statement } => ActionView::ListTables { statement: statement@ },
            Action::ShowDdl { statement } => ActionView::ShowDdl { statement: statement@ },
            Action::Preview { table, statement } => ActionView::Preview {
                table: table@,
                statement: statement@,
            },
            Action::ShowKeys { table, statement } => ActionView::ShowKeys {
                table: table@,
                statement: statement@,
            },
            Action::Find { pattern, statement } => ActionView::Find {
                pattern: pattern@,
                statement: statement@,
            },
            Action::Export { path, statement } => ActionView::Export {
                path: path@,
                statement: statement@,
            },
            Action::Ui { statement } => ActionView::Ui { statement: statement@ },
            Action::Quit => ActionView::Quit,
        }
    }
}

/// An action for which a database has to be open.
pub open spec fn with_db(db: DbView, action: ActionView) -> Result<ActionView, FailureView> {
    if db.connected {
        Ok(action)
    } else {
        Err(FailureView::NoDb)
    }
}

/// The number of rows that a `.preview` with the given words shows.
pub open spec fn preview_count(w: Seq<Seq<char>>) -> nat {
    if w.len() > 2 && number_in(w[2]) is Some {
        number_in(w[2])->0
    } else {
        PREVIEW_ROWS as nat
    }
}

/// What a `.fk` with the given words asks for: the foreign keys of the table that it names, or
/// else of the selected one.
pub open spec fn keys_action(db: DbView, w: Seq<Seq<char>>) -> Result<ActionView, FailureView> {
    if w.len() > 1 {
        with_db(db, ActionView::ShowKeys { table: w[1], statement: keys_query(w[1]) })
    } else if db.table is Some {
        with_db(
            db,
            ActionView::ShowKeys { table: db.table->0, statement: keys_query(db.table->0) },
        )
    } else {
        Err(FailureView::NoTable)
    }
}

/// What an `.exportcsv` asks for: the query is all that follows the path, as it was typed.
pub open spec fn export_action(db: DbView, line: Seq<char>) -> Result<ActionView, FailureView> {
    let w = words(line);
    let sql = behind_words(line, 2);
    if w.len() < 2 {
        Err(FailureView::Usage(Verb::ExportCsv))
    } else if sql.len() == 0 {
        Err(FailureView::NoQuery)
    } else if !db.connected {
        Err(FailureView::NoDb)
    } else {
        match export_for(sql, selects(sql)) {
            Ok(statement) => Ok(ActionView::Export { path: w[1], statement }),
            Err(failure) => Err(failure),
        }
    }
}

/// What a command asks for.
pub open spec fn meta_action(db: DbView, line: Seq<char>) -> Result<ActionView, FailureView> {
    let w = words(line);
    if w.len() == 0 {
        Ok(ActionView::Print(UNKNOWN@))
    } else if w[0] == ".help"@ {
        Ok(ActionView::Print(HELP@))
    } else if w[0] == ".open"@ {
        if w.len() < 2 {
            Err(FailureView::Usage(Verb::Open))
        } else {
            Ok(ActionView::Open { path: w[1], setup: FOREIGN_KEYS_ON@ })
        }
    } else if w[0] == ".ls"@ {
        with_db(db, ActionView::ListTables { statement: tables_query() })
    } else if w[0] == ".ddl"@ {
        if w.len() < 2 {
            Err(FailureView::Usage(Verb::Ddl))
        } else {
            with_db(db, ActionView::ShowDdl { statement: ddl_query(w[1]) })
        }
    } else if w[0] == ".preview"@ {
        if w.len() < 2 {
            Err(FailureView::Usage(Verb::Preview))
        } else {
            with_db(
                db,
                ActionView::Preview {
                    table: w[1],
                    statement: preview_query(w[1], preview_count(w)),
                },
            )
        }
    } else if w[0] == ".fk"@ {
        keys_action(db, w)
    } else if w[0] == ".goto"@ {
        if w.len() < 2 {
            Err(FailureView::Usage(Verb::Goto))
        } else {
            Ok(ActionView::Print("table: "@ + w[1] + seq!['\n']))
        }
    } else if w[0] == ".find"@ {
        if w.len() < 2 {
            Err(FailureView::Usage(Verb::Find))
        } else {
            with_db(db, ActionView::Find { pattern: lower(w[1]), statement: tables_query() })
        }
    } else if w[0] == ".exportcsv"@ {
        export_action(db, line)
    } else if w[0] == ".ui"@ {
        with_db(db, ActionView::Ui { statement: tables_query() })
    } else if w[0] == ".quit"@ || w[0] == ".q"@ || w[0] == ".exit"@ {
        Ok(ActionView::Quit)
    } else {
        Ok(ActionView::Print(UNKNOWN@))
    }
}

/// The session right after a command was understood: `.goto` selects its table, the other
/// commands change nothing yet.
pub open spec fn meta_session(db: DbView, line: Seq<char>) -> DbView {
    let w = words(line);
    if w.len() > 1 && w[0] == ".goto"@ {
        DbView { connected: db.connected, table: Some(w[1]) }
    } else {
        db
    }
}

/// Whether `r` is the outcome that the model says.
pub open spec fn is_action(
    r: Result<Action, Failure>,
    model: Result<ActionView, FailureView>,
) -> bool {
    match model {
        Ok(action) => r is Ok && r->Ok_0@ == action,
        Err(failure) => r is Err && r->Err_0@ == failure,
    }
}

/// None of the other commands is mistaken for `.goto`.
proof fn lemma_goto_is_itself()
    ensures
        ".goto"@ != ".help"@,
        ".goto"@ != ".open"@,
        ".goto"@ != ".ls"@,
        ".goto"@ != ".ddl"@,
        ".goto"@ != ".preview"@,
        ".goto"@ != ".fk"@,
{
    reveal_strlit(".goto");
    reveal_strlit(".help");
    reveal_strlit(".open");
    reveal_strlit(".ls");
    reveal_strlit(".ddl");
    reveal_strlit(".preview");
    reveal_strlit(".fk");
    assert(".goto"@[1] != ".help"@[1]);
    assert(".goto"@[1] != ".open"@[1]);
}

/// None of the commands that are looked for earlier is mistaken for `.exportcsv`.
proof fn lemma_export_is_itself()
    ensures
        ".exportcsv"@ != ".help"@,
        ".exportcsv"@ != ".open"@,
        ".exportcsv"@ != ".ls"@,
        ".exportcsv"@ != ".ddl"@,
        ".exportcsv"@ != ".preview"@,
        ".exportcsv"@ != ".fk"@,
        ".exportcsv"@ != ".goto"@,
        ".exportcsv"@ != ".find"@,
{
    reveal_strlit(".exportcsv");
    reveal_strlit(".help");
    reveal_strlit(".open");
    reveal_strlit(".ls");
    reveal_strlit(".ddl");
    reveal_strlit(".preview");
    reveal_strlit(".fk");
    reveal_strlit(".goto");
    reveal_strlit(".find");
    assert(".exportcsv"@.len() == 10);
}

/// Understands a `.fk` with the given words.
fn handle_keys(db: &DB, parts: &Vec<String>) -> (r: Result<Action, Failure>)
    ensures
        is_action(r, keys_action(db@, parts.deep_view())),
{
    let table = if parts.len() > 1 {
        parts[1].clone()
    } else {
        match &db.table {
            Some(table) => table.clone(),
            None => return Err(Failure::NoTable),
        }
    };
    let statement = db.foreign_keys(table.as_str())?;
    Ok(Action::ShowKeys { table, statement })
}

/// Understands an `.exportcsv` with the given words.
fn handle_export(db: &DB, line: &str, parts: &Vec<String>) -> (r: Result<Action, Failure>)
    requires
        parts.deep_view() == words(line@),
    ensures
        is_action(r, export_action(db@, line@)),
{
    if parts.len() < 2 {
        return Err(Failure::Usage(Verb::ExportCsv));
    }
    let rest = rest_behind(line, 2);
    if rest.as_str().is_empty() {
        return Err(Failure::NoQuery);
    }
    proof {
        law_behind_words(line@, 2);
        assert(words(line@)[1] == parts@[1]@);
    }
    let statement = db.select(rest.as_str())?;
    Ok(Action::Export { path: parts[1].clone(), statement })
}

/// Understands a `.preview` with the given words, of which there are two or more.
fn handle_preview(db: &DB, parts: &Vec<String>) -> (r: Result<Action, Failure>)
    requires
        parts@.len() >= 2,
    ensures
        is_action(
            r,
            with_db(
                db@,
                ActionView::Preview {
                    table: parts@[1]@,
                    statement: preview_query(parts@[1]@, preview_count(parts.deep_view())),
                },
            ),
        ),
{
    let n: usize = if parts.len() > 2 {
        match parse_count(parts[2].as_str()) {
            Some(n) => n,
            None => PREVIEW_ROWS,
        }
    } else {
        PREVIEW_ROWS
    };
    let statement = db.preview(parts[1].as_str(), n)?;
    Ok(Action::Preview { table: parts[1].clone(), statement })
}

/// Understands a command: says what it asks for, or why it is refused.
pub fn handle_meta(db: &mut DB, line: &str) -> (r: Result<Action, Failure>)
    ensures
        is_action(r, meta_action(old(db)@, line@)),
        final(db)@ == meta_session(old(db)@, line@),
{
    let parts = split_words(line);
    let ghost w = parts.deep_view();
    proof {
        lemma_goto_is_itself();
    }
    if parts.len() == 0 {
        return Ok(Action::Print(UNKNOWN.to_owned()));
    }
    assert(w[0] == parts@[0]@);
    let cmd = parts[0].as_str();
    if same(cmd, ".help") {
        Ok(Action::Print(HELP.to_owned()))
    } else if same(cmd, ".open") {
        if parts.len() < 2 {
            return Err(Failure::Usage(Verb::Open));
        }
        Ok(Action::Open { path: parts[1].clone(), setup: FOREIGN_KEYS_ON.to_owned() })
    } else if same(cmd, ".ls") {
        let statement = db.list_tables()?;
        Ok(Action::ListTables { statement })
    } else if same(cmd, ".ddl") {
        if parts.len() < 2 {
            return Err(Failure::Usage(Verb::Ddl));
        }
        let statement = db.ddl(parts[1].as_str())?;
        Ok(Action::ShowDdl { statement })
    } else if same(cmd, ".preview") {
        if parts.len() < 2 {
            return Err(Failure::Usage(Verb::Preview));
        }
        handle_preview(db, &parts)
    } else if same(cmd, ".fk") {
        handle_keys(db, &parts)
    } else if same(cmd, ".goto") {
        if parts.len() < 2 {
            return Err(Failure::Usage(Verb::Goto));
        }
        db.table = Some(parts[1].clone());
        let mut out = "table: ".to_owned();
        out.append(parts[1].as_str());
        out.push('\n');
        assert(out@ =~= "table: "@ + w[1] + seq!['\n']);
        Ok(Action::Print(out))
    } else if same(cmd, ".find") {
        if parts.len() < 2 {
            return Err(Failure::Usage(Verb::Find));
        }
        let pattern = lower_text(parts[1].as_str());
        let statement = db.list_tables()?;
        Ok(Action::Find { pattern, statement })
    } else if same(cmd, ".exportcsv") {
        handle_export(db, line, &parts)
    } else if same(cmd, ".ui") {
        let statement = db.list_tables()?;
        Ok(Action::Ui { statement })
    } else if same(cmd, ".quit") || same(cmd, ".q") || same(cmd, ".exit") {
        Ok(Action::Quit)
    } else {
        Ok(Action::Print(UNKNOWN.to_owned()))
    }
}

/// How an attempt to save an export ended.
#[derive(Debug, PartialEq, Eq)]
pub enum Saving {
    /// The file could not be created, for the reason in this message.
    NotCreated(String),
    /// The file was created but not written in full.
    Failed(String),
    Saved,
}

/// Whether `r` is what the model says is to be printed.
pub open spec fn told(
    r: Result<String, Failure>,
    model: Result<Seq<char>, FailureView>,
) -> bool {
    match model {
        Ok(text) => r is Ok && r->Ok_0@ == text,
        Err(failure) => r is Err && r->Err_0@ == failure,
    }
}

/// What an `.open` ends with.
pub open spec fn open_answer(path: Seq<char>, outcome: Opening) -> Result<Seq<char>, FailureView> {
    match outcome {
        Opening::Refused(cause) => Err(FailureView::CannotOpen { cause: cause@ }),
        Opening::Faulty(message) => Err(FailureView::Outside(message@)),
        Opening::Ready => Ok("Opened "@ + path + seq!['\n']),
    }
}

/// The session after an `.open`.
pub open spec fn session_after_open(db: DbView, outcome: Opening) -> DbView {
    if outcome is Ready {
        DbView { connected: true, table: None }
    } else {
        after_opening(db, outcome)
    }
}

/// What an `.ls` ends with.
pub open spec fn list_answer(answer: Result<Vec<Result<String, String>>, String>) -> Result<
    Seq<char>,
    FailureView,
> {
    match names_in(answer) {
        Ok(names) => Ok(list_report(names, "<no tables>"@)),
        Err(failure) => Err(failure),
    }
}

/// What a `.find` ends with.
pub open spec fn find_answer(
    pattern: Seq<char>,
    answer: Result<Vec<Result<String, String>>, String>,
) -> Result<Seq<char>, FailureView> {
    match names_in(answer) {
        Ok(names) => Ok(list_report(found(names, pattern), "(no matches)"@)),
        Err(failure) => Err(failure),
    }
}

/// What a `.ddl` ends with.
pub open spec fn ddl_answer(
    answer: Result<Option<Result<Option<String>, String>>, String>,
) -> Result<Seq<char>, FailureView> {
    match ddl_in(answer) {
        Ok(ddl) => Ok(ddl_report(ddl)),
        Err(failure) => Err(failure),
    }
}

/// What a `.fk` ends with.
pub open spec fn keys_answer(
    table: Seq<char>,
    answer: Result<Vec<Result<KeyRow, String>>, String>,
) -> Result<Seq<char>, FailureView> {
    match keys_in(answer) {
        Ok(keys) => Ok(keys_report(table, keys)),
        Err(failure) => Err(failure),
    }
}

/// What a `.preview` ends with.
pub open spec fn preview_answer(answer: Result<Answer, String>) -> Result<Seq<char>, FailureView> {
    match rows_in(answer) {
        Ok((cols, rows)) => Ok(result_report(ResultView::Rows { cols, rows })),
        Err(failure) => Err(failure),
    }
}

/// The session after a `.preview`.
pub open spec fn session_after_preview(
    db: DbView,
    table: Seq<char>,
    answer: Result<Answer, String>,
) -> DbView {
    if rows_in(answer) is Ok {
        DbView { connected: db.connected, table: Some(table) }
    } else {
        db
    }
}

/// The text of the file of an `.exportcsv`, and the number of rows in it.
pub open spec fn export_content(answer: Result<Answer, String>) -> Result<
    (Seq<char>, nat),
    FailureView,
> {
    match rows_in(answer) {
        Ok((cols, rows)) => Ok((csv_form(cols, rows), rows.len())),
        Err(failure) => Err(failure),
    }
}

/// What an `.exportcsv` ends with.
pub open spec fn export_answer(path: Seq<char>, n: nat, outcome: Saving) -> Result<
    Seq<char>,
    FailureView,
> {
    match outcome {
        Saving::NotCreated(cause) => Err(FailureView::CannotCreate { path, cause: cause@ }),
        Saving::Failed(message) => Err(FailureView::Outside(message@)),
        Saving::Saved => Ok(export_report(path, n)),
    }
}

/// Ends an `.open`: says so and forgets the selected table where the database is open.
pub fn finish_open(db: &mut DB, path: &str, outcome: Opening) -> (r: Result<String, Failure>)
    ensures
        final(db)@.connected == (old(db)@.connected || !(outcome is Refused)),
        match outcome {
            Opening::Refused(cause) => r is Err && r->Err_0@ == (FailureView::CannotOpen {
                cause: cause@,
            }),
            Opening::Faulty(message) => r is Err && r->Err_0@ == FailureView::Outside(message@),
            Opening::Ready => r is Ok && r->Ok_0@ == "Opened "@ + path@ + seq!['\n'],
        },
        final(db)@.table == if outcome is Ready {
            None
        } else {
            old(db)@.table
        },
        told(r, open_answer(path@, outcome)),
        final(db)@ == session_after_open(old(db)@, outcome),
{
    db.open(outcome)?;
    db.table = None;
    let mut out = "Opened ".to_owned();
    out.append(path);
    out.push('\n');
    assert(out@ =~= "Opened "@ + path@ + seq!['\n']);
    Ok(out)
}

/// Ends an `.ls`.
pub fn finish_list(answer: Result<Vec<Result<String, String>>, String>) -> (r: Result<
    String,
    Failure,
>)
    ensures
        match names_in(answer) {
            Ok(names) => r is Ok && r->Ok_0@ == list_report(names, "<no tables>"@),
            Err(failure) => r is Err && r->Err_0@ == failure,
        },
        told(r, list_answer(answer)),
{
    let names = read_names(answer)?;
    Ok(report_tables(&names))
}

/// Ends a `.ddl`.
pub fn finish_ddl(answer: Result<Option<Result<Option<String>, String>>, String>) -> (r: Result<
    String,
    Failure,
>)
    ensures
        match ddl_in(answer) {
            Ok(ddl) => r is Ok && r->Ok_0@ == ddl_report(ddl),
            Err(failure) => r is Err && r->Err_0@ == failure,
        },
        told(r, ddl_answer(answer)),
{
    let ddl = read_ddl(answer)?;
    Ok(report_ddl(&ddl))
}

/// Ends a `.preview`: selects the table where its rows could be read.
pub fn finish_preview(db: &mut DB, table: &str, answer: Result<Answer, String>) -> (r: Result<
    String,
    Failure,
>)
    ensures
        final(db)@.connected == old(db)@.connected,
        match rows_in(answer) {
            Ok((cols, rows)) => {
                &&& r is Ok
                &&& r->Ok_0@ == result_report(ResultView::Rows { cols, rows })
                &&& final(db)@.table == Some(table@)
            },
            Err(failure) => {
                &&& r is Err
                &&& r->Err_0@ == failure
                &&& final(db)@.table == old(db)@.table
            },
        },
        told(r, preview_answer(answer)),
        final(db)@ == session_after_preview(old(db)@, table@, answer),
{
    let result = rows_result(answer)?;
    let out = print_result(&result);
    db.table = Some(table.to_owned());
    Ok(out)
}

/// Ends a `.fk`.
pub fn finish_keys(
    table: &str,
    answer: Result<Vec<Result<KeyRow, String>>, String>,
) -> (r: Result<String, Failure>)
    ensures
        match keys_in(answer) {
            Ok(keys) => r is Ok && r->Ok_0@ == keys_report(table@, keys),
            Err(failure) => r is Err && r->Err_0@ == failure,
        },
        told(r, keys_answer(table@, answer)),
{
    let keys = read_keys(answer)?;
    Ok(report_keys(table, &keys))
}

/// Ends a `.find` with the given pattern.
pub fn finish_find(
    pattern: &str,
    answer: Result<Vec<Result<String, String>>, String>,
) -> (r: Result<String, Failure>)
    ensures
        match names_in(answer) {
            Ok(names) => r is Ok && r->Ok_0@ == list_report(
                found(names, pattern@),
                "(no matches)"@,
            ),
            Err(failure) => r is Err && r->Err_0@ == failure,
        },
        told(r, find_answer(pattern@, answer)),
{
    let names = read_names(answer)?;
    Ok(report_hits(&find_tables(&names, pattern)))
}

/// Prepares an `.exportcsv`: gives the text of the file and the number of rows in it.
pub fn prepare_export(answer: Result<Answer, String>) -> (r: Result<(String, usize), Failure>)
    ensures
        match rows_in(answer) {
            Ok((cols, rows)) => r is Ok && r->Ok_0.0@ == csv_form(cols, rows) && r->Ok_0.1
                == rows.len(),
            Err(failure) => r is Err && r->Err_0@ == failure,
        },
        match export_content(answer) {
            Ok((text, n)) => r is Ok && r->Ok_0.0@ == text && r->Ok_0.1 == n,
            Err(failure) => r is Err && r->Err_0@ == failure,
        },
{
    let (cols, rows) = read_rows(answer)?;
    Ok((write_csv(&cols, &rows), rows.len()))
}

/// Ends an `.exportcsv` of `n` rows.
pub fn finish_export(path: &str, n: usize, outcome: Saving) -> (r: Result<String, Failure>)
    ensures
        match outcome {
            Saving::NotCreated(cause) => r is Err && r->Err_0@ == (FailureView::CannotCreate {
                path: path@,
                cause: cause@,
            }),
            Saving::Failed(message) => r is Err && r->Err_0@ == FailureView::Outside(message@),
            Saving::Saved => r is Ok && r->Ok_0@ == export_report(path@, n as nat),
        },
        told(r, export_answer(path@, n as nat, outcome)),
{
    match outcome {
        Saving::NotCreated(cause) => Err(Failure::CannotCreate { path: path.to_owned(), cause }),
        Saving::Failed(message) => Err(Failure::Outside(message)),
        Saving::Saved => Ok(report_export(path, n)),
    }
}

/// Without a database nothing is sent: a command is refused, prints something, opens a
/// database or leaves.
pub proof fn law_nothing_is_sent_without_db(db: DbView, line: Seq<char>)
    requires
        !db.connected,
    ensures
        meta_action(db, line) is Ok ==> {
            let action = meta_action(db, line)->Ok_0;
            action is Print || action is Open || action is Quit
        },
{
}

/// A command that is refused leaves the session as it was, and no command by itself opens or
/// closes a database.
pub proof fn law_refused_commands_change_nothing(db: DbView, line: Seq<char>)
    ensures
        meta_action(db, line) is Err ==> meta_session(db, line) == db,
        meta_session(db, line).connected == db.connected,
{
    lemma_goto_is_itself();
}

/// `.fk` without a table is about the selected one, just as if that one was named, and is
/// refused where none is selected.
pub proof fn law_fk_is_about_the_selected_table(
    db: DbView,
    line: Seq<char>,
    named_line: Seq<char>,
)
    requires
        words(line) == seq![".fk"@],
        db.table is Some ==> words(named_line) == seq![".fk"@, db.table->0],
    ensures
        db.table is None ==> meta_action(db, line) == Err::<ActionView, FailureView>(
            FailureView::NoTable,
        ),
        db.table is Some ==> meta_action(db, line) == meta_action(db, named_line),
        db.table is Some && db.connected ==> meta_action(db, line) == Ok::<
            ActionView,
            FailureView,
        >(ActionView::ShowKeys { table: db.table->0, statement: keys_query(db.table->0) }),
{
    reveal_strlit(".fk");
    reveal_strlit(".help");
    reveal_strlit(".open");
    reveal_strlit(".ls");
    reveal_strlit(".ddl");
    reveal_strlit(".preview");
    assert(".fk"@[1] != ".ls"@[1]);
}

/// After `.goto` with a table, `.fk` without one asks for the foreign keys of that table.
pub proof fn law_goto_selects_for_fk(db: DbView, goto_line: Seq<char>, fk_line: Seq<char>)
    requires
        db.connected,
        words(goto_line).len() >= 2,
        words(goto_line)[0] == ".goto"@,
        words(fk_line) == seq![".fk"@],
    ensures
        meta_action(meta_session(db, goto_line), fk_line) == Ok::<ActionView, FailureView>(
            ActionView::ShowKeys {
                table: words(goto_line)[1],
                statement: keys_query(words(goto_line)[1]),
            },
        ),
{
    let table = words(goto_line)[1];
    let named = joined(seq![".fk"@, table], seq![' ']);
    law_words_are_words(goto_line);
    reveal_strlit(".fk");
    assert(is_word(table));
    assert(is_word(".fk"@));
    law_joined_words(seq![".fk"@, table]);
    law_fk_is_about_the_selected_table(meta_session(db, goto_line), fk_line, named);
}

/// An export sends the query as it was typed behind the path: the words that follow the path
/// and whatever white space stands between them, without that at the ends. It is missing
/// exactly when nothing follows the path.
pub proof fn law_export_query_is_what_was_typed(db: DbView, line: Seq<char>)
    requires
        words(line).len() >= 2,
        words(line)[0] == ".exportcsv"@,
    ensures
        ({
            let q = behind_words(line, 2);
            &&& words(q) == words(line).skip(2)
            &&& trimmed(q) == q
            &&& exists|k: int|
                0 <= k <= trimmed(line).len() && q == #[trigger] trimmed(line).skip(k)
            &&& q.len() == 0 <==> words(line).len() == 2
            &&& q.len() == 0 ==> meta_action(db, line) == Err::<ActionView, FailureView>(
                FailureView::NoQuery,
            )
            &&& q.len() > 0 && db.connected && selects(q) ==> meta_action(db, line) == Ok::<
                ActionView,
                FailureView,
            >(
                ActionView::Export {
                    path: words(line)[1],
                    statement: StatementView::Query { sql: q, param: None },
                },
            )
        }),
{
    law_behind_words(line, 2);
    lemma_export_is_itself();
}

/// A preview shows as many rows as it is told to, whatever table it is of.
pub proof fn law_preview_count_is_taken(w: Seq<Seq<char>>, n: usize)
    requires
        w.len() > 2,
        w[2] == decimal(n as nat),
    ensures
        preview_count(w) == n,
{
    law_count_round_trip(n);
}

/// The length and the first letter tell the commands apart.
proof fn lemma_commands()
    ensures
        ".help"@.len() == 5 && ".help"@[1] == 'h',
        ".open"@.len() == 5 && ".open"@[1] == 'o',
        ".ls"@.len() == 3 && ".ls"@[1] == 'l',
        ".ddl"@.len() == 4 && ".ddl"@[1] == 'd',
        ".preview"@.len() == 8 && ".preview"@[1] == 'p',
        ".fk"@.len() == 3 && ".fk"@[1] == 'f',
        ".goto"@.len() == 5 && ".goto"@[1] == 'g',
        ".find"@.len() == 5 && ".find"@[1] == 'f',
        ".exportcsv"@.len() == 10 && ".exportcsv"@[1] == 'e',
        ".ui"@.len() == 3 && ".ui"@[1] == 'u',
        ".quit"@.len() == 5 && ".quit"@[1] == 'q',
        ".q"@.len() == 2 && ".q"@[1] == 'q',
        ".exit"@.len() == 5 && ".exit"@[1] == 'e',
{
    reveal_strlit(".help");
    reveal_strlit(".open");
    reveal_strlit(".ls");
    reveal_strlit(".ddl");
    reveal_strlit(".preview");
    reveal_strlit(".fk");
    reveal_strlit(".goto");
    reveal_strlit(".find");
    reveal_strlit(".exportcsv");
    reveal_strlit(".ui");
    reveal_strlit(".quit");
    reveal_strlit(".q");
    reveal_strlit(".exit");
}

/// Whether the first word of a line is `cmd`.
pub open spec fn is_line_of(line: Seq<char>, cmd: Seq<char>) -> bool {
    words(line).len() > 0 && words(line)[0] == cmd
}

/// `.ddl` with a table asks for the definition of the table that is named by the second word,
/// whatever follows.
pub proof fn law_ddl_is_about_the_named_table(db: DbView, line: Seq<char>)
    requires
        db.connected,
        is_line_of(line, ".ddl"@),
        words(line).len() >= 2,
    ensures
        meta_action(db, line) == Ok::<ActionView, FailureView>(
            ActionView::ShowDdl {
                statement: StatementView::Query {
                    sql: "SELECT sql FROM sqlite_master WHERE type='table' AND name=?1"@,
                    param: Some(words(line)[1]),
                },
            },
        ),
{
    lemma_commands();
}

/// `.open` with a path opens the file of that path, which is the second word, and turns the
/// checking of foreign keys on; it needs no database that is open already.
pub proof fn law_open_is_about_the_named_file(db: DbView, line: Seq<char>)
    requires
        is_line_of(line, ".open"@),
        words(line).len() >= 2,
    ensures
        meta_action(db, line) == Ok::<ActionView, FailureView>(
            ActionView::Open { path: words(line)[1], setup: "PRAGMA foreign_keys = ON;"@ },
        ),
{
    lemma_commands();
}

/// `.ls` asks for the names of all tables in order, whatever follows.
pub proof fn law_ls_asks_for_all_tables(db: DbView, line: Seq<char>)
    requires
        db.connected,
        is_line_of(line, ".ls"@),
    ensures
        meta_action(db, line) == Ok::<ActionView, FailureView>(
            ActionView::ListTables {
                statement: StatementView::Query {
                    sql: "SELECT name FROM sqlite_master WHERE type='table' ORDER BY name"@,
                    param: None,
                },
            },
        ),
{
    lemma_commands();
}

/// `.ui` starts the navigator on all tables, whatever follows.
pub proof fn law_ui_asks_for_all_tables(db: DbView, line: Seq<char>)
    requires
        db.connected,
        is_line_of(line, ".ui"@),
    ensures
        meta_action(db, line) == Ok::<ActionView, FailureView>(
            ActionView::Ui {
                statement: StatementView::Query {
                    sql: "SELECT name FROM sqlite_master WHERE type='table' ORDER BY name"@,
                    param: None,
                },
            },
        ),
{
    lemma_commands();
}

/// `.find` looks through all tables for its second word in lower case. So two lines whose
/// second words are the same but for case ask for the same.
pub proof fn law_find_is_about_the_named_pattern(db: DbView, line: Seq<char>, other: Seq<char>)
    requires
        db.connected,
        is_line_of(line, ".find"@),
        words(line).len() >= 2,
        is_line_of(other, ".find"@),
        words(other).len() >= 2,
    ensures
        meta_action(db, line) == Ok::<ActionView, FailureView>(
            ActionView::Find {
                pattern: lower(words(line)[1]),
                statement: StatementView::Query {
                    sql: "SELECT name FROM sqlite_master WHERE type='table' ORDER BY name"@,
                    param: None,
                },
            },
        ),
        same_but_case(words(line)[1], words(other)[1]) ==> meta_action(db, line) == meta_action(
            db,
            other,
        ),
{
    lemma_commands();
    if same_but_case(words(line)[1], words(other)[1]) {
        law_case_does_not_count(words(line)[1], words(other)[1], seq![], seq![]);
    }
}

/// `.preview` asks for rows of the table that its second word names: as many as the third word
/// says, and fifty where there is none or it is no number.
pub proof fn law_preview_is_about_the_named_table(db: DbView, line: Seq<char>)
    requires
        db.connected,
        is_line_of(line, ".preview"@),
        words(line).len() >= 2,
    ensures
        ({
            let w = words(line);
            let n = if w.len() > 2 && number_in(w[2]) is Some {
                number_in(w[2])->0
            } else {
                50
            };
            let action = meta_action(db, line)->Ok_0;
            &&& meta_action(db, line) is Ok
            &&& action is Preview
            &&& action->Preview_table == w[1]
            &&& action->Preview_statement is Query
            &&& action->Preview_statement->param is None
            &&& action->Preview_statement->Query_sql.len() > 15
            &&& action->Preview_statement->Query_sql.take(15) == "SELECT * FROM \""@
            &&& read_quoted(action->Preview_statement->Query_sql.skip(15)) == Some(
                (w[1], " LIMIT "@ + decimal(n)),
            )
        }),
{
    lemma_commands();
    let table = words(line)[1];
    let n = preview_count(words(line));
    law_preview_names_the_table(table, n);
    reveal_strlit("SELECT * FROM ");
    reveal_strlit("SELECT * FROM \"");
    let sql = preview_sql(table, n);
    assert forall|i: int| 0 <= i < 14 implies sql[i] == #[trigger] "SELECT * FROM "@[i] by {
        assert(sql.take(14)[i] == "SELECT * FROM "@[i]);
    }
    assert(sql.take(15) =~= "SELECT * FROM \""@);
}

/// `.fk` with a table asks for the foreign keys of the table that is named by the second word,
/// whatever table is selected.
pub proof fn law_fk_is_about_the_named_table(db: DbView, line: Seq<char>)
    requires
        db.connected,
        is_line_of(line, ".fk"@),
        words(line).len() >= 2,
    ensures
        ({
            let action = meta_action(db, line)->Ok_0;
            &&& meta_action(db, line) is Ok
            &&& action is ShowKeys
            &&& action->ShowKeys_table == words(line)[1]
            &&& action->ShowKeys_statement is Query
            &&& action->ShowKeys_statement->param is None
            &&& action->ShowKeys_statement->Query_sql.len() > 25
            &&& action->ShowKeys_statement->Query_sql.take(25) == "PRAGMA foreign_key_list(\""@
            &&& read_quoted(action->ShowKeys_statement->Query_sql.skip(25)) == Some(
                (words(line)[1], ")"@),
            )
        }),
{
    lemma_commands();
    let table = words(line)[1];
    law_keys_query_names_the_table(table);
    reveal_strlit("PRAGMA foreign_key_list(");
    reveal_strlit("PRAGMA foreign_key_list(\"");
    let sql = keys_query(table)->Query_sql;
    assert forall|i: int| 0 <= i < 24 implies sql[i]
        == #[trigger] "PRAGMA foreign_key_list("@[i] by {
        assert(sql.take(24)[i] == "PRAGMA foreign_key_list("@[i]);
    }
    assert(sql.take(25) =~= "PRAGMA foreign_key_list(\""@);
}

/// `.goto` with a table selects the table that is named by the second word and says so, with
/// or without a database.
pub proof fn law_goto_selects_the_named_table(db: DbView, line: Seq<char>)
    requires
        is_line_of(line, ".goto"@),
        words(line).len() >= 2,
    ensures
        meta_action(db, line) == Ok::<ActionView, FailureView>(
            ActionView::Print("table: "@ + words(line)[1] + seq!['\n']),
        ),
        meta_session(db, line).table == Some(words(line)[1]),
{
    lemma_commands();
}

/// No other command selects a table by itself.
pub proof fn law_only_goto_selects(db: DbView, line: Seq<char>)
    requires
        !is_line_of(line, ".goto"@),
    ensures
        meta_session(db, line) == db,
{
}

/// `.quit`, `.q` and `.exit` leave the program, with or without a database and whatever follows,
/// and nothing else does.
pub proof fn law_quitting(db: DbView, line: Seq<char>)
    ensures
        meta_action(db, line) == Ok::<ActionView, FailureView>(ActionView::Quit) <==> is_line_of(
            line,
            ".quit"@,
        ) || is_line_of(line, ".q"@) || is_line_of(line, ".exit"@),
{
    lemma_commands();
}

/// `.help` prints the help, with or without a database and whatever follows.
pub proof fn law_helping(db: DbView, line: Seq<char>)
    requires
        is_line_of(line, ".help"@),
    ensures
        meta_action(db, line) == Ok::<ActionView, FailureView>(ActionView::Print(HELP@)),
{
}

/// A line that starts with no command is answered with a hint, and so is a line without words.
pub proof fn law_unknown_commands(db: DbView, line: Seq<char>)
    requires
        words(line).len() == 0 || {
            &&& words(line)[0] != ".help"@
            &&& words(line)[0] != ".open"@
            &&& words(line)[0] != ".ls"@
            &&& words(line)[0] != ".ddl"@
            &&& words(line)[0] != ".preview"@
            &&& words(line)[0] != ".fk"@
            &&& words(line)[0] != ".goto"@
            &&& words(line)[0] != ".find"@
            &&& words(line)[0] != ".exportcsv"@
            &&& words(line)[0] != ".ui"@
            &&& words(line)[0] != ".quit"@
            &&& words(line)[0] != ".q"@
            &&& words(line)[0] != ".exit"@
        },
    ensures
        meta_action(db, line) == Ok::<ActionView, FailureView>(
            ActionView::Print("Unknown meta. Try .help\n"@),
        ),
{
}

/// A command that lacks its argument is refused with its usage, with or without a database, and
/// one that has it is not.
pub proof fn law_arguments_are_asked_for(db: DbView, line: Seq<char>, cmd: Seq<char>, verb: Verb)
    requires
        is_line_of(line, cmd),
        match verb {
            Verb::Open => cmd == ".open"@,
            Verb::Ddl => cmd == ".ddl"@,
            Verb::Preview => cmd == ".preview"@,
            Verb::Goto => cmd == ".goto"@,
            Verb::Find => cmd == ".find"@,
            Verb::ExportCsv => cmd == ".exportcsv"@,
        },
    ensures
        meta_action(db, line) == Err::<ActionView, FailureView>(FailureView::Usage(verb))
            <==> words(line).len() == 1,
{
    lemma_commands();
}

/// Without a database, each command that needs one is refused for that reason, once it has its
/// argument.
pub proof fn law_database_is_asked_for(db: DbView, line: Seq<char>)
    requires
        !db.connected,
        ({
            ||| is_line_of(line, ".ls"@)
            ||| is_line_of(line, ".ui"@)
            ||| words(line).len() >= 2 && {
                ||| is_line_of(line, ".ddl"@)
                ||| is_line_of(line, ".preview"@)
                ||| is_line_of(line, ".fk"@)
                ||| is_line_of(line, ".find"@)
            }
            ||| words(line).len() >= 3 && is_line_of(line, ".exportcsv"@)
        }),
    ensures
        meta_action(db, line) == Err::<ActionView, FailureView>(FailureView::NoDb),
{
    lemma_commands();
    law_behind_words(line, 2);
}

/// An export of what is no `SELECT` is refused.
pub proof fn law_exports_want_a_select(db: DbView, line: Seq<char>)
    requires
        db.connected,
        is_line_of(line, ".exportcsv"@),
        words(line).len() >= 3,
        !selects(behind_words(line, 2)),
    ensures
        meta_action(db, line) == Err::<ActionView, FailureView>(FailureView::NotSelect),
{
    lemma_commands();
    law_behind_words(line, 2);
}

/// Nothing of an action is lost from the view of it.
pub proof fn law_action_is_seen_whole(action: Action)
    ensures
        match action {
            Action::Print(text) => action@ == ActionView::Print(text@),
            Action::Open { path, setup } => action@ == (ActionView::Open {
                path: path@,
                setup: setup@,
            }),
            Action::ListTables { statement } => action@ == (ActionView::ListTables {
                statement: statement@,
            }),
            Action::ShowDdl { statement } => action@ == (ActionView::ShowDdl {
                statement: statement@,
            }),
            Action::Preview { table, statement } => action@ == (ActionView::Preview {
                table: table@,
                statement: statement@,
            }),
            Action::ShowKeys { table, statement } => action@ == (ActionView::ShowKeys {
                table: table@,
                statement: statement@,
            }),
            Action::Find { pattern, statement } => action@ == (ActionView::Find {
                pattern: pattern@,
                statement: statement@,
            }),
            Action::Export { path, statement } => action@ == (ActionView::Export {
                path: path@,
                statement: statement@,
            }),
            Action::Ui { statement } => action@ == (ActionView::Ui { statement: statement@ }),
            Action::Quit => action@ is Quit,
        },
{
}

/// A database that was opened is named by its path, and no table is selected in it. Otherwise
/// the reason is told, and the selected table stays; where the file could not be opened, the
/// whole session stays.
pub proof fn law_opening(db: DbView, path: Seq<char>, message: String)
    ensures
        open_answer(path, Opening::Ready) == Ok::<Seq<char>, FailureView>(
            "Opened "@ + path + seq!['\n'],
        ),
        session_after_open(db, Opening::Ready).connected,
        session_after_open(db, Opening::Ready).table is None,
        open_answer(path, Opening::Refused(message)) == Err::<Seq<char>, FailureView>(
            FailureView::CannotOpen { cause: message@ },
        ),
        session_after_open(db, Opening::Refused(message)) == db,
        open_answer(path, Opening::Faulty(message)) == Err::<Seq<char>, FailureView>(
            FailureView::Outside(message@),
        ),
        session_after_open(db, Opening::Faulty(message)).connected,
        session_after_open(db, Opening::Faulty(message)).table == db.table,
{
}

/// `.ls` prints the name of each table that was fetched, one on a line, in the order in which
/// they came; or that there is none.
pub proof fn law_ls_prints_each_table(items: Vec<Result<String, String>>)
    requires
        forall|i: int| 0 <= i < items@.len() ==> #[trigger] items@[i] is Ok,
    ensures
        items@.len() > 0 ==> list_answer(Ok(items)) == Ok::<Seq<char>, FailureView>(
            joined(Seq::new(items@.len(), |i: int| items@[i]->Ok_0@), seq!['\n']) + seq!['\n'],
        ),
        items@.len() == 0 ==> list_answer(Ok(items)) == Ok::<Seq<char>, FailureView>(
            "<no tables>"@ + seq!['\n'],
        ),
{
    law_all_names_are_read(items);
    let names = names_in(Ok(items))->Ok_0;
    assert(names =~= Seq::new(items@.len(), |i: int| items@[i]->Ok_0@));
    if names.len() > 0 {
        law_list_is_joined_by_line_feeds(names, "<no tables>"@);
    }
}

/// `.find` prints the names among those fetched that hold the pattern, one on a line and in
/// order, each as often as it was fetched; or that there is none.
pub proof fn law_find_prints_each_hit(
    items: Vec<Result<String, String>>,
    pattern: Seq<char>,
    name: Seq<char>,
)
    requires
        forall|i: int| 0 <= i < items@.len() ==> #[trigger] items@[i] is Ok,
    ensures
        ({
            let names = Seq::new(items@.len(), |i: int| items@[i]->Ok_0@);
            let hits = found(names, pattern);
            &&& in_order(hits)
            &&& hits.to_multiset().count(name) == if has_part(lower(name), pattern) {
                names.to_multiset().count(name)
            } else {
                0
            }
            &&& hits.len() > 0 ==> find_answer(pattern, Ok(items)) == Ok::<Seq<char>, FailureView>(
                joined(hits, seq!['\n']) + seq!['\n'],
            )
            &&& hits.len() == 0 ==> find_answer(pattern, Ok(items)) == Ok::<
                Seq<char>,
                FailureView,
            >("(no matches)"@ + seq!['\n'])
        }),
{
    law_all_names_are_read(items);
    let names = names_in(Ok(items))->Ok_0;
    assert(names =~= Seq::new(items@.len(), |i: int| items@[i]->Ok_0@));
    law_found(names, pattern, name);
    law_found_as_often(names, pattern, name);
    if found(names, pattern).len() > 0 {
        law_list_is_joined_by_line_feeds(found(names, pattern), "(no matches)"@);
    }
}

/// `.ddl` prints the definition that was fetched as it is, or that there is none.
pub proof fn law_ddl_prints_the_definition(text: String)
    ensures
        ddl_answer(Ok(Some(Ok(Some(text))))) == Ok::<Seq<char>, FailureView>(text@ + seq!['\n']),
        ddl_answer(Ok(Some(Ok(None)))) == Ok::<Seq<char>, FailureView>("(no ddl)\n"@),
        ddl_answer(Ok(None)) == Ok::<Seq<char>, FailureView>("(no ddl)\n"@),
{
}

/// The cells that tell of a foreign key that was fetched: the column it is on, the table and the
/// column it refers to, and what happens on updates and deletions.
pub open spec fn key_cells(item: Result<KeyRow, String>) -> Seq<Seq<char>> {
    let row = item->Ok_0@;
    seq![
        row[3]->Ok_0@,
        row[2]->Ok_0@,
        row[4]->Ok_0@,
        "upd:"@ + text_or_empty(row[5]) + ", del:"@ + text_or_empty(row[6]),
    ]
}

/// `.fk` prints a table with a row for each foreign key that was fetched, in the order in which
/// they came, and names the table where there is none.
pub proof fn law_fk_prints_each_key(table: Seq<char>, items: Vec<Result<KeyRow, String>>)
    requires
        forall|i: int| 0 <= i < items@.len() ==> is_whole_key(#[trigger] items@[i]),
    ensures
        items@.len() > 0 ==> keys_answer(table, Ok(items)) == Ok::<Seq<char>, FailureView>(
            table_text(
                seq!["from"@, "ref_table"@, "ref_col"@, "actions"@],
                Seq::new(items@.len(), |i: int| key_cells(items@[i])),
            ) + seq!['\n'],
        ),
        items@.len() == 0 ==> keys_answer(table, Ok(items)) == Ok::<Seq<char>, FailureView>(
            "(no foreign keys on "@ + table + ")\n"@,
        ),
{
    law_all_keys_are_read(items);
    let keys = keys_in(Ok(items))->Ok_0;
    law_all_keys_are_reported(table, keys);
    let rows = Seq::new(
        keys.len(),
        |i: int| seq![keys[i].0, keys[i].1, keys[i].2, keys[i].3],
    );
    let cells = Seq::new(items@.len(), |i: int| key_cells(items@[i]));
    assert forall|i: int| 0 <= i < items@.len() implies #[trigger] rows[i] == cells[i] by {
        assert(keys[i].3 =~= key_cells(items@[i])[3]);
        assert(rows[i] =~= cells[i]);
    }
    assert(rows =~= cells);
}

/// `.preview` prints all rows that were fetched and their number, and selects the table, even
/// where there is no row. It does neither where something failed.
pub proof fn law_preview_prints_each_row(
    db: DbView,
    table: Seq<char>,
    answer: Answer,
    message: String,
)
    requires
        forall|i: int| 0 <= i < answer.rows@.len() ==> #[trigger] answer.rows@[i] is Ok,
    ensures
        ({
            let cols = Seq::new(answer.cols@.len(), |i: int| answer.cols@[i]@);
            let rows = Seq::new(
                answer.rows@.len(),
                |i: int|
                    Seq::new(
                        answer.rows@[i]->Ok_0@.len(),
                        |j: int| cell_text(answer.rows@[i]->Ok_0@[j]),
                    ),
            );
            &&& rows.len() > 0 ==> preview_answer(Ok(answer)) == Ok::<Seq<char>, FailureView>(
                table_text(cols, rows) + "\n["@ + decimal(rows.len()) + " row(s)]\n"@,
            )
            &&& rows.len() == 0 ==> preview_answer(Ok(answer)) == Ok::<Seq<char>, FailureView>(
                "[0 rows]\n"@,
            )
        }),
        session_after_preview(db, table, Ok(answer)).table == Some(table),
        session_after_preview(db, table, Ok(answer)).connected == db.connected,
        session_after_preview(db, table, Err(message)) == db,
        preview_answer(Err(message)) == Err::<Seq<char>, FailureView>(
            FailureView::Outside(message@),
        ),
{
    law_all_rows_are_read(answer);
    let (cols, rows) = rows_in(Ok(answer))->Ok_0;
    assert(cols =~= Seq::new(answer.cols@.len(), |i: int| answer.cols@[i]@));
    assert(rows =~~= Seq::new(
        answer.rows@.len(),
        |i: int|
            Seq::new(
                answer.rows@[i]->Ok_0@.len(),
                |j: int| cell_text(answer.rows@[i]->Ok_0@[j]),
            ),
    ));
}

/// The file of an export, read back, gives the column names and all rows that were fetched, each
/// cell as it shows its value, and the number that is told is that of the rows. Column names
/// that are not read back as they stand, and rows without cells, are left out.
pub proof fn law_export_holds_each_row(answer: Answer)
    requires
        forall|i: int| 0 <= i < answer.rows@.len() ==> #[trigger] answer.rows@[i] is Ok,
        forall|i: int|
            0 <= i < answer.rows@.len() ==> (#[trigger] answer.rows@[i])->Ok_0@.len() > 0,
        answer.cols@.len() > 0,
        forall|i: int| 0 <= i < answer.cols@.len() ==> reads_plain((#[trigger] answer.cols@[i])@),
    ensures
        export_content(Ok(answer)) is Ok,
        export_content(Ok(answer))->Ok_0.1 == answer.rows@.len(),
        crate::csv::read_rows(export_content(Ok(answer))->Ok_0.0) == Some(
            seq![Seq::new(answer.cols@.len(), |i: int| answer.cols@[i]@)] + Seq::new(
                answer.rows@.len(),
                |i: int|
                    Seq::new(
                        answer.rows@[i]->Ok_0@.len(),
                        |j: int| cell_text(answer.rows@[i]->Ok_0@[j]),
                    ),
            ),
        ),
{
    law_all_rows_are_read(answer);
    let (cols, rows) = rows_in(Ok(answer))->Ok_0;
    assert(cols =~= Seq::new(answer.cols@.len(), |i: int| answer.cols@[i]@));
    assert(rows =~~= Seq::new(
        answer.rows@.len(),
        |i: int|
            Seq::new(
                answer.rows@[i]->Ok_0@.len(),
                |j: int| cell_text(answer.rows@[i]->Ok_0@[j]),
            ),
    ));
    assert forall|i: int| 0 <= i < cols.len() implies reads_plain(#[trigger] cols[i]) by {
        assert(reads_plain(answer.cols@[i]@));
    }
    law_export_round_trip(cols, rows);
}

/// A failure of the database is told by each command with the message as it came.
pub proof fn law_failures_of_the_database_are_told(
    table: Seq<char>,
    pattern: Seq<char>,
    message: String,
)
    ensures
        list_answer(Err(message)) == Err::<Seq<char>, FailureView>(FailureView::Outside(message@)),
        find_answer(pattern, Err(message)) == Err::<Seq<char>, FailureView>(
            FailureView::Outside(message@),
        ),
        ddl_answer(Err(message)) == Err::<Seq<char>, FailureView>(FailureView::Outside(message@)),
        keys_answer(table, Err(message)) == Err::<Seq<char>, FailureView>(
            FailureView::Outside(message@),
        ),
        export_content(Err(message)) == Err::<(Seq<char>, nat), FailureView>(
            FailureView::Outside(message@),
        ),
{
}

/// An export that was saved is told with its path and the number of its rows; one that was not
/// is told with the reason.
pub proof fn law_saving(path: Seq<char>, n: nat, message: String)
    ensures
        export_answer(path, n, Saving::Saved) == Ok::<Seq<char>, FailureView>(
            "wrote "@ + path + ", "@ + decimal(n) + " rows\n"@,
        ),
        export_answer(path, n, Saving::NotCreated(message)) == Err::<Seq<char>, FailureView>(
            FailureView::CannotCreate { path, cause: message@ },
        ),
        export_answer(path, n, Saving::Failed(message)) == Err::<Seq<char>, FailureView>(
            FailureView::Outside(message@),
        ),
{
}

/// An outcome is the one that is said exactly when it succeeds with the same, or fails with the
/// same.
pub proof fn law_outcomes_are_told_apart(
    r: Result<Action, Failure>,
    action: ActionView,
    text: Result<String, Failure>,
    printed: Seq<char>,
    failure: FailureView,
)
    ensures
        is_action(r, Ok(action)) <==> r is Ok && r->Ok_0@ == action,
        is_action(r, Err(failure)) <==> r is Err && r->Err_0@ == failure,
        told(text, Ok(printed)) <==> text is Ok && text->Ok_0@ == printed,
        told(text, Err(failure)) <==> text is Err && text->Err_0@ == failure,
{
}

/// The help tells each command as it is to be used, that any SQL can be typed, how many rows a
/// preview shows unless told otherwise, and that case does not count in a search.
pub proof fn law_help_tells_each_command()
    ensures
        has_part(HELP@, ".open <file.db>"@),
        has_part(HELP@, ".ls "@),
        has_part(HELP@, ".ddl <table>"@),
        has_part(HELP@, ".preview <table> [n]"@),
        has_part(HELP@, "(default 50)"@),
        has_part(HELP@, ".quit "@),
        has_part(HELP@, "Type any SQL and press Enter."@),
        has_part(HELP@, ".fk [table]"@),
        has_part(HELP@, ".goto <table>"@),
        has_part(HELP@, ".find <pattern>"@),
        has_part(HELP@, "(case-insensitive)"@),
        has_part(HELP@, ".exportcsv <path> <SELECT ...>"@),
        has_part(HELP@, ".ui "@),
{
    reveal_strlit("Meta commands:
  .open <file.db>      open/create SQLite DB
  .ls                  list tables
  .ddl <table>         show CREATE TABLE
  .preview <table> [n] preview first n rows (default 50)
  .quit                exit
SQL:
  Type any SQL and press Enter.
.fk [table]          list foreign keys (defaults to current table)
.goto <table>        jump to referenced table name
.find <pattern>      filter tables by substring (case-insensitive)
.exportcsv <path> <SELECT ...>
                     run a SELECT and write results to CSV
.ui                   open interactive UI (arrow keys to navigate, Enter to preview, D to show DDL, F for FKs, Q to quit)
");
    reveal_strlit(".open <file.db>");
    reveal_strlit(".ls ");
    reveal_strlit(".ddl <table>");
    reveal_strlit(".preview <table> [n]");
    reveal_strlit("(default 50)");
    reveal_strlit(".quit ");
    reveal_strlit("Type any SQL and press Enter.");
    reveal_strlit(".fk [table]");
    reveal_strlit(".goto <table>");
    reveal_strlit(".find <pattern>");
    reveal_strlit("(case-insensitive)");
    reveal_strlit(".exportcsv <path> <SELECT ...>");
    reveal_strlit(".ui ");
    assert(HELP@.subrange(17, 32) =~= ".open <file.db>"@);
    assert(part_at(HELP@, ".open <file.db>"@, 17));
    assert(HELP@.subrange(62, 66) =~= ".ls "@);
    assert(part_at(HELP@, ".ls "@, 62));
    assert(HELP@.subrange(97, 109) =~= ".ddl <table>"@);
    assert(part_at(HELP@, ".ddl <table>"@, 97));
    assert(HELP@.subrange(138, 158) =~= ".preview <table> [n]"@);
    assert(part_at(HELP@, ".preview <table> [n]"@, 138));
    assert(HELP@.subrange(180, 192) =~= "(default 50)"@);
    assert(part_at(HELP@, "(default 50)"@, 180));
    assert(HELP@.subrange(195, 201) =~= ".quit "@);
    assert(part_at(HELP@, ".quit "@, 195));
    assert(HELP@.subrange(228, 257) =~= "Type any SQL and press Enter."@);
    assert(part_at(HELP@, "Type any SQL and press Enter."@, 228));
    assert(HELP@.subrange(258, 269) =~= ".fk [table]"@);
    assert(part_at(HELP@, ".fk [table]"@, 258));
    assert(HELP@.subrange(325, 338) =~= ".goto <table>"@);
    assert(part_at(HELP@, ".goto <table>"@, 325));
    assert(HELP@.subrange(376, 391) =~= ".find <pattern>"@);
    assert(part_at(HELP@, ".find <pattern>"@, 376));
    assert(HELP@.subrange(424, 442) =~= "(case-insensitive)"@);
    assert(part_at(HELP@, "(case-insensitive)"@, 424));
    assert(HELP@.subrange(443, 473) =~= ".exportcsv <path> <SELECT ...>"@);
    assert(part_at(HELP@, ".exportcsv <path> <SELECT ...>"@, 443));
    assert(HELP@.subrange(533, 537) =~= ".ui "@);
    assert(part_at(HELP@, ".ui "@, 533));
}

} // verus!
