use fast_sql_term::db::{make_export, make_statement, Opening, Statement, DB};
use fast_sql_term::failure::{Failure, Verb};
use fast_sql_term::meta::{
    finish_ddl, finish_export, finish_find, finish_keys, finish_list, finish_open, finish_preview,
    handle_meta, prepare_export, Action, Saving, HELP,
};
use fast_sql_term::pattern::{is_query, is_select};
use fast_sql_term::repl::{prompt, take_input, Input, Next};
use fast_sql_term::report::{
    print_result, report_ddl, report_drawn_keys, report_hits, report_keys, report_rows,
    report_tables,
};
use fast_sql_term::rows::{
    extract_row, other_result, read_keys, read_rows, rows_result, run_result, Answer, KeyRow,
    QueryResult, Value,
};
use rusqlite::Connection;

fn s(text: &str) -> String {
    text.to_string()
}

fn texts(items: &[&str]) -> Vec<String> {
    items.iter().map(|t| t.to_string()).collect()
}

fn query(sql: &str) -> Statement {
    Statement::Query { sql: s(sql), param: None }
}

fn connected() -> DB {
    DB { connected: true, table: None }
}

fn key_row(from: &str, table: &str, col: &str) -> KeyRow {
    [
        Ok(s("0")),
        Ok(s("1")),
        Ok(s(table)),
        Ok(s(from)),
        Ok(s(col)),
        Ok(s("NO ACTION")),
        Ok(s("CASCADE")),
    ]
}

const TABLES: &str = "SELECT name FROM sqlite_master WHERE type='table' ORDER BY name";

#[test]
fn a_new_session_has_no_database() {
    let db = DB::new();
    assert_eq!(db, DB { connected: false, table: None });
    assert_eq!(db.ensure(), Err(Failure::NoDb));
    assert_eq!(prompt(&db), "sql(no-db)> ");
    assert_eq!(prompt(&connected()), "sql> ");
}

#[test]
fn selects_are_told_apart() {
    for text in ["select 1", " \n SELECT *", "Select", "select(1)", "select*", "ſelect 1", "select\u{3000}1"] {
        assert!(is_select(text), "{:?}", text);
        assert!(is_query(text), "{:?}", text);
    }
    for text in ["selects", "select_1", "select1", "insert", "", "-- select", "(select 1)", "selecté"] {
        assert!(!is_select(text), "{:?}", text);
        assert!(!is_query(text), "{:?}", text);
    }
    assert!(is_query("pragma table_info(t)"));
    assert!(is_query("\tPRAGMA;"));
    assert!(!is_select("pragma table_info(t)"));
    assert!(!is_query("pragmatic"));
    assert!(!is_query("with x as (select 1) select * from x"));
    assert!(is_select("select\u{2014}"));
    assert!(is_select("\u{85}\u{2028}select"));
}

#[test]
fn statements_go_by_their_first_word() {
    let db = connected();
    assert_eq!(db.run("select 1"), Ok(query("select 1")));
    assert_eq!(db.run("PRAGMA foreign_keys"), Ok(query("PRAGMA foreign_keys")));
    assert_eq!(db.run("delete from t"), Ok(Statement::Other { sql: s("delete from t") }));
    assert_eq!(DB::new().run("select 1"), Err(Failure::NoDb));
    assert_eq!(make_statement("x", true), query("x"));
    assert_eq!(make_statement("x", false), Statement::Other { sql: s("x") });
}

/// Runs a text that was typed in on a database.
fn typed(conn: &Connection, sql: &str) -> Result<QueryResult, Failure> {
    let statement = connected().run(sql).unwrap();
    let answer = conn.prepare(sql).map_err(|err| err.to_string()).and_then(|mut stmt| {
        let cols: Vec<String> = stmt.column_names().iter().map(|name| name.to_string()).collect();
        let count = cols.len();
        let rows = stmt
            .query_map([], |row| {
                (0..count).map(|i| Ok(Value::Integer(row.get(i).unwrap_or(-1)))).collect()
            })
            .map_err(|err| err.to_string())?
            .map(|row| row.map_err(|err| err.to_string()))
            .collect();
        Ok(Answer { cols, rows })
    });
    run_result(&statement, answer, conn.changes() as usize)
}

#[test]
fn any_statement_can_be_typed() {
    let conn = Connection::open_in_memory().unwrap();
    let rows = |cols: &[&str], rows: &[&[&str]]| {
        Ok(QueryResult::Rows {
            cols: texts(cols),
            rows: rows.iter().map(|row| texts(row)).collect(),
        })
    };
    let ack = |rowcount: usize| Ok(QueryResult::Ack { rowcount });
    assert_eq!(typed(&conn, "CREATE TABLE t(x, CHECK (x < 100))"), ack(0));
    assert_eq!(typed(&conn, "INSERT INTO t VALUES (1), (2)"), ack(2));
    assert_eq!(typed(&conn, "VALUES (1), (2)"), rows(&["column1"], &[&["1"], &["2"]]));
    assert_eq!(typed(&conn, "WITH y(n) AS (SELECT 7) SELECT n FROM y"), rows(&["n"], &[&["7"]]));
    assert_eq!(typed(&conn, "INSERT INTO t VALUES (3) RETURNING x"), rows(&["x"], &[&["3"]]));
    assert_eq!(typed(&conn, "UPDATE t SET x = x + 1"), ack(3));
    assert_eq!(typed(&conn, "SELECT x FROM t"), rows(&["x"], &[&["2"], &["3"], &["4"]]));
    assert_eq!(typed(&conn, "SELECT x FROM t WHERE x > 9"), rows(&["x"], &[]));
    assert_eq!(typed(&conn, "PRAGMA foreign_keys = ON"), rows(&[], &[]));
    assert!(matches!(typed(&conn, "EXPLAIN SELECT 1"), Ok(QueryResult::Rows { .. })));
    assert!(matches!(typed(&conn, "nonsense"), Err(Failure::Outside(_))));
}

#[test]
fn statements_without_rows_are_acknowledged() {
    let conn = Connection::open_in_memory().unwrap();
    conn.execute_batch("CREATE TABLE t(x, CHECK (x < 100)); CREATE TABLE u(x INTEGER) STRICT;")
        .unwrap();
    for (sql, columns) in [
        ("DELETE FROM t WHERE x > 9 RETURNING x", 1),
        ("UPDATE t SET x = 1 WHERE x > 9 RETURNING x", 1),
        ("INSERT INTO t SELECT x FROM t WHERE x > 9 RETURNING x", 1),
        ("WITH y AS (SELECT x FROM t WHERE x > 9) SELECT * FROM y", 1),
        ("ALTER TABLE t ADD COLUMN y NOT NULL", 1),
        ("ALTER TABLE t ADD COLUMN z CHECK (z < 3)", 1),
        ("ALTER TABLE t ADD COLUMN a", 0),
        ("ALTER TABLE u ADD COLUMN y INTEGER", 1),
        ("CREATE TABLE v(a)", 0),
        ("DELETE FROM t", 0),
        ("BEGIN", 0),
    ] {
        assert_eq!(conn.prepare(sql).unwrap().column_count(), columns, "{}", sql);
        assert_eq!(typed(&conn, sql), Ok(QueryResult::Ack { rowcount: 0 }), "{}", sql);
    }
}

#[test]
fn exports_are_queries_when_typed_in() {
    let db = connected();
    for sql in ["select 1", " SELECT 'a  b'\t", "select\u{3000}", "select\u{2014}", "\u{85}select 1 "] {
        assert_eq!(db.select(sql), Ok(query(sql.trim())));
        assert_eq!(db.run(sql), Ok(query(sql)));
        assert_eq!(db.run(sql.trim()), Ok(query(sql.trim())));
    }
    for sql in ["pragma table_info(t)", " PRAGMA x "] {
        assert_eq!(db.select(sql), Err(Failure::NotSelect));
        assert_eq!(db.run(sql), Ok(query(sql)));
    }
    for sql in ["selecté", "selecté ", " values (1)"] {
        assert_eq!(db.select(sql), Err(Failure::NotSelect));
        assert_eq!(db.run(sql), Ok(Statement::Other { sql: s(sql) }));
    }
}

#[test]
fn each_value_has_its_cell() {
    let answer = || Answer {
        cols: texts(&["a", "b"]),
        rows: vec![
            Ok(vec![Value::Integer(1), Value::Null]),
            Ok(vec![Value::Blob, Value::Text(b"x".to_vec())]),
        ],
    };
    let rows = vec![texts(&["1", ""]), texts(&["<blob>", "x"])];
    assert_eq!(
        rows_result(Ok(answer())),
        Ok(QueryResult::Rows { cols: texts(&["a", "b"]), rows: rows.clone() })
    );
    assert_eq!(read_rows(Ok(answer())), Ok((texts(&["a", "b"]), rows)));
}

#[test]
fn exports_want_a_select() {
    let db = connected();
    assert_eq!(db.select("  select 1 "), Ok(query("select 1")));
    assert_eq!(db.select("pragma x"), Err(Failure::NotSelect));
    assert_eq!(DB::new().select("pragma x"), Err(Failure::NoDb));
    assert_eq!(make_export("x", true), Ok(query("x")));
    assert_eq!(make_export("x", false), Err(Failure::NotSelect));
}

#[test]
fn statements_name_their_table() {
    let db = connected();
    assert_eq!(db.list_tables(), Ok(query(TABLES)));
    assert_eq!(
        db.ddl("t\"x"),
        Ok(Statement::Query {
            sql: s("SELECT sql FROM sqlite_master WHERE type='table' AND name=?1"),
            param: Some(s("t\"x")),
        })
    );
    assert_eq!(db.foreign_keys("t\"x"), Ok(query("PRAGMA foreign_key_list(\"t\"\"x\")")));
    assert_eq!(db.preview("t\"x", 7), Ok(query("SELECT * FROM \"t\"\"x\" LIMIT 7")));
    assert_eq!(db.preview("", usize::MAX).is_ok(), true);
}

#[test]
fn nothing_is_sent_without_a_database() {
    let mut db = DB::new();
    assert_eq!(db.list_tables(), Err(Failure::NoDb));
    assert_eq!(db.ddl("t"), Err(Failure::NoDb));
    assert_eq!(db.foreign_keys("t"), Err(Failure::NoDb));
    assert_eq!(db.preview("t", 1), Err(Failure::NoDb));
    for line in [".ls", ".ddl t", ".preview t", ".fk t", ".find x", ".exportcsv f select 1", ".ui"] {
        assert_eq!(handle_meta(&mut db, line), Err(Failure::NoDb), "{}", line);
    }
    assert_eq!(db, DB::new());
}

#[test]
fn opening_takes_note_of_the_outcome() {
    let mut db = DB { connected: false, table: Some(s("t")) };
    assert_eq!(
        finish_open(&mut db, "a.db", Opening::Refused(s("locked"))),
        Err(Failure::CannotOpen { cause: s("locked") })
    );
    assert_eq!(db, DB { connected: false, table: Some(s("t")) });
    assert_eq!(
        finish_open(&mut db, "a.db", Opening::Faulty(s("locked"))),
        Err(Failure::Outside(s("locked")))
    );
    assert_eq!(db, DB { connected: true, table: Some(s("t")) });
    assert_eq!(
        finish_open(&mut db, "a.db", Opening::Refused(s("locked"))),
        Err(Failure::CannotOpen { cause: s("locked") })
    );
    assert_eq!(db, DB { connected: true, table: Some(s("t")) });
    assert_eq!(finish_open(&mut db, "a.db", Opening::Ready), Ok(s("Opened a.db\n")));
    assert_eq!(db, connected());
}

#[test]
fn commands_lack_arguments() {
    let mut db = connected();
    for (line, verb, text) in [
        (".open", Verb::Open, "Usage: .open <file.db>"),
        (".ddl", Verb::Ddl, "Usage: .ddl <table>"),
        (".preview", Verb::Preview, "Usage: .preview <table> [n]"),
        (".goto", Verb::Goto, "Usage: .goto <table>"),
        (".find", Verb::Find, "Usage: .find <pattern>"),
        (".exportcsv", Verb::ExportCsv, "Usage: .exportcsv <path> <SELECT ...>"),
    ] {
        assert_eq!(handle_meta(&mut db, line), Err(Failure::Usage(verb)));
        assert_eq!(Failure::Usage(verb).message(), text);
    }
    assert_eq!(handle_meta(&mut db, ".fk"), Err(Failure::NoTable));
    assert_eq!(handle_meta(&mut db, ".exportcsv out.csv"), Err(Failure::NoQuery));
    assert_eq!(handle_meta(&mut db, ".exportcsv out.csv delete x"), Err(Failure::NotSelect));
    assert_eq!(db, connected());
}

#[test]
fn arguments_are_missed_before_the_database() {
    let mut db = DB::new();
    assert_eq!(handle_meta(&mut db, ".ddl"), Err(Failure::Usage(Verb::Ddl)));
    assert_eq!(handle_meta(&mut db, ".fk"), Err(Failure::NoTable));
    assert_eq!(handle_meta(&mut db, ".exportcsv f"), Err(Failure::NoQuery));
    assert_eq!(handle_meta(&mut db, ".exportcsv f delete x"), Err(Failure::NoDb));
}

#[test]
fn failures_have_messages() {
    assert_eq!(Failure::NoDb.message(), "No DB open. Use .open <file.db>");
    assert_eq!(Failure::NoTable.message(), "No table selected; usage: .fk [table]");
    assert_eq!(Failure::NoQuery.message(), "Provide a SELECT query after the path");
    assert_eq!(Failure::NotSelect.message(), ".exportcsv expects a SELECT query");
    let opening = Failure::CannotOpen { cause: s("locked") };
    assert_eq!((opening.message(), opening.cause()), (s("open sqlite"), Some(s("locked"))));
    let creating = Failure::CannotCreate { path: s("x.csv"), cause: s("denied") };
    assert_eq!((creating.message(), creating.cause()), (s("create x.csv"), Some(s("denied"))));
    assert_eq!(Failure::NoDb.cause(), None);
    assert_eq!(Failure::Outside(s("no such table: t")).report(), "Error: no such table: t\n");
}

#[test]
fn commands_are_understood() {
    let mut db = connected();
    assert_eq!(handle_meta(&mut db, ".help"), Ok(Action::Print(s(HELP))));
    assert_eq!(
        handle_meta(&mut db, ".open  a.db x"),
        Ok(Action::Open { path: s("a.db"), setup: s("PRAGMA foreign_keys = ON;") })
    );
    assert_eq!(handle_meta(&mut db, ".ls"), Ok(Action::ListTables { statement: query(TABLES) }));
    assert_eq!(
        handle_meta(&mut db, ".find Us"),
        Ok(Action::Find { pattern: s("us"), statement: query(TABLES) })
    );
    assert_eq!(handle_meta(&mut db, ".ui"), Ok(Action::Ui { statement: query(TABLES) }));
    for line in [".quit", ".q", ".exit"] {
        assert_eq!(handle_meta(&mut db, line), Ok(Action::Quit));
    }
    for line in [".nope", ".HELP", "", "help", ".quitt"] {
        assert_eq!(handle_meta(&mut db, line), Ok(Action::Print(s("Unknown meta. Try .help\n"))));
    }
    assert_eq!(db, connected());
}

#[test]
fn help_lists_the_commands() {
    assert!(HELP.starts_with("Meta commands:\n  .open <file.db>      open/create SQLite DB\n"));
    assert!(HELP.ends_with("F for FKs, Q to quit)\n"));
    for command in [".ls", ".ddl", ".preview", ".quit", ".fk", ".goto", ".find", ".exportcsv", ".ui"] {
        assert!(HELP.contains(command));
    }
}

#[test]
fn previews_have_a_count() {
    let mut db = connected();
    for (line, n) in [
        (".preview t", "50"),
        (".preview t 5", "5"),
        (".preview t +5", "5"),
        (".preview t many", "50"),
        (".preview t -5", "50"),
        (".preview t 99999999999999999999", "50"),
        (".preview t 0 1", "0"),
    ] {
        assert_eq!(
            handle_meta(&mut db, line),
            Ok(Action::Preview {
                table: s("t"),
                statement: query(&format!("SELECT * FROM \"t\" LIMIT {}", n)),
            })
        );
    }
    assert_eq!(db.table, None);
}

#[test]
fn goto_selects_the_table_of_fk() {
    let mut db = connected();
    assert_eq!(handle_meta(&mut db, ".goto users"), Ok(Action::Print(s("table: users\n"))));
    assert_eq!(db.table, Some(s("users")));
    let keys = Action::ShowKeys {
        table: s("users"),
        statement: query("PRAGMA foreign_key_list(\"users\")"),
    };
    assert_eq!(handle_meta(&mut db, ".fk"), Ok(keys));
    assert_eq!(
        handle_meta(&mut db, ".fk other"),
        Ok(Action::ShowKeys {
            table: s("other"),
            statement: query("PRAGMA foreign_key_list(\"other\")"),
        })
    );
    assert_eq!(db.table, Some(s("users")));
}

#[test]
fn export_queries_are_sent_as_typed() {
    let mut db = connected();
    for (line, path, sql) in [
        (".exportcsv /tmp/o.csv SELECT 'a  b' AS x", "/tmp/o.csv", "SELECT 'a  b' AS x"),
        (".exportcsv  o.csv   select  a,\tb   from t ", "o.csv", "select  a,\tb   from t"),
        ("\t.exportcsv\to.csv\n  select '\u{3000}'", "o.csv", "select '\u{3000}'"),
    ] {
        assert_eq!(
            handle_meta(&mut db, line),
            Ok(Action::Export { path: s(path), statement: query(sql) })
        );
    }
    assert_eq!(handle_meta(&mut db, ".exportcsv o.csv  "), Err(Failure::NoQuery));
}

#[test]
fn values_become_texts() {
    let row = vec![
        Value::Null,
        Value::Integer(-42),
        Value::Real(s("1.5")),
        Value::Text("né".as_bytes().to_vec()),
        Value::Text(vec![0x61, 0xff, 0x62]),
        Value::Blob,
        Value::Unreadable,
    ];
    assert_eq!(extract_row(&row), texts(&["", "-42", "1.5", "né", "a\u{fffd}b", "<blob>", ""]));
}

#[test]
fn answers_stop_at_the_first_failure() {
    let answer = |rows: Vec<Result<Vec<Value>, String>>| {
        Ok(Answer { cols: texts(&["a"]), rows })
    };
    assert_eq!(
        rows_result(answer(vec![Ok(vec![Value::Integer(1)]), Ok(vec![Value::Null])])),
        Ok(QueryResult::Rows { cols: texts(&["a"]), rows: vec![texts(&["1"]), texts(&[""])] })
    );
    assert_eq!(
        rows_result(answer(vec![Ok(vec![Value::Null]), Err(s("one")), Err(s("two"))])),
        Err(Failure::Outside(s("one")))
    );
    assert_eq!(rows_result(Err(s("syntax"))), Err(Failure::Outside(s("syntax"))));
    let none = || Ok(Answer { cols: texts(&["a"]), rows: vec![] });
    let one = || Ok(Answer { cols: texts(&["a"]), rows: vec![Ok(vec![Value::Integer(1)])] });
    let row = QueryResult::Rows { cols: texts(&["a"]), rows: vec![texts(&["1"])] };
    let empty = QueryResult::Rows { cols: texts(&["a"]), rows: vec![] };
    assert_eq!(other_result(none(), 3), Ok(QueryResult::Ack { rowcount: 3 }));
    assert_eq!(other_result(one(), 3), Ok(row));
    assert_eq!(other_result(Err(s("busy")), 3), Err(Failure::Outside(s("busy"))));
    assert_eq!(run_result(&query("select a from t"), none(), 3), Ok(empty));
}

#[test]
fn keys_are_told_in_full_or_not_at_all() {
    let key = (s("a"), s("t"), s("id"), s("upd:NO ACTION, del:CASCADE"));
    assert_eq!(read_keys(Ok(vec![Ok(key_row("a", "t", "id"))])), Ok(vec![key]));
    let mut bare = key_row("a", "t", "id");
    bare[0] = Err(s("not text"));
    bare[5] = Err(s("not text"));
    bare[6] = Err(s("not text"));
    assert_eq!(
        read_keys(Ok(vec![Ok(bare)])),
        Ok(vec![(s("a"), s("t"), s("id"), s("upd:, del:"))])
    );
    let mut broken = key_row("a", "t", "id");
    broken[4] = Err(s("null"));
    broken[2] = Err(s("table"));
    assert_eq!(
        read_keys(Ok(vec![Ok(key_row("a", "t", "id")), Ok(broken), Err(s("later"))])),
        Err(Failure::Outside(s("table")))
    );
    assert_eq!(read_keys(Err(s("gone"))), Err(Failure::Outside(s("gone"))));
}

#[test]
fn results_are_printed() {
    let rows = QueryResult::Rows { cols: texts(&["id", "name"]), rows: vec![texts(&["1", "bob"])] };
    assert_eq!(
        print_result(&rows),
        "+----+------+\n| id | name |\n+===========+\n| 1  | bob  |\n+----+------+\n[1 row(s)]\n"
    );
    let none = QueryResult::Rows { cols: texts(&["id"]), rows: vec![] };
    assert_eq!(print_result(&none), "[0 rows]\n");
    assert_eq!(print_result(&QueryResult::Ack { rowcount: 12 }), "OK, 12 row(s) affected.\n");
    assert_eq!(report_rows("T", 2), "T\n[2 row(s)]\n");
    assert_eq!(report_rows("T", 0), "[0 rows]\n");
}

#[test]
fn lists_are_printed() {
    assert_eq!(report_tables(&texts(&["a", "b"])), "a\nb\n");
    assert_eq!(report_tables(&texts(&[])), "<no tables>\n");
    assert_eq!(report_hits(&texts(&[])), "(no matches)\n");
    assert_eq!(report_ddl(&None), "(no ddl)\n");
    assert_eq!(report_ddl(&Some(s("CREATE TABLE t(a)"))), "CREATE TABLE t(a)\n");
    assert_eq!(report_keys("t", &vec![]), "(no foreign keys on t)\n");
    assert_eq!(report_drawn_keys("t", 1, "T"), "T\n");
    let keys = report_keys("t", &vec![(s("a"), s("u"), s("id"), s("upd:, del:"))]);
    assert!(keys.starts_with("+------+-----------+---------+------------+\n| from | ref_table |"));
    assert!(keys.ends_with("+\n"));
}

#[test]
fn commands_are_ended() {
    assert_eq!(finish_list(Ok(vec![Ok(s("a")), Ok(s("b"))])), Ok(s("a\nb\n")));
    assert_eq!(finish_list(Ok(vec![Ok(s("a")), Err(s("x"))])), Err(Failure::Outside(s("x"))));
    assert_eq!(finish_ddl(Ok(None)), Ok(s("(no ddl)\n")));
    assert_eq!(finish_ddl(Ok(Some(Ok(None)))), Ok(s("(no ddl)\n")));
    assert_eq!(finish_ddl(Ok(Some(Ok(Some(s("C")))))), Ok(s("C\n")));
    assert_eq!(finish_ddl(Ok(Some(Err(s("x"))))), Err(Failure::Outside(s("x"))));
    assert_eq!(finish_keys("t", Ok(vec![])), Ok(s("(no foreign keys on t)\n")));
    assert_eq!(
        finish_find("us", Ok(vec![Ok(s("b_US")), Ok(s("x")), Ok(s("Users"))])),
        Ok(s("Users\nb_US\n"))
    );
    assert_eq!(finish_find("zz", Ok(vec![Ok(s("x"))])), Ok(s("(no matches)\n")));
}

#[test]
fn previews_select_the_table_when_they_succeed() {
    let mut db = connected();
    let failed = finish_preview(&mut db, "t", Err(s("no such table: t")));
    assert_eq!(failed, Err(Failure::Outside(s("no such table: t"))));
    assert_eq!(db.table, None);
    let empty = finish_preview(&mut db, "t", Ok(Answer { cols: texts(&["a"]), rows: vec![] }));
    assert_eq!(empty, Ok(s("[0 rows]\n")));
    assert_eq!(db.table, Some(s("t")));
}

#[test]
fn exports_are_prepared_and_ended() {
    let answer = Answer {
        cols: texts(&["a", "b"]),
        rows: vec![Ok(vec![Value::Integer(1), Value::Text(b"x,y".to_vec())])],
    };
    assert_eq!(prepare_export(Ok(answer)), Ok((s("a,b\n1,\"x,y\"\n"), 1)));
    assert_eq!(prepare_export(Err(s("x"))), Err(Failure::Outside(s("x"))));
    assert_eq!(finish_export("o.csv", 1, Saving::Saved), Ok(s("wrote o.csv, 1 rows\n")));
    assert_eq!(
        finish_export("o.csv", 1, Saving::NotCreated(s("denied"))),
        Err(Failure::CannotCreate { path: s("o.csv"), cause: s("denied") })
    );
    assert_eq!(
        finish_export("o.csv", 1, Saving::Failed(s("full"))),
        Err(Failure::Outside(s("full")))
    );
}

#[test]
fn lines_are_taken() {
    assert_eq!(take_input(Input::Line(s("  "))), Next::Skip);
    assert_eq!(take_input(Input::Line(s("  .ls "))), Next::Meta(s(".ls")));
    assert_eq!(take_input(Input::Line(s(" select 1; "))), Next::Sql(s("select 1;")));
    assert_eq!(take_input(Input::Interrupted), Next::Say(s("^C\n")));
    assert_eq!(take_input(Input::Eof), Next::Stop(s("\n")));
    assert_eq!(
        take_input(Input::Failed(s("bad"))),
        Next::Abort(s("Readline error: bad\n"))
    );
}
