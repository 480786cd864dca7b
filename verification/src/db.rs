//! The state of a session with a database and the statements that it sends.
use crate::failure::{Failure, FailureView};
use crate::number::{count_text, decimal, law_decimal};
use crate::pattern::{
    is_query, is_select, keyword_verdict, law_kind_of_trimmed, law_selects_are_queries, queries,
    query_verdict, same_letter, selects, starts_with_letters,
};
use crate::quote::{law_quoted_round_trip, quote, quoted, read_quoted};
use crate::text::{trim, trim_start, trimmed};
use vstd::prelude::*;

verus! {

/// Sent to each database that was opened.
pub const FOREIGN_KEYS_ON: &'static str = "PRAGMA foreign_keys = ON;";

/// A statement for the database.
#[derive(Debug, PartialEq, Eq)]
pub enum Statement {
    /// One that gives rows, with the value of its one parameter where it has one.
    Query { sql: String, param: Option<String> },
    /// Any other that was typed in. Only what comes out of it tells whether it gives rows or
    /// just the number of those it changed.
    Other { sql: String },
}

/// A statement with its texts as sequences of characters.
pub enum StatementView {
    Query { sql: Seq<char>, param: Option<Seq<char>> },
    Other { sql: Seq<char> },
}

impl View for Statement {
    type V = StatementView;

    open spec fn view(&self) -> StatementView {
        match *self {
            Statement::Query { sql, param } => StatementView::Query {
                sql: sql@,
                param: param.deep_view(),
            },
            Statement::Other { sql } => StatementView::Other { sql: sql@ },
        }
    }
}

/// How an attempt to open a database ended.
#[derive(Debug, PartialEq, Eq)]
pub enum Opening {
    /// The file could not be opened, for the reason in this message.
    Refused(String),
    /// The file was opened, but the first statement failed with this message.
    Faulty(String),
    /// The file was opened and the first statement went through.
    Ready,
}

/// A session: whether a database is open, and the table that was selected last.
#[derive(Debug, PartialEq, Eq)]
pub struct DB {
    pub connected: bool,
    pub table: Option<String>,
}

/// A session with its texts as sequences of characters.
pub struct DbView {
    pub connected: bool,
    pub table: Option<Seq<char>>,
}

impl View for DB {
    type V = DbView;

    open spec fn view(&self) -> DbView {
        DbView { connected: self.connected, table: self.table.deep_view() }
    }
}

/// The session after an attempt to open a database: one is open afterwards where the file could
/// be opened, or where one was open before.
pub open spec fn after_opening(db: DbView, outcome: Opening) -> DbView {
    match outcome {
        Opening::Refused(_) => db,
        _ => DbView { connected: true, table: db.table },
    }
}

/// The query for the names of all tables.
pub open spec fn tables_query() -> StatementView {
    StatementView::Query {
        sql: "SELECT name FROM sqlite_master WHERE type='table' ORDER BY name"@,
        param: None,
    }
}

/// The query for the definition of a table.
pub open spec fn ddl_query(table: Seq<char>) -> StatementView {
    StatementView::Query {
        sql: "SELECT sql FROM sqlite_master WHERE type='table' AND name=?1"@,
        param: Some(table),
    }
}

/// The query for the foreign keys of a table.
pub open spec fn keys_query(table: Seq<char>) -> StatementView {
    StatementView::Query {
        sql: "PRAGMA foreign_key_list("@ + quoted(table) + ")"@,
        param: None,
    }
}

/// The query for the first `n` rows of a table.
pub open spec fn preview_query(table: Seq<char>, n: nat) -> StatementView {
    StatementView::Query { sql: preview_sql(table, n), param: None }
}

/// The text of the query for the first `n` rows of a table.
pub open spec fn preview_sql(table: Seq<char>, n: nat) -> Seq<char> {
    "SELECT * FROM "@ + quoted(table) + " LIMIT "@ + decimal(n)
}

/// The statement for a text, depending on whether the text is a query.
pub open spec fn statement_for(sql: Seq<char>, query: bool) -> StatementView {
    if query {
        StatementView::Query { sql, param: None }
    } else {
        StatementView::Other { sql }
    }
}

/// The statement for an export, depending on whether its text is a `SELECT`.
pub open spec fn export_for(sql: Seq<char>, select: bool) -> Result<StatementView, FailureView> {
    if select {
        Ok(StatementView::Query { sql, param: None })
    } else {
        Err(FailureView::NotSelect)
    }
}

/// The statement for a text, depending on whether the text is a query.
pub fn make_statement(sql: &str, query: bool) -> (r: Statement)
    ensures
        r@ == statement_for(sql@, query),
{
    if query {
        Statement::Query { sql: sql.to_owned(), param: None }
    } else {
        Statement::Other { sql: sql.to_owned() }
    }
}

/// The statement for an export, depending on whether its text is a `SELECT`.
pub fn make_export(sql: &str, select: bool) -> (r: Result<Statement, Failure>)
    ensures
        match export_for(sql@, select) {
            Ok(statement) => r is Ok && r->Ok_0@ == statement,
            Err(failure) => r is Err && r->Err_0@ == failure,
        },
{
    if select {
        Ok(Statement::Query { sql: sql.to_owned(), param: None })
    } else {
        Err(Failure::NotSelect)
    }
}

impl DB {
    /// A session without a database.
    pub fn new() -> (r: DB)
        ensures
            r@ == (DbView { connected: false, table: None }),
    {
        DB { connected: false, table: None }
    }

    /// Takes note of how an attempt to open a database ended. The database that was open
    /// before stays open where the file could not be opened.
    pub fn open(&mut self, outcome: Opening) -> (r: Result<(), Failure>)
        ensures
            final(self)@.table == old(self)@.table,
            final(self)@.connected == (old(self)@.connected || !(outcome is Refused)),
            match outcome {
                Opening::Refused(cause) => r is Err && r->Err_0@ == (FailureView::CannotOpen {
                    cause: cause@,
                }),
                Opening::Faulty(message) => r is Err && r->Err_0@ == FailureView::Outside(message@),
                Opening::Ready => r is Ok,
            },
            final(self)@ == after_opening(old(self)@, outcome),
    {
        match outcome {
            Opening::Refused(cause) => Err(Failure::CannotOpen { cause }),
            Opening::Faulty(message) => {
                self.connected = true;
                Err(Failure::Outside(message))
            },
            Opening::Ready => {
                self.connected = true;
                Ok(())
            },
        }
    }

    /// Refuses to go on without a database.
    pub fn ensure(&self) -> (r: Result<(), Failure>)
        ensures
            r is Ok <==> self@.connected,
            r is Err ==> r->Err_0@ == FailureView::NoDb,
    {
        if self.connected {
            Ok(())
        } else {
            Err(Failure::NoDb)
        }
    }

    /// Asks for the names of all tables.
    pub fn list_tables(&self) -> (r: Result<Statement, Failure>)
        ensures
            self@.connected ==> r is Ok && r->Ok_0@ == tables_query(),
            !self@.connected ==> r is Err && r->Err_0@ == FailureView::NoDb,
    {
        self.ensure()?;
        Ok(
            Statement::Query {
                sql: "SELECT name FROM sqlite_master WHERE type='table' ORDER BY name".to_owned(),
                param: None,
            },
        )
    }

    /// Asks for the definition of a table.
    pub fn ddl(&self, table: &str) -> (r: Result<Statement, Failure>)
        ensures
            self@.connected ==> r is Ok && r->Ok_0@ == ddl_query(table@),
            !self@.connected ==> r is Err && r->Err_0@ == FailureView::NoDb,
    {
        self.ensure()?;
        Ok(
            Statement::Query {
                sql: "SELECT sql FROM sqlite_master WHERE type='table' AND name=?1".to_owned(),
                param: Some(table.to_owned()),
            },
        )
    }

    /// Asks for the foreign keys of a table.
    pub fn foreign_keys(&self, table: &str) -> (r: Result<Statement, Failure>)
        ensures
            self@.connected ==> r is Ok && r->Ok_0@ == keys_query(table@),
            !self@.connected ==> r is Err && r->Err_0@ == FailureView::NoDb,
    {
        self.ensure()?;
        let mut sql = "PRAGMA foreign_key_list(".to_owned();
        sql.append(quote(table).as_str());
        sql.append(")");
        Ok(Statement::Query { sql, param: None })
    }

    /// Asks for the rows of a `SELECT` that is to be exported.
    pub fn select(&self, sql: &str) -> (r: Result<Statement, Failure>)
        ensures
            !self@.connected ==> r is Err && r->Err_0@ == FailureView::NoDb,
            self@.connected ==> match export_for(trimmed(sql@), selects(trimmed(sql@))) {
                Ok(statement) => r is Ok && r->Ok_0@ == statement,
                Err(failure) => r is Err && r->Err_0@ == failure,
            },
    {
        self.ensure()?;
        let q = trim(sql);
        let select = is_select(q.as_str());
        make_export(q.as_str(), select)
    }

    /// The statement for a text that was typed in.
    pub fn run(&self, sql: &str) -> (r: Result<Statement, Failure>)
        ensures
            !self@.connected ==> r is Err && r->Err_0@ == FailureView::NoDb,
            self@.connected ==> r is Ok && r->Ok_0@ == statement_for(sql@, queries(sql@)),
    {
        self.ensure()?;
        let query = is_query(sql);
        Ok(make_statement(sql, query))
    }

    /// Asks for the first `n` rows of a table.
    pub fn preview(&self, table: &str, n: usize) -> (r: Result<Statement, Failure>)
        ensures
            self@.connected ==> r is Ok && r->Ok_0@ == preview_query(table@, n as nat),
            !self@.connected ==> r is Err && r->Err_0@ == FailureView::NoDb,
    {
        self.ensure()?;
        let mut sql = "SELECT * FROM ".to_owned();
        sql.append(quote(table).as_str());
        sql.append(" LIMIT ");
        sql.append(count_text(n).as_str());
        proof {
            lemma_preview_is_query(table@, n as nat);
        }
        self.run(sql.as_str())
    }
}

proof fn lemma_preview_is_query(table: Seq<char>, n: nat)
    ensures
        query_verdict(preview_sql(table, n)) == Some(true),
{
    reveal_strlit("SELECT * FROM ");
    reveal_strlit("select");
    reveal_strlit("pragma");
    let sql = preview_sql(table, n);
    let head = "SELECT * FROM "@;
    assert forall|i: int| 0 <= i < 14 implies sql[i] == #[trigger] head[i] by {}
    assert(sql[0] == head[0]);
    assert(sql[0] == 'S');
    assert(trim_start(sql) == sql);
    assert(sql[1] == head[1] && sql[2] == head[2] && sql[3] == head[3] && sql[4] == head[4]
        && sql[5] == head[5] && sql[6] == head[6]);
    assert(starts_with_letters(sql, "select"@));
    assert(!starts_with_letters(sql, "pragma"@)) by {
        let t = trim_start(sql);
        assert(t[0] == 'S');
    }
}

/// The name that the database reads out of a preview query is that of the table, and the
/// limit follows it, whatever characters the name holds.
pub proof fn law_preview_names_the_table(table: Seq<char>, n: nat)
    ensures
        preview_query(table, n) == (StatementView::Query {
            sql: preview_sql(table, n),
            param: None,
        }),
        preview_sql(table, n).len() > "SELECT * FROM "@.len(),
        preview_sql(table, n).take("SELECT * FROM "@.len() as int) == "SELECT * FROM "@,
        preview_sql(table, n)["SELECT * FROM "@.len() as int] == '"',
        read_quoted(preview_sql(table, n).skip("SELECT * FROM "@.len() as int + 1)) == Some(
            (table, " LIMIT "@ + decimal(n)),
        ),
{
    reveal_strlit(" LIMIT ");
    let rest = " LIMIT "@ + decimal(n);
    law_quoted_round_trip(table, rest);
    assert(preview_sql(table, n).take("SELECT * FROM "@.len() as int) =~= "SELECT * FROM "@);
    assert(preview_sql(table, n).skip("SELECT * FROM "@.len() as int + 1) =~= (quoted(table)
        + rest).skip(1));
}

/// The name that the database reads out of a query for foreign keys is that of the table,
/// whatever characters the name holds.
pub proof fn law_keys_query_names_the_table(table: Seq<char>)
    ensures
        keys_query(table) is Query,
        keys_query(table)->param is None,
        keys_query(table)->Query_sql.len() > "PRAGMA foreign_key_list("@.len(),
        keys_query(table)->Query_sql.take("PRAGMA foreign_key_list("@.len() as int)
            == "PRAGMA foreign_key_list("@,
        keys_query(table)->Query_sql["PRAGMA foreign_key_list("@.len() as int] == '"',
        read_quoted(
            keys_query(table)->Query_sql.skip("PRAGMA foreign_key_list("@.len() as int + 1),
        ) == Some((table, ")"@)),
{
    reveal_strlit(")");
    law_quoted_round_trip(table, ")"@);
    assert(keys_query(table)->Query_sql.take("PRAGMA foreign_key_list("@.len() as int)
        =~= "PRAGMA foreign_key_list("@);
    assert(keys_query(table)->Query_sql.skip("PRAGMA foreign_key_list("@.len() as int + 1)
        =~= (quoted(table) + ")"@).skip(1));
}

/// What can be exported is a query when it is typed in: the same text is sent, but for white
/// space at its ends.
pub proof fn law_exports_are_queries(sql: Seq<char>)
    ensures
        export_for(trimmed(sql), selects(trimmed(sql))) is Ok ==> {
            &&& export_for(trimmed(sql), selects(trimmed(sql)))->Ok_0 == statement_for(
                trimmed(sql),
                queries(trimmed(sql)),
            )
            &&& statement_for(sql, queries(sql)) == (StatementView::Query { sql, param: None })
        },
{
    law_kind_of_trimmed(sql);
    law_selects_are_queries(sql);
    law_selects_are_queries(trimmed(sql));
}

/// A `PRAGMA` is a query when it is typed in, and no export.
pub proof fn law_pragmas_are_no_exports(sql: Seq<char>)
    requires
        keyword_verdict(sql, "pragma"@) == Some(true),
    ensures
        statement_for(sql, queries(sql)) == (StatementView::Query { sql, param: None }),
        export_for(trimmed(sql), selects(trimmed(sql))) == Err::<StatementView, FailureView>(
            FailureView::NotSelect,
        ),
{
    law_kind_of_trimmed(sql);
    law_selects_are_queries(sql);
    reveal_strlit("select");
    reveal_strlit("pragma");
    let t = trim_start(sql);
    assert(same_letter(t[0], "pragma"@[0]));
    assert(!starts_with_letters(sql, "select"@)) by {
        assert(!same_letter(t[0], "select"@[0]));
    }
}

/// The query for a definition has one parameter, which is the name of the table, and is the
/// same for all tables but for that. So different tables are asked for differently.
pub proof fn law_ddl_query_names_the_table(table: Seq<char>, other: Seq<char>)
    ensures
        ddl_query(table) == (StatementView::Query {
            sql: "SELECT sql FROM sqlite_master WHERE type='table' AND name=?1"@,
            param: Some(table),
        }),
        ddl_query(table) == ddl_query(other) <==> table == other,
{
}

/// Different tables are previewed, and asked for their foreign keys, by different queries.
pub proof fn law_tables_are_told_apart(table: Seq<char>, other: Seq<char>, n: nat, m: nat)
    ensures
        preview_query(table, n) == preview_query(other, m) <==> table == other && n == m,
        keys_query(table) == keys_query(other) <==> table == other,
{
    law_preview_names_the_table(table, n);
    law_preview_names_the_table(other, m);
    law_keys_query_names_the_table(table);
    law_keys_query_names_the_table(other);
    if preview_query(table, n) == preview_query(other, m) {
        assert(" LIMIT "@ + decimal(n) == " LIMIT "@ + decimal(m));
        assert((" LIMIT "@ + decimal(n)).skip(" LIMIT "@.len() as int) =~= decimal(n));
        assert((" LIMIT "@ + decimal(m)).skip(" LIMIT "@.len() as int) =~= decimal(m));
        law_decimal(n);
        law_decimal(m);
    }
}

/// A text that was typed in is sent as it is, without parameters, whatever kind of statement it
/// is.
pub proof fn law_typed_text_is_sent_as_it_is(sql: Seq<char>, query: bool)
    ensures
        match statement_for(sql, query) {
            StatementView::Query { sql: sent, param } => sent == sql && param is None && query,
            StatementView::Other { sql: sent } => sent == sql && !query,
        },
        match statement_for(sql, queries(sql)) {
            StatementView::Query { sql: sent, param } => sent == sql && param is None && queries(
                sql,
            ),
            StatementView::Other { sql: sent } => sent == sql && !queries(sql),
        },
{
}

/// An export sends its text as it is, without parameters, and is refused exactly when the text
/// is no `SELECT`.
pub proof fn law_exported_text_is_sent_as_it_is(sql: Seq<char>, select: bool)
    ensures
        select ==> export_for(sql, select) == Ok::<StatementView, FailureView>(
            StatementView::Query { sql, param: None },
        ),
        !select ==> export_for(sql, select) == Err::<StatementView, FailureView>(
            FailureView::NotSelect,
        ),
        selects(sql) ==> export_for(sql, selects(sql)) == Ok::<StatementView, FailureView>(
            StatementView::Query { sql, param: None },
        ),
        !selects(sql) ==> export_for(sql, selects(sql)) == Err::<StatementView, FailureView>(
            FailureView::NotSelect,
        ),
{
}

/// Nothing of a statement is lost from the view of it.
pub proof fn law_statement_is_seen_whole(statement: Statement)
    ensures
        match statement {
            Statement::Query { sql, param: Some(param) } => statement@ == (StatementView::Query {
                sql: sql@,
                param: Some(param@),
            }),
            Statement::Query { sql, param: None } => statement@ == (StatementView::Query {
                sql: sql@,
                param: None,
            }),
            Statement::Other { sql } => statement@ == (StatementView::Other { sql: sql@ }),
        },
{
}

/// Nothing of a session is lost from the view of it.
pub proof fn law_session_is_seen_whole(db: DB)
    ensures
        db@.connected == db.connected,
        db.table is None ==> db@.table is None,
        db.table is Some ==> db@.table == Some(db.table->0@),
{
}

/// A file that cannot be opened leaves the session as it was, with the database that was open;
/// any other leaves it with a database, even if the first statement failed. The selected table
/// stays either way.
pub proof fn law_opening_keeps_what_was_open(db: DbView, outcome: Opening)
    ensures
        outcome is Refused ==> after_opening(db, outcome) == db,
        !(outcome is Refused) ==> after_opening(db, outcome).connected,
        after_opening(db, outcome).table == db.table,
{
}

} // verus!
