//! What the database answers: values, rows and results, and how they are turned into text.
use crate::db::{statement_for, Statement, StatementView};
use crate::failure::{Failure, FailureView};
use crate::number::{
    decimal, digits_value, is_digits, law_decimal, law_numbers_are_told_apart, signed_decimal,
    signed_text,
};
use crate::pattern::queries;
use vstd::prelude::*;
use vstd::utf8::{
    decode_utf8, encode_utf8, encode_utf8_decode_utf8, encode_utf8_valid_utf8, valid_utf8,
};

verus! {

/// A value in a row.
#[derive(Debug, PartialEq, Eq)]
pub enum Value {
    Null,
    Integer(i64),
    /// A floating-point number, as it is written.
    Real(String),
    /// The bytes of a text, which need not be valid UTF-8.
    Text(Vec<u8>),
    Blob,
    /// A value that could not be read.
    Unreadable,
}

/// A foreign key: the column it is on, the table and the column it refers to, and what
/// happens on updates and deletions.
pub type ForeignKey = (String, String, String, String);

/// A foreign key as the database tells of it: a row whose columns are a number, another
/// number, the table that is referred to, the column that the key is on, the column that is
/// referred to, and what happens on updates and on deletions. A column that could not be read
/// as text holds the message of the database.
pub type KeyRow = [Result<String, String>; 7];

/// The answer to a query: the column names, and the rows up to the first that could not be
/// fetched.
#[derive(Debug, PartialEq, Eq)]
pub struct Answer {
    pub cols: Vec<String>,
    pub rows: Vec<Result<Vec<Value>, String>>,
}

/// The result of a statement.
#[derive(Debug, PartialEq, Eq)]
pub enum QueryResult {
    Rows { cols: Vec<String>, rows: Vec<Vec<String>> },
    Ack { rowcount: usize },
}

/// A result with its texts as sequences of characters.
pub enum ResultView {
    Rows { cols: Seq<Seq<char>>, rows: Seq<Seq<Seq<char>>> },
    Ack { rowcount: nat },
}

impl View for QueryResult {
    type V = ResultView;

    open spec fn view(&self) -> ResultView {
        match *self {
            QueryResult::Rows { cols, rows } => ResultView::Rows {
                cols: cols.deep_view(),
                rows: rows.deep_view(),
            },
            QueryResult::Ack { rowcount } => ResultView::Ack { rowcount: rowcount as nat },
        }
    }
}

/// The text that `String::from_utf8_lossy` reads from bytes.
pub uninterp spec fn lossy_text(bytes: Seq<u8>) -> Seq<char>;

/// A value as text.
pub open spec fn cell_text(value: Value) -> Seq<char> {
    match value {
        Value::Null => seq![],
        Value::Integer(n) => signed_decimal(n as int),
        Value::Real(text) => text@,
        Value::Text(bytes) => if valid_utf8(bytes@) {
            decode_utf8(bytes@)
        } else {
            lossy_text(bytes@)
        },
        Value::Blob => "<blob>"@,
        Value::Unreadable => seq![],
    }
}

/// The values of a row as texts.
pub open spec fn row_texts(row: Seq<Value>) -> Seq<Seq<char>> {
    row.map_values(|v: Value| cell_text(v))
}

/// The first message that is there.
pub open spec fn first_message(messages: Seq<Option<Seq<char>>>) -> Option<Seq<char>>
    decreases messages.len(),
{
    if messages.len() == 0 {
        None
    } else if messages[0] is Some {
        messages[0]
    } else {
        first_message(messages.skip(1))
    }
}

/// The message of an item that failed.
pub open spec fn message_in<T>(item: Result<T, String>) -> Option<Seq<char>> {
    match item {
        Ok(_) => None,
        Err(message) => Some(message@),
    }
}

/// The messages of the items, in order.
pub open spec fn messages_in<T>(items: Seq<Result<T, String>>) -> Seq<Option<Seq<char>>> {
    items.map_values(|item: Result<T, String>| message_in(item))
}

/// The message of a foreign key that cannot be told in full: the column it is on, the table
/// and the column it refers to have to be read, in this order.
pub open spec fn key_message(row: KeyRow) -> Option<Seq<char>> {
    first_message(seq![message_in(row@[3]), message_in(row@[2]), message_in(row@[4])])
}

/// The message of a row of foreign keys that was not fetched or cannot be told in full.
pub open spec fn key_row_message(item: Result<KeyRow, String>) -> Option<Seq<char>> {
    match item {
        Ok(row) => key_message(row),
        Err(message) => Some(message@),
    }
}

/// A text that may be unreadable, which then is empty.
pub open spec fn text_or_empty(text: Result<String, String>) -> Seq<char> {
    match text {
        Ok(text) => text@,
        Err(_) => seq![],
    }
}

/// A foreign key as it is told.
pub open spec fn key_texts(row: KeyRow) -> (Seq<char>, Seq<char>, Seq<char>, Seq<char>) {
    (
        row@[3]->Ok_0@,
        row@[2]->Ok_0@,
        row@[4]->Ok_0@,
        "upd:"@ + text_or_empty(row@[5]) + ", del:"@ + text_or_empty(row@[6]),
    )
}

/// The names in an answer, or the first failure in it.
pub open spec fn names_in(answer: Result<Vec<Result<String, String>>, String>) -> Result<
    Seq<Seq<char>>,
    FailureView,
> {
    match answer {
        Err(message) => Err(FailureView::Outside(message@)),
        Ok(items) => match first_message(messages_in(items@)) {
            Some(message) => Err(FailureView::Outside(message)),
            None => Ok(items@.map_values(|item: Result<String, String>| item->Ok_0@)),
        },
    }
}

/// The rows in an answer as texts, or the first failure in it.
pub open spec fn rows_in(answer: Result<Answer, String>) -> Result<
    (Seq<Seq<char>>, Seq<Seq<Seq<char>>>),
    FailureView,
> {
    match answer {
        Err(message) => Err(FailureView::Outside(message@)),
        Ok(answer) => match first_message(messages_in(answer.rows@)) {
            Some(message) => Err(FailureView::Outside(message)),
            None => Ok(
                (
                    answer.cols.deep_view(),
                    answer.rows@.map_values(
                        |item: Result<Vec<Value>, String>| row_texts(item->Ok_0@),
                    ),
                ),
            ),
        },
    }
}

/// The result of a statement, given what came out of it and how many rows were changed: a
/// query gives rows, even if there are none; any other statement gives the rows that came out,
/// or else the number of those it changed.
pub open spec fn result_in(
    statement: StatementView,
    answer: Result<Answer, String>,
    changed: nat,
) -> Result<ResultView, FailureView> {
    match rows_in(answer) {
        Ok((cols, rows)) => if statement is Query || rows.len() > 0 {
            Ok(ResultView::Rows { cols, rows })
        } else {
            Ok(ResultView::Ack { rowcount: changed })
        },
        Err(failure) => Err(failure),
    }
}

/// The foreign keys in an answer, or the first failure in it.
pub open spec fn keys_in(answer: Result<Vec<Result<KeyRow, String>>, String>) -> Result<
    Seq<(Seq<char>, Seq<char>, Seq<char>, Seq<char>)>,
    FailureView,
> {
    match answer {
        Err(message) => Err(FailureView::Outside(message@)),
        Ok(items) => match first_message(
            items@.map_values(|item: Result<KeyRow, String>| key_row_message(item)),
        ) {
            Some(message) => Err(FailureView::Outside(message)),
            None => Ok(items@.map_values(|item: Result<KeyRow, String>| key_texts(item->Ok_0))),
        },
    }
}

/// The definition of a table in an answer: there is none where the answer has no row or the
/// row holds no text.
pub open spec fn ddl_in(answer: Result<Option<Result<Option<String>, String>>, String>) -> Result<
    Option<Seq<char>>,
    FailureView,
> {
    match answer {
        Err(message) => Err(FailureView::Outside(message@)),
        Ok(None) => Ok(None),
        Ok(Some(Err(message))) => Err(FailureView::Outside(message@)),
        Ok(Some(Ok(None))) => Ok(None),
        Ok(Some(Ok(Some(text)))) => Ok(Some(text@)),
    }
}

/// `String::from_utf8_lossy` reads bytes as UTF-8. Valid UTF-8 gives the text that it
/// encodes; what else is read depends on the bytes alone and has the name `lossy_text`.
#[verifier::external_body]
fn read_lossy(bytes: &Vec<u8>) -> (r: String)
    ensures
        r@ == lossy_text(bytes@),
        valid_utf8(bytes@) ==> r@ == decode_utf8(bytes@),
{
    String::from_utf8_lossy(bytes).into_owned()
}

/// Writes a value as text.
pub fn value_text(value: &Value) -> (r: String)
    ensures
        r@ == cell_text(*value),
{
    match value {
        Value::Null => String::new(),
        Value::Integer(n) => signed_text(*n),
        Value::Real(text) => text.clone(),
        Value::Text(bytes) => read_lossy(bytes),
        Value::Blob => "<blob>".to_owned(),
        Value::Unreadable => String::new(),
    }
}

/// Writes the values of a row as texts.
pub fn extract_row(row: &Vec<Value>) -> (r: Vec<String>)
    ensures
        r.deep_view() == row_texts(row@),
{
    let mut out: Vec<String> = Vec::new();
    let mut i: usize = 0;
    while i < row.len()
        invariant
            i <= row@.len(),
            out@.len() == i,
            forall|k: int| 0 <= k < i ==> (#[trigger] out@[k])@ == cell_text(row@[k]),
        decreases row@.len() - i,
    {
        out.push(value_text(&row[i]));
        i += 1;
    }
    assert(out.deep_view() =~= row_texts(row@));
    out
}

proof fn lemma_first_message(messages: Seq<Option<Seq<char>>>, n: int)
    requires
        0 <= n <= messages.len(),
        forall|i: int| 0 <= i < n ==> #[trigger] messages[i] is None,
    ensures
        n == messages.len() ==> first_message(messages) is None,
        n < messages.len() && messages[n] is Some ==> first_message(messages) == messages[n],
    decreases n,
{
    if n > 0 {
        let tail = messages.skip(1);
        assert forall|i: int| 0 <= i < n - 1 implies #[trigger] tail[i] is None by {
            assert(tail[i] == messages[i + 1]);
        }
        assert(messages[0] is None);
        lemma_first_message(tail, n - 1);
    }
}

/// Takes the names out of an answer, or the first failure in it.
pub fn read_names(answer: Result<Vec<Result<String, String>>, String>) -> (r: Result<
    Vec<String>,
    Failure,
>)
    ensures
        match names_in(answer) {
            Ok(names) => r is Ok && r->Ok_0.deep_view() == names,
            Err(failure) => r is Err && r->Err_0@ == failure,
        },
{
    let items = match answer {
        Ok(items) => items,
        Err(message) => return Err(Failure::Outside(message)),
    };
    let ghost messages = messages_in(items@);
    let mut out: Vec<String> = Vec::new();
    let mut i: usize = 0;
    while i < items.len()
        invariant
            answer == Ok::<Vec<Result<String, String>>, String>(items),
            messages == messages_in(items@),
            i <= items@.len(),
            out@.len() == i,
            forall|k: int| 0 <= k < i ==> #[trigger] messages[k] is None,
            forall|k: int| 0 <= k < i ==> (#[trigger] out@[k])@ == items@[k]->Ok_0@,
        decreases items@.len() - i,
    {
        match &items[i] {
            Ok(name) => out.push(name.clone()),
            Err(message) => {
                proof {
                    lemma_first_message(messages, i as int);
                }
                return Err(Failure::Outside(message.clone()));
            },
        }
        i += 1;
    }
    proof {
        lemma_first_message(messages, i as int);
        assert(out.deep_view() =~= items@.map_values(|item: Result<String, String>| item->Ok_0@));
    }
    Ok(out)
}

/// Takes the rows out of an answer as texts, or the first failure in it.
pub fn read_rows(answer: Result<Answer, String>) -> (r: Result<
    (Vec<String>, Vec<Vec<String>>),
    Failure,
>)
    ensures
        match rows_in(answer) {
            Ok((cols, rows)) => r is Ok && r->Ok_0.0.deep_view() == cols && r->Ok_0.1.deep_view()
                == rows,
            Err(failure) => r is Err && r->Err_0@ == failure,
        },
{
    let found = match answer {
        Ok(found) => found,
        Err(message) => return Err(Failure::Outside(message)),
    };
    let ghost messages = messages_in(found.rows@);
    let mut out: Vec<Vec<String>> = Vec::new();
    let mut i: usize = 0;
    while i < found.rows.len()
        invariant
            answer == Ok::<Answer, String>(found),
            messages == messages_in(found.rows@),
            i <= found.rows@.len(),
            out@.len() == i,
            forall|k: int| 0 <= k < i ==> #[trigger] messages[k] is None,
            forall|k: int|
                0 <= k < i ==> (#[trigger] out@[k]).deep_view() == row_texts(
                    found.rows@[k]->Ok_0@,
                ),
        decreases found.rows@.len() - i,
    {
        match &found.rows[i] {
            Ok(row) => out.push(extract_row(row)),
            Err(message) => {
                proof {
                    lemma_first_message(messages, i as int);
                }
                return Err(Failure::Outside(message.clone()));
            },
        }
        i += 1;
    }
    proof {
        lemma_first_message(messages, i as int);
        assert(out.deep_view() =~= found.rows@.map_values(
            |item: Result<Vec<Value>, String>| row_texts(item->Ok_0@),
        ));
    }
    Ok((found.cols, out))
}

/// The text that may be unreadable.
fn or_empty(text: &Result<String, String>) -> (r: String)
    ensures
        r@ == text_or_empty(*text),
{
    match text {
        Ok(text) => text.clone(),
        Err(_) => String::new(),
    }
}

/// Tells of one foreign key.
pub fn read_key(row: &KeyRow) -> (r: Result<ForeignKey, Failure>)
    ensures
        match key_message(*row) {
            None => r is Ok && r->Ok_0.deep_view() == key_texts(*row),
            Some(message) => r is Err && r->Err_0@ == FailureView::Outside(message),
        },
{
    let ghost messages = seq![message_in(row@[3]), message_in(row@[2]), message_in(row@[4])];
    let from = match &row[3] {
        Ok(from) => from.clone(),
        Err(message) => {
            proof {
                lemma_first_message(messages, 0);
            }
            return Err(Failure::Outside(message.clone()));
        },
    };
    let ref_table = match &row[2] {
        Ok(ref_table) => ref_table.clone(),
        Err(message) => {
            proof {
                lemma_first_message(messages, 1);
            }
            return Err(Failure::Outside(message.clone()));
        },
    };
    let ref_col = match &row[4] {
        Ok(ref_col) => ref_col.clone(),
        Err(message) => {
            proof {
                lemma_first_message(messages, 2);
            }
            return Err(Failure::Outside(message.clone()));
        },
    };
    proof {
        lemma_first_message(messages, 3);
    }
    let mut actions = "upd:".to_owned();
    actions.append(or_empty(&row[5]).as_str());
    actions.append(", del:");
    actions.append(or_empty(&row[6]).as_str());
    Ok((from, ref_table, ref_col, actions))
}

/// Takes the foreign keys out of an answer, or the first failure in it.
pub fn read_keys(answer: Result<Vec<Result<KeyRow, String>>, String>) -> (r: Result<
    Vec<ForeignKey>,
    Failure,
>)
    ensures
        match keys_in(answer) {
            Ok(keys) => r is Ok && r->Ok_0.deep_view() == keys,
            Err(failure) => r is Err && r->Err_0@ == failure,
        },
{
    let items = match answer {
        Ok(items) => items,
        Err(message) => return Err(Failure::Outside(message)),
    };
    let ghost messages = items@.map_values(|item: Result<KeyRow, String>| key_row_message(item));
    let mut out: Vec<ForeignKey> = Vec::new();
    let mut i: usize = 0;
    while i < items.len()
        invariant
            answer == Ok::<Vec<Result<KeyRow, String>>, String>(items),
            messages == items@.map_values(|item: Result<KeyRow, String>| key_row_message(item)),
            i <= items@.len(),
            out@.len() == i,
            forall|k: int| 0 <= k < i ==> #[trigger] messages[k] is None,
            forall|k: int|
                0 <= k < i ==> (#[trigger] out@[k]).deep_view() == key_texts(items@[k]->Ok_0),
        decreases items@.len() - i,
    {
        assert(messages[i as int] == key_row_message(items@[i as int]));
        match &items[i] {
            Ok(row) => match read_key(row) {
                Ok(key) => out.push(key),
                Err(failure) => {
                    proof {
                        lemma_first_message(messages, i as int);
                    }
                    return Err(failure);
                },
            },
            Err(message) => {
                proof {
                    lemma_first_message(messages, i as int);
                }
                return Err(Failure::Outside(message.clone()));
            },
        }
        i += 1;
    }
    proof {
        lemma_first_message(messages, i as int);
        assert(out.deep_view() =~= items@.map_values(
            |item: Result<KeyRow, String>| key_texts(item->Ok_0),
        ));
    }
    Ok(out)
}

/// Takes the definition of a table out of an answer.
pub fn read_ddl(answer: Result<Option<Result<Option<String>, String>>, String>) -> (r: Result<
    Option<String>,
    Failure,
>)
    ensures
        match ddl_in(answer) {
            Ok(ddl) => r is Ok && r->Ok_0.deep_view() == ddl,
            Err(failure) => r is Err && r->Err_0@ == failure,
        },
{
    match answer {
        Ok(Some(Ok(ddl))) => Ok(ddl),
        Ok(Some(Err(message))) => Err(Failure::Outside(message)),
        Ok(None) => Ok(None),
        Err(message) => Err(Failure::Outside(message)),
    }
}

/// The result of a statement that gives rows.
pub fn rows_result(answer: Result<Answer, String>) -> (r: Result<QueryResult, Failure>)
    ensures
        match rows_in(answer) {
            Ok((cols, rows)) => r is Ok && r->Ok_0@ == (ResultView::Rows { cols, rows }),
            Err(failure) => r is Err && r->Err_0@ == failure,
        },
{
    match read_rows(answer) {
        Ok((cols, rows)) => Ok(QueryResult::Rows { cols, rows }),
        Err(failure) => Err(failure),
    }
}

/// The result of a statement that is no query: the rows that came out, or else the number of
/// those it changed.
pub fn other_result(answer: Result<Answer, String>, changed: usize) -> (r: Result<
    QueryResult,
    Failure,
>)
    ensures
        match rows_in(answer) {
            Ok((cols, rows)) => r is Ok && r->Ok_0@ == if rows.len() > 0 {
                ResultView::Rows { cols, rows }
            } else {
                ResultView::Ack { rowcount: changed as nat }
            },
            Err(failure) => r is Err && r->Err_0@ == failure,
        },
{
    let (cols, rows) = read_rows(answer)?;
    if rows.len() > 0 {
        Ok(QueryResult::Rows { cols, rows })
    } else {
        Ok(QueryResult::Ack { rowcount: changed })
    }
}

/// The result of a statement that was typed in, given what came out of it and how many rows
/// the database says were changed last.
pub fn run_result(
    statement: &Statement,
    answer: Result<Answer, String>,
    changed: usize,
) -> (r: Result<QueryResult, Failure>)
    ensures
        match result_in(statement@, answer, changed as nat) {
            Ok(result) => r is Ok && r->Ok_0@ == result,
            Err(failure) => r is Err && r->Err_0@ == failure,
        },
{
    match statement {
        Statement::Query { .. } => rows_result(answer),
        Statement::Other { .. } => other_result(answer, changed),
    }
}

/// A text that is kept in UTF-8 is shown as it is.
pub proof fn law_text_is_shown_as_it_is(text: Seq<char>, value: Value)
    requires
        value is Text,
        value->Text_0@ == encode_utf8(text),
    ensures
        cell_text(value) == text,
{
    encode_utf8_valid_utf8(text);
    encode_utf8_decode_utf8(text);
}

/// Rows that came out of a text that was typed in are never lost. A query gives rows even if
/// there are none; any other text that gives none is acknowledged with the number of rows that
/// were changed. It fails only where the answer holds a failure.
pub proof fn law_rows_are_never_lost(sql: Seq<char>, answer: Result<Answer, String>, changed: nat)
    ensures
        result_in(statement_for(sql, queries(sql)), answer, changed) is Err <==> rows_in(
            answer,
        ) is Err,
        rows_in(answer) is Ok ==> {
            let (cols, rows) = rows_in(answer)->Ok_0;
            let result = result_in(statement_for(sql, queries(sql)), answer, changed)->Ok_0;
            &&& rows.len() > 0 || queries(sql) ==> result == (ResultView::Rows { cols, rows })
            &&& rows.len() == 0 && !queries(sql) ==> result == (ResultView::Ack {
                rowcount: changed,
            })
        },
        rows_in(answer) is Err ==> result_in(
            statement_for(sql, queries(sql)),
            answer,
            changed,
        )->Err_0 == rows_in(answer)->Err_0,
{
}

/// The result has a row for each one that was fetched, with a cell for each of its values. So
/// where each row that was fetched has a value for each column, each row of the result has a
/// cell for each column.
pub proof fn law_each_value_has_its_cell(answer: Answer)
    requires
        first_message(messages_in(answer.rows@)) is None,
    ensures
        rows_in(Ok(answer)) is Ok,
        rows_in(Ok(answer))->Ok_0.0.len() == answer.cols@.len(),
        rows_in(Ok(answer))->Ok_0.1.len() == answer.rows@.len(),
        forall|i: int|
            0 <= i < answer.rows@.len() ==> (#[trigger] rows_in(Ok(answer))->Ok_0.1[i]).len()
                == answer.rows@[i]->Ok_0@.len(),
        (forall|i: int|
            0 <= i < answer.rows@.len() ==> (#[trigger] answer.rows@[i])->Ok_0@.len()
                == answer.cols@.len()) ==> forall|i: int|
            0 <= i < answer.rows@.len() ==> (#[trigger] rows_in(Ok(answer))->Ok_0.1[i]).len()
                == rows_in(Ok(answer))->Ok_0.0.len(),
{
}

/// A real number is shown as it is written, character for character, so numbers that are
/// written differently are shown differently.
pub proof fn law_reals_are_shown_whole(a: Value, b: Value)
    requires
        a is Real,
        b is Real,
    ensures
        cell_text(a).len() == a->Real_0@.len(),
        forall|i: int| 0 <= i < a->Real_0@.len() ==> cell_text(a)[i] == #[trigger] a->Real_0@[i],
        cell_text(a) == cell_text(b) <==> a->Real_0@ == b->Real_0@,
{
}

/// An integer is shown in decimal: its digits stand for its distance from zero, a minus sign
/// stands in front exactly when it is negative, and different integers are shown differently.
pub proof fn law_integers_are_shown_in_decimal(n: i64, m: i64)
    ensures
        n >= 0 ==> is_digits(cell_text(Value::Integer(n))) && digits_value(
            cell_text(Value::Integer(n)),
        ) == n,
        n < 0 ==> cell_text(Value::Integer(n))[0] == '-' && is_digits(
            cell_text(Value::Integer(n)).skip(1),
        ) && digits_value(cell_text(Value::Integer(n)).skip(1)) == -n,
        cell_text(Value::Integer(n)) == cell_text(Value::Integer(m)) <==> n == m,
{
    law_numbers_are_told_apart(n as int, m as int);
    if n < 0 {
        law_decimal((-n) as nat);
        assert(cell_text(Value::Integer(n)).skip(1) =~= decimal((-n) as nat));
    } else {
        law_decimal(n as nat);
    }
}

/// What is missing or cannot be read is shown as an empty cell, and no bytes are shown of a
/// blob.
pub proof fn law_other_values_are_shown()
    ensures
        cell_text(Value::Null).len() == 0,
        cell_text(Value::Unreadable).len() == 0,
        cell_text(Value::Blob) == "<blob>"@,
{
}

/// Text in UTF-8 is shown so that no two texts look the same.
pub proof fn law_texts_are_told_apart(s: Seq<char>, t: Seq<char>, a: Value, b: Value)
    requires
        a is Text,
        b is Text,
        a->Text_0@ == encode_utf8(s),
        b->Text_0@ == encode_utf8(t),
    ensures
        cell_text(a) == cell_text(b) <==> s == t,
{
    law_text_is_shown_as_it_is(s, a);
    law_text_is_shown_as_it_is(t, b);
}

/// A row has a cell for each value, in the same order, and each cell shows its value.
pub proof fn law_each_value_is_shown(row: Seq<Value>, i: int)
    requires
        0 <= i < row.len(),
    ensures
        row_texts(row).len() == row.len(),
        row_texts(row)[i] == cell_text(row[i]),
{
}

proof fn lemma_no_message<T>(items: Seq<Result<T, String>>)
    requires
        forall|i: int| 0 <= i < items.len() ==> #[trigger] items[i] is Ok,
    ensures
        first_message(messages_in(items)) is None,
{
    let messages = messages_in(items);
    assert forall|i: int| 0 <= i < messages.len() implies #[trigger] messages[i] is None by {
        assert(items[i] is Ok);
    }
    lemma_first_message(messages, messages.len() as int);
}

proof fn lemma_message_at<T>(items: Seq<Result<T, String>>, n: int)
    requires
        0 <= n < items.len(),
        forall|i: int| 0 <= i < n ==> #[trigger] items[i] is Ok,
        items[n] is Err,
    ensures
        first_message(messages_in(items)) == Some(items[n]->Err_0@),
{
    let messages = messages_in(items);
    assert forall|i: int| 0 <= i < n implies #[trigger] messages[i] is None by {
        assert(items[i] is Ok);
    }
    lemma_first_message(messages, n);
}

/// Where all rows were fetched, the result has all column names and all rows in their order,
/// and each cell shows its value.
pub proof fn law_all_rows_are_read(answer: Answer)
    requires
        forall|i: int| 0 <= i < answer.rows@.len() ==> #[trigger] answer.rows@[i] is Ok,
    ensures
        rows_in(Ok(answer)) is Ok,
        ({
            let (cols, rows) = rows_in(Ok(answer))->Ok_0;
            &&& cols.len() == answer.cols@.len()
            &&& forall|i: int| 0 <= i < cols.len() ==> #[trigger] cols[i] == answer.cols@[i]@
            &&& rows.len() == answer.rows@.len()
            &&& forall|i: int|
                0 <= i < rows.len() ==> (#[trigger] rows[i]).len() == answer.rows@[i]->Ok_0@.len()
            &&& forall|i: int, j: int|
                0 <= i < rows.len() && 0 <= j < rows[i].len() ==> #[trigger] rows[i][j] == cell_text(
                    answer.rows@[i]->Ok_0@[j],
                )
        }),
{
    lemma_no_message(answer.rows@);
}

/// Where a row could not be fetched, or nothing at all, the first message says why, and no rows
/// are told.
pub proof fn law_first_failure_of_rows(answer: Answer, n: int, message: String)
    requires
        0 <= n < answer.rows@.len(),
        forall|i: int| 0 <= i < n ==> #[trigger] answer.rows@[i] is Ok,
        answer.rows@[n] == Err::<Vec<Value>, String>(message),
    ensures
        rows_in(Ok(answer)) is Err,
        rows_in(Ok(answer))->Err_0 == FailureView::Outside(message@),
        rows_in(Err(message)) is Err,
        rows_in(Err(message))->Err_0 == FailureView::Outside(message@),
{
    lemma_message_at(answer.rows@, n);
}

/// Where all names were fetched, all are told, in their order and as they are.
pub proof fn law_all_names_are_read(items: Vec<Result<String, String>>)
    requires
        forall|i: int| 0 <= i < items@.len() ==> #[trigger] items@[i] is Ok,
    ensures
        names_in(Ok(items)) is Ok,
        names_in(Ok(items))->Ok_0.len() == items@.len(),
        forall|i: int|
            0 <= i < items@.len() ==> #[trigger] names_in(Ok(items))->Ok_0[i] == items@[i]->Ok_0@,
{
    lemma_no_message(items@);
}

/// Where a name could not be fetched, or nothing at all, the first message says why, and no
/// names are told.
pub proof fn law_first_failure_of_names(
    items: Vec<Result<String, String>>,
    n: int,
    message: String,
)
    requires
        0 <= n < items@.len(),
        forall|i: int| 0 <= i < n ==> #[trigger] items@[i] is Ok,
        items@[n] == Err::<String, String>(message),
    ensures
        names_in(Ok(items)) is Err,
        names_in(Ok(items))->Err_0 == FailureView::Outside(message@),
        names_in(Err(message)) is Err,
        names_in(Err(message))->Err_0 == FailureView::Outside(message@),
{
    lemma_message_at(items@, n);
}

/// Whether a row of foreign keys was fetched and the column it is on, the table and the column
/// it refers to can be read.
pub open spec fn is_whole_key(item: Result<KeyRow, String>) -> bool {
    item is Ok && item->Ok_0@[2] is Ok && item->Ok_0@[3] is Ok && item->Ok_0@[4] is Ok
}

proof fn lemma_whole_key(item: Result<KeyRow, String>)
    requires
        is_whole_key(item),
    ensures
        key_row_message(item) is None,
{
    let row = item->Ok_0;
    let messages = seq![message_in(row@[3]), message_in(row@[2]), message_in(row@[4])];
    lemma_first_message(messages, 3);
}

/// Where all foreign keys were fetched and can be read, there are as many as rows, and each
/// tells of its row: the column it is on, the table and the column it refers to, and what
/// happens on updates and deletions, as far as that can be read.
pub proof fn law_all_keys_are_read(items: Vec<Result<KeyRow, String>>)
    requires
        forall|i: int| 0 <= i < items@.len() ==> is_whole_key(#[trigger] items@[i]),
    ensures
        keys_in(Ok(items)) is Ok,
        keys_in(Ok(items))->Ok_0.len() == items@.len(),
        forall|i: int|
            0 <= i < items@.len() ==> {
                let row = items@[i]->Ok_0@;
                let key = #[trigger] keys_in(Ok(items))->Ok_0[i];
                &&& key.0 == row[3]->Ok_0@
                &&& key.1 == row[2]->Ok_0@
                &&& key.2 == row[4]->Ok_0@
                &&& row[5] is Ok && row[6] is Ok ==> key.3 == "upd:"@ + row[5]->Ok_0@ + ", del:"@
                    + row[6]->Ok_0@
                &&& row[5] is Ok && row[6] is Err ==> key.3 == "upd:"@ + row[5]->Ok_0@ + ", del:"@
                &&& row[5] is Err && row[6] is Ok ==> key.3 == "upd:"@ + ", del:"@ + row[6]->Ok_0@
                &&& row[5] is Err && row[6] is Err ==> key.3 == "upd:"@ + ", del:"@
            },
{
    let messages = items@.map_values(|item: Result<KeyRow, String>| key_row_message(item));
    assert forall|i: int| 0 <= i < messages.len() implies #[trigger] messages[i] is None by {
        lemma_whole_key(items@[i]);
    }
    lemma_first_message(messages, messages.len() as int);
    assert forall|i: int| 0 <= i < items@.len() implies {
        let row = items@[i]->Ok_0@;
        let key = #[trigger] keys_in(Ok(items))->Ok_0[i];
        &&& key.0 == row[3]->Ok_0@
        &&& key.1 == row[2]->Ok_0@
        &&& key.2 == row[4]->Ok_0@
        &&& row[5] is Ok && row[6] is Ok ==> key.3 == "upd:"@ + row[5]->Ok_0@ + ", del:"@
            + row[6]->Ok_0@
        &&& row[5] is Ok && row[6] is Err ==> key.3 == "upd:"@ + row[5]->Ok_0@ + ", del:"@
        &&& row[5] is Err && row[6] is Ok ==> key.3 == "upd:"@ + ", del:"@ + row[6]->Ok_0@
        &&& row[5] is Err && row[6] is Err ==> key.3 == "upd:"@ + ", del:"@
    } by {
        let row = items@[i]->Ok_0@;
        let key = keys_in(Ok(items))->Ok_0[i];
        assert(key == key_texts(items@[i]->Ok_0));
        let upd = "upd:"@;
        let del = ", del:"@;
        assert(upd + Seq::<char>::empty() =~= upd);
        if row[6] is Err {
            assert(key.3 =~= upd + text_or_empty(row[5]) + del);
        }
    }
}

/// Where a foreign key could not be fetched or cannot be read, or nothing could be fetched at
/// all, the first message says why, and no keys are told. Of one row, the column it is on comes
/// first, then the table and the column it refers to.
pub proof fn law_first_failure_of_keys(
    items: Vec<Result<KeyRow, String>>,
    n: int,
    message: String,
)
    requires
        0 <= n < items@.len(),
        forall|i: int| 0 <= i < n ==> is_whole_key(#[trigger] items@[i]),
        !is_whole_key(items@[n]),
        ({
            let failed = Err::<String, String>(message);
            match items@[n] {
                Err(m) => m == message,
                Ok(row) => if row@[3] is Err {
                    row@[3] == failed
                } else if row@[2] is Err {
                    row@[2] == failed
                } else {
                    row@[4] == failed
                },
            }
        }),
    ensures
        keys_in(Ok(items)) is Err,
        keys_in(Ok(items))->Err_0 == FailureView::Outside(message@),
        keys_in(Err(message)) is Err,
        keys_in(Err(message))->Err_0 == FailureView::Outside(message@),
{
    let messages = items@.map_values(|item: Result<KeyRow, String>| key_row_message(item));
    assert forall|i: int| 0 <= i < n implies #[trigger] messages[i] is None by {
        lemma_whole_key(items@[i]);
    }
    assert(messages[n] == key_row_message(items@[n]));
    if items@[n] is Ok {
        let row = items@[n]->Ok_0;
        let own = seq![message_in(row@[3]), message_in(row@[2]), message_in(row@[4])];
        let at: int = if row@[3] is Err {
            0
        } else if row@[2] is Err {
            1
        } else {
            2
        };
        lemma_first_message(own, at);
        assert(own[at] == Some(message@));
    }
    lemma_first_message(messages, n);
}

/// The definition that was fetched is told as it is; there is none where nothing or no text was
/// fetched; and a failure is told with its message.
pub proof fn law_definitions_are_read(text: String, message: String)
    ensures
        ddl_in(Ok(Some(Ok(Some(text))))) is Ok,
        ddl_in(Ok(Some(Ok(Some(text)))))->Ok_0 == Some(text@),
        ddl_in(Ok(Some(Ok(None)))) == Ok::<Option<Seq<char>>, FailureView>(None),
        ddl_in(Ok(None)) == Ok::<Option<Seq<char>>, FailureView>(None),
        ddl_in(Ok(Some(Err(message)))) == Err::<Option<Seq<char>>, FailureView>(
            FailureView::Outside(message@),
        ),
        ddl_in(Err(message)) == Err::<Option<Seq<char>>, FailureView>(
            FailureView::Outside(message@),
        ),
{
}

/// Nothing of a result is lost from the view of it.
pub proof fn law_result_is_seen_whole(result: QueryResult)
    ensures
        match result {
            QueryResult::Rows { cols, rows } => {
                &&& result@ is Rows
                &&& result@->cols.len() == cols@.len()
                &&& forall|i: int| 0 <= i < cols@.len() ==> #[trigger] result@->cols[i] == cols@[i]@
                &&& result@->rows.len() == rows@.len()
                &&& forall|i: int|
                    0 <= i < rows@.len() ==> (#[trigger] result@->rows[i]).len() == rows@[i]@.len()
                &&& forall|i: int, j: int|
                    0 <= i < rows@.len() && 0 <= j < rows@[i]@.len() ==> #[trigger] result@->rows[i][j]
                        == rows@[i]@[j]@
            },
            QueryResult::Ack { rowcount } => result@ == (ResultView::Ack {
                rowcount: rowcount as nat,
            }),
        },
{
}

/// Text that is no valid UTF-8 is shown as `String::from_utf8_lossy` reads it.
pub proof fn law_broken_text_is_shown(value: Value)
    requires
        value is Text,
        !valid_utf8(value->Text_0@),
    ensures
        cell_text(value) == lossy_text(value->Text_0@),
{
}

} // verus!
