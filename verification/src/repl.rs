//! The prompt and what is made of the lines that are typed in.
use crate::db::{DbView, DB};
use crate::text::{chars_of, law_first_word_starts_the_text, trim, trimmed, words};
use vstd::prelude::*;

verus! {

/// What is printed at the start.
pub const BANNER: &'static str = "fast-sql-term (Rust) — .help for commands\n";

/// What came from the terminal.
#[derive(Debug, PartialEq, Eq)]
pub enum Input {
    Line(String),
    Interrupted,
    Eof,
    Failed(String),
}

/// What is to be done with it.
#[derive(Debug, PartialEq, Eq)]
pub enum Next {
    /// Ask again.
    Skip,
    /// Remember the line and carry out the command in it.
    Meta(String),
    /// Remember the line and send the statement in it.
    Sql(String),
    /// Print the text and ask again.
    Say(String),
    /// Print the text and stop.
    Stop(String),
    /// Report the text as an error and stop.
    Abort(String),
}

/// The same with texts as sequences of characters.
pub enum NextView {
    Skip,
    Meta(Seq<char>),
    Sql(Seq<char>),
    Say(Seq<char>),
    Stop(Seq<char>),
    Abort(Seq<char>),
}

impl View for Next {
    type V = NextView;

    open spec fn view(&self) -> NextView {
        match *self {
            Next::Skip => NextView::Skip,
            Next::Meta(line) => NextView::Meta(line@),
            Next::Sql(line) => NextView::Sql(line@),
            Next::Say(text) => NextView::Say(text@),
            Next::Stop(text) => NextView::Stop(text@),
            Next::Abort(text) => NextView::Abort(text@),
        }
    }
}

/// What is made of a line: white space at its ends does not count, an empty line is skipped,
/// and a dot at the start makes a command.
pub open spec fn line_meaning(line: Seq<char>) -> NextView {
    let text = trimmed(line);
    if text.len() == 0 {
        NextView::Skip
    } else if text[0] == '.' {
        NextView::Meta(text)
    } else {
        NextView::Sql(text)
    }
}

/// What is made of what came from the terminal.
pub open spec fn input_meaning(input: Input) -> NextView {
    match input {
        Input::Line(line) => line_meaning(line@),
        Input::Interrupted => NextView::Say("^C\n"@),
        Input::Eof => NextView::Stop("\n"@),
        Input::Failed(message) => NextView::Abort("Readline error: "@ + message@ + "\n"@),
    }
}

/// The prompt of a session.
pub open spec fn prompt_of(db: DbView) -> Seq<char> {
    if db.connected {
        "sql> "@
    } else {
        "sql(no-db)> "@
    }
}

/// The prompt, which tells whether a database is open.
pub fn prompt(db: &DB) -> (r: &'static str)
    ensures
        r@ == if db@.connected {
            "sql> "@
        } else {
            "sql(no-db)> "@
        },
        r@ == prompt_of(db@),
{
    if db.connected {
        "sql> "
    } else {
        "sql(no-db)> "
    }
}

/// Says what is to be done with what came from the terminal.
pub fn take_input(input: Input) -> (r: Next)
    ensures
        r@ == input_meaning(input),
{
    match input {
        Input::Line(line) => {
            let text = trim(line.as_str());
            let chars = chars_of(text.as_str());
            if chars.len() == 0 {
                Next::Skip
            } else if chars[0] == '.' {
                Next::Meta(text)
            } else {
                Next::Sql(text)
            }
        },
        Input::Interrupted => Next::Say("^C\n".to_owned()),
        Input::Eof => Next::Stop("\n".to_owned()),
        Input::Failed(message) => {
            let mut out = "Readline error: ".to_owned();
            out.append(message.as_str());
            out.append("\n");
            Next::Abort(out)
        },
    }
}

/// A line that was typed in is skipped exactly when it holds no word. Any other is a command
/// where its first character that is no white space is a dot, and a statement where it is not;
/// either way it is taken whole, but for the white space at its ends.
pub proof fn law_lines_are_taken(line: String)
    ensures
        input_meaning(Input::Line(line)) is Skip <==> words(line@).len() == 0,
        words(line@).len() > 0 && words(line@)[0][0] == '.' ==> input_meaning(Input::Line(line))
            == NextView::Meta(trimmed(line@)),
        words(line@).len() > 0 && words(line@)[0][0] != '.' ==> input_meaning(Input::Line(line))
            == NextView::Sql(trimmed(line@)),
{
    law_first_word_starts_the_text(line@);
}

/// White space at the ends of a line makes no difference.
pub proof fn law_ends_of_lines_do_not_count(a: String, b: String)
    requires
        trimmed(a@) == trimmed(b@),
    ensures
        input_meaning(Input::Line(a)) == input_meaning(Input::Line(b)),
{
}

/// An interrupt goes on, the end of the input stops, and a failure stops with its message.
pub proof fn law_ends_of_input(message: String)
    ensures
        input_meaning(Input::Interrupted) == NextView::Say("^C\n"@),
        input_meaning(Input::Eof) == NextView::Stop("\n"@),
        input_meaning(Input::Failed(message)) == NextView::Abort(
            "Readline error: "@ + message@ + "\n"@,
        ),
{
}

/// Nothing that was decided on is lost from the view of it.
pub proof fn law_next_is_seen_whole(next: Next)
    ensures
        match next {
            Next::Skip => next@ is Skip,
            Next::Meta(line) => next@ == NextView::Meta(line@),
            Next::Sql(line) => next@ == NextView::Sql(line@),
            Next::Say(text) => next@ == NextView::Say(text@),
            Next::Stop(text) => next@ == NextView::Stop(text@),
            Next::Abort(text) => next@ == NextView::Abort(text@),
        },
{
}

/// The prompt tells whether a database is open, and nothing else changes it.
pub proof fn law_prompt_tells_of_the_database(a: DbView, b: DbView)
    ensures
        prompt_of(a) == prompt_of(b) <==> a.connected == b.connected,
        a.connected ==> prompt_of(a) == "sql> "@,
        !a.connected ==> prompt_of(a) == "sql(no-db)> "@,
{
    reveal_strlit("sql> ");
    reveal_strlit("sql(no-db)> ");
    assert("sql> "@.len() != "sql(no-db)> "@.len());
}

} // verus!
