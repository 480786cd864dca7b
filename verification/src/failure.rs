//! What can go wrong, and how it is told.
use vstd::prelude::*;

verus! {

/// The commands that cannot do without an argument.
#[derive(Clone, Copy, Debug, PartialEq, Eq, Structural)]
pub enum Verb {
    Open,
    Ddl,
    Preview,
    Goto,
    Find,
    ExportCsv,
}

/// Why a command or a statement failed.
#[derive(Debug, PartialEq, Eq)]
pub enum Failure {
    /// There is no open database.
    NoDb,
    /// The command lacks an argument.
    Usage(Verb),
    /// No table was named and none is selected.
    NoTable,
    /// There is no query behind the path of an export.
    NoQuery,
    /// What is to be exported is no `SELECT`.
    NotSelect,
    /// The database file cannot be opened. The cause is the message of the database.
    CannotOpen { cause: String },
    /// The file of that path cannot be created. The cause is the message of the system.
    CannotCreate { path: String, cause: String },
    /// The message of the database or of the system.
    Outside(String),
}

/// A failure with its texts as sequences of characters.
pub enum FailureView {
    NoDb,
    Usage(Verb),
    NoTable,
    NoQuery,
    NotSelect,
    CannotOpen { cause: Seq<char> },
    CannotCreate { path: Seq<char>, cause: Seq<char> },
    Outside(Seq<char>),
}

impl View for Failure {
    type V = FailureView;

    open spec fn view(&self) -> FailureView {
        match *self {
            Failure::NoDb => FailureView::NoDb,
            Failure::Usage(verb) => FailureView::Usage(verb),
            Failure::NoTable => FailureView::NoTable,
            Failure::NoQuery => FailureView::NoQuery,
            Failure::NotSelect => FailureView::NotSelect,
            Failure::CannotOpen { cause } => FailureView::CannotOpen { cause: cause@ },
            Failure::CannotCreate { path, cause } => FailureView::CannotCreate {
                path: path@,
                cause: cause@,
            },
            Failure::Outside(message) => FailureView::Outside(message@),
        }
    }
}

/// How a command that lacks an argument is to be used.
pub open spec fn usage_text(verb: Verb) -> Seq<char> {
    match verb {
        Verb::Open => "Usage: .open <file.db>"@,
        Verb::Ddl => "Usage: .ddl <table>"@,
        Verb::Preview => "Usage: .preview <table> [n]"@,
        Verb::Goto => "Usage: .goto <table>"@,
        Verb::Find => "Usage: .find <pattern>"@,
        Verb::ExportCsv => "Usage: .exportcsv <path> <SELECT ...>"@,
    }
}

impl FailureView {
    /// The message of what lies behind the failure, where the failure has a text of its own.
    pub open spec fn cause(self) -> Option<Seq<char>> {
        match self {
            FailureView::CannotOpen { cause } => Some(cause),
            FailureView::CannotCreate { cause, .. } => Some(cause),
            _ => None,
        }
    }

    /// The message that tells of the failure.
    pub open spec fn text(self) -> Seq<char> {
        match self {
            FailureView::NoDb => "No DB open. Use .open <file.db>"@,
            FailureView::Usage(verb) => usage_text(verb),
            FailureView::NoTable => "No table selected; usage: .fk [table]"@,
            FailureView::NoQuery => "Provide a SELECT query after the path"@,
            FailureView::NotSelect => ".exportcsv expects a SELECT query"@,
            FailureView::CannotOpen { .. } => "open sqlite"@,
            FailureView::CannotCreate { path, .. } => "create "@ + path,
            FailureView::Outside(message) => message,
        }
    }
}

impl Failure {
    /// The message that tells of the failure.
    pub fn message(&self) -> (r: String)
        ensures
            r@ == self@.text(),
    {
        match self {
            Failure::NoDb => "No DB open. Use .open <file.db>".to_owned(),
            Failure::Usage(Verb::Open) => "Usage: .open <file.db>".to_owned(),
            Failure::Usage(Verb::Ddl) => "Usage: .ddl <table>".to_owned(),
            Failure::Usage(Verb::Preview) => "Usage: .preview <table> [n]".to_owned(),
            Failure::Usage(Verb::Goto) => "Usage: .goto <table>".to_owned(),
            Failure::Usage(Verb::Find) => "Usage: .find <pattern>".to_owned(),
            Failure::Usage(Verb::ExportCsv) => "Usage: .exportcsv <path> <SELECT ...>".to_owned(),
            Failure::NoTable => "No table selected; usage: .fk [table]".to_owned(),
            Failure::NoQuery => "Provide a SELECT query after the path".to_owned(),
            Failure::NotSelect => ".exportcsv expects a SELECT query".to_owned(),
            Failure::CannotOpen { .. } => "open sqlite".to_owned(),
            Failure::CannotCreate { path, .. } => "create ".to_owned().concat(path.as_str()),
            Failure::Outside(message) => message.clone(),
        }
    }

    /// The message of what lies behind the failure, where the failure has a text of its own.
    pub fn cause(&self) -> (r: Option<String>)
        ensures
            r.deep_view() == self@.cause(),
    {
        match self {
            Failure::CannotOpen { cause } => Some(cause.clone()),
            Failure::CannotCreate { cause, .. } => Some(cause.clone()),
            _ => None,
        }
    }

    /// The line that reports the failure.
    pub fn report(&self) -> (r: String)
        ensures
            r@ == "Error: "@ + self@.text() + seq!['\n'],
    {
        let mut out = "Error: ".to_owned();
        out.append(self.message().as_str());
        out.push('\n');
        assert(out@ =~= "Error: "@ + self@.text() + seq!['\n']);
        out
    }
}

/// The message of the database or of the system is told as it is. A file that cannot be
/// created is named, and what lies behind that, or behind a database that cannot be opened, is
/// kept as it was handed in.
pub proof fn law_failures_are_told(message: Seq<char>, path: Seq<char>, verb: Verb)
    ensures
        FailureView::Outside(message).text() == message,
        (FailureView::CannotCreate { path, cause: message }).text() == "create "@ + path,
        (FailureView::CannotCreate { path, cause: message }).cause() == Some(message),
        (FailureView::CannotOpen { cause: message }).text() == "open sqlite"@,
        (FailureView::CannotOpen { cause: message }).cause() == Some(message),
        FailureView::Outside(message).cause() is None,
        FailureView::Usage(verb).text().len() > "Usage: ."@.len(),
        FailureView::Usage(verb).text().take("Usage: ."@.len() as int) == "Usage: ."@,
{
    reveal_strlit("Usage: .");
    reveal_strlit("Usage: .open <file.db>");
    reveal_strlit("Usage: .ddl <table>");
    reveal_strlit("Usage: .preview <table> [n]");
    reveal_strlit("Usage: .goto <table>");
    reveal_strlit("Usage: .find <pattern>");
    reveal_strlit("Usage: .exportcsv <path> <SELECT ...>");
    assert(FailureView::Usage(verb).text().take("Usage: ."@.len() as int) =~= "Usage: ."@);
}

/// Nothing of a failure is lost from the view of it.
pub proof fn law_failure_is_seen_whole(failure: Failure)
    ensures
        match failure {
            Failure::NoDb => failure@ is NoDb,
            Failure::Usage(verb) => failure@ == FailureView::Usage(verb),
            Failure::NoTable => failure@ is NoTable,
            Failure::NoQuery => failure@ is NoQuery,
            Failure::NotSelect => failure@ is NotSelect,
            Failure::CannotOpen { cause } => failure@ == (FailureView::CannotOpen {
                cause: cause@,
            }),
            Failure::CannotCreate { path, cause } => failure@ == (FailureView::CannotCreate {
                path: path@,
                cause: cause@,
            }),
            Failure::Outside(message) => failure@ == FailureView::Outside(message@),
        },
{
}

} // verus!
