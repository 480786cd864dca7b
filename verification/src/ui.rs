//! The navigator: a list of tables on the left and what is known of the selected one on the
//! right.
use crate::db::{
    ddl_query, keys_query, law_keys_query_names_the_table, law_preview_names_the_table,
    preview_query, DbView, Statement, StatementView, DB,
};
use crate::failure::{Failure, FailureView};
use crate::meta::{key_cells, keys_action, ActionView};
use crate::number::decimal;
use crate::quote::read_quoted;
use crate::rows::{
    cell_text, ddl_in, is_whole_key, keys_in, law_all_keys_are_read, law_all_names_are_read,
    law_all_rows_are_read, names_in, read_ddl, read_keys, read_names, read_rows, rows_in, Answer,
    ForeignKey, KeyRow,
};
use crate::text::{count_lines, has_part, line_count, part_at};
use vstd::prelude::*;

verus! {

/// The number of rows that are loaded for the preview of a table.
pub const PREVIEW_LIMIT: usize = 1000;

/// The number of lines that a page key moves by.
pub const PAGE: usize = 10;

/// The time between two ticks, in nanoseconds.
pub const TICK: u64 = 200_000_000;

/// The title above the controls.
pub const CONTROLS_TITLE: &'static str = "Controls — UI Navigator";

/// The controls, as they are shown at the top.
pub const CONTROLS: &'static str = "UI Navigator Controls
↑/↓  Move selection    Enter  Preview rows    D  Show DDL    F  Show Foreign Keys
PgUp/PgDn/Home/End  Scroll left list     Shift+↑/Shift+↓  Scroll right pane     Shift+PgUp/PgDn  Faster scroll    Q  Quit UI
Preview loads up to 1000 rows for scrolling. Empty views will display: 'There is no data for this type'.";

/// What the right pane shows.
#[derive(Clone, Copy, Debug, PartialEq, Eq, Structural)]
pub enum Mode {
    Preview,
    Ddl,
    Fk,
}

/// The keys that the navigator tells apart.
#[derive(Clone, Copy, Debug, PartialEq, Eq, Structural)]
pub enum Key {
    Up,
    Down,
    PageUp,
    PageDown,
    Home,
    End,
    Enter,
    Char(char),
    Other,
}

/// The queries for what is shown of a table.
#[derive(Debug, PartialEq, Eq)]
pub struct Load {
    pub preview: Statement,
    pub ddl: Statement,
    pub keys: Statement,
}

/// The queries with their texts as sequences of characters.
pub struct LoadView {
    pub preview: StatementView,
    pub ddl: StatementView,
    pub keys: StatementView,
}

impl View for Load {
    type V = LoadView;

    open spec fn view(&self) -> LoadView {
        LoadView { preview: self.preview@, ddl: self.ddl@, keys: self.keys@ }
    }
}

/// What is to be done after a key.
#[derive(Debug, PartialEq, Eq)]
pub enum Step {
    /// Leave the navigator.
    Quit,
    /// Nothing but to draw again.
    Stay,
    /// Load what is shown of the selected table.
    Load(Load),
}

/// The state of the navigator.
#[derive(Debug, PartialEq, Eq)]
pub struct Navigator {
    tables: Vec<String>,
    selected: usize,
    /// The line of the right pane that is shown first.
    right_offset: usize,
    mode: Mode,
    preview_cols: Vec<String>,
    preview_rows: Vec<Vec<String>>,
    ddl_text: Option<String>,
    fk_rows: Vec<ForeignKey>,
}

/// The state of the navigator with its texts as sequences of characters.
pub struct NavigatorView {
    pub tables: Seq<Seq<char>>,
    pub selected: nat,
    pub right_offset: nat,
    pub mode: Mode,
    pub preview_cols: Seq<Seq<char>>,
    pub preview_rows: Seq<Seq<Seq<char>>>,
    pub ddl_text: Option<Seq<char>>,
    pub fk_rows: Seq<(Seq<char>, Seq<char>, Seq<char>, Seq<char>)>,
}

impl View for Navigator {
    type V = NavigatorView;

    closed spec fn view(&self) -> NavigatorView {
        NavigatorView {
            tables: self.tables.deep_view(),
            selected: self.selected as nat,
            right_offset: self.right_offset as nat,
            mode: self.mode,
            preview_cols: self.preview_cols.deep_view(),
            preview_rows: self.preview_rows.deep_view(),
            ddl_text: self.ddl_text.deep_view(),
            fk_rows: self.fk_rows.deep_view(),
        }
    }
}

impl NavigatorView {
    /// The number of lines that the right pane can show.
    pub open spec fn content_len(self) -> nat {
        match self.mode {
            Mode::Preview => self.preview_rows.len(),
            Mode::Ddl => match self.ddl_text {
                Some(text) => line_count(text),
                None => 0,
            },
            Mode::Fk => self.fk_rows.len(),
        }
    }

    /// A table is selected, and the right pane is scrolled to a line that it has, or not at
    /// all.
    pub open spec fn wf(self) -> bool {
        &&& self.selected < self.tables.len()
        &&& self.right_offset == 0 || self.right_offset < self.content_len()
    }

    /// With another table selected, which is shown from its first line on.
    pub open spec fn moved(self, selected: nat) -> NavigatorView {
        NavigatorView { selected, right_offset: 0, ..self }
    }

    /// With the right pane scrolled to another line.
    pub open spec fn scrolled(self, right_offset: nat) -> NavigatorView {
        NavigatorView { right_offset, ..self }
    }

    /// With something else shown in the right pane, from its first line on.
    pub open spec fn showing(self, mode: Mode) -> NavigatorView {
        NavigatorView { mode, right_offset: 0, ..self }
    }

    /// The name of the selected table.
    pub open spec fn current(self) -> Seq<char> {
        self.tables[self.selected as int]
    }
}

/// `n` less `k`, but not less than zero.
pub open spec fn less(n: nat, k: nat) -> nat {
    if n >= k {
        (n - k) as nat
    } else {
        0
    }
}

/// The smaller of two numbers.
pub open spec fn smaller(a: nat, b: nat) -> nat {
    if a <= b {
        a
    } else {
        b
    }
}

/// What a key does to the navigator.
pub enum Effect {
    Quit,
    /// The session stays as it is.
    Stay(NavigatorView),
    /// The selected table becomes that of the session and is to be loaded.
    Select(NavigatorView),
}

/// What a key does to the navigator, with or without the shift key. The shift key turns the
/// arrow and page keys from the list of tables to the right pane.
pub open spec fn key_effect(nav: NavigatorView, key: Key, shift: bool) -> Effect {
    let last_table = less(nav.tables.len(), 1);
    let last_line = less(nav.content_len(), 1);
    match key {
        Key::Up => if shift {
            Effect::Stay(nav.scrolled(less(nav.right_offset, 1)))
        } else {
            Effect::Select(nav.moved(less(nav.selected, 1)))
        },
        Key::Down => if shift {
            Effect::Stay(nav.scrolled(smaller(nav.right_offset + 1, last_line)))
        } else {
            Effect::Select(nav.moved(smaller(nav.selected + 1, last_table)))
        },
        Key::PageUp => if shift {
            Effect::Stay(nav.scrolled(less(nav.right_offset, PAGE as nat)))
        } else {
            Effect::Select(nav.moved(less(nav.selected, PAGE as nat)))
        },
        Key::PageDown => if shift {
            Effect::Stay(nav.scrolled(smaller(nav.right_offset + PAGE as nat, last_line)))
        } else {
            Effect::Select(nav.moved(smaller(nav.selected + PAGE as nat, last_table)))
        },
        Key::Home => Effect::Select(nav.moved(0)),
        Key::End => Effect::Select(nav.moved(last_table)),
        Key::Enter => Effect::Stay(nav.showing(Mode::Preview)),
        Key::Char(c) => if c == 'q' || c == 'Q' {
            Effect::Quit
        } else if c == 'd' || c == 'D' {
            Effect::Stay(nav.showing(Mode::Ddl))
        } else if c == 'f' || c == 'F' {
            Effect::Stay(nav.showing(Mode::Fk))
        } else {
            Effect::Stay(nav)
        },
        Key::Other => Effect::Stay(nav),
    }
}

/// The session with another table selected.
pub open spec fn selecting(db: DbView, table: Seq<char>) -> DbView {
    DbView { connected: db.connected, table: Some(table) }
}

/// The queries for what is shown of a table.
pub open spec fn load_of(table: Seq<char>) -> LoadView {
    LoadView {
        preview: preview_query(table, PREVIEW_LIMIT as nat),
        ddl: ddl_query(table),
        keys: keys_query(table),
    }
}

/// The navigator right after its start, with nothing loaded yet.
pub open spec fn fresh(tables: Seq<Seq<char>>) -> NavigatorView {
    NavigatorView {
        tables,
        selected: 0,
        right_offset: 0,
        mode: Mode::Preview,
        preview_cols: seq![],
        preview_rows: seq![],
        ddl_text: None,
        fk_rows: seq![],
    }
}

/// The session once the navigator has started on the tables in an answer: the first one is
/// selected, where there is one.
pub open spec fn session_at_start(
    db: DbView,
    answer: Result<Vec<Result<String, String>>, String>,
) -> DbView {
    match names_in(answer) {
        Ok(tables) => if db.connected && tables.len() > 0 {
            selecting(db, tables[0])
        } else {
            db
        },
        Err(_) => db,
    }
}

impl NavigatorView {
    /// With the rows in an answer, or with those that were there where it holds a failure.
    pub open spec fn with_rows(self, answer: Result<Answer, String>) -> NavigatorView {
        match rows_in(answer) {
            Ok((cols, rows)) => NavigatorView { preview_cols: cols, preview_rows: rows, ..self },
            Err(_) => self,
        }
    }

    /// With the definition in an answer, or with the one that was there where it holds a
    /// failure.
    pub open spec fn with_definition(
        self,
        answer: Result<Option<Result<Option<String>, String>>, String>,
    ) -> NavigatorView {
        match ddl_in(answer) {
            Ok(ddl_text) => NavigatorView { ddl_text, ..self },
            Err(_) => self,
        }
    }

    /// With the foreign keys in an answer, or with those that were there where it holds a
    /// failure.
    pub open spec fn with_keys(
        self,
        answer: Result<Vec<Result<KeyRow, String>>, String>,
    ) -> NavigatorView {
        match keys_in(answer) {
            Ok(fk_rows) => NavigatorView { fk_rows, ..self },
            Err(_) => self,
        }
    }
}

/// How the navigator starts.
#[derive(Debug, PartialEq, Eq)]
pub enum Start {
    /// There is nothing to navigate, as the text says.
    NoTables(String),
    /// The navigator, and what is to be loaded first.
    Begin { navigator: Navigator, load: Load },
}

/// Makes the queries for what is shown of a table.
fn make_load(db: &DB, table: &str) -> (r: Result<Load, Failure>)
    ensures
        db@.connected ==> r is Ok && r->Ok_0@ == load_of(table@),
        !db@.connected ==> r is Err && r->Err_0@ == FailureView::NoDb,
{
    let preview = db.preview(table, PREVIEW_LIMIT)?;
    let ddl = db.ddl(table)?;
    let keys = db.foreign_keys(table)?;
    Ok(Load { preview, ddl, keys })
}

/// Starts the navigator on the tables in an answer: selects the first one.
pub fn run_ui(db: &mut DB, answer: Result<Vec<Result<String, String>>, String>) -> (r: Result<
    Start,
    Failure,
>)
    ensures
        !old(db)@.connected ==> r is Err && r->Err_0@ == FailureView::NoDb && final(db)@ == old(
            db,
        )@,
        old(db)@.connected ==> match names_in(answer) {
            Err(failure) => r is Err && r->Err_0@ == failure && final(db)@ == old(db)@,
            Ok(tables) => if tables.len() == 0 {
                &&& r is Ok
                &&& r->Ok_0 is NoTables
                &&& r->Ok_0->NoTables_0@ == "<no tables>\n"@
                &&& final(db)@ == old(db)@
            } else {
                &&& r is Ok
                &&& r->Ok_0 is Begin
                &&& r->Ok_0->Begin_navigator@ == fresh(tables)
                &&& r->Ok_0->Begin_navigator@.wf()
                &&& r->Ok_0->Begin_load@ == load_of(tables[0])
                &&& final(db)@ == selecting(old(db)@, tables[0])
            },
        },
        final(db)@ == session_at_start(old(db)@, answer),
{
    db.ensure()?;
    let tables = read_names(answer)?;
    if tables.len() == 0 {
        return Ok(Start::NoTables("<no tables>\n".to_owned()));
    }
    db.table = Some(tables[0].clone());
    let load = make_load(db, tables[0].as_str())?;
    let navigator = Navigator {
        tables,
        selected: 0,
        right_offset: 0,
        mode: Mode::Preview,
        preview_cols: Vec::new(),
        preview_rows: Vec::new(),
        ddl_text: None,
        fk_rows: Vec::new(),
    };
    proof {
        let n = navigator@;
        assert(n.preview_cols =~= seq![]);
        assert(n.preview_rows =~= seq![]);
        assert(n.fk_rows =~= seq![]);
    }
    Ok(Start::Begin { navigator, load })
}

impl Navigator {
    /// The number of lines that the right pane can show.
    pub fn content_len(&self) -> (r: usize)
        ensures
            r == self@.content_len(),
    {
        match self.mode {
            Mode::Preview => self.preview_rows.len(),
            Mode::Ddl => match &self.ddl_text {
                Some(text) => count_lines(text.as_str()),
                None => 0,
            },
            Mode::Fk => self.fk_rows.len(),
        }
    }

    /// Selects a table, here and in the session, and asks for what is shown of it.
    fn select(&mut self, db: &mut DB, selected: usize) -> (r: Result<Step, Failure>)
        requires
            selected < old(self)@.tables.len(),
        ensures
            final(self)@ == old(self)@.moved(selected as nat),
            final(db)@ == selecting(old(db)@, old(self)@.tables[selected as int]),
            old(db)@.connected ==> r is Ok && r->Ok_0 is Load && r->Ok_0->Load_0@ == load_of(
                old(self)@.tables[selected as int],
            ),
            !old(db)@.connected ==> r is Err && r->Err_0@ == FailureView::NoDb,
    {
        self.selected = selected;
        self.right_offset = 0;
        db.table = Some(self.tables[selected].clone());
        let load = make_load(db, self.tables[selected].as_str())?;
        Ok(Step::Load(load))
    }

    /// Takes a key: changes the state, and says what is to be done next.
    pub fn press(&mut self, db: &mut DB, key: Key, shift: bool) -> (r: Result<Step, Failure>)
        requires
            old(self)@.wf(),
        ensures
            final(self)@.wf(),
            match key_effect(old(self)@, key, shift) {
                Effect::Quit => {
                    &&& r is Ok && r->Ok_0 is Quit
                    &&& final(self)@ == old(self)@
                    &&& final(db)@ == old(db)@
                },
                Effect::Stay(nav) => {
                    &&& r is Ok && r->Ok_0 is Stay
                    &&& final(self)@ == nav
                    &&& final(db)@ == old(db)@
                },
                Effect::Select(nav) => {
                    &&& final(self)@ == nav
                    &&& final(db)@ == selecting(old(db)@, nav.current())
                    &&& old(db)@.connected ==> r is Ok && r->Ok_0 is Load && r->Ok_0->Load_0@
                        == load_of(nav.current())
                    &&& !old(db)@.connected ==> r is Err && r->Err_0@ == FailureView::NoDb
                },
            },
    {
        let last_table: usize = self.tables.len() - 1;
        let last_line: usize = self.content_len().saturating_sub(1);
        match key {
            Key::Up => if shift {
                self.right_offset = self.right_offset.saturating_sub(1);
                Ok(Step::Stay)
            } else {
                self.select(db, self.selected.saturating_sub(1))
            },
            Key::Down => if shift {
                if self.right_offset < last_line {
                    self.right_offset = self.right_offset + 1;
                }
                Ok(Step::Stay)
            } else {
                self.select(db, if self.selected < last_table {
                    self.selected + 1
                } else {
                    last_table
                })
            },
            Key::PageUp => if shift {
                self.right_offset = self.right_offset.saturating_sub(PAGE);
                Ok(Step::Stay)
            } else {
                self.select(db, self.selected.saturating_sub(PAGE))
            },
            Key::PageDown => if shift {
                self.right_offset = if last_line - self.right_offset > PAGE {
                    self.right_offset + PAGE
                } else {
                    last_line
                };
                Ok(Step::Stay)
            } else {
                self.select(db, if last_table - self.selected > PAGE {
                    self.selected + PAGE
                } else {
                    last_table
                })
            },
            Key::Home => self.select(db, 0),
            Key::End => self.select(db, last_table),
            Key::Enter => {
                self.mode = Mode::Preview;
                self.right_offset = 0;
                Ok(Step::Stay)
            },
            Key::Char(c) => {
                if c == 'q' || c == 'Q' {
                    return Ok(Step::Quit);
                }
                if c == 'd' || c == 'D' {
                    self.mode = Mode::Ddl;
                    self.right_offset = 0;
                } else if c == 'f' || c == 'F' {
                    self.mode = Mode::Fk;
                    self.right_offset = 0;
                }
                Ok(Step::Stay)
            },
            Key::Other => Ok(Step::Stay),
        }
    }

    /// Takes in the rows of the selected table. Those that were loaded before stay where the
    /// answer holds a failure.
    pub fn load_preview(&mut self, answer: Result<Answer, String>)
        ensures
            final(self)@ == match rows_in(answer) {
                Ok((cols, rows)) => NavigatorView {
                    preview_cols: cols,
                    preview_rows: rows,
                    ..old(self)@
                },
                Err(_) => old(self)@,
            },
            final(self)@ == old(self)@.with_rows(answer),
            old(self)@.wf() && old(self)@.right_offset == 0 ==> final(self)@.wf(),
    {
        match read_rows(answer) {
            Ok((cols, rows)) => {
                self.preview_cols = cols;
                self.preview_rows = rows;
            },
            Err(_) => {},
        }
    }

    /// Takes in the definition of the selected table.
    pub fn load_ddl(&mut self, answer: Result<Option<Result<Option<String>, String>>, String>) -> (r:
        Result<(), Failure>)
        ensures
            match ddl_in(answer) {
                Ok(ddl_text) => r is Ok && final(self)@ == (NavigatorView {
                    ddl_text,
                    ..old(self)@
                }),
                Err(failure) => r is Err && r->Err_0@ == failure && final(self)@ == old(self)@,
            },
            final(self)@ == old(self)@.with_definition(answer),
            old(self)@.wf() && old(self)@.right_offset == 0 ==> final(self)@.wf(),
    {
        self.ddl_text = read_ddl(answer)?;
        Ok(())
    }

    /// Takes in the foreign keys of the selected table.
    pub fn load_keys(&mut self, answer: Result<Vec<Result<KeyRow, String>>, String>) -> (r: Result<
        (),
        Failure,
    >)
        ensures
            match keys_in(answer) {
                Ok(fk_rows) => r is Ok && final(self)@ == (NavigatorView {
                    fk_rows,
                    ..old(self)@
                }),
                Err(failure) => r is Err && r->Err_0@ == failure && final(self)@ == old(self)@,
            },
            final(self)@ == old(self)@.with_keys(answer),
            old(self)@.wf() && old(self)@.right_offset == 0 ==> final(self)@.wf(),
    {
        self.fk_rows = read_keys(answer)?;
        Ok(())
    }
}

/// What the navigator shows.
impl Navigator {
    pub fn tables(&self) -> (r: &Vec<String>)
        ensures
            r.deep_view() == self@.tables,
    {
        &self.tables
    }

    /// The index of the selected table.
    pub fn selected(&self) -> (r: usize)
        ensures
            r == self@.selected,
    {
        self.selected
    }

    /// The name of the selected table.
    pub fn current(&self) -> (r: &str)
        requires
            self@.wf(),
        ensures
            r@ == self@.current(),
    {
        self.tables[self.selected].as_str()
    }

    /// The line of the right pane that is shown first.
    pub fn right_offset(&self) -> (r: usize)
        ensures
            r == self@.right_offset,
    {
        self.right_offset
    }

    pub fn mode(&self) -> (r: Mode)
        ensures
            r == self@.mode,
    {
        self.mode
    }

    pub fn preview_cols(&self) -> (r: &Vec<String>)
        ensures
            r.deep_view() == self@.preview_cols,
    {
        &self.preview_cols
    }

    pub fn preview_rows(&self) -> (r: &Vec<Vec<String>>)
        ensures
            r.deep_view() == self@.preview_rows,
    {
        &self.preview_rows
    }

    pub fn ddl_text(&self) -> (r: &Option<String>)
        ensures
            r.deep_view() == self@.ddl_text,
    {
        &self.ddl_text
    }

    pub fn fk_rows(&self) -> (r: &Vec<ForeignKey>)
        ensures
            r.deep_view() == self@.fk_rows,
    {
        &self.fk_rows
    }
}

/// The time that is left to the next tick, given the time since the last one, both in
/// nanoseconds.
pub open spec fn time_left(elapsed: nat) -> nat {
    less(TICK as nat, elapsed)
}

/// The time to wait for a key, given the time since the last tick, both in nanoseconds.
pub fn poll_timeout(elapsed: u128) -> (r: u64)
    ensures
        r == if elapsed >= TICK {
            0
        } else {
            TICK - elapsed
        },
        r == time_left(elapsed as nat),
{
    if elapsed >= TICK as u128 {
        0
    } else {
        TICK - elapsed as u64
    }
}

/// Tells whether a tick is due, given the time since the last one in nanoseconds.
pub fn tick_due(elapsed: u128) -> (r: bool)
    ensures
        r == (elapsed >= TICK),
        r == (time_left(elapsed as nat) == 0),
{
    elapsed >= TICK as u128
}

/// What was loaded of a table.
pub struct Content {
    pub cols: Seq<Seq<char>>,
    pub rows: Seq<Seq<Seq<char>>>,
    pub ddl: Option<Seq<char>>,
    pub keys: Seq<(Seq<char>, Seq<char>, Seq<char>, Seq<char>)>,
}

/// A key, and what is loaded if the key selects a table.
pub struct Turn {
    pub key: Key,
    pub shift: bool,
    pub content: Content,
}

impl NavigatorView {
    /// With other content loaded.
    pub open spec fn loaded(self, content: Content) -> NavigatorView {
        NavigatorView {
            preview_cols: content.cols,
            preview_rows: content.rows,
            ddl_text: content.ddl,
            fk_rows: content.keys,
            ..self
        }
    }
}

/// The session and the navigator after a turn.
pub open spec fn after_turn(db: DbView, nav: NavigatorView, turn: Turn) -> (
    DbView,
    NavigatorView,
) {
    match key_effect(nav, turn.key, turn.shift) {
        Effect::Quit => (db, nav),
        Effect::Stay(next) => (db, next),
        Effect::Select(next) => (selecting(db, next.current()), next.loaded(turn.content)),
    }
}

/// The session and the navigator after some turns.
pub open spec fn after_turns(db: DbView, nav: NavigatorView, turns: Seq<Turn>) -> (
    DbView,
    NavigatorView,
)
    decreases turns.len(),
{
    if turns.len() == 0 {
        (db, nav)
    } else {
        let (db1, nav1) = after_turns(db, nav, turns.drop_last());
        after_turn(db1, nav1, turns.last())
    }
}

/// Whether the table of the session is the one that the navigator has selected.
pub open spec fn in_step(db: DbView, nav: NavigatorView) -> bool {
    db.table == Some(nav.current())
}

/// At its start the navigator is in order, whatever is loaded first, and the session has its
/// first table as its own.
pub proof fn law_navigation_starts_in_order(
    db: DbView,
    tables: Seq<Seq<char>>,
    content: Content,
)
    requires
        tables.len() > 0,
    ensures
        fresh(tables).loaded(content).wf(),
        in_step(selecting(db, tables[0]), fresh(tables).loaded(content)),
{
}

/// Whatever keys are pressed and whatever is loaded, a table of the list stays selected, the
/// right pane stays within what it has to show, the session has the selected table as its own,
/// and neither the list nor the connection changes.
pub proof fn law_navigation_keeps_the_invariant(
    db: DbView,
    nav: NavigatorView,
    turns: Seq<Turn>,
)
    requires
        nav.wf(),
        in_step(db, nav),
    ensures
        after_turns(db, nav, turns).1.wf(),
        in_step(after_turns(db, nav, turns).0, after_turns(db, nav, turns).1),
        after_turns(db, nav, turns).1.tables == nav.tables,
        after_turns(db, nav, turns).0.connected == db.connected,
    decreases turns.len(),
{
    if turns.len() > 0 {
        law_navigation_keeps_the_invariant(db, nav, turns.drop_last());
    }
}

/// Moving down the list and up again leads back to the same table, except at the end.
pub proof fn law_down_then_up(nav: NavigatorView)
    requires
        nav.wf(),
        nav.selected + 1 < nav.tables.len(),
    ensures
        key_effect(nav, Key::Down, false) is Select,
        key_effect(nav, Key::Down, false)->Select_0.selected == nav.selected + 1,
        key_effect(key_effect(nav, Key::Down, false)->Select_0, Key::Up, false) == Effect::Select(
            nav.moved(nav.selected),
        ),
{
}

/// Scrolling down the right pane and up again leads back to the same line, except at the end.
pub proof fn law_scroll_down_then_up(nav: NavigatorView)
    requires
        nav.wf(),
        nav.right_offset + 1 < nav.content_len(),
    ensures
        key_effect(nav, Key::Down, true) is Stay,
        key_effect(nav, Key::Down, true)->Stay_0.right_offset == nav.right_offset + 1,
        key_effect(key_effect(nav, Key::Down, true)->Stay_0, Key::Up, true) == Effect::Stay(nav),
{
    assert(nav.scrolled((nav.right_offset + 1) as nat).scrolled(nav.right_offset) == nav);
}

/// Scrolling, with the shift key, never changes which table is selected nor what is shown of
/// it; selecting a table never changes what is shown, but always starts at its first line.
pub proof fn law_scrolling_and_selecting_are_apart(nav: NavigatorView, key: Key)
    requires
        nav.wf(),
        key is Up || key is Down || key is PageUp || key is PageDown,
    ensures
        key_effect(nav, key, true) is Stay,
        key_effect(nav, key, true)->Stay_0 == nav.scrolled(
            key_effect(nav, key, true)->Stay_0.right_offset,
        ),
        key_effect(nav, key, false) is Select,
        key_effect(nav, key, false)->Select_0 == nav.moved(
            key_effect(nav, key, false)->Select_0.selected,
        ),
{
}

/// The only key that ends the navigator is `q`, in either case.
pub proof fn law_only_q_quits(nav: NavigatorView, key: Key, shift: bool)
    ensures
        key_effect(nav, key, shift) is Quit <==> key == Key::Char('q') || key == Key::Char('Q'),
{
}

/// The same key again and again, with the content that is loaded each time.
pub open spec fn presses(key: Key, shift: bool, content: Content, count: nat) -> Seq<Turn> {
    Seq::new(count, |i: int| Turn { key, shift, content })
}

/// Each table of the list can be reached: the down key, pressed often enough, leads to it.
pub proof fn law_every_table_can_be_selected(
    db: DbView,
    nav: NavigatorView,
    content: Content,
    count: nat,
)
    requires
        nav.wf(),
        nav.selected + count < nav.tables.len(),
    ensures
        after_turns(db, nav, presses(Key::Down, false, content, count)).1.selected
            == nav.selected + count,
        after_turns(db, nav, presses(Key::Down, false, content, count)).1.tables == nav.tables,
    decreases count,
{
    let turns = presses(Key::Down, false, content, count);
    if count > 0 {
        law_every_table_can_be_selected(db, nav, content, (count - 1) as nat);
        assert(turns.drop_last() =~= presses(Key::Down, false, content, (count - 1) as nat));
    }
}

/// Each line of the right pane can be reached: the down key with the shift key, pressed often
/// enough, scrolls to it, and nothing else changes.
pub proof fn law_every_line_can_be_scrolled_to(
    db: DbView,
    nav: NavigatorView,
    content: Content,
    count: nat,
)
    requires
        nav.wf(),
        nav.right_offset + count < nav.content_len(),
    ensures
        after_turns(db, nav, presses(Key::Down, true, content, count)) == (
            db,
            nav.scrolled(nav.right_offset + count),
        ),
    decreases count,
{
    let turns = presses(Key::Down, true, content, count);
    if count > 0 {
        law_every_line_can_be_scrolled_to(db, nav, content, (count - 1) as nat);
        assert(turns.drop_last() =~= presses(Key::Down, true, content, (count - 1) as nat));
    } else {
        assert(nav.scrolled(nav.right_offset) == nav);
    }
}

/// Once the navigator is left, `.fk` without a table is about the one that was selected last.
pub proof fn law_fk_follows_the_navigator(db: DbView, nav: NavigatorView)
    requires
        db.connected,
        in_step(db, nav),
    ensures
        keys_action(db, seq![".fk"@]) == Ok::<ActionView, FailureView>(
            ActionView::ShowKeys {
                table: nav.current(),
                statement: keys_query(nav.current()),
            },
        ),
{
}

/// What is loaded of a table is of that table: its definition is asked for by its name, and the
/// preview, of up to a thousand rows, and the foreign keys name it too.
pub proof fn law_loading_is_about_the_table(table: Seq<char>)
    ensures
        load_of(table).ddl == (StatementView::Query {
            sql: "SELECT sql FROM sqlite_master WHERE type='table' AND name=?1"@,
            param: Some(table),
        }),
        load_of(table).preview is Query,
        load_of(table).preview->param is None,
        load_of(table).preview->Query_sql.len() > 15,
        load_of(table).preview->Query_sql.take(15) == "SELECT * FROM \""@,
        read_quoted(load_of(table).preview->Query_sql.skip(15)) == Some(
            (table, " LIMIT "@ + decimal(1000)),
        ),
        load_of(table).keys is Query,
        load_of(table).keys->param is None,
        load_of(table).keys->Query_sql.len() > 25,
        load_of(table).keys->Query_sql.take(25) == "PRAGMA foreign_key_list(\""@,
        read_quoted(load_of(table).keys->Query_sql.skip(25)) == Some((table, ")"@)),
{
    law_preview_names_the_table(table, 1000);
    law_keys_query_names_the_table(table);
    reveal_strlit("SELECT * FROM ");
    reveal_strlit("SELECT * FROM \"");
    reveal_strlit("PRAGMA foreign_key_list(");
    reveal_strlit("PRAGMA foreign_key_list(\"");
    let preview = load_of(table).preview->Query_sql;
    assert forall|i: int| 0 <= i < 14 implies preview[i] == #[trigger] "SELECT * FROM "@[i] by {
        assert(preview.take(14)[i] == "SELECT * FROM "@[i]);
    }
    assert(preview.take(15) =~= "SELECT * FROM \""@);
    let keys = load_of(table).keys->Query_sql;
    assert forall|i: int| 0 <= i < 24 implies keys[i]
        == #[trigger] "PRAGMA foreign_key_list("@[i] by {
        assert(keys.take(24)[i] == "PRAGMA foreign_key_list("@[i]);
    }
    assert(keys.take(25) =~= "PRAGMA foreign_key_list(\""@);
}

/// What is loaded of different tables differs in each of its parts.
pub proof fn law_loads_of_tables_differ(table: Seq<char>, other: Seq<char>)
    requires
        table != other,
    ensures
        load_of(table).ddl != load_of(other).ddl,
        load_of(table).preview != load_of(other).preview,
        load_of(table).keys != load_of(other).keys,
{
    law_loading_is_about_the_table(table);
    law_loading_is_about_the_table(other);
}

/// The selected table is the one at the selected place of the list, and selecting a table makes
/// it that of the session and changes nothing else of it.
pub proof fn law_selected_table(nav: NavigatorView, db: DbView, table: Seq<char>)
    ensures
        nav.current() == nav.tables[nav.selected as int],
        selecting(db, table).table == Some(table),
        selecting(db, table).connected == db.connected,
{
}

/// Without the shift key the arrow keys move the selection by one table and the page keys by
/// ten, as far as the list goes; the home and end keys move it to the first and the last table,
/// shift key or not. The right pane then starts at its first line, and nothing else changes.
pub proof fn law_selecting_keys(nav: NavigatorView, key: Key, shift: bool)
    requires
        nav.wf(),
        key is Home || key is End || !shift && (key is Up || key is Down || key is PageUp
            || key is PageDown),
    ensures
        key_effect(nav, key, shift) is Select,
        ({
            let to = key_effect(nav, key, shift)->Select_0;
            let n = nav.tables.len() as int;
            let at = nav.selected as int;
            &&& key is Down ==> to.selected == if at + 1 < n {
                at + 1
            } else {
                at
            }
            &&& key is Up ==> to.selected == if at > 0 {
                at - 1
            } else {
                0
            }
            &&& key is PageDown ==> to.selected == if at + 10 < n {
                at + 10
            } else {
                n - 1
            }
            &&& key is PageUp ==> to.selected == if at >= 10 {
                at - 10
            } else {
                0
            }
            &&& key is Home ==> to.selected == 0
            &&& key is End ==> to.selected == n - 1
            &&& to.right_offset == 0
            &&& to.tables == nav.tables
            &&& to.mode == nav.mode
            &&& to.preview_cols == nav.preview_cols
            &&& to.preview_rows == nav.preview_rows
            &&& to.ddl_text == nav.ddl_text
            &&& to.fk_rows == nav.fk_rows
        }),
{
}

/// With the shift key the arrow keys scroll the right pane by one line and the page keys by ten,
/// as far as there are lines, and nothing else changes.
pub proof fn law_scrolling_keys(nav: NavigatorView, key: Key)
    requires
        nav.wf(),
        key is Up || key is Down || key is PageUp || key is PageDown,
    ensures
        key_effect(nav, key, true) is Stay,
        ({
            let to = key_effect(nav, key, true)->Stay_0;
            let n = nav.content_len() as int;
            let at = nav.right_offset as int;
            &&& key is Down ==> to.right_offset == if at + 1 < n {
                at + 1
            } else {
                at
            }
            &&& key is Up ==> to.right_offset == if at > 0 {
                at - 1
            } else {
                0
            }
            &&& key is PageDown ==> to.right_offset == if at + 10 < n {
                at + 10
            } else if n > 0 {
                n - 1
            } else {
                0
            }
            &&& key is PageUp ==> to.right_offset == if at >= 10 {
                at - 10
            } else {
                0
            }
            &&& to.selected == nav.selected
            &&& to.tables == nav.tables
            &&& to.mode == nav.mode
            &&& to.preview_cols == nav.preview_cols
            &&& to.preview_rows == nav.preview_rows
            &&& to.ddl_text == nav.ddl_text
            &&& to.fk_rows == nav.fk_rows
        }),
{
}

/// The enter key shows rows, `d` the definition and `f` the foreign keys, from the first line
/// on, shift key or not, and nothing else changes.
pub proof fn law_showing_keys(nav: NavigatorView, key: Key, shift: bool)
    requires
        key is Enter || key == Key::Char('d') || key == Key::Char('D') || key == Key::Char('f')
            || key == Key::Char('F'),
    ensures
        key_effect(nav, key, shift) is Stay,
        ({
            let to = key_effect(nav, key, shift)->Stay_0;
            &&& key is Enter ==> to.mode is Preview
            &&& key == Key::Char('d') || key == Key::Char('D') ==> to.mode is Ddl
            &&& key == Key::Char('f') || key == Key::Char('F') ==> to.mode is Fk
            &&& to.right_offset == 0
            &&& to.selected == nav.selected
            &&& to.tables == nav.tables
            &&& to.preview_cols == nav.preview_cols
            &&& to.preview_rows == nav.preview_rows
            &&& to.ddl_text == nav.ddl_text
            &&& to.fk_rows == nav.fk_rows
        }),
{
}

/// Any other key changes nothing.
pub proof fn law_other_keys_do_nothing(nav: NavigatorView, key: Key, shift: bool)
    requires
        key is Other || key is Char && key->Char_0 != 'q' && key->Char_0 != 'Q' && key->Char_0
            != 'd' && key->Char_0 != 'D' && key->Char_0 != 'f' && key->Char_0 != 'F',
    ensures
        key_effect(nav, key, shift) == Effect::Stay(nav),
{
}

/// The right pane has a line for each row, for each line of the definition or for each foreign
/// key, as it shows the one or the other.
pub proof fn law_lines_of_the_right_pane(nav: NavigatorView)
    ensures
        nav.mode is Preview ==> nav.content_len() == nav.preview_rows.len(),
        nav.mode is Fk ==> nav.content_len() == nav.fk_rows.len(),
        nav.mode is Ddl && nav.ddl_text is None ==> nav.content_len() == 0,
        nav.mode is Ddl && nav.ddl_text is Some ==> nav.content_len() == line_count(
            nav.ddl_text->0,
        ),
{
}

/// The navigator starts on the first table with its rows to be shown from the first one on.
pub proof fn law_navigation_starts_at_the_first_table(tables: Seq<Seq<char>>)
    ensures
        fresh(tables).tables == tables,
        fresh(tables).selected == 0,
        fresh(tables).right_offset == 0,
        fresh(tables).mode is Preview,
        fresh(tables).preview_cols.len() == 0,
        fresh(tables).preview_rows.len() == 0,
        fresh(tables).ddl_text is None,
        fresh(tables).fk_rows.len() == 0,
{
}

/// In order, the navigator has a table of its list selected and is scrolled to a line that
/// there is, or not at all; and that is all that is asked.
pub proof fn law_navigator_in_order(nav: NavigatorView)
    ensures
        nav.wf() <==> nav.selected < nav.tables.len() && (nav.right_offset > 0 ==> nav.right_offset
            < nav.content_len()),
{
}

/// Nothing of what is to be loaded is lost from the view of it.
pub proof fn law_load_is_seen_whole(load: Load)
    ensures
        load@.preview == load.preview@,
        load@.ddl == load.ddl@,
        load@.keys == load.keys@,
{
}

/// Whether two states of the navigator have the same list, selection, place and mode.
pub open spec fn same_place(a: NavigatorView, b: NavigatorView) -> bool {
    a.tables == b.tables && a.selected == b.selected && a.right_offset == b.right_offset && a.mode
        == b.mode
}

/// The rows that were fetched are taken in, all of them with all their cells, and nothing else
/// changes; where something failed, nothing changes at all.
pub proof fn law_rows_are_taken_in(nav: NavigatorView, answer: Answer, message: String)
    requires
        forall|i: int| 0 <= i < answer.rows@.len() ==> #[trigger] answer.rows@[i] is Ok,
    ensures
        ({
            let to = nav.with_rows(Ok(answer));
            &&& same_place(to, nav)
            &&& to.ddl_text == nav.ddl_text
            &&& to.fk_rows == nav.fk_rows
            &&& to.preview_cols.len() == answer.cols@.len()
            &&& forall|i: int|
                0 <= i < answer.cols@.len() ==> #[trigger] to.preview_cols[i] == answer.cols@[i]@
            &&& to.preview_rows.len() == answer.rows@.len()
            &&& forall|i: int|
                0 <= i < answer.rows@.len() ==> (#[trigger] to.preview_rows[i]).len()
                    == answer.rows@[i]->Ok_0@.len()
            &&& forall|i: int, j: int|
                0 <= i < answer.rows@.len() && 0 <= j < answer.rows@[i]->Ok_0@.len()
                    ==> #[trigger] to.preview_rows[i][j] == cell_text(answer.rows@[i]->Ok_0@[j])
        }),
        nav.with_rows(Err(message)) == nav,
{
    law_all_rows_are_read(answer);
}

/// The definition that was fetched is taken in as it is, or that there is none, and nothing else
/// changes; where something failed, nothing changes at all.
pub proof fn law_definition_is_taken_in(nav: NavigatorView, text: String, message: String)
    ensures
        ({
            let to = nav.with_definition(Ok(Some(Ok(Some(text)))));
            &&& same_place(to, nav)
            &&& to.preview_cols == nav.preview_cols
            &&& to.preview_rows == nav.preview_rows
            &&& to.fk_rows == nav.fk_rows
            &&& to.ddl_text == Some(text@)
        }),
        nav.with_definition(Ok(None)).ddl_text is None,
        same_place(nav.with_definition(Ok(None)), nav),
        nav.with_definition(Ok(Some(Ok(None)))).ddl_text is None,
        nav.with_definition(Err(message)) == nav,
        nav.with_definition(Ok(Some(Err(message)))) == nav,
{
}

/// The foreign keys that were fetched are taken in, each with what is told of it, and nothing
/// else changes; where something failed, nothing changes at all.
pub proof fn law_keys_are_taken_in(
    nav: NavigatorView,
    items: Vec<Result<KeyRow, String>>,
    message: String,
)
    requires
        forall|i: int| 0 <= i < items@.len() ==> is_whole_key(#[trigger] items@[i]),
    ensures
        ({
            let to = nav.with_keys(Ok(items));
            &&& same_place(to, nav)
            &&& to.preview_cols == nav.preview_cols
            &&& to.preview_rows == nav.preview_rows
            &&& to.ddl_text == nav.ddl_text
            &&& to.fk_rows.len() == items@.len()
            &&& forall|i: int|
                0 <= i < items@.len() ==> {
                    let key = #[trigger] to.fk_rows[i];
                    seq![key.0, key.1, key.2, key.3] == key_cells(items@[i])
                }
        }),
        nav.with_keys(Err(message)) == nav,
{
    law_all_keys_are_read(items);
    let keys = keys_in(Ok(items))->Ok_0;
    assert forall|i: int| 0 <= i < items@.len() implies {
        let key = #[trigger] keys[i];
        seq![key.0, key.1, key.2, key.3] == key_cells(items@[i])
    } by {
        let key = keys[i];
        assert(key.3 =~= key_cells(items@[i])[3]);
        assert(seq![key.0, key.1, key.2, key.3] =~= key_cells(items@[i]));
    }
}

/// The navigator starts with the first table that was fetched as that of the session; where it
/// does not start, the session stays as it was.
pub proof fn law_first_table_is_that_of_the_session(
    db: DbView,
    items: Vec<Result<String, String>>,
    message: String,
)
    requires
        forall|i: int| 0 <= i < items@.len() ==> #[trigger] items@[i] is Ok,
    ensures
        db.connected && items@.len() > 0 ==> session_at_start(db, Ok(items)).table == Some(
            items@[0]->Ok_0@,
        ),
        session_at_start(db, Ok(items)).connected == db.connected,
        !db.connected || items@.len() == 0 ==> session_at_start(db, Ok(items)) == db,
        session_at_start(db, Err(message)) == db,
{
    law_all_names_are_read(items);
}

/// A tick comes two tenths of a second after the last one: until then, what has passed and what
/// is left make up that time, and afterwards nothing is left.
pub proof fn law_ticks(elapsed: nat)
    ensures
        elapsed <= 200_000_000 ==> elapsed + time_left(elapsed) == 200_000_000,
        elapsed >= 200_000_000 ==> time_left(elapsed) == 0,
{
}

/// The controls tell what each key does, how many rows a preview loads and what an empty view
/// says.
pub proof fn law_controls_tell_each_key()
    ensures
        has_part(CONTROLS@, "↑/↓  Move selection"@),
        has_part(CONTROLS@, "Enter  Preview rows"@),
        has_part(CONTROLS@, "D  Show DDL"@),
        has_part(CONTROLS@, "F  Show Foreign Keys"@),
        has_part(CONTROLS@, "PgUp/PgDn/Home/End  Scroll left list"@),
        has_part(CONTROLS@, "Shift+↑/Shift+↓  Scroll right pane"@),
        has_part(CONTROLS@, "Shift+PgUp/PgDn  Faster scroll"@),
        has_part(CONTROLS@, "Q  Quit UI"@),
        has_part(CONTROLS@, "Preview loads up to 1000 rows for scrolling."@),
        has_part(CONTROLS@, "'There is no data for this type'"@),
{
    reveal_strlit("UI Navigator Controls
↑/↓  Move selection    Enter  Preview rows    D  Show DDL    F  Show Foreign Keys
PgUp/PgDn/Home/End  Scroll left list     Shift+↑/Shift+↓  Scroll right pane     Shift+PgUp/PgDn  Faster scroll    Q  Quit UI
Preview loads up to 1000 rows for scrolling. Empty views will display: 'There is no data for this type'.");
    reveal_strlit("↑/↓  Move selection");
    reveal_strlit("Enter  Preview rows");
    reveal_strlit("D  Show DDL");
    reveal_strlit("F  Show Foreign Keys");
    reveal_strlit("PgUp/PgDn/Home/End  Scroll left list");
    reveal_strlit("Shift+↑/Shift+↓  Scroll right pane");
    reveal_strlit("Shift+PgUp/PgDn  Faster scroll");
    reveal_strlit("Q  Quit UI");
    reveal_strlit("Preview loads up to 1000 rows for scrolling.");
    reveal_strlit("'There is no data for this type'");
    assert(CONTROLS@.subrange(22, 41) =~= "↑/↓  Move selection"@);
    assert(part_at(CONTROLS@, "↑/↓  Move selection"@, 22));
    assert(CONTROLS@.subrange(45, 64) =~= "Enter  Preview rows"@);
    assert(part_at(CONTROLS@, "Enter  Preview rows"@, 45));
    assert(CONTROLS@.subrange(68, 79) =~= "D  Show DDL"@);
    assert(part_at(CONTROLS@, "D  Show DDL"@, 68));
    assert(CONTROLS@.subrange(83, 103) =~= "F  Show Foreign Keys"@);
    assert(part_at(CONTROLS@, "F  Show Foreign Keys"@, 83));
    assert(CONTROLS@.subrange(104, 140) =~= "PgUp/PgDn/Home/End  Scroll left list"@);
    assert(part_at(CONTROLS@, "PgUp/PgDn/Home/End  Scroll left list"@, 104));
    assert(CONTROLS@.subrange(145, 179) =~= "Shift+↑/Shift+↓  Scroll right pane"@);
    assert(part_at(CONTROLS@, "Shift+↑/Shift+↓  Scroll right pane"@, 145));
    assert(CONTROLS@.subrange(184, 214) =~= "Shift+PgUp/PgDn  Faster scroll"@);
    assert(part_at(CONTROLS@, "Shift+PgUp/PgDn  Faster scroll"@, 184));
    assert(CONTROLS@.subrange(218, 228) =~= "Q  Quit UI"@);
    assert(part_at(CONTROLS@, "Q  Quit UI"@, 218));
    assert(CONTROLS@.subrange(229, 273) =~= "Preview loads up to 1000 rows for scrolling."@);
    assert(part_at(CONTROLS@, "Preview loads up to 1000 rows for scrolling."@, 229));
    assert(CONTROLS@.subrange(300, 332) =~= "'There is no data for this type'"@);
    assert(part_at(CONTROLS@, "'There is no data for this type'"@, 300));
}

} // verus!
