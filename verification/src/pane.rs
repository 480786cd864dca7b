//! Where the parts of the navigator stand on the screen, and what its two panes show.
use crate::number::{count_text, decimal};
use crate::report::{key_header, key_rows, make_key_header, make_key_rows};
use crate::rows::ForeignKey;
use crate::ui::{less, smaller, Mode, NavigatorView};
use ratatui::layout::{Constraint, Direction, Layout, Rect};
use ratatui::widgets::{Block, Borders};
use vstd::prelude::*;

verus! {

/// The mark in front of the selected table.
pub const MARKER: &'static str = "› ";

/// The height of the controls at the top.
pub const CONTROLS_HEIGHT: u16 = 4;

/// The height that is left to the panes below the controls wherever there is any.
pub const PANE_HEIGHT: u16 = 1;

/// The part of the width that the list of tables takes, in percent.
pub const LEFT_PERCENT: u16 = 30;

/// The part of the width that the right pane takes, in percent.
pub const RIGHT_PERCENT: u16 = 70;

/// The lines of the right pane that hold no rows.
pub const FRAME_LINES: u16 = 3;

/// A rectangle of the screen.
#[derive(Clone, Copy, Debug, PartialEq, Eq, Structural)]
pub struct Area {
    pub x: u16,
    pub y: u16,
    pub width: u16,
    pub height: u16,
}

/// How wide a column is.
#[derive(Clone, Copy, Debug, PartialEq, Eq, Structural)]
pub enum Width {
    Length(u16),
    Min(u16),
}

/// What stands inside the right pane.
#[derive(Debug, PartialEq, Eq)]
pub enum Body {
    /// Wrapped text, scrolled by that many lines.
    Text { text: String, scroll: u16 },
    /// Rows under a header, which is coloured in a preview.
    Grid { header: Vec<String>, rows: Vec<Vec<String>>, widths: Vec<Width>, coloured: bool },
}

/// The same with texts as sequences of characters.
pub enum BodyView {
    Text { text: Seq<char>, scroll: nat },
    Grid {
        header: Seq<Seq<char>>,
        rows: Seq<Seq<Seq<char>>>,
        widths: Seq<Width>,
        coloured: bool,
    },
}

impl View for Body {
    type V = BodyView;

    open spec fn view(&self) -> BodyView {
        match *self {
            Body::Text { text, scroll } => BodyView::Text { text: text@, scroll: scroll as nat },
            Body::Grid { header, rows, widths, coloured } => BodyView::Grid {
                header: header.deep_view(),
                rows: rows.deep_view(),
                widths: widths@,
                coloured,
            },
        }
    }
}

/// The right pane: a frame with a title, and a body inside of it.
#[derive(Debug, PartialEq, Eq)]
pub struct RightPane {
    pub title: String,
    pub inner: Area,
    pub body: Body,
}

/// The left pane: a list with a title.
#[derive(Debug, PartialEq, Eq)]
pub struct LeftPane {
    pub title: String,
    pub items: Vec<String>,
}

/// What is left of an area inside a frame of one line on each side.
pub open spec fn inside(area: Area) -> Area {
    Area {
        x: smaller(smaller(area.x as nat + 1, u16::MAX as nat), right_edge(area)) as u16,
        y: smaller(smaller(area.y as nat + 1, u16::MAX as nat), bottom_edge(area)) as u16,
        width: less(area.width as nat, 2) as u16,
        height: less(area.height as nat, 2) as u16,
    }
}

/// The first column to the right of an area, as far as columns go.
pub open spec fn right_edge(area: Area) -> nat {
    smaller(area.x as nat + area.width as nat, u16::MAX as nat)
}

/// The first line below an area, as far as lines go.
pub open spec fn bottom_edge(area: Area) -> nat {
    smaller(area.y as nat + area.height as nat, u16::MAX as nat)
}

/// An area cut into an upper part of the given height and the rest. The rest has at least
/// `min` lines, or else all there are.
pub open spec fn rows_of(area: Area, height: nat, min: nat) -> (Area, Area) {
    let all = (bottom_edge(area) - area.y) as nat;
    let lower = larger(less(all, height), smaller(min, all));
    (
        Area { height: (all - lower) as u16, ..area },
        Area { y: (area.y + all - lower) as u16, height: lower as u16, ..area },
    )
}

/// An area cut into a left part of that many percent of its width, rounded, and the rest.
pub open spec fn columns_of(area: Area, percent: nat) -> (Area, Area) {
    let all = (right_edge(area) - area.x) as nat;
    let left = (percent * all + 50) / 100;
    (
        Area { width: left as u16, ..area },
        Area { x: (area.x + left) as u16, width: (all - left) as u16, ..area },
    )
}

/// The larger of two numbers.
pub open spec fn larger(a: nat, b: nat) -> nat {
    if a <= b {
        b
    } else {
        a
    }
}

/// Where the parts of the navigator stand: the controls at the top, and below them the list
/// of tables on the left and the selected one on the right.
#[derive(Clone, Copy, Debug, PartialEq, Eq, Structural)]
pub struct Places {
    pub controls: Area,
    pub left: Area,
    pub right: Area,
}

/// Where the parts of the navigator stand on a screen.
pub open spec fn places_on(screen: Area) -> Places {
    let (controls, panes) = rows_of(screen, CONTROLS_HEIGHT as nat, PANE_HEIGHT as nat);
    let (left, right) = columns_of(panes, LEFT_PERCENT as nat);
    Places { controls, left, right }
}

/// The first of `total` rows that is shown.
pub open spec fn window_start(total: nat, offset: nat) -> nat {
    smaller(offset, less(total, 1))
}

/// The end of the rows that are shown in a pane of that inner height.
pub open spec fn window_end(total: nat, offset: nat, height: nat) -> nat {
    smaller(window_start(total, offset) + less(height, FRAME_LINES as nat), total)
}

/// The rows that are shown in a pane of that inner height.
pub open spec fn window<T>(rows: Seq<T>, offset: nat, height: nat) -> Seq<T> {
    rows.subrange(
        window_start(rows.len(), offset) as int,
        window_end(rows.len(), offset, height) as int,
    )
}

/// What a mode is called.
pub open spec fn mode_label(mode: Mode) -> Seq<char> {
    match mode {
        Mode::Preview => "Preview"@,
        Mode::Ddl => "DDL"@,
        Mode::Fk => "Foreign Keys"@,
    }
}

/// The title of the right pane.
pub open spec fn right_title(table: Seq<char>, mode: Mode) -> Seq<char> {
    table + " — "@ + mode_label(mode)
}

/// The title of a list of that many tables.
pub open spec fn left_title(n: nat) -> Seq<char> {
    "Tables ("@ + decimal(n) + ")"@
}

/// What the right pane shows in a state of the navigator, in an area of the screen.
pub open spec fn right_body(nav: NavigatorView, area: Area) -> BodyView {
    match nav.mode {
        Mode::Preview => preview_body(
            nav.preview_cols,
            nav.preview_rows,
            nav.right_offset,
            inside(area).height as nat,
        ),
        Mode::Ddl => ddl_body(nav.ddl_text, nav.right_offset),
        Mode::Fk => keys_body(nav.fk_rows, nav.right_offset, inside(area).height as nat),
    }
}

/// An offset as the number of lines that a text is scrolled by, which has sixteen bits.
pub open spec fn scroll_of(offset: nat) -> nat {
    smaller(offset, u16::MAX as nat)
}

/// The body that shows the definition of a table.
pub open spec fn ddl_body(ddl: Option<Seq<char>>, offset: nat) -> BodyView {
    BodyView::Text {
        text: if ddl is Some && ddl->0.len() > 0 {
            ddl->0
        } else {
            "There is no data for this type (DDL)"@
        },
        scroll: scroll_of(offset),
    }
}

/// The body that shows foreign keys.
pub open spec fn keys_body(
    keys: Seq<(Seq<char>, Seq<char>, Seq<char>, Seq<char>)>,
    offset: nat,
    height: nat,
) -> BodyView {
    if keys.len() == 0 {
        BodyView::Text {
            text: "There is no data for this type (Foreign Keys)"@,
            scroll: scroll_of(offset),
        }
    } else {
        BodyView::Grid {
            header: key_header(),
            rows: key_rows(window(keys, offset, height)),
            widths: seq![Width::Length(16), Width::Length(24), Width::Length(16), Width::Min(10)],
            coloured: false,
        }
    }
}

/// The body that shows the first rows of a table.
pub open spec fn preview_body(
    cols: Seq<Seq<char>>,
    rows: Seq<Seq<Seq<char>>>,
    offset: nat,
    height: nat,
) -> BodyView {
    if cols.len() == 0 || rows.len() == 0 {
        BodyView::Text { text: "There is no data for this type (Preview)"@, scroll: 0 }
    } else {
        BodyView::Grid {
            header: cols,
            rows: window(rows, offset, height),
            widths: Seq::new(cols.len(), |i: int| Width::Min(8)),
            coloured: true,
        }
    }
}

/// `Block::default().borders(Borders::ALL).inner(..)` of `ratatui`: what is left of an area
/// inside a frame that takes one line on each side. The contract says all of it.
#[verifier::external_body]
fn block_inner(area: Area) -> (r: Area)
    ensures
        r == inside(area),
{
    let Area { x, y, width, height } = area;
    let inner = Block::default().borders(Borders::ALL).inner(Rect { x, y, width, height });
    Area { x: inner.x, y: inner.y, width: inner.width, height: inner.height }
}

/// `Layout::split` of `ratatui` from top to bottom, with `Constraint::Length(height)` for the
/// upper part and `Constraint::Min(min)` for the lower one. Both parts have the columns of the
/// area. A minimum goes before a length, and a part with a minimum grows into what is left.
/// The contract says all of the result: no other one meets the constraints as well, so the
/// order in which the solver behind the call takes its steps does not show.
#[verifier::external_body]
fn split_rows(area: Area, height: u16, min: u16) -> (r: (Area, Area))
    ensures
        r == rows_of(area, height as nat, min as nat),
{
    let Area { x, y, width, height: all } = area;
    let parts = Layout::default()
        .direction(Direction::Vertical)
        .constraints([Constraint::Length(height), Constraint::Min(min)].as_ref())
        .split(Rect { x, y, width, height: all });
    let (a, b) = (parts[0], parts[1]);
    (
        Area { x: a.x, y: a.y, width: a.width, height: a.height },
        Area { x: b.x, y: b.y, width: b.width, height: b.height },
    )
}

/// `Layout::split` of `ratatui` from left to right, with `Constraint::Percentage(left)` and
/// `Constraint::Percentage(right)`, which make a hundred. Both parts have the lines of the
/// area. The left one has its percentage of the width, rounded, where a half is rounded up,
/// and the right one has the rest. The contract says all of the result: no other one meets the
/// constraints as well, so the order in which the solver behind the call takes its steps does
/// not show.
#[verifier::external_body]
fn split_columns(area: Area, left: u16, right: u16) -> (r: (Area, Area))
    requires
        left + right == 100,
    ensures
        r == columns_of(area, left as nat),
{
    let Area { x, y, width, height } = area;
    let parts = Layout::default()
        .direction(Direction::Horizontal)
        .constraints([Constraint::Percentage(left), Constraint::Percentage(right)].as_ref())
        .split(Rect { x, y, width, height });
    let (a, b) = (parts[0], parts[1]);
    (
        Area { x: a.x, y: a.y, width: a.width, height: a.height },
        Area { x: b.x, y: b.y, width: b.width, height: b.height },
    )
}

/// Finds where the parts of the navigator stand on a screen.
pub fn lay_out(screen: Area) -> (r: Places)
    ensures
        r == places_on(screen),
{
    let (controls, panes) = split_rows(screen, CONTROLS_HEIGHT, PANE_HEIGHT);
    let (left, right) = split_columns(panes, LEFT_PERCENT, RIGHT_PERCENT);
    Places { controls, left, right }
}

/// The first and the end of the rows that are shown in a pane of that inner height.
fn shown_range(total: usize, offset: usize, height: u16) -> (r: (usize, usize))
    ensures
        r.0 == window_start(total as nat, offset as nat),
        r.1 == window_end(total as nat, offset as nat, height as nat),
        total > 0 ==> r.0 <= r.1 <= total,
{
    let max_rows: usize = height.saturating_sub(FRAME_LINES) as usize;
    let last: usize = total.saturating_sub(1);
    let start: usize = if offset <= last {
        offset
    } else {
        last
    };
    if total == 0 {
        return (0, 0);
    }
    let end: usize = if total - start > max_rows {
        start + max_rows
    } else {
        total
    };
    (start, end)
}

/// Copies texts.
fn copy_texts(texts: &Vec<String>) -> (r: Vec<String>)
    ensures
        r.deep_view() == texts.deep_view(),
{
    let mut out: Vec<String> = Vec::new();
    let mut i: usize = 0;
    while i < texts.len()
        invariant
            i <= texts@.len(),
            out@.len() == i,
            forall|k: int| 0 <= k < i ==> (#[trigger] out@[k])@ == texts@[k]@,
        decreases texts@.len() - i,
    {
        out.push(texts[i].clone());
        i += 1;
    }
    assert(out.deep_view() =~= texts.deep_view());
    out
}

/// Copies the rows `from..to`.
fn copy_rows(rows: &Vec<Vec<String>>, from: usize, to: usize) -> (r: Vec<Vec<String>>)
    requires
        from <= to <= rows@.len(),
    ensures
        r.deep_view() == rows.deep_view().subrange(from as int, to as int),
{
    let mut out: Vec<Vec<String>> = Vec::new();
    let mut i: usize = from;
    while i < to
        invariant
            from <= i <= to <= rows@.len(),
            out@.len() == i - from,
            forall|k: int|
                0 <= k < i - from ==> (#[trigger] out@[k]).deep_view() == rows@[from
                    + k].deep_view(),
        decreases to - i,
    {
        out.push(copy_texts(&rows[i]));
        i += 1;
    }
    assert(out.deep_view() =~= rows.deep_view().subrange(from as int, to as int));
    out
}

/// The number of lines that a text is scrolled by.
fn scroll_lines(offset: usize) -> (r: u16)
    ensures
        r == scroll_of(offset as nat),
{
    if offset <= u16::MAX as usize {
        offset as u16
    } else {
        u16::MAX
    }
}

/// Lays out the list of tables.
pub fn draw_left(tables: &Vec<String>) -> (r: LeftPane)
    ensures
        r.title@ == "Tables ("@ + decimal(tables@.len()) + ")"@,
        r.title@ == left_title(tables@.len()),
        r.items.deep_view() == tables.deep_view(),
{
    let mut title = "Tables (".to_owned();
    title.append(count_text(tables.len()).as_str());
    title.append(")");
    LeftPane { title, items: copy_texts(tables) }
}

/// Lays out the body that shows the definition of a table.
fn draw_ddl(ddl: &Option<String>, right_offset: usize) -> (r: Body)
    ensures
        r@ == ddl_body(ddl.deep_view(), right_offset as nat),
{
    let mut text = "There is no data for this type (DDL)".to_owned();
    if let Some(content) = ddl {
        if !content.as_str().is_empty() {
            text = content.clone();
        }
    }
    Body::Text { text, scroll: scroll_lines(right_offset) }
}

/// Lays out the body that shows foreign keys.
fn draw_keys(fks: &Vec<ForeignKey>, right_offset: usize, height: u16) -> (r: Body)
    ensures
        r@ == keys_body(fks.deep_view(), right_offset as nat, height as nat),
{
    if fks.len() == 0 {
        return Body::Text {
            text: "There is no data for this type (Foreign Keys)".to_owned(),
            scroll: scroll_lines(right_offset),
        };
    }
    let (start, end) = shown_range(fks.len(), right_offset, height);
    let widths = vec![Width::Length(16), Width::Length(24), Width::Length(16), Width::Min(10)];
    assert(widths@ =~= seq![
        Width::Length(16),
        Width::Length(24),
        Width::Length(16),
        Width::Min(10),
    ]);
    Body::Grid {
        header: make_key_header(),
        rows: make_key_rows(fks, start, end),
        widths,
        coloured: false,
    }
}

/// Lays out the body that shows the first rows of a table.
fn draw_preview(
    cols: &Vec<String>,
    rows: &Vec<Vec<String>>,
    right_offset: usize,
    height: u16,
) -> (r: Body)
    ensures
        r@ == preview_body(
            cols.deep_view(),
            rows.deep_view(),
            right_offset as nat,
            height as nat,
        ),
{
    if cols.len() == 0 || rows.len() == 0 {
        return Body::Text {
            text: "There is no data for this type (Preview)".to_owned(),
            scroll: 0,
        };
    }
    let (start, end) = shown_range(rows.len(), right_offset, height);
    let mut widths: Vec<Width> = Vec::new();
    let mut i: usize = 0;
    while i < cols.len()
        invariant
            i <= cols@.len(),
            widths@ == Seq::new(i as nat, |k: int| Width::Min(8)),
        decreases cols@.len() - i,
    {
        widths.push(Width::Min(8));
        assert(widths@ =~= Seq::new((i + 1) as nat, |k: int| Width::Min(8)));
        i += 1;
    }
    Body::Grid {
        header: copy_texts(cols),
        rows: copy_rows(rows, start, end),
        widths,
        coloured: true,
    }
}

/// Lays out the right pane in the given area.
pub fn draw_right(
    area: Area,
    mode: Mode,
    table_name: &str,
    cols: &Vec<String>,
    rows: &Vec<Vec<String>>,
    ddl: &Option<String>,
    fks: &Vec<ForeignKey>,
    right_offset: usize,
) -> (r: RightPane)
    ensures
        r.title@ == right_title(table_name@, mode),
        r.inner == inside(area),
        r.body@ == match mode {
            Mode::Preview => preview_body(
                cols.deep_view(),
                rows.deep_view(),
                right_offset as nat,
                inside(area).height as nat,
            ),
            Mode::Ddl => ddl_body(ddl.deep_view(), right_offset as nat),
            Mode::Fk => keys_body(
                fks.deep_view(),
                right_offset as nat,
                inside(area).height as nat,
            ),
        },
        forall|nav: NavigatorView|
            nav.mode == mode && nav.preview_cols == cols.deep_view() && nav.preview_rows
                == rows.deep_view() && nav.ddl_text == ddl.deep_view() && nav.fk_rows
                == fks.deep_view() && nav.right_offset == right_offset ==> r.body@
                == #[trigger] right_body(nav, area),
{
    let mut title = table_name.to_owned();
    title.append(" — ");
    title.append(
        match mode {
            Mode::Preview => "Preview",
            Mode::Ddl => "DDL",
            Mode::Fk => "Foreign Keys",
        },
    );
    let inner = block_inner(area);
    let body = match mode {
        Mode::Preview => draw_preview(cols, rows, right_offset, inner.height),
        Mode::Ddl => draw_ddl(ddl, right_offset),
        Mode::Fk => draw_keys(fks, right_offset, inner.height),
    };
    RightPane { title, inner, body }
}

/// The parts of the navigator fill the screen and do not overlap: the controls take its whole
/// width, the panes stand side by side right below them, and nothing is left over. The
/// controls have their full height wherever a line is left to the panes below.
pub proof fn law_places_fill_the_screen(screen: Area)
    requires
        screen.x + screen.width <= u16::MAX,
        screen.y + screen.height <= u16::MAX,
    ensures
        ({
            let p = places_on(screen);
            &&& p.controls.x == screen.x && p.controls.y == screen.y
            &&& p.controls.width == screen.width
            &&& p.left.x == screen.x && p.left.y == screen.y + p.controls.height
            &&& p.right.x == screen.x + p.left.width && p.right.y == p.left.y
            &&& p.left.width + p.right.width == screen.width
            &&& p.left.height == p.right.height
            &&& p.controls.height + p.left.height == screen.height
            &&& screen.height > CONTROLS_HEIGHT ==> p.controls.height == CONTROLS_HEIGHT
            &&& screen.height > 0 ==> p.left.height > 0
            &&& screen.height >= 5 ==> p.controls.height == 4
        }),
{
}

/// Scrolling on never shows an earlier line of a definition, and each line as far as scrolling
/// goes is reached.
pub proof fn law_text_scrolls_with_the_offset(a: nat, b: nat)
    ensures
        a <= b ==> scroll_of(a) <= scroll_of(b),
        a <= u16::MAX ==> scroll_of(a) == a,
{
}

/// The rows that are shown lie within those that are there, are no more than fit, and start
/// with the one that the pane is scrolled to.
pub proof fn law_window(total: nat, offset: nat, height: nat)
    ensures
        window_end(total, offset, height) <= total,
        total > 0 ==> window_start(total, offset) < total,
        total > 0 ==> window_start(total, offset) <= window_end(total, offset, height),
        window_end(total, offset, height) <= window_start(total, offset) + less(
            height,
            FRAME_LINES as nat,
        ),
        offset < total ==> window_start(total, offset) == offset,
        offset < total && height > FRAME_LINES ==> window_end(total, offset, height) > offset,
{
}

/// In every state of the navigator the rows or foreign keys that are shown start with the one
/// that the pane is scrolled to, and that one is shown wherever there is room for a row.
pub proof fn law_scrolled_line_is_shown_first(nav: NavigatorView, height: nat)
    requires
        nav.wf(),
        nav.mode is Preview || nav.mode is Fk,
        nav.content_len() > 0,
    ensures
        window_start(nav.content_len(), nav.right_offset) == nav.right_offset,
        height > FRAME_LINES ==> window_end(nav.content_len(), nav.right_offset, height)
            > nav.right_offset,
{
}

/// Whether a body is a text that says that there is no data.
pub open spec fn says_no_data(body: BodyView) -> bool {
    body is Text && body->text.len() > "There is no data for this type"@.len()
        && body->text.take("There is no data for this type"@.len() as int)
        == "There is no data for this type"@
}

/// A view that has nothing to show says so, in each mode.
pub proof fn law_empty_views_say_so(
    cols: Seq<Seq<char>>,
    rows: Seq<Seq<Seq<char>>>,
    offset: nat,
    height: nat,
)
    ensures
        rows.len() == 0 || cols.len() == 0 ==> says_no_data(
            preview_body(cols, rows, offset, height),
        ),
        says_no_data(ddl_body(None, offset)),
        says_no_data(ddl_body(Some(seq![]), offset)),
        says_no_data(keys_body(seq![], offset, height)),
{
    reveal_strlit("There is no data for this type");
    reveal_strlit("There is no data for this type (Preview)");
    reveal_strlit("There is no data for this type (DDL)");
    reveal_strlit("There is no data for this type (Foreign Keys)");
    let n = "There is no data for this type"@.len() as int;
    assert("There is no data for this type (Preview)"@.take(n)
        =~= "There is no data for this type"@);
    assert("There is no data for this type (DDL)"@.take(n) =~= "There is no data for this type"@);
    assert("There is no data for this type (Foreign Keys)"@.take(n)
        =~= "There is no data for this type"@);
}

/// Whether `shown` are the rows from `offset` on that fit into a pane of that inner height, of
/// which three lines hold no rows.
pub open spec fn shows_from<T>(shown: Seq<T>, rows: Seq<T>, offset: nat, height: nat) -> bool {
    &&& shown.len() <= rows.len() - offset
    &&& height >= 3 && height - 3 <= rows.len() - offset ==> shown.len() == height - 3
    &&& height >= 3 && height - 3 > rows.len() - offset ==> shown.len() == rows.len() - offset
    &&& height < 3 ==> shown.len() == 0
    &&& forall|k: int| 0 <= k < shown.len() ==> #[trigger] shown[k] == rows[offset + k]
}

/// A preview shows all columns under their names, and of the rows those from the offset on, as
/// they are and as many as fit.
pub proof fn law_preview_shows_the_rows(
    cols: Seq<Seq<char>>,
    rows: Seq<Seq<Seq<char>>>,
    offset: nat,
    height: nat,
)
    requires
        cols.len() > 0,
        offset < rows.len(),
    ensures
        ({
            let body = preview_body(cols, rows, offset, height);
            &&& body is Grid
            &&& body->header == cols
            &&& shows_from(body->rows, rows, offset, height)
            &&& body->widths.len() == cols.len()
            &&& forall|i: int| 0 <= i < cols.len() ==> #[trigger] body->widths[i] == Width::Min(8)
            &&& body->coloured
        }),
{
}

/// A view of foreign keys shows those from the offset on, as many as fit, each with the column
/// it is on, the table and the column it refers to, and its actions.
pub proof fn law_keys_view_shows_the_keys(
    keys: Seq<(Seq<char>, Seq<char>, Seq<char>, Seq<char>)>,
    offset: nat,
    height: nat,
)
    requires
        offset < keys.len(),
    ensures
        ({
            let body = keys_body(keys, offset, height);
            &&& body is Grid
            &&& body->header == seq!["from"@, "ref_table"@, "ref_col"@, "actions"@]
            &&& shows_from(
                body->rows,
                Seq::new(
                    keys.len(),
                    |i: int| seq![keys[i].0, keys[i].1, keys[i].2, keys[i].3],
                ),
                offset,
                height,
            )
            &&& body->widths == seq![
                Width::Length(16),
                Width::Length(24),
                Width::Length(16),
                Width::Min(10),
            ]
            &&& !body->coloured
        }),
{
}

/// A definition is shown whole, and scrolled to the offset as far as scrolling goes.
pub proof fn law_definition_is_shown_whole(text: Seq<char>, offset: nat)
    requires
        text.len() > 0,
    ensures
        ddl_body(Some(text), offset) is Text,
        ddl_body(Some(text), offset)->text == text,
        offset <= u16::MAX ==> ddl_body(Some(text), offset)->scroll == offset,
        offset > u16::MAX ==> ddl_body(Some(text), offset)->scroll == u16::MAX,
{
}

/// A view that has nothing to show says what it lacks.
pub proof fn law_empty_views_say_what_they_lack(
    cols: Seq<Seq<char>>,
    rows: Seq<Seq<Seq<char>>>,
    offset: nat,
    height: nat,
)
    requires
        cols.len() == 0 || rows.len() == 0,
        offset <= u16::MAX,
    ensures
        preview_body(cols, rows, offset, height) == (BodyView::Text {
            text: "There is no data for this type (Preview)"@,
            scroll: 0,
        }),
        ddl_body(None, offset) == (BodyView::Text {
            text: "There is no data for this type (DDL)"@,
            scroll: offset,
        }),
        ddl_body(Some(seq![]), offset) == ddl_body(None, offset),
        keys_body(seq![], offset, height) == (BodyView::Text {
            text: "There is no data for this type (Foreign Keys)"@,
            scroll: offset,
        }),
{
}

/// The title of the right pane is the name of the table and what is shown of it.
pub proof fn law_title_names_the_table(table: Seq<char>)
    ensures
        right_title(table, Mode::Preview) == table + " — "@ + "Preview"@,
        right_title(table, Mode::Ddl) == table + " — "@ + "DDL"@,
        right_title(table, Mode::Fk) == table + " — "@ + "Foreign Keys"@,
{
}

/// The frame of a pane takes one line or column on each side, where there is room for it.
pub proof fn law_frame_takes_one_on_each_side(area: Area)
    requires
        area.width >= 2,
        area.height >= 2,
        area.x + area.width <= u16::MAX,
        area.y + area.height <= u16::MAX,
    ensures
        inside(area).x == area.x + 1,
        inside(area).y == area.y + 1,
        inside(area).width == area.width - 2,
        inside(area).height == area.height - 2,
{
}

/// The list of tables has three tenths of the columns, to the nearest one.
pub proof fn law_list_has_its_share(screen: Area)
    requires
        screen.x + screen.width <= u16::MAX,
        screen.y + screen.height <= u16::MAX,
    ensures
        10 * places_on(screen).left.width <= 3 * screen.width + 5,
        10 * places_on(screen).left.width + 5 > 3 * screen.width,
{
}

/// Nothing of a body is lost from the view of it.
pub proof fn law_body_is_seen_whole(body: Body)
    ensures
        match body {
            Body::Text { text, scroll } => body@ == (BodyView::Text {
                text: text@,
                scroll: scroll as nat,
            }),
            Body::Grid { header, rows, widths, coloured } => body@ == (BodyView::Grid {
                header: header.deep_view(),
                rows: rows.deep_view(),
                widths: widths@,
                coloured,
            }),
        },
{
}

/// The title of the list tells how many tables there are.
pub proof fn law_list_tells_its_length(n: nat)
    ensures
        left_title(n) == "Tables ("@ + decimal(n) + ")"@,
{
}

/// In every state of the navigator the right pane shows what its mode says: the rows from the
/// offset on, the whole definition, or the foreign keys from the offset on; of the selected
/// table, as they were loaded. Where there is nothing to show it says so.
pub proof fn law_right_pane_shows_what_was_loaded(nav: NavigatorView, area: Area)
    requires
        nav.wf(),
    ensures
        nav.mode is Preview && nav.preview_cols.len() > 0 && nav.preview_rows.len() > 0 ==> {
            let body = right_body(nav, area);
            &&& body is Grid
            &&& body->header == nav.preview_cols
            &&& shows_from(
                body->rows,
                nav.preview_rows,
                nav.right_offset,
                inside(area).height as nat,
            )
        },
        nav.mode is Ddl && nav.ddl_text is Some && nav.ddl_text->0.len() > 0 ==> {
            let body = right_body(nav, area);
            &&& body is Text
            &&& body->text == nav.ddl_text->0
            &&& nav.right_offset <= u16::MAX ==> body->scroll == nav.right_offset
        },
        nav.mode is Fk && nav.fk_rows.len() > 0 ==> {
            let body = right_body(nav, area);
            &&& body is Grid
            &&& shows_from(
                body->rows,
                Seq::new(
                    nav.fk_rows.len(),
                    |i: int|
                        seq![
                            nav.fk_rows[i].0,
                            nav.fk_rows[i].1,
                            nav.fk_rows[i].2,
                            nav.fk_rows[i].3,
                        ],
                ),
                nav.right_offset,
                inside(area).height as nat,
            )
        },
        nav.content_len() == 0 && (nav.mode is Ddl ==> nav.ddl_text is None) ==> says_no_data(
            right_body(nav, area),
        ),
{
    let height = inside(area).height as nat;
    law_empty_views_say_so(nav.preview_cols, nav.preview_rows, nav.right_offset, height);
    if nav.mode is Preview && nav.preview_cols.len() > 0 && nav.preview_rows.len() > 0 {
        law_preview_shows_the_rows(nav.preview_cols, nav.preview_rows, nav.right_offset, height);
    }
    if nav.mode is Fk {
        if nav.fk_rows.len() > 0 {
            law_keys_view_shows_the_keys(nav.fk_rows, nav.right_offset, height);
        } else {
            assert(nav.fk_rows =~= seq![]);
        }
    }
}

/// Scrolled beyond the end, a view shows what it shows when scrolled to its last row.
pub proof fn law_views_stop_at_the_last_row(
    cols: Seq<Seq<char>>,
    rows: Seq<Seq<Seq<char>>>,
    keys: Seq<(Seq<char>, Seq<char>, Seq<char>, Seq<char>)>,
    offset: nat,
    height: nat,
)
    ensures
        0 < rows.len() <= offset ==> preview_body(cols, rows, offset, height) == preview_body(
            cols,
            rows,
            (rows.len() - 1) as nat,
            height,
        ),
        0 < keys.len() <= offset ==> keys_body(keys, offset, height) == keys_body(
            keys,
            (keys.len() - 1) as nat,
            height,
        ),
{
}

} // verus!
