use fast_sql_term::db::{Statement, DB};
use fast_sql_term::failure::Failure;
use fast_sql_term::meta::{handle_meta, Action};
use fast_sql_term::pane::{draw_left, draw_right, lay_out, Area, Body, Places, Width};
use fast_sql_term::rows::{Answer, KeyRow, Value};
use fast_sql_term::ui::{
    poll_timeout, run_ui, tick_due, Key, Mode, Navigator, Start, Step, CONTROLS,
};

fn s(text: &str) -> String {
    text.to_string()
}

fn texts(items: &[&str]) -> Vec<String> {
    items.iter().map(|t| t.to_string()).collect()
}

fn connected() -> DB {
    DB { connected: true, table: None }
}

fn names(n: usize) -> Vec<String> {
    (0..n).map(|i| format!("t{}", i)).collect()
}

fn start(db: &mut DB, n: usize) -> Navigator {
    let answer = Ok(names(n).into_iter().map(Ok).collect());
    match run_ui(db, answer) {
        Ok(Start::Begin { navigator, load }) => {
            assert_eq!(
                load.preview,
                Statement::Query { sql: s("SELECT * FROM \"t0\" LIMIT 1000"), param: None }
            );
            navigator
        }
        other => panic!("{:?}", other),
    }
}

fn load_rows(nav: &mut Navigator, n: usize) {
    let rows = (0..n).map(|i| Ok(vec![Value::Integer(i as i64)])).collect();
    nav.load_preview(Ok(Answer { cols: texts(&["n"]), rows }));
}

fn loaded_table(step: Result<Step, Failure>) -> String {
    match step {
        Ok(Step::Load(load)) => match load.keys {
            Statement::Query { sql, .. } => {
                sql.replace("PRAGMA foreign_key_list(\"", "").replace("\")", "")
            }
            other => panic!("{:?}", other),
        },
        other => panic!("{:?}", other),
    }
}

#[test]
fn the_navigator_needs_tables() {
    let mut db = connected();
    assert_eq!(run_ui(&mut db, Ok(vec![])), Ok(Start::NoTables(s("<no tables>\n"))));
    assert_eq!(run_ui(&mut db, Err(s("x"))), Err(Failure::Outside(s("x"))));
    assert_eq!(db.table, None);
    let mut none = DB::new();
    assert_eq!(run_ui(&mut none, Ok(vec![Ok(s("t"))])), Err(Failure::NoDb));
    assert_eq!(none, DB::new());
}

#[test]
fn the_navigator_starts_at_the_first_table() {
    let mut db = connected();
    let nav = start(&mut db, 3);
    assert_eq!((nav.selected(), nav.right_offset(), nav.mode()), (0, 0, Mode::Preview));
    assert_eq!(db.table, Some(s("t0")));
}

#[test]
fn keys_move_the_selection() {
    let mut db = connected();
    let mut nav = start(&mut db, 25);
    for (key, table) in [
        (Key::Up, 0),
        (Key::Down, 1),
        (Key::PageDown, 11),
        (Key::PageDown, 21),
        (Key::PageDown, 24),
        (Key::Down, 24),
        (Key::Up, 23),
        (Key::PageUp, 13),
        (Key::PageUp, 3),
        (Key::PageUp, 0),
        (Key::End, 24),
        (Key::Home, 0),
    ] {
        let expected = format!("t{}", table);
        assert_eq!(loaded_table(nav.press(&mut db, key, false)), expected);
        assert_eq!(nav.selected(), table);
        assert_eq!(db.table, Some(expected));
    }
}

#[test]
fn home_and_end_do_not_mind_the_shift_key() {
    let mut db = connected();
    let mut nav = start(&mut db, 5);
    assert_eq!(loaded_table(nav.press(&mut db, Key::End, true)), "t4");
    assert_eq!(loaded_table(nav.press(&mut db, Key::Home, true)), "t0");
}

#[test]
fn the_shift_key_scrolls() {
    let mut db = connected();
    let mut nav = start(&mut db, 2);
    load_rows(&mut nav, 25);
    for (key, offset) in [
        (Key::Up, 0),
        (Key::Down, 1),
        (Key::PageDown, 11),
        (Key::PageDown, 21),
        (Key::PageDown, 24),
        (Key::Down, 24),
        (Key::Up, 23),
        (Key::PageUp, 13),
        (Key::PageUp, 3),
        (Key::PageUp, 0),
    ] {
        assert_eq!(nav.press(&mut db, key, true), Ok(Step::Stay));
        assert_eq!(nav.right_offset(), offset);
        assert_eq!(nav.selected(), 0);
    }
    assert_eq!(db.table, Some(s("t0")));
}

#[test]
fn nothing_to_scroll_stays_at_the_top() {
    let mut db = connected();
    let mut nav = start(&mut db, 1);
    for key in [Key::Down, Key::PageDown, Key::Up, Key::PageUp] {
        assert_eq!(nav.press(&mut db, key, true), Ok(Step::Stay));
        assert_eq!(nav.right_offset(), 0);
    }
}

#[test]
fn letters_choose_what_is_shown() {
    let mut db = connected();
    let mut nav = start(&mut db, 2);
    load_rows(&mut nav, 5);
    assert_eq!(nav.load_ddl(Ok(Some(Ok(Some(s("a\nb\nc\n")))))), Ok(()));
    let key: KeyRow = [
        Ok(s("0")),
        Ok(s("0")),
        Ok(s("t")),
        Ok(s("f")),
        Ok(s("c")),
        Ok(s("")),
        Ok(s("")),
    ];
    assert_eq!(nav.load_keys(Ok(vec![Ok(key)])), Ok(()));
    for (letter, mode, lines) in [
        ('d', Mode::Ddl, 3),
        ('F', Mode::Fk, 1),
        ('D', Mode::Ddl, 3),
        ('f', Mode::Fk, 1),
        ('x', Mode::Fk, 1),
    ] {
        assert_eq!(nav.press(&mut db, Key::Char(letter), false), Ok(Step::Stay));
        assert_eq!((nav.mode(), nav.content_len()), (mode, lines));
    }
    assert_eq!(nav.press(&mut db, Key::Enter, false), Ok(Step::Stay));
    assert_eq!((nav.mode(), nav.content_len()), (Mode::Preview, 5));
    assert_eq!(nav.press(&mut db, Key::Other, false), Ok(Step::Stay));
    assert_eq!(nav.press(&mut db, Key::Down, true), Ok(Step::Stay));
    assert_eq!(nav.right_offset(), 1);
    assert_eq!(nav.press(&mut db, Key::Char('d'), false), Ok(Step::Stay));
    assert_eq!(nav.right_offset(), 0);
}

#[test]
fn q_quits() {
    let mut db = connected();
    let mut nav = start(&mut db, 2);
    assert_eq!(nav.press(&mut db, Key::Char('q'), false), Ok(Step::Quit));
    assert_eq!(nav.press(&mut db, Key::Char('Q'), true), Ok(Step::Quit));
}

#[test]
fn a_failed_preview_keeps_the_rows() {
    let mut db = connected();
    let mut nav = start(&mut db, 2);
    load_rows(&mut nav, 2);
    nav.load_preview(Err(s("locked")));
    assert_eq!(nav.preview_rows(), &vec![texts(&["0"]), texts(&["1"])]);
    assert_eq!(nav.load_ddl(Err(s("x"))), Err(Failure::Outside(s("x"))));
    assert_eq!(nav.load_keys(Err(s("y"))), Err(Failure::Outside(s("y"))));
}

#[test]
fn selecting_without_a_database_fails() {
    let mut db = connected();
    let mut nav = start(&mut db, 2);
    db.connected = false;
    assert_eq!(nav.press(&mut db, Key::Down, false), Err(Failure::NoDb));
    assert_eq!((nav.selected(), db.table.clone()), (1, Some(s("t1"))));
}

#[test]
fn each_table_and_line_is_reached() {
    let mut db = connected();
    let mut nav = start(&mut db, 12);
    for i in 1..12 {
        assert_eq!(loaded_table(nav.press(&mut db, Key::Down, false)), format!("t{}", i));
    }
    load_rows(&mut nav, 7);
    for i in 1..7 {
        assert_eq!(nav.press(&mut db, Key::Down, true), Ok(Step::Stay));
        assert_eq!(nav.right_offset(), i);
    }
}

#[test]
fn ticks_come_five_times_a_second() {
    assert_eq!(poll_timeout(0), 200_000_000);
    assert_eq!(poll_timeout(150_000_000), 50_000_000);
    assert_eq!(poll_timeout(200_000_001), 0);
    assert_eq!(poll_timeout(u128::MAX), 0);
    assert!(!tick_due(199_999_999));
    assert!(tick_due(200_000_000));
}

#[test]
fn the_controls_are_told() {
    assert_eq!(CONTROLS.lines().count(), 4);
    assert!(CONTROLS.contains("Shift+↑/Shift+↓  Scroll right pane"));
}

#[test]
fn the_left_pane_lists_the_tables() {
    let pane = draw_left(&texts(&["a", "b"]));
    assert_eq!(pane.title, "Tables (2)");
    assert_eq!(pane.items, texts(&["a", "b"]));
}

fn area(height: u16) -> Area {
    Area { x: 30, y: 4, width: 70, height }
}

fn numbered(n: usize) -> Vec<Vec<String>> {
    (0..n).map(|i| vec![i.to_string()]).collect()
}

fn shown(total: usize, offset: usize, height: u16) -> Vec<Vec<String>> {
    let pane = draw_right(
        area(height),
        Mode::Preview,
        "t",
        &texts(&["n"]),
        &numbered(total),
        &None,
        &vec![],
        offset,
    );
    match pane.body {
        Body::Grid { rows, .. } => rows,
        other => panic!("{:?}", other),
    }
}

#[test]
fn the_screen_is_shared() {
    assert_eq!(
        lay_out(Area { x: 0, y: 0, width: 80, height: 24 }),
        Places {
            controls: Area { x: 0, y: 0, width: 80, height: 4 },
            left: Area { x: 0, y: 4, width: 24, height: 20 },
            right: Area { x: 24, y: 4, width: 56, height: 20 },
        }
    );
    assert_eq!(
        lay_out(Area { x: 7, y: 3, width: 5, height: 3 }),
        Places {
            controls: Area { x: 7, y: 3, width: 5, height: 2 },
            left: Area { x: 7, y: 5, width: 2, height: 1 },
            right: Area { x: 9, y: 5, width: 3, height: 1 },
        }
    );
}

/// The shares of a screen: the controls have four lines where one is left below them, and the
/// tables have three tenths of the columns, rounded.
fn shares(screen: Area) -> Places {
    let width = (u32::from(screen.x) + u32::from(screen.width)).min(65535) - u32::from(screen.x);
    let height = (u32::from(screen.y) + u32::from(screen.height)).min(65535) - u32::from(screen.y);
    let upper = if height >= 5 { 4 } else { height.saturating_sub(1) };
    let left = (3 * width + 5) / 10;
    let y = screen.y + upper as u16;
    Places {
        controls: Area { height: upper as u16, ..screen },
        left: Area { y, width: left as u16, height: (height - upper) as u16, ..screen },
        right: Area {
            x: screen.x + left as u16,
            y,
            width: (width - left) as u16,
            height: (height - upper) as u16,
        },
    }
}

#[test]
fn every_screen_is_shared() {
    for n in 0..700u16 {
        for screen in [
            Area { x: 0, y: 0, width: n, height: 30 },
            Area { x: 0, y: 0, width: 100, height: n },
            Area { x: n, y: 2 * n, width: 3 * n, height: n },
            Area { x: 65535 - n, y: 65535 - n, width: 100, height: 100 },
            Area { x: 0, y: n, width: 65535 - n, height: 65535 - n },
        ] {
            assert_eq!(lay_out(screen), shares(screen), "{:?}", screen);
        }
    }
}

#[test]
fn a_frame_takes_a_line_on_each_side() {
    let pane = draw_right(area(20), Mode::Ddl, "t", &vec![], &vec![], &None, &vec![], 0);
    assert_eq!(pane.inner, Area { x: 31, y: 5, width: 68, height: 18 });
    for (outer, inner) in [
        (Area { x: 5, y: 6, width: 0, height: 0 }, Area { x: 5, y: 6, width: 0, height: 0 }),
        (Area { x: 5, y: 6, width: 1, height: 1 }, Area { x: 6, y: 7, width: 0, height: 0 }),
        (
            Area { x: u16::MAX, y: u16::MAX, width: 9, height: 9 },
            Area { x: u16::MAX, y: u16::MAX, width: 7, height: 7 },
        ),
    ] {
        let pane = draw_right(outer, Mode::Ddl, "t", &vec![], &vec![], &None, &vec![], 0);
        assert_eq!(pane.inner, inner);
    }
}

#[test]
fn rows_are_shown_from_the_offset() {
    assert_eq!(shown(20, 0, 10), numbered(20)[0..5].to_vec());
    assert_eq!(shown(20, 7, 10), numbered(20)[7..12].to_vec());
    assert_eq!(shown(20, 19, 10), numbered(20)[19..20].to_vec());
    assert_eq!(shown(20, 100, 10), numbered(20)[19..20].to_vec());
    assert_eq!(shown(3, 0, 5), numbered(0));
    assert_eq!(shown(3, 0, 0), numbered(0));
    assert_eq!(shown(3, 0, 6), numbered(1));
}

#[test]
fn previews_are_laid_out() {
    let pane = draw_right(
        area(10),
        Mode::Preview,
        "users",
        &texts(&["id", "name"]),
        &vec![texts(&["1", "bob"])],
        &None,
        &vec![],
        0,
    );
    assert_eq!(pane.title, "users — Preview");
    assert_eq!(
        pane.body,
        Body::Grid {
            header: texts(&["id", "name"]),
            rows: vec![texts(&["1", "bob"])],
            widths: vec![Width::Min(8), Width::Min(8)],
            coloured: true,
        }
    );
}

#[test]
fn foreign_keys_are_laid_out() {
    let keys = vec![(s("a"), s("t"), s("id"), s("upd:, del:"))];
    let pane = draw_right(area(10), Mode::Fk, "users", &vec![], &vec![], &None, &keys, 0);
    assert_eq!(pane.title, "users — Foreign Keys");
    assert_eq!(
        pane.body,
        Body::Grid {
            header: texts(&["from", "ref_table", "ref_col", "actions"]),
            rows: vec![texts(&["a", "t", "id", "upd:, del:"])],
            widths: vec![Width::Length(16), Width::Length(24), Width::Length(16), Width::Min(10)],
            coloured: false,
        }
    );
}

#[test]
fn empty_views_say_so() {
    let text = |mode: Mode, cols: &Vec<String>, ddl: &Option<String>| {
        match draw_right(area(10), mode, "t", cols, &vec![], ddl, &vec![], 0).body {
            Body::Text { text, scroll } => (text, scroll),
            other => panic!("{:?}", other),
        }
    };
    let preview = (s("There is no data for this type (Preview)"), 0);
    assert_eq!(text(Mode::Preview, &vec![], &None), preview);
    assert_eq!(text(Mode::Preview, &texts(&["a"]), &None), preview);
    let ddl = (s("There is no data for this type (DDL)"), 0);
    assert_eq!(text(Mode::Ddl, &vec![], &None), ddl);
    assert_eq!(text(Mode::Ddl, &vec![], &Some(s(""))), ddl);
    let keys = (s("There is no data for this type (Foreign Keys)"), 0);
    assert_eq!(text(Mode::Fk, &vec![], &None), keys);
}

#[test]
fn definitions_are_scrolled() {
    let body = |offset: usize| {
        draw_right(area(10), Mode::Ddl, "t", &vec![], &vec![], &Some(s("x")), &vec![], offset).body
    };
    assert_eq!(body(3), Body::Text { text: s("x"), scroll: 3 });
    assert_eq!(body(65535), Body::Text { text: s("x"), scroll: 65535 });
    assert_eq!(body(65537), Body::Text { text: s("x"), scroll: 65535 });
}

#[test]
fn fk_follows_the_navigator() {
    let mut db = connected();
    let mut nav = start(&mut db, 3);
    assert_eq!(loaded_table(nav.press(&mut db, Key::End, false)), "t2");
    assert_eq!(nav.press(&mut db, Key::Char('q'), false), Ok(Step::Quit));
    assert_eq!(
        handle_meta(&mut db, ".fk"),
        Ok(Action::ShowKeys {
            table: s("t2"),
            statement: Statement::Query {
                sql: s("PRAGMA foreign_key_list(\"t2\")"),
                param: None,
            },
        })
    );
}

#[test]
fn down_and_up_lead_back() {
    let mut db = connected();
    let mut nav = start(&mut db, 3);
    load_rows(&mut nav, 3);
    assert_eq!(nav.press(&mut db, Key::Down, true), Ok(Step::Stay));
    assert_eq!(nav.press(&mut db, Key::Up, true), Ok(Step::Stay));
    assert_eq!(nav.right_offset(), 0);
    assert_eq!(loaded_table(nav.press(&mut db, Key::Down, false)), "t1");
    assert_eq!(loaded_table(nav.press(&mut db, Key::Up, false)), "t0");
}
