use fast_sql_term::csv::{quotes_needed, write_csv};
use fast_sql_term::find::{find_tables, lower_text, pick};
use fast_sql_term::number::{count_text, decimal_text, parse_count, signed_text};
use fast_sql_term::order::{is_no_later, sort_texts};
use fast_sql_term::quote::{double_quotes, quote};
use fast_sql_term::text::{
    chars_of, contains, count_lines, rest_behind, same, split_words, trim, white_space,
};

fn texts(items: &[&str]) -> Vec<String> {
    items.iter().map(|s| s.to_string()).collect()
}

#[test]
fn white_space_is_that_of_unicode() {
    let mut code: u32 = 0;
    while code <= 0x10ffff {
        if let Some(c) = char::from_u32(code) {
            assert_eq!(white_space(c), c.is_whitespace(), "{:x}", code);
        }
        code += 1;
    }
}

#[test]
fn trimming_drops_both_ends() {
    assert_eq!(trim(" \t select 1 \u{3000}\n"), "select 1");
    assert_eq!(trim("   "), "");
    assert_eq!(trim(""), "");
    assert_eq!(trim(&trim("  a b  ")), trim("  a b  "));
}

#[test]
fn words_are_split_at_white_space() {
    assert_eq!(split_words("  .preview\tusers   5 "), texts(&[".preview", "users", "5"]));
    assert_eq!(split_words(" \n "), texts(&[]));
    assert_eq!(split_words("é\u{a0}ü"), texts(&["é", "ü"]));
}

#[test]
fn joined_words_split_again() {
    let words = split_words(" select  name\tfrom t ");
    assert_eq!(split_words(&words.join(" ")), words);
}

#[test]
fn what_follows_words_is_kept_as_it_is() {
    assert_eq!(rest_behind("  a  b  c  d  ", 0), "a  b  c  d");
    assert_eq!(rest_behind("  a  b  c  d  ", 2), "c  d");
    assert_eq!(rest_behind("a\tb\u{3000}c\n d", 1), "b\u{3000}c\n d");
    assert_eq!(rest_behind("a b", 2), "");
    assert_eq!(rest_behind("a b", 9), "");
    assert_eq!(rest_behind(" \n ", 0), "");
}

#[test]
fn characters_and_equality() {
    assert_eq!(chars_of("aé"), vec!['a', 'é']);
    assert!(same(".ls", ".ls"));
    assert!(!same(".ls", ".LS"));
}

#[test]
fn parts_are_found() {
    assert!(contains("orders", "der"));
    assert!(contains("orders", ""));
    assert!(contains("", ""));
    assert!(!contains("orders", "red"));
    assert!(!contains("or", "orders"));
    assert!(contains("aab", "ab"));
}

#[test]
fn lines_are_counted() {
    for s in ["", "a", "a\n", "a\nb", "a\nb\n", "\n", "\n\n", "a\r\nb"] {
        assert_eq!(count_lines(s), s.lines().count(), "{:?}", s);
    }
    assert_eq!(count_lines("CREATE TABLE t (\n  a\n)"), 3);
}

#[test]
fn numbers_are_written() {
    assert_eq!(decimal_text(0), "0");
    assert_eq!(decimal_text(10), "10");
    assert_eq!(decimal_text(u64::MAX), u64::MAX.to_string());
    assert_eq!(count_text(1000), "1000");
    assert_eq!(signed_text(-7), "-7");
    assert_eq!(signed_text(i64::MIN), i64::MIN.to_string());
    assert_eq!(signed_text(i64::MAX), i64::MAX.to_string());
}

#[test]
fn numbers_are_read() {
    for s in [
        "0", "50", "007", "+5", "+", "", "-1", "1x", " 1", "++1", "18446744073709551615",
        "18446744073709551616", "99999999999999999999999", "٣",
    ] {
        assert_eq!(parse_count(s), s.parse::<usize>().ok(), "{:?}", s);
    }
    assert_eq!(parse_count("50"), Some(50));
}

#[test]
fn counts_are_read_back() {
    for n in [0usize, 9, 10, 12345, usize::MAX] {
        assert_eq!(parse_count(&count_text(n)), Some(n));
    }
}

#[test]
fn quotes_are_doubled() {
    assert_eq!(double_quotes("a\"b\"\""), "a\"\"b\"\"\"\"");
    assert_eq!(quote("we\"ird"), "\"we\"\"ird\"");
    assert_eq!(quote(""), "\"\"");
}

#[test]
fn texts_are_ordered_by_characters() {
    assert!(is_no_later("", "a"));
    assert!(is_no_later("a", "a"));
    assert!(is_no_later("a", "ab"));
    assert!(!is_no_later("b", "ab"));
    assert!(is_no_later("Z", "a"));
    let mut by_std = texts(&["b", "é", "a", "Z", "ab", "", "a"]);
    let sorted = sort_texts(texts(&["b", "é", "a", "Z", "ab", "", "a"]));
    by_std.sort();
    assert_eq!(sorted, by_std);
}

#[test]
fn lower_case_is_that_of_std() {
    assert_eq!(lower_text("UsERs_1"), "users_1");
    assert_eq!(lower_text("ÄΣ"), "äς");
}

#[test]
fn names_are_picked() {
    let names = texts(&["A", "B", "C"]);
    let lowered = texts(&["xa", "b", "xc"]);
    assert_eq!(pick(&names, &lowered, "x"), texts(&["A", "C"]));
}

#[test]
fn names_are_found_in_order() {
    let names = texts(&["Users", "orders", "user_log", "ABUSER", "ÜSER"]);
    assert_eq!(find_tables(&names, "user"), texts(&["ABUSER", "Users", "user_log"]));
    assert_eq!(find_tables(&names, "nothing"), texts(&[]));
    assert_eq!(find_tables(&names, "ü"), texts(&["ÜSER"]));
}

#[test]
fn exports_are_written() {
    let cols = texts(&["id", "note"]);
    let rows = vec![
        texts(&["1", "plain"]),
        texts(&["2", "a,b"]),
        texts(&["3", "say \"hi\""]),
        texts(&["4", "two\nlines"]),
        texts(&["5", ""]),
    ];
    assert_eq!(
        write_csv(&cols, &rows),
        "id,note\n1,plain\n2,\"a,b\"\n3,\"say \"\"hi\"\"\"\n4,\"two\nlines\"\n5,\n"
    );
}

#[test]
fn column_names_are_written_as_they_are() {
    assert_eq!(write_csv(&texts(&["a,b", "c\"d"]), &vec![]), "a,b,c\"d\n");
    assert_eq!(write_csv(&vec![], &vec![]), "\n");
}

#[test]
fn carriage_returns_need_no_quotes() {
    assert!(!quotes_needed("a\rb"));
    assert!(!quotes_needed(" "));
    assert!(quotes_needed(","));
    assert!(quotes_needed("\""));
    assert!(quotes_needed("a\n"));
}

fn read_export(text: &str) -> Vec<Vec<String>> {
    let mut rows = Vec::new();
    let mut row = Vec::new();
    let mut cell = String::new();
    let mut chars = text.chars().peekable();
    let mut quoted = false;
    while let Some(c) = chars.next() {
        if quoted {
            if c != '"' {
                cell.push(c);
            } else if chars.peek() == Some(&'"') {
                chars.next();
                cell.push('"');
            } else {
                quoted = false;
            }
        } else if c == '"' {
            quoted = true;
        } else if c == ',' {
            row.push(std::mem::take(&mut cell));
        } else if c == '\n' {
            row.push(std::mem::take(&mut cell));
            rows.push(std::mem::take(&mut row));
        } else {
            cell.push(c);
        }
    }
    rows
}

#[test]
fn exports_are_read_back() {
    let cols = texts(&["a", "b"]);
    let rows = vec![texts(&["\"", ",\n\""]), texts(&["", "x y"]), texts(&["\"\"", "\r"])];
    let mut all = vec![cols.clone()];
    all.extend(rows.clone());
    assert_eq!(read_export(&write_csv(&cols, &rows)), all);
}

#[test]
fn quotes_inside_column_names_are_kept() {
    let cols = texts(&["a\"b", "c"]);
    let rows = vec![texts(&["1", "2"])];
    assert_eq!(write_csv(&cols, &rows), "a\"b,c\n1,2\n");
}

#[test]
fn case_does_not_count_in_a_search() {
    let names = texts(&["Orders", "ORDERS_OLD", "items"]);
    let hits = texts(&["ORDERS_OLD", "Orders"]);
    for pattern in ["order", "ORDER", "OrDeR"] {
        assert_eq!(find_tables(&names, &lower_text(pattern)), hits);
    }
}
