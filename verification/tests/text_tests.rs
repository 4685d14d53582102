use kass::text::{content_to_rows, rows_to_content, copy_row, join_rows, row_eq, rows_eq, fmt_usize};

fn chars_t(s: &str) -> Vec<char> {
    s.chars().collect()
}

#[test]
fn load_save_round_trip_plain() {
    let content = chars_t("ab\ncd");
    let rows = content_to_rows(&content);
    assert_eq!(rows, vec![chars_t("ab"), chars_t("cd")]);
    let back = rows_to_content(&rows);
    assert_eq!(back, content);
}

#[test]
fn load_save_round_trip_trailing_newline() {
    let content = chars_t("ab\n");
    let rows = content_to_rows(&content);
    assert_eq!(rows, vec![chars_t("ab"), chars_t("")]);
    let back = rows_to_content(&rows);
    assert_eq!(back, content);
}

#[test]
fn load_empty_content_is_single_empty_line() {
    let rows = content_to_rows(&Vec::new());
    assert_eq!(rows.len(), 1);
    assert!(rows[0].is_empty());
    assert_eq!(rows_to_content(&rows), Vec::new());
}

#[test]
fn split_keeps_empty_middle_line() {
    let rows = content_to_rows(&chars_t("a\n\nb"));
    assert_eq!(rows, vec![chars_t("a"), chars_t(""), chars_t("b")]);
    assert_eq!(rows_to_content(&rows), chars_t("a\n\nb"));
}

#[test]
fn round_trip_newlines_only() {
    let content = chars_t("\n\n");
    let rows = content_to_rows(&content);
    assert_eq!(rows.len(), 3);
    assert_eq!(rows_to_content(&rows), content);
}

#[test]
fn fmt_usize_renders_decimal() {
    assert_eq!(fmt_usize(0), chars_t("0"));
    assert_eq!(fmt_usize(7), chars_t("7"));
    assert_eq!(fmt_usize(907), chars_t("907"));
    assert_eq!(fmt_usize(1000), chars_t("1000"));
}

#[test]
fn row_helpers_copy_and_compare() {
    let a = chars_t("abc");
    let b = copy_row(&a);
    assert!(row_eq(&a, &b));
    assert!(!row_eq(&a, &chars_t("abd")));
    assert_eq!(join_rows(&a, &chars_t("de")), chars_t("abcde"));
    let ra = vec![chars_t("x"), chars_t("y")];
    let rb = vec![chars_t("x"), chars_t("y")];
    let rc = vec![chars_t("x")];
    assert!(rows_eq(&ra, &rb));
    assert!(!rows_eq(&ra, &rc));
}
