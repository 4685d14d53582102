use kass::editor::Editor;

fn chars_e(s: &str) -> Vec<char> {
    s.chars().collect()
}

fn editor_with(path: &str, content: &str) -> Editor {
    Editor::new(chars_e(path), Some(chars_e(content)))
}

#[test]
fn new_editor_defaults() {
    let ed = Editor::new(chars_e("dir/file.txt"), None);
    assert_eq!(ed.title, chars_e("file.txt"));
    assert_eq!(ed.rows, vec![chars_e("")]);
    assert!(ed.is_saved());
    assert_eq!((ed.cursor.x, ed.cursor.y), (0, 0));
    assert_eq!((ed.rowoff, ed.coloff), (0, 0));
}

#[test]
fn title_falls_back_for_trailing_separator() {
    let ed = Editor::new(chars_e("some/dir/"), None);
    assert_eq!(ed.title, chars_e("New Tab"));
}

#[test]
fn move_right_clamps_to_line_end() {
    let mut ed = editor_with("t", "abc");
    ed.move_right(2);
    assert_eq!(ed.cursor.x, 2);
    ed.move_right(10);
    assert_eq!(ed.cursor.x, 3);
}

#[test]
fn move_left_saturates_at_zero() {
    let mut ed = editor_with("t", "abc");
    ed.move_right(2);
    ed.move_left(5);
    assert_eq!(ed.cursor.x, 0);
}

#[test]
fn move_down_clamps_row_and_column() {
    let mut ed = editor_with("t", "abcde\nxy");
    ed.move_right(5);
    ed.move_down(1);
    assert_eq!((ed.cursor.y, ed.cursor.x), (1, 2));
    ed.move_down(4);
    assert_eq!(ed.cursor.y, 1);
}

#[test]
fn move_up_from_top_is_noop_on_row() {
    let mut ed = editor_with("t", "ab\ncd");
    ed.move_up(3);
    assert_eq!(ed.cursor.y, 0);
}

#[test]
fn empty_line_clamps_column_to_zero() {
    let mut ed = editor_with("t", "abc\n\ndef");
    ed.move_right(3);
    ed.move_down(1);
    assert_eq!((ed.cursor.y, ed.cursor.x), (1, 0));
}

#[test]
fn cursor_stays_in_bounds_after_move_sequence() {
    let mut ed = editor_with("t", "abc\nx\nlonger line\n\nzz");
    ed.move_down(2);
    ed.move_right(100);
    ed.move_up(1);
    ed.move_down(50);
    ed.move_left(3);
    ed.move_down(1);
    assert!(ed.cursor.y < ed.rows.len());
    assert!(ed.cursor.x <= ed.rows[ed.cursor.y].len());
}

#[test]
fn delete_at_origin_is_noop() {
    let mut ed = editor_with("t", "ab\ncd");
    let before = ed.rows.clone();
    ed.delete();
    assert_eq!(ed.rows, before);
    assert_eq!((ed.cursor.x, ed.cursor.y), (0, 0));
}

#[test]
fn delete_removes_character_before_cursor() {
    let mut ed = editor_with("t", "abc");
    ed.move_right(2);
    ed.delete();
    assert_eq!(ed.rows, vec![chars_e("ac")]);
    assert_eq!(ed.cursor.x, 1);
}

#[test]
fn delete_at_line_start_joins_lines() {
    let mut ed = editor_with("t", "ab\ncd");
    ed.move_down(1);
    ed.delete();
    assert_eq!(ed.rows, vec![chars_e("abcd")]);
    assert_eq!((ed.cursor.y, ed.cursor.x), (0, 2));
}

#[test]
fn split_line_at_end_appends_empty_line() {
    let mut ed = editor_with("t", "abc");
    ed.move_right(3);
    ed.goto_newline();
    assert_eq!(ed.rows, vec![chars_e("abc"), chars_e("")]);
    assert_eq!((ed.cursor.y, ed.cursor.x), (1, 0));
}

#[test]
fn split_line_at_zero_inserts_empty_line_above() {
    let mut ed = editor_with("t", "abc\ndef");
    ed.goto_newline();
    assert_eq!(ed.rows, vec![chars_e(""), chars_e("abc"), chars_e("def")]);
    assert_eq!((ed.cursor.y, ed.cursor.x), (1, 0));
    assert_eq!(ed.rows.len(), 3);
}

#[test]
fn split_line_in_middle_keeps_both_halves() {
    let mut ed = editor_with("t", "abcd");
    ed.move_right(2);
    ed.goto_newline();
    assert_eq!(ed.rows, vec![chars_e("ab"), chars_e("cd")]);
    assert_eq!((ed.cursor.y, ed.cursor.x), (1, 0));
}

#[test]
fn insert_char_advances_cursor() {
    let mut ed = editor_with("t", "ac");
    ed.move_right(1);
    ed.insert_char('b');
    assert_eq!(ed.rows, vec![chars_e("abc")]);
    assert_eq!(ed.cursor.x, 2);
}

#[test]
fn insert_row_shifts_later_lines() {
    let mut ed = editor_with("t", "a\nb");
    ed.insert_row(1, chars_e("mid"));
    assert_eq!(ed.rows, vec![chars_e("a"), chars_e("mid"), chars_e("b")]);
    ed.insert_row(9, chars_e("nope"));
    assert_eq!(ed.rows.len(), 3);
}

#[test]
fn del_char_reports_whether_removed() {
    let mut ed = editor_with("t", "ab");
    assert!(ed.del_char(1));
    assert_eq!(ed.rows, vec![chars_e("a")]);
    assert!(!ed.del_char(5));
    assert_eq!(ed.rows, vec![chars_e("a")]);
}

#[test]
fn dirty_after_edit_saved_after_mark() {
    let mut ed = editor_with("t", "ab");
    assert!(ed.is_saved());
    ed.insert_char('x');
    assert!(!ed.is_saved());
    ed.mark_saved();
    assert!(ed.is_saved());
}

#[test]
fn save_content_joins_lines() {
    let ed = editor_with("t", "ab\ncd");
    assert_eq!(ed.save_content(), chars_e("ab\ncd"));
    assert_eq!(Editor::rows_to_file(&ed.rows), chars_e("ab\ncd"));
}

#[test]
fn set_filepath_reloads_and_resets_cursor() {
    let mut ed = editor_with("old", "one\ntwo\nthree");
    ed.move_down(2);
    ed.move_right(3);
    ed.set_filepath(chars_e("new.txt"), Some(chars_e("xy")));
    assert_eq!(ed.filepath, chars_e("new.txt"));
    assert_eq!(ed.title, chars_e("new.txt"));
    assert_eq!(ed.rows, vec![chars_e("xy")]);
    assert_eq!((ed.cursor.x, ed.cursor.y, ed.rowoff, ed.coloff), (0, 0, 0, 0));
    assert!(ed.is_saved());
}

#[test]
fn viewport_scrolls_down_to_reveal_cursor() {
    let mut content = String::new();
    for i in 0..20 {
        if i > 0 {
            content.push('\n');
        }
        content.push_str("line");
    }
    let mut ed = editor_with("t", &content);
    ed.boundary(80, 11);
    assert_eq!(ed.editor_size.y, 10);
    assert_eq!(ed.rowoff, 0);
    for _ in 0..15 {
        ed.move_down(1);
    }
    assert_eq!(ed.cursor.y, 15);
    assert_eq!(ed.rowoff, 6);
    assert!(ed.rowoff <= ed.cursor.y && ed.cursor.y < ed.rowoff + ed.editor_size.y);
}

#[test]
fn viewport_scrolls_up_to_reveal_cursor() {
    let mut content = String::new();
    for i in 0..20 {
        if i > 0 {
            content.push('\n');
        }
        content.push_str("line");
    }
    let mut ed = editor_with("t", &content);
    ed.boundary(80, 11);
    ed.move_down(15);
    ed.move_up(15);
    assert_eq!(ed.cursor.y, 0);
    assert_eq!(ed.rowoff, 0);
}

#[test]
fn resize_reveals_cursor_again() {
    let mut content = String::new();
    for i in 0..20 {
        if i > 0 {
            content.push('\n');
        }
        content.push_str("line");
    }
    let mut ed = editor_with("t", &content);
    ed.boundary(80, 11);
    ed.move_down(15);
    ed.boundary(80, 5);
    assert!(ed.rowoff <= ed.cursor.y && ed.cursor.y < ed.rowoff + ed.editor_size.y);
}
