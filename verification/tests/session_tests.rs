use kass::editor::Editor;
use kass::enums::{Mode, CommandAction, LineNumber, Key, Element};
use kass::kass::{App, Kass, FsQuery, FsReply, handle_key};
use kass::functions::{
    quit, force_quit, quit_all, force_quit_all, write_all, write_and_quit, edit_file, new_tab,
    resume_fs, goto_line, parse_index_exec, candidate_name_exec,
};
use kass::normal::{parse_buf, handle_normal_mode};
use kass::insert::handle_insert_mode;
use kass::command::handle_command_mode;
use kass::render::{visible_rows, line_labels, screen_cursor};
use kass::stack::Stack;
use kass::statusbar::Statusbar;

fn chars_s(s: &str) -> Vec<char> {
    s.chars().collect()
}

fn session_with(path: &str, content: &str) -> Kass {
    let tab = Editor::new(chars_s(path), Some(chars_s(content)));
    Kass::new(App::new(tab))
}

fn dirty_session(path: &str) -> Kass {
    let mut kass = session_with(path, "ab");
    let mut tab = kass.app.tabs.remove(0);
    tab.insert_char('x');
    kass.app.tabs.insert(0, tab);
    kass
}

#[test]
fn next_and_previous_cycle_tabs() {
    let mut kass = session_with("a", "");
    kass.app.tabs.push(Editor::new(chars_s("b"), None));
    kass.app.tabs.push(Editor::new(chars_s("c"), None));
    assert_eq!(kass.app.active_index, 0);
    kass.app.next();
    kass.app.next();
    assert_eq!(kass.app.active_index, 2);
    kass.app.next();
    assert_eq!(kass.app.active_index, 0);
    kass.app.previous();
    assert_eq!(kass.app.active_index, 2);
}

#[test]
fn quit_on_dirty_tab_blocks_and_reports() {
    let mut kass = dirty_session("f");
    let mut close = false;
    quit(&chars_s(""), &mut close, &mut kass);
    assert_eq!(kass.app.tabs.len(), 1);
    assert!(matches!(kass.app.action, CommandAction::Error));
    assert_eq!(kass.app.error, chars_s("File not saved"));
    assert!(!close);
}

#[test]
fn force_quit_removes_dirty_tab() {
    let mut kass = dirty_session("f");
    let mut close = false;
    force_quit(&chars_s(""), &mut close, &mut kass);
    assert_eq!(kass.app.tabs.len(), 0);
    assert!(close);
}

#[test]
fn quit_clean_nonactive_tab_keeps_active_index() {
    let mut kass = session_with("a", "");
    kass.app.tabs.push(Editor::new(chars_s("b"), None));
    kass.app.tabs.push(Editor::new(chars_s("c"), None));
    kass.app.active_index = 1;
    let mut close = false;
    quit(&chars_s("2"), &mut close, &mut kass);
    assert_eq!(kass.app.tabs.len(), 2);
    assert_eq!(kass.app.active_index, 1);
    assert!(!close);
}

#[test]
fn quit_last_index_steps_active_back() {
    let mut kass = session_with("a", "");
    kass.app.tabs.push(Editor::new(chars_s("b"), None));
    kass.app.active_index = 1;
    let mut close = false;
    quit(&chars_s("1"), &mut close, &mut kass);
    assert_eq!(kass.app.tabs.len(), 1);
    assert_eq!(kass.app.active_index, 0);
    assert!(!close);
}

#[test]
fn quit_out_of_range_index_reports_error() {
    let mut kass = session_with("a", "");
    let mut close = false;
    quit(&chars_s("7"), &mut close, &mut kass);
    assert_eq!(kass.app.tabs.len(), 1);
    assert_eq!(kass.app.error, chars_s("Tab index out of range"));
    assert!(matches!(kass.app.action, CommandAction::Error));
}

#[test]
fn quit_all_names_first_dirty_tab() {
    let mut kass = session_with("a", "");
    let mut dirty = Editor::new(chars_s("dir/second"), Some(chars_s("x")));
    dirty.insert_char('y');
    kass.app.tabs.push(dirty);
    let mut close = false;
    quit_all(&chars_s(""), &mut close, &mut kass);
    assert!(!close);
    assert_eq!(kass.app.tabs.len(), 2);
    assert_eq!(kass.app.error, chars_s("second is not saved!"));
}

#[test]
fn quit_all_closes_when_everything_saved() {
    let mut kass = session_with("a", "");
    kass.app.tabs.push(Editor::new(chars_s("b"), None));
    let mut close = false;
    quit_all(&chars_s(""), &mut close, &mut kass);
    assert!(close);
    assert_eq!(kass.app.tabs.len(), 2);
}

#[test]
fn force_quit_all_always_closes() {
    let mut kass = dirty_session("f");
    let mut close = false;
    force_quit_all(&chars_s(""), &mut close, &mut kass);
    assert!(close);
}

#[test]
fn parse_index_accepts_digits_only() {
    assert_eq!(parse_index_exec(&chars_s("12")), Some(12));
    assert_eq!(parse_index_exec(&chars_s("")), None);
    assert_eq!(parse_index_exec(&chars_s("1a")), None);
    assert_eq!(parse_index_exec(&chars_s("-1")), None);
}

#[test]
fn write_produces_query_and_resume_marks_saved() {
    let mut kass = dirty_session("file1");
    let mut close = false;
    let q = kass::functions::write(&chars_s(""), &mut close, &mut kass);
    match q {
        Some(FsQuery::WriteFile { path, content }) => {
            assert_eq!(path, chars_s("file1"));
            assert_eq!(content, chars_s("xab"));
        },
        _ => panic!("expected a write query"),
    }
    let next = resume_fs(&mut kass, FsReply::WriteOk, &mut close);
    assert!(next.is_none());
    assert!(kass.app.tabs[0].is_saved());
    assert!(matches!(kass.app.action, CommandAction::Info));
    assert_eq!(kass.app.info, chars_s("file1 saved."));
    assert!(!close);
}

#[test]
fn write_error_is_reported() {
    let mut kass = dirty_session("file1");
    let mut close = false;
    let _ = kass::functions::write(&chars_s(""), &mut close, &mut kass);
    let next = resume_fs(&mut kass, FsReply::WriteErr { msg: chars_s("denied") }, &mut close);
    assert!(next.is_none());
    assert!(!kass.app.tabs[0].is_saved());
    assert_eq!(kass.app.error, chars_s("denied"));
}

#[test]
fn write_and_quit_closes_after_successful_write() {
    let mut kass = dirty_session("file1");
    let mut close = false;
    let _ = write_and_quit(&chars_s(""), &mut close, &mut kass);
    let next = resume_fs(&mut kass, FsReply::WriteOk, &mut close);
    assert!(next.is_none());
    assert_eq!(kass.app.tabs.len(), 0);
    assert!(close);
}

#[test]
fn write_all_walks_every_tab_in_order() {
    let mut kass = session_with("first", "");
    kass.app.tabs.push(Editor::new(chars_s("second"), Some(chars_s("hi"))));
    let mut close = false;
    let q1 = write_all(&chars_s(""), &mut close, &mut kass);
    match q1 {
        Some(FsQuery::WriteFile { path, .. }) => assert_eq!(path, chars_s("first")),
        _ => panic!("expected the first write"),
    }
    let q2 = resume_fs(&mut kass, FsReply::WriteOk, &mut close);
    match q2 {
        Some(FsQuery::WriteFile { path, content }) => {
            assert_eq!(path, chars_s("second"));
            assert_eq!(content, chars_s("hi"));
        },
        _ => panic!("expected the second write"),
    }
    let q3 = resume_fs(&mut kass, FsReply::WriteOk, &mut close);
    assert!(q3.is_none());
    assert_eq!(kass.app.info, chars_s("second saved."));
    assert!(!close);
}

#[test]
fn write_all_stops_at_first_failure() {
    let mut kass = session_with("first", "");
    kass.app.tabs.push(Editor::new(chars_s("second"), None));
    let mut close = false;
    let _ = write_all(&chars_s(""), &mut close, &mut kass);
    let q = resume_fs(&mut kass, FsReply::WriteErr { msg: chars_s("full") }, &mut close);
    assert!(q.is_none());
    assert_eq!(kass.app.error, chars_s("full"));
}

#[test]
fn edit_file_reloads_active_tab() {
    let mut kass = session_with("old", "zzz");
    let mut close = false;
    let q = edit_file(&chars_s("new.txt"), &mut close, &mut kass);
    match q {
        Some(FsQuery::LoadFile { path }) => assert_eq!(path, chars_s("new.txt")),
        _ => panic!("expected a load query"),
    }
    let next = resume_fs(&mut kass, FsReply::Loaded { content: chars_s("a\nb") }, &mut close);
    assert!(next.is_none());
    assert_eq!(kass.app.tabs[0].filepath, chars_s("new.txt"));
    assert_eq!(kass.app.tabs[0].rows, vec![chars_s("a"), chars_s("b")]);
    assert_eq!((kass.app.tabs[0].cursor.x, kass.app.tabs[0].cursor.y), (0, 0));
}

#[test]
fn edit_missing_file_gives_single_empty_line() {
    let mut kass = session_with("old", "zzz");
    let mut close = false;
    let _ = edit_file(&chars_s("fresh"), &mut close, &mut kass);
    let _ = resume_fs(&mut kass, FsReply::Missing, &mut close);
    assert_eq!(kass.app.tabs[0].rows, vec![chars_s("")]);
    assert_eq!(kass.app.tabs[0].title, chars_s("fresh"));
}

#[test]
fn edit_directory_is_rejected() {
    let mut kass = session_with("old", "zzz");
    let mut close = false;
    let _ = edit_file(&chars_s("some_dir"), &mut close, &mut kass);
    let _ = resume_fs(&mut kass, FsReply::Directory, &mut close);
    assert_eq!(kass.app.error, chars_s("Cannot edit a directory. Provide a file path"));
    assert_eq!(kass.app.tabs[0].filepath, chars_s("old"));
}

#[test]
fn new_tab_with_path_becomes_active() {
    let mut kass = session_with("a", "");
    let mut close = false;
    let _ = new_tab(&chars_s("other.txt"), &mut close, &mut kass);
    let _ = resume_fs(&mut kass, FsReply::Missing, &mut close);
    assert_eq!(kass.app.tabs.len(), 2);
    assert_eq!(kass.app.active_index, 1);
    assert_eq!(kass.app.tabs[1].title, chars_s("other.txt"));
    assert_eq!(kass.app.tabs[1].rows, vec![chars_s("")]);
}

#[test]
fn new_tab_probes_candidate_names() {
    let mut kass = session_with("a", "");
    let mut close = false;
    let q0 = new_tab(&chars_s(""), &mut close, &mut kass);
    match q0 {
        Some(FsQuery::ProbeName { name }) => assert_eq!(name, chars_s("unnamed")),
        _ => panic!("expected a probe"),
    }
    let q1 = resume_fs(&mut kass, FsReply::NameExists { exists: true }, &mut close);
    match q1 {
        Some(FsQuery::ProbeName { name }) => assert_eq!(name, chars_s("unnamed-1")),
        _ => panic!("expected the next probe"),
    }
    let q2 = resume_fs(&mut kass, FsReply::NameExists { exists: false }, &mut close);
    assert!(q2.is_none());
    assert_eq!(kass.app.tabs.len(), 2);
    assert_eq!(kass.app.tabs[1].title, chars_s("unnamed-1"));
}

#[test]
fn new_tab_probe_skips_open_tab_titles() {
    let mut kass = session_with("unnamed", "");
    let mut close = false;
    let _ = new_tab(&chars_s(""), &mut close, &mut kass);
    let q = resume_fs(&mut kass, FsReply::NameExists { exists: false }, &mut close);
    match q {
        Some(FsQuery::ProbeName { name }) => assert_eq!(name, chars_s("unnamed-1")),
        _ => panic!("expected the probe to move on"),
    }
}

#[test]
fn candidate_names_count_up() {
    assert_eq!(candidate_name_exec(0), chars_s("unnamed"));
    assert_eq!(candidate_name_exec(2), chars_s("unnamed-2"));
    assert_eq!(candidate_name_exec(12), chars_s("unnamed-12"));
}

#[test]
fn parse_buf_groups_digit_runs() {
    let parsed = parse_buf(&chars_s("12x3"));
    assert_eq!(parsed, vec![Element::Num(12), Element::Char('x'), Element::Num(3)]);
    assert_eq!(parse_buf(&chars_s("")), Vec::<Element>::new());
    assert_eq!(parse_buf(&chars_s("ab")), vec![Element::Char('a'), Element::Char('b')]);
}

#[test]
fn normal_mode_counted_motion() {
    let mut kass = session_with("t", "a\nb\nc\nd\ne");
    handle_normal_mode(&mut kass, Key::Char('3'));
    assert_eq!(kass.buf, chars_s("3"));
    handle_normal_mode(&mut kass, Key::Char('j'));
    assert!(kass.buf.is_empty());
    assert_eq!(kass.app.tabs[0].cursor.y, 3);
}

#[test]
fn normal_mode_unrecognized_letter_clears_run() {
    let mut kass = session_with("t", "ab");
    handle_normal_mode(&mut kass, Key::Char('5'));
    handle_normal_mode(&mut kass, Key::Char('z'));
    assert!(kass.buf.is_empty());
    assert_eq!(kass.app.tabs[0].cursor.x, 0);
}

#[test]
fn normal_mode_esc_discards_run() {
    let mut kass = session_with("t", "ab");
    handle_normal_mode(&mut kass, Key::Char('4'));
    handle_normal_mode(&mut kass, Key::Esc);
    assert!(kass.buf.is_empty());
    assert!(matches!(kass.app.mode, Mode::Normal));
}

#[test]
fn normal_mode_enters_insert_and_command() {
    let mut kass = session_with("t", "ab");
    handle_normal_mode(&mut kass, Key::Char('l'));
    assert_eq!(kass.app.tabs[0].cursor.x, 1);
    handle_normal_mode(&mut kass, Key::Char('i'));
    assert!(matches!(kass.app.mode, Mode::Insert));
    assert_eq!(kass.app.tabs[0].cursor.x, 0);
    kass.app.mode = Mode::Normal;
    handle_normal_mode(&mut kass, Key::Char(':'));
    assert!(matches!(kass.app.mode, Mode::Command));
    assert_eq!(kass.app.command, chars_s(":"));
}

#[test]
fn normal_mode_tab_cycles_tabs() {
    let mut kass = session_with("a", "");
    kass.app.tabs.push(Editor::new(chars_s("b"), None));
    handle_normal_mode(&mut kass, Key::Tab);
    assert_eq!(kass.app.active_index, 1);
    handle_normal_mode(&mut kass, Key::BackTab);
    assert_eq!(kass.app.active_index, 0);
}

#[test]
fn insert_mode_types_and_leaves() {
    let mut kass = session_with("t", "");
    kass.app.mode = Mode::Insert;
    handle_insert_mode(&mut kass, Key::Char('h'));
    handle_insert_mode(&mut kass, Key::Char('i'));
    assert_eq!(kass.app.tabs[0].rows, vec![chars_s("hi")]);
    handle_insert_mode(&mut kass, Key::Enter);
    assert_eq!(kass.app.tabs[0].rows, vec![chars_s("hi"), chars_s("")]);
    handle_insert_mode(&mut kass, Key::Backspace);
    assert_eq!(kass.app.tabs[0].rows, vec![chars_s("hi")]);
    handle_insert_mode(&mut kass, Key::Esc);
    assert!(matches!(kass.app.mode, Mode::Normal));
}

#[test]
fn command_mode_runs_bound_verb() {
    let mut kass = session_with("t", "");
    kass.add_binding(&chars_s("force_quit"), Some(&chars_s("q!")));
    let mut close = false;
    handle_normal_mode(&mut kass, Key::Char(':'));
    let _ = handle_command_mode(&mut kass, Key::Char('q'), &mut close);
    let _ = handle_command_mode(&mut kass, Key::Char('!'), &mut close);
    let q = handle_command_mode(&mut kass, Key::Enter, &mut close);
    assert!(q.is_none());
    assert!(close);
    assert_eq!(kass.app.tabs.len(), 0);
    assert!(matches!(kass.app.mode, Mode::Normal));
    assert!(kass.app.command.is_empty());
}

#[test]
fn command_mode_unknown_verb_reports_error() {
    let mut kass = session_with("t", "");
    let mut close = false;
    handle_normal_mode(&mut kass, Key::Char(':'));
    let _ = handle_command_mode(&mut kass, Key::Char('z'), &mut close);
    let _ = handle_command_mode(&mut kass, Key::Enter, &mut close);
    assert_eq!(kass.app.error, chars_s("Command not found."));
    assert_eq!(kass.app.tabs.len(), 1);
    assert!(!close);
}

#[test]
fn command_mode_splits_verb_and_argument() {
    let mut kass = session_with("t", "");
    kass.add_binding(&chars_s("edit_file"), Some(&chars_s("e")));
    let mut close = false;
    handle_normal_mode(&mut kass, Key::Char(':'));
    for c in "e path.txt".chars() {
        let _ = handle_command_mode(&mut kass, Key::Char(c), &mut close);
    }
    let q = handle_command_mode(&mut kass, Key::Enter, &mut close);
    match q {
        Some(FsQuery::LoadFile { path }) => assert_eq!(path, chars_s("path.txt")),
        _ => panic!("expected a load query"),
    }
}

#[test]
fn command_mode_esc_discards_line() {
    let mut kass = session_with("t", "");
    let mut close = false;
    handle_normal_mode(&mut kass, Key::Char(':'));
    let _ = handle_command_mode(&mut kass, Key::Char('w'), &mut close);
    let _ = handle_command_mode(&mut kass, Key::Esc, &mut close);
    assert!(kass.app.command.is_empty());
    assert!(matches!(kass.app.mode, Mode::Normal));
}

#[test]
fn command_mode_backspace_edits_line() {
    let mut kass = session_with("t", "");
    let mut close = false;
    handle_normal_mode(&mut kass, Key::Char(':'));
    let _ = handle_command_mode(&mut kass, Key::Char('w'), &mut close);
    let _ = handle_command_mode(&mut kass, Key::Backspace, &mut close);
    assert_eq!(kass.app.command, chars_s(":"));
}

#[test]
fn handle_key_routes_by_mode() {
    let mut kass = session_with("t", "abc");
    let mut close = false;
    let q = handle_key(&mut kass, Key::Char('l'), &mut close);
    assert!(q.is_none());
    assert_eq!(kass.app.tabs[0].cursor.x, 1);
    kass.app.mode = Mode::Insert;
    let _ = handle_key(&mut kass, Key::Char('z'), &mut close);
    assert_eq!(kass.app.tabs[0].rows, vec![chars_s("azbc")]);
}

#[test]
fn apply_setting_selects_line_number_mode() {
    let mut kass = session_with("t", "");
    kass.apply_setting(&chars_s("line_number"), Some(&chars_s("absolute")));
    assert!(matches!(kass.line_number, LineNumber::Absolute));
    kass.apply_setting(&chars_s("line_number"), Some(&chars_s("relative")));
    assert!(matches!(kass.line_number, LineNumber::Relative));
    kass.apply_setting(&chars_s("line_number"), Some(&chars_s("none")));
    assert!(matches!(kass.line_number, LineNumber::Hidden));
}

#[test]
fn apply_setting_rejects_bad_values() {
    let mut kass = session_with("t", "");
    kass.apply_setting(&chars_s("line_number"), Some(&chars_s("bogus")));
    assert_eq!(kass.app.error, chars_s("Provide a valid value for line number"));
    kass.apply_setting(&chars_s("line_number"), None);
    assert_eq!(kass.app.error, chars_s("Provide a value for line number"));
    kass.apply_setting(&chars_s("cursor_blink"), Some(&chars_s("on")));
    assert_eq!(kass.app.error, chars_s("cursor_blink in the config doesn't exist"));
}

#[test]
fn add_binding_rejects_unknown_names() {
    let mut kass = session_with("t", "");
    kass.add_binding(&chars_s("teleport"), Some(&chars_s("tp")));
    assert_eq!(kass.app.error, chars_s("teleport in the config doesn't exist"));
    assert_eq!(kass.bindings.len(), 0);
    kass.add_binding(&chars_s("write"), None);
    assert_eq!(kass.bindings.len(), 0);
}

#[test]
fn goto_line_moves_and_aligns() {
    let mut content = String::new();
    for i in 0..20 {
        if i > 0 {
            content.push('\n');
        }
        content.push_str("line");
    }
    let mut kass = session_with("t", &content);
    let mut tab = kass.app.tabs.remove(0);
    tab.boundary(80, 11);
    kass.app.tabs.insert(0, tab);
    goto_line(&mut kass, 5);
    assert_eq!(kass.app.tabs[0].cursor.y, 4);
    goto_line(&mut kass, 20);
    assert_eq!(kass.app.tabs[0].cursor.y, 19);
    assert_eq!(kass.app.tabs[0].rowoff, 10);
}

#[test]
fn render_exposes_visible_slice_and_labels() {
    let mut ed = Editor::new(chars_s("t"), Some(chars_s("a\nb\nc\nd\ne\nf")));
    ed.boundary(80, 4);
    for _ in 0..5 {
        ed.move_down(1);
    }
    assert_eq!(ed.rowoff, 3);
    let visible = visible_rows(&ed);
    assert_eq!(visible, vec![chars_s("d"), chars_s("e"), chars_s("f")]);
    let labels = line_labels(&ed, LineNumber::Absolute);
    assert_eq!(labels, vec![chars_s("4"), chars_s("5"), chars_s("6")]);
    let relative = line_labels(&ed, LineNumber::Relative);
    assert_eq!(relative, vec![chars_s("2"), chars_s("1"), chars_s("6")]);
    let p = screen_cursor(&ed);
    assert_eq!((p.x, p.y), (0, 2));
}

#[test]
fn stack_pop_discards_front_and_returns_second() {
    let mut st = Stack { list: vec!['a', 'b', 'c'] };
    assert!(!st.is_empty());
    assert_eq!(st.pop(), 'b');
    assert_eq!(st.list, vec!['c']);
    let mut empty = Stack { list: Vec::new() };
    assert!(empty.is_empty());
    assert_eq!(empty.pop(), '\0');
}

#[test]
fn write_and_quit_all_closes_after_saving_all() {
    let mut kass = session_with("first", "");
    kass.app.tabs.push(Editor::new(chars_s("second"), Some(chars_s("hi"))));
    let mut close = false;
    let q1 = kass::functions::write_and_quit_all(&chars_s(""), &mut close, &mut kass);
    assert!(matches!(q1, Some(FsQuery::WriteFile { .. })));
    let q2 = resume_fs(&mut kass, FsReply::WriteOk, &mut close);
    assert!(matches!(q2, Some(FsQuery::WriteFile { .. })));
    let q3 = resume_fs(&mut kass, FsReply::WriteOk, &mut close);
    assert!(q3.is_none());
    assert!(close);
    assert_eq!(kass.app.tabs.len(), 2);
}

#[test]
fn parse_buf_saturates_huge_counts() {
    let digits: String = "9".repeat(25);
    let parsed = parse_buf(&chars_s(&digits));
    assert_eq!(parsed, vec![Element::Num(usize::MAX)]);
}

#[test]
fn goto_line_to_first_line() {
    let mut kass = session_with("t", "a
b
c
d");
    goto_line(&mut kass, 4);
    assert_eq!(kass.app.tabs[0].cursor.y, 3);
    goto_line(&mut kass, 1);
    assert_eq!(kass.app.tabs[0].cursor.y, 0);
}

#[test]
fn command_mode_quit_by_index() {
    let mut kass = session_with("a", "");
    kass.app.tabs.push(Editor::new(chars_s("b"), None));
    kass.app.active_index = 1;
    kass.add_binding(&chars_s("quit"), Some(&chars_s("q")));
    let mut close = false;
    handle_normal_mode(&mut kass, Key::Char(':'));
    for c in "q 0".chars() {
        let _ = handle_command_mode(&mut kass, Key::Char(c), &mut close);
    }
    let _ = handle_command_mode(&mut kass, Key::Enter, &mut close);
    assert_eq!(kass.app.tabs.len(), 1);
    assert_eq!(kass.app.tabs[0].title, chars_s("b"));
    assert!(!close);
}

#[test]
fn statusbar_carries_its_caption() {
    let _bar = Statusbar::new(chars_s("Normal"), 24, 80);
}
