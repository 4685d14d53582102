//! The built-in command verbs. Closing commands act on the tab set at
//! once; commands that touch the disk (`write`, `edit_file`, `new_tab` and
//! their compositions) hand an `FsQuery` out and finish in `resume_fs`
//! when the answer comes back.

use vstd::prelude::*;

use crate::editor::{
    Editor, reloaded_rel, fresh_tab_rel, mark_saved_rel, min_i, scrolled_offset,
};
use crate::enums::CommandAction;
use crate::kass::{
    Kass, Pending, FsQuery, FsReply, active_tab, error_set, same_session_cfg, same_status,
    same_app_but_status, tabs_same_but_active,
};
use crate::literals::{
    msg_file_not_saved, msg_file_not_saved_vec, msg_not_saved_suffix, msg_not_saved_suffix_vec,
    msg_index_out_of_range, msg_index_out_of_range_vec, msg_cannot_edit_dir,
    msg_cannot_edit_dir_vec, msg_provide_filepath, msg_provide_filepath_vec, msg_saved_suffix,
    msg_saved_suffix_vec, lit_unnamed, lit_unnamed_vec,
};
use crate::text::{
    is_digit_c, digits_val_sat, push_digit_sat, copy_row, join_rows, join_lines, dec_digits,
    fmt_usize, split_lines, row_eq,
};

verus! {

/// Whether a tab's lines match its last-synced snapshot.
pub open spec fn tab_saved(t: Editor) -> bool {
    t.lines() == t.synced.deep_view()
}

/// The index named by a command argument: a nonempty run of digits, its
/// value saturated at `usize::MAX`. Anything else names no index.
pub open spec fn parse_index(s: Seq<char>) -> Option<int> {
    if s.len() > 0 && (forall|j: int| 0 <= j < s.len() ==> is_digit_c(s[j])) {
        Some(digits_val_sat(s))
    } else {
        None
    }
}

/// The tab a closing command acts on: the parsed index, or the active tab
/// when the argument names none.
pub open spec fn target_index(pre: Kass, arg: Seq<char>) -> int {
    match parse_index(arg) {
        Some(i) => i,
        None => pre.app.active_index as int,
    }
}

/// Parses a command argument as a tab index.
pub fn parse_index_exec(s: &Vec<char>) -> (r: Option<usize>)
    ensures
        match parse_index(s@) {
            Some(v) => r matches Some(u) && u == v,
            None => r is None,
        },
{
    if s.len() == 0 {
        return None;
    }
    let mut val: usize = 0;
    let mut i: usize = 0;
    while i < s.len()
        invariant
            i <= s@.len(),
            forall|j: int| 0 <= j < i ==> is_digit_c(s@[j]),
            val == digits_val_sat(s@.take(i as int)),
        decreases s@.len() - i,
    {
        let c = s[i];
        let cu = c as u32;
        if cu < 48 || cu > 57 {
            return None;
        }
        let d = (cu - 48) as usize;
        val = push_digit_sat(val, d);
        i = i + 1;
        proof {
            assert(s@.take(i as int).drop_last() =~= s@.take(i - 1));
            assert(s@.take(i as int).last() == c);
        }
    }
    proof {
        assert(s@.take(s@.len() as int) =~= s@);
    }
    Some(val)
}

/// The effect of a closing command on one tab: an out-of-range index or
/// (unless forced) a dirty tab reports an error and changes nothing; else
/// the tab leaves the set, the close flag is raised when the set empties,
/// and the active index steps back when it would fall off the end.
pub open spec fn quit_step(
    pre: Kass,
    post: Kass,
    arg: Seq<char>,
    close0: bool,
    close1: bool,
    forced: bool,
) -> bool {
    let idx = target_index(pre, arg);
    if idx >= pre.app.tabs@.len() {
        &&& error_set(pre, post, msg_index_out_of_range())
        &&& close1 == close0
    } else if !forced && !tab_saved(pre.app.tabs@[idx]) {
        &&& error_set(pre, post, msg_file_not_saved())
        &&& close1 == close0
    } else {
        &&& post.app.tabs@ == pre.app.tabs@.remove(idx)
        &&& close1 == (close0 || post.app.tabs@.len() == 0)
        &&& post.app.active_index == if post.app.tabs@.len() == pre.app.active_index
            && pre.app.active_index > 0 {
            pre.app.active_index - 1
        } else {
            pre.app.active_index as int
        }
        &&& post.app.mode == pre.app.mode
        &&& same_status(pre, post)
        &&& same_session_cfg(pre, post)
    }
}

/// The effect of a closing command on the whole set: forced, it only
/// raises the close flag; otherwise it raises the flag when every tab is
/// saved, and else names the first unsaved tab in an error and changes
/// nothing.
pub open spec fn quit_all_step(
    pre: Kass,
    post: Kass,
    close0: bool,
    close1: bool,
    forced: bool,
) -> bool {
    if forced {
        &&& post == pre
        &&& close1 == true
    } else if forall|i: int| 0 <= i < pre.app.tabs@.len() ==> tab_saved(#[trigger] pre.app.tabs@[i]) {
        &&& post == pre
        &&& close1 == true
    } else {
        exists|i: int|
            {
                &&& 0 <= i < pre.app.tabs@.len()
                &&& !tab_saved(#[trigger] pre.app.tabs@[i])
                &&& forall|j: int| 0 <= j < i ==> tab_saved(#[trigger] pre.app.tabs@[j])
                &&& error_set(pre, post, pre.app.tabs@[i].title@ + msg_not_saved_suffix())
                &&& close1 == close0
            }
    }
}

/// Closes the tab named by `input` (default: the active tab) unless it
/// has unsaved changes.
pub fn quit(input: &Vec<char>, close: &mut bool, kass: &mut Kass)
    requires
        old(kass).wf(),
        old(kass).app.tabs@.len() >= 1,
        old(kass).pending is Idle,
    ensures
        final(kass).wf(),
        quit_step(*old(kass), *final(kass), input@, *old(close), *final(close), false),
{
    quit_inner(input, close, kass, false);
}

/// Closes the tab named by `input` (default: the active tab) without the
/// unsaved-changes check.
pub fn force_quit(input: &Vec<char>, close: &mut bool, kass: &mut Kass)
    requires
        old(kass).wf(),
        old(kass).app.tabs@.len() >= 1,
        old(kass).pending is Idle,
    ensures
        final(kass).wf(),
        quit_step(*old(kass), *final(kass), input@, *old(close), *final(close), true),
{
    quit_inner(input, close, kass, true);
}

fn quit_inner(input: &Vec<char>, close: &mut bool, kass: &mut Kass, forced: bool)
    requires
        old(kass).wf(),
        old(kass).app.tabs@.len() >= 1,
        old(kass).pending is Idle,
    ensures
        final(kass).wf(),
        quit_step(*old(kass), *final(kass), input@, *old(close), *final(close), forced),
{
    let to_remove = match parse_index_exec(input) {
        Some(n) => n,
        None => kass.app.active_index,
    };
    if to_remove >= kass.app.tabs.len() {
        kass.set_error(msg_index_out_of_range_vec());
        return;
    }
    if !forced && !kass.app.tabs[to_remove].is_saved() {
        kass.set_error(msg_file_not_saved_vec());
        return;
    }
    kass.app.tabs.remove(to_remove);
    proof {
        assert forall|i: int| 0 <= i < kass.app.tabs@.len() implies (#[trigger] kass.app.tabs@[
        i]).wf() by {
            if i < to_remove {
                assert(kass.app.tabs@[i] == old(kass).app.tabs@[i]);
            } else {
                assert(kass.app.tabs@[i] == old(kass).app.tabs@[i + 1]);
            }
        }
    }
    let n = kass.app.tabs.len();
    if n == 0 {
        *close = true;
    } else if n == kass.app.active_index {
        kass.app.active_index = kass.app.active_index - 1;
    }
}

/// Raises the close flag when every tab is saved; otherwise reports the
/// first unsaved tab and leaves everything open.
pub fn quit_all(_input: &Vec<char>, close: &mut bool, kass: &mut Kass)
    requires
        old(kass).wf(),
    ensures
        final(kass).wf(),
        quit_all_step(*old(kass), *final(kass), *old(close), *final(close), false),
{
    let mut i: usize = 0;
    let n = kass.app.tabs.len();
    while i < n
        invariant
            i <= n,
            n == kass.app.tabs@.len(),
            old(kass).wf(),
            *kass == *old(kass),
            *close == *old(close),
            forall|j: int| 0 <= j < i ==> tab_saved(#[trigger] kass.app.tabs@[j]),
        decreases n - i,
    {
        if !kass.app.tabs[i].is_saved() {
            let msg = join_rows(&kass.app.tabs[i].title, &msg_not_saved_suffix_vec());
            let ghost wi = i as int;
            kass.set_error(msg);
            proof {
                assert(!tab_saved(old(kass).app.tabs@[wi]));
                assert(error_set(*old(kass), *kass, old(kass).app.tabs@[wi].title@
                    + msg_not_saved_suffix()));
            }
            return;
        }
        i = i + 1;
    }
    *close = true;
}

/// Raises the close flag unconditionally.
pub fn force_quit_all(_input: &Vec<char>, close: &mut bool, kass: &mut Kass)
    requires
        old(kass).wf(),
    ensures
        final(kass).wf(),
        quit_all_step(*old(kass), *final(kass), *old(close), *final(close), true),
{
    *close = true;
}

/// Moves the active tab's cursor to the 1-based line `line_number`,
/// clamping the column; at the last line the viewport is aligned so that
/// line is its bottom row.
pub fn goto_line(kass: &mut Kass, line_number: usize)
    requires
        old(kass).wf(),
        old(kass).app.tabs@.len() >= 1,
        1 <= line_number <= active_tab(*old(kass)).lines().len(),
    ensures
        final(kass).wf(),
        tabs_same_but_active(*old(kass), *final(kass)),
        final(kass).app.mode == old(kass).app.mode,
        same_status(*old(kass), *final(kass)),
        same_session_cfg(*old(kass), *final(kass)),
        active_tab(*final(kass)).cursor.y == line_number - 1,
        active_tab(*final(kass)).cursor.x == min_i(
            active_tab(*old(kass)).cursor.x as int,
            active_tab(*old(kass)).lines()[line_number - 1].len() as int,
        ),
        active_tab(*final(kass)).rows == active_tab(*old(kass)).rows,
        active_tab(*final(kass)).filepath == active_tab(*old(kass)).filepath,
        active_tab(*final(kass)).title == active_tab(*old(kass)).title,
        active_tab(*final(kass)).synced == active_tab(*old(kass)).synced,
        active_tab(*final(kass)).editor_size == active_tab(*old(kass)).editor_size,
        line_number == active_tab(*old(kass)).lines().len() ==> active_tab(
            *final(kass),
        ).rowoff == if active_tab(*old(kass)).editor_size.y > 0 && line_number > active_tab(
            *old(kass),
        ).editor_size.y {
            line_number - active_tab(*old(kass)).editor_size.y
        } else {
            0int
        },
        line_number < active_tab(*old(kass)).lines().len() ==> active_tab(
            *final(kass),
        ).rowoff == scrolled_offset(
            active_tab(*old(kass)).rowoff as int,
            line_number - 1,
            active_tab(*old(kass)).editor_size.y as int,
        ),
{
    let a = kass.app.active_index;
    let mut tab = kass.app.tabs.remove(a);
    if line_number == tab.rows.len() {
        let y = line_number - 1;
        proof {
            crate::text::lemma_dv_index(&tab.rows, y as int);
        }
        let line_len = tab.rows[y].len();
        let new_x = if tab.cursor.x > line_len {
            line_len
        } else {
            tab.cursor.x
        };
        tab.cursor.y = y;
        tab.cursor.x = new_x;
        let h = tab.editor_size.y;
        tab.rowoff = if h > 0 && line_number > h {
            line_number - h
        } else {
            0
        };
        tab.scroll();
    } else if line_number - 1 <= tab.cursor.y {
        tab.move_up(tab.cursor.y - (line_number - 1));
    } else {
        tab.move_down((line_number - 1) - tab.cursor.y);
    }
    let ghost tab_g = tab;
    kass.app.tabs.insert(a, tab);
    proof {
        assert(kass.app.tabs@ =~= old(kass).app.tabs@.update(a as int, tab_g));
    }
}

/// The `k`-th synthesized tab name: `unnamed`, then `unnamed-1`,
/// `unnamed-2`, and so on.
pub open spec fn candidate_name(k: int) -> Seq<char> {
    if k == 0 {
        lit_unnamed()
    } else {
        lit_unnamed() + seq!['-'] + dec_digits(k)
    }
}

/// Builds the `k`-th synthesized tab name.
pub fn candidate_name_exec(k: usize) -> (r: Vec<char>)
    ensures
        r@ == candidate_name(k as int),
{
    let base = lit_unnamed_vec();
    if k == 0 {
        base
    } else {
        let mut r = base;
        r.push('-');
        let digits = fmt_usize(k);
        let out = join_rows(&r, &digits);
        proof {
            assert(out@ =~= candidate_name(k as int));
        }
        out
    }
}

/// Whether some open tab already carries `name` as its title.
pub open spec fn title_taken(tabs: Seq<Editor>, name: Seq<char>) -> bool {
    exists|i: int| 0 <= i < tabs.len() && (#[trigger] tabs[i]).title@ == name
}

/// Reports whether some open tab already carries `name` as its title.
pub fn title_taken_exec(tabs: &Vec<Editor>, name: &Vec<char>) -> (r: bool)
    ensures
        r == title_taken(tabs@, name@),
{
    let mut i: usize = 0;
    while i < tabs.len()
        invariant
            i <= tabs@.len(),
            forall|j: int| 0 <= j < i ==> (#[trigger] tabs@[j]).title@ != name@,
        decreases tabs@.len() - i,
    {
        if row_eq(&tabs[i].title, name) {
            return true;
        }
        i = i + 1;
    }
    false
}

/// Everything of the session except the pending slot left as it was.
pub open spec fn same_but_pending(pre: Kass, post: Kass) -> bool {
    &&& post.app == pre.app
    &&& post.buf == pre.buf
    &&& post.editor_size == pre.editor_size
    &&& post.line_number == pre.line_number
    &&& post.bindings == pre.bindings
}

/// A `write` was started: the session only records what it waits for, and
/// the query asks for the active tab's file to be written with exactly the
/// text the tab's lines stand for.
pub open spec fn write_started(
    pre: Kass,
    post: Kass,
    arg: Seq<char>,
    then_quit: bool,
    r: Option<FsQuery>,
) -> bool {
    &&& same_but_pending(pre, post)
    &&& post.pending matches Pending::WriteOne { then_quit: tq, arg: a } && tq == then_quit && a@
        == arg
    &&& r matches Some(FsQuery::WriteFile { path, content }) && path@ == active_tab(pre).filepath@
        && content@ == join_lines(active_tab(pre).lines())
}

/// A `write_all` was started at tab 0.
pub open spec fn write_all_started(
    pre: Kass,
    post: Kass,
    then_quit_all: bool,
    r: Option<FsQuery>,
) -> bool {
    &&& same_but_pending(pre, post)
    &&& post.pending matches Pending::WriteAll { i, then_quit_all: f } && i == 0 && f
        == then_quit_all
    &&& r matches Some(FsQuery::WriteFile { path, content }) && path@ == pre.app.tabs@[0].filepath@
        && content@ == join_lines(pre.app.tabs@[0].lines())
}

/// An `edit_file` was started: the query asks for a look at the argument
/// path.
pub open spec fn edit_started(pre: Kass, post: Kass, arg: Seq<char>, r: Option<FsQuery>) -> bool {
    &&& same_but_pending(pre, post)
    &&& post.pending matches Pending::EditLoad { path } && path@ == arg
    &&& r matches Some(FsQuery::LoadFile { path: p }) && p@ == arg
}

/// A `new_tab` was started: with an argument it asks for a look at that
/// path, without one it starts probing synthesized names at `unnamed`.
pub open spec fn new_tab_started(pre: Kass, post: Kass, arg: Seq<char>, r: Option<FsQuery>) -> bool {
    if arg.len() > 0 {
        &&& same_but_pending(pre, post)
        &&& post.pending matches Pending::TabNewLoad { path } && path@ == arg
        &&& r matches Some(FsQuery::LoadFile { path: p }) && p@ == arg
    } else {
        &&& same_but_pending(pre, post)
        &&& post.pending matches Pending::TabNewProbe { k } && k == 0
        &&& r matches Some(FsQuery::ProbeName { name }) && name@ == candidate_name(0)
    }
}

/// Starts saving the active tab.
pub fn write(input: &Vec<char>, close: &mut bool, kass: &mut Kass) -> (r: Option<FsQuery>)
    requires
        old(kass).wf(),
        old(kass).app.tabs@.len() >= 1,
        old(kass).pending is Idle,
    ensures
        final(kass).wf(),
        *final(close) == *old(close),
        write_started(*old(kass), *final(kass), input@, false, r),
{
    write_inner(input, kass, false)
}

/// Starts saving the active tab, to be followed by closing it.
pub fn write_and_quit(input: &Vec<char>, close: &mut bool, kass: &mut Kass) -> (r: Option<FsQuery>)
    requires
        old(kass).wf(),
        old(kass).app.tabs@.len() >= 1,
        old(kass).pending is Idle,
    ensures
        final(kass).wf(),
        *final(close) == *old(close),
        write_started(*old(kass), *final(kass), input@, true, r),
{
    write_inner(input, kass, true)
}

fn write_inner(input: &Vec<char>, kass: &mut Kass, then_quit: bool) -> (r: Option<FsQuery>)
    requires
        old(kass).wf(),
        old(kass).app.tabs@.len() >= 1,
        old(kass).pending is Idle,
    ensures
        final(kass).wf(),
        write_started(*old(kass), *final(kass), input@, then_quit, r),
{
    let a = kass.app.active_index;
    let path = copy_row(&kass.app.tabs[a].filepath);
    let content = kass.app.tabs[a].save_content();
    let arg = copy_row(input);
    kass.pending = Pending::WriteOne { then_quit, arg };
    Some(FsQuery::WriteFile { path, content })
}

/// Starts saving every tab, first tab first.
pub fn write_all(_input: &Vec<char>, close: &mut bool, kass: &mut Kass) -> (r: Option<FsQuery>)
    requires
        old(kass).wf(),
        old(kass).app.tabs@.len() >= 1,
        old(kass).pending is Idle,
    ensures
        final(kass).wf(),
        *final(close) == *old(close),
        write_all_started(*old(kass), *final(kass), false, r),
{
    write_all_inner(kass, false)
}

/// Starts saving every tab, to be followed by closing them all.
pub fn write_and_quit_all(_input: &Vec<char>, close: &mut bool, kass: &mut Kass) -> (r: Option<
    FsQuery,
>)
    requires
        old(kass).wf(),
        old(kass).app.tabs@.len() >= 1,
        old(kass).pending is Idle,
    ensures
        final(kass).wf(),
        *final(close) == *old(close),
        write_all_started(*old(kass), *final(kass), true, r),
{
    write_all_inner(kass, true)
}

fn write_all_inner(kass: &mut Kass, then_quit_all: bool) -> (r: Option<FsQuery>)
    requires
        old(kass).wf(),
        old(kass).app.tabs@.len() >= 1,
        old(kass).pending is Idle,
    ensures
        final(kass).wf(),
        write_all_started(*old(kass), *final(kass), then_quit_all, r),
{
    let path = copy_row(&kass.app.tabs[0].filepath);
    let content = kass.app.tabs[0].save_content();
    kass.pending = Pending::WriteAll { i: 0, then_quit_all };
    Some(FsQuery::WriteFile { path, content })
}

/// Starts rebinding the active tab to the argument path.
pub fn edit_file(input: &Vec<char>, close: &mut bool, kass: &mut Kass) -> (r: Option<FsQuery>)
    requires
        old(kass).wf(),
        old(kass).app.tabs@.len() >= 1,
        old(kass).pending is Idle,
    ensures
        final(kass).wf(),
        *final(close) == *old(close),
        edit_started(*old(kass), *final(kass), input@, r),
{
    let path = copy_row(input);
    let path2 = copy_row(input);
    kass.pending = Pending::EditLoad { path };
    Some(FsQuery::LoadFile { path: path2 })
}

/// Starts opening a new tab over the argument path, or over a synthesized
/// unused name when no argument was given.
pub fn new_tab(input: &Vec<char>, close: &mut bool, kass: &mut Kass) -> (r: Option<FsQuery>)
    requires
        old(kass).wf(),
        old(kass).app.tabs@.len() >= 1,
        old(kass).pending is Idle,
    ensures
        final(kass).wf(),
        *final(close) == *old(close),
        new_tab_started(*old(kass), *final(kass), input@, r),
{
    if input.len() > 0 {
        let path = copy_row(input);
        let path2 = copy_row(input);
        kass.pending = Pending::TabNewLoad { path };
        Some(FsQuery::LoadFile { path: path2 })
    } else {
        kass.pending = Pending::TabNewProbe { k: 0 };
        Some(FsQuery::ProbeName { name: candidate_name_exec(0) })
    }
}

/// Whether `reply` answers the query that `p` waits on.
pub open spec fn reply_matches(p: Pending, reply: FsReply) -> bool {
    match p {
        Pending::Idle => false,
        Pending::EditLoad { .. } => reply is Directory || reply is Missing || reply is Loaded,
        Pending::TabNewLoad { .. } => reply is Directory || reply is Missing || reply is Loaded,
        Pending::TabNewProbe { .. } => reply is NameExists,
        Pending::WriteOne { .. } => reply is WriteOk || reply is WriteErr,
        Pending::WriteAll { .. } => reply is WriteOk || reply is WriteErr,
    }
}

/// An error was posted and nothing else of the app moved; the pending slot
/// is not constrained here.
pub open spec fn error_posted(pre: Kass, post: Kass, msg: Seq<char>) -> bool {
    &&& post.app.action == CommandAction::Error
    &&& post.app.error@ == msg
    &&& post.app.info == pre.app.info
    &&& same_app_but_status(pre, post)
    &&& post.buf == pre.buf
    &&& post.editor_size == pre.editor_size
    &&& post.line_number == pre.line_number
    &&& post.bindings == pre.bindings
}

/// Tab `i`'s file was written: its snapshot synced, an info message
/// `<title> saved.` posted, everything else in place; the pending slot is
/// not constrained here.
pub open spec fn write_ok_applied(pre: Kass, mid: Kass, i: int) -> bool {
    &&& mid.app.tabs@.len() == pre.app.tabs@.len()
    &&& forall|j: int|
        0 <= j < pre.app.tabs@.len() && j != i ==> mid.app.tabs@[j] == pre.app.tabs@[j]
    &&& mark_saved_rel(pre.app.tabs@[i], mid.app.tabs@[i])
    &&& mid.app.active_index == pre.app.active_index
    &&& mid.app.mode == pre.app.mode
    &&& mid.app.command == pre.app.command
    &&& mid.app.action == CommandAction::Info
    &&& mid.app.info@ == pre.app.tabs@[i].title@ + msg_saved_suffix()
    &&& mid.app.error == pre.app.error
    &&& mid.app.clipboard == pre.app.clipboard
    &&& mid.buf == pre.buf
    &&& mid.editor_size == pre.editor_size
    &&& mid.line_number == pre.line_number
    &&& mid.bindings == pre.bindings
}

/// One tab appended, holding `lines` loaded from `path`, and made active.
pub open spec fn tab_appended(pre: Kass, post: Kass, path: Seq<char>, lines: Seq<Seq<char>>) -> bool {
    &&& post.app.tabs@.len() == pre.app.tabs@.len() + 1
    &&& post.app.tabs@.take(pre.app.tabs@.len() as int) == pre.app.tabs@
    &&& fresh_tab_rel(post.app.tabs@.last(), path, lines)
    &&& post.app.active_index == pre.app.tabs@.len()
    &&& post.app.mode == pre.app.mode
    &&& same_status(pre, post)
    &&& post.buf == pre.buf
    &&& post.editor_size == pre.editor_size
    &&& post.line_number == pre.line_number
    &&& post.bindings == pre.bindings
    &&& post.pending is Idle
}

/// The active tab rebound to `path` and reloaded with `lines` in place.
pub open spec fn active_reloaded(pre: Kass, post: Kass, path: Seq<char>, lines: Seq<Seq<char>>) -> bool {
    &&& tabs_same_but_active(pre, post)
    &&& reloaded_rel(active_tab(pre), active_tab(post), path, lines)
    &&& post.app.mode == pre.app.mode
    &&& same_status(pre, post)
    &&& post.buf == pre.buf
    &&& post.editor_size == pre.editor_size
    &&& post.line_number == pre.line_number
    &&& post.bindings == pre.bindings
    &&& post.pending is Idle
}

/// The machine's exact reaction to a filesystem reply, by what was
/// pending. Compositions (`write` then `quit`, `write_all` then
/// `quit_all`) go through the intermediate state the write left behind.
pub open spec fn resume_step(
    pre: Kass,
    post: Kass,
    reply: FsReply,
    close0: bool,
    close1: bool,
    r: Option<FsQuery>,
) -> bool {
    match pre.pending {
        Pending::Idle => false,
        Pending::EditLoad { path } => match reply {
            FsReply::Directory => {
                &&& error_posted(pre, post, msg_cannot_edit_dir())
                &&& post.pending is Idle
                &&& close1 == close0
                &&& r is None
            },
            FsReply::Missing => {
                &&& active_reloaded(pre, post, path@, seq![Seq::<char>::empty()])
                &&& close1 == close0
                &&& r is None
            },
            FsReply::Loaded { content } => {
                &&& active_reloaded(pre, post, path@, split_lines(content@))
                &&& close1 == close0
                &&& r is None
            },
            _ => false,
        },
        Pending::TabNewLoad { path } => match reply {
            FsReply::Directory => {
                &&& error_posted(pre, post, msg_provide_filepath())
                &&& post.pending is Idle
                &&& close1 == close0
                &&& r is None
            },
            FsReply::Missing => {
                &&& tab_appended(pre, post, path@, seq![Seq::<char>::empty()])
                &&& close1 == close0
                &&& r is None
            },
            FsReply::Loaded { content } => {
                &&& tab_appended(pre, post, path@, split_lines(content@))
                &&& close1 == close0
                &&& r is None
            },
            _ => false,
        },
        Pending::TabNewProbe { k } => match reply {
            FsReply::NameExists { exists } => {
                let name = candidate_name(k as int);
                if !exists && !title_taken(pre.app.tabs@, name) {
                    &&& tab_appended(pre, post, name, seq![Seq::<char>::empty()])
                    &&& close1 == close0
                    &&& r is None
                } else if k < usize::MAX {
                    &&& same_but_pending(pre, post)
                    &&& post.pending matches Pending::TabNewProbe { k: k2 } && k2 == k + 1
                    &&& r matches Some(FsQuery::ProbeName { name: n }) && n@ == candidate_name(
                        k + 1,
                    )
                    &&& close1 == close0
                } else {
                    &&& error_posted(pre, post, msg_provide_filepath())
                    &&& post.pending is Idle
                    &&& close1 == close0
                    &&& r is None
                }
            },
            _ => false,
        },
        Pending::WriteOne { then_quit, arg } => match reply {
            FsReply::WriteOk => {
                if !then_quit {
                    &&& write_ok_applied(pre, post, pre.app.active_index as int)
                    &&& post.pending is Idle
                    &&& close1 == close0
                    &&& r is None
                } else {
                    &&& exists|mid: Kass|
                        {
                            &&& #[trigger] write_ok_applied(pre, mid, pre.app.active_index as int)
                            &&& mid.pending is Idle
                            &&& quit_step(mid, post, arg@, close0, close1, false)
                        }
                    &&& r is None
                }
            },
            FsReply::WriteErr { msg } => {
                if !then_quit {
                    &&& error_posted(pre, post, msg@)
                    &&& post.pending is Idle
                    &&& close1 == close0
                    &&& r is None
                } else {
                    &&& exists|mid: Kass|
                        {
                            &&& #[trigger] error_posted(pre, mid, msg@)
                            &&& mid.pending is Idle
                            &&& mid.app.tabs == pre.app.tabs
                            &&& mid.app.active_index == pre.app.active_index
                            &&& quit_step(mid, post, arg@, close0, close1, false)
                        }
                    &&& r is None
                }
            },
            _ => false,
        },
        Pending::WriteAll { i, then_quit_all } => match reply {
            FsReply::WriteOk => {
                if i + 1 < pre.app.tabs@.len() {
                    &&& write_ok_applied(pre, post, i as int)
                    &&& post.pending matches Pending::WriteAll { i: i2, then_quit_all: f } && i2
                        == i + 1 && f == then_quit_all
                    &&& r matches Some(FsQuery::WriteFile { path, content }) && path@
                        == pre.app.tabs@[i + 1].filepath@ && content@ == join_lines(
                        pre.app.tabs@[i + 1].lines(),
                    )
                    &&& close1 == close0
                } else if !then_quit_all {
                    &&& write_ok_applied(pre, post, i as int)
                    &&& post.pending is Idle
                    &&& close1 == close0
                    &&& r is None
                } else {
                    &&& exists|mid: Kass|
                        {
                            &&& #[trigger] write_ok_applied(pre, mid, i as int)
                            &&& mid.pending is Idle
                            &&& quit_all_step(mid, post, close0, close1, false)
                        }
                    &&& r is None
                }
            },
            FsReply::WriteErr { msg } => {
                if !then_quit_all {
                    &&& error_posted(pre, post, msg@)
                    &&& post.pending is Idle
                    &&& close1 == close0
                    &&& r is None
                } else {
                    &&& exists|mid: Kass|
                        {
                            &&& #[trigger] error_posted(pre, mid, msg@)
                            &&& mid.pending is Idle
                            &&& quit_all_step(mid, post, close0, close1, false)
                        }
                    &&& r is None
                }
            },
            _ => false,
        },
    }
}

/// A fresh copy of the pending slot.
fn clone_pending(p: &Pending) -> (r: Pending)
    ensures
        match *p {
            Pending::Idle => r is Idle,
            Pending::EditLoad { path } => r matches Pending::EditLoad { path: p2 } && p2@ == path@,
            Pending::TabNewLoad { path } => r matches Pending::TabNewLoad { path: p2 } && p2@
                == path@,
            Pending::TabNewProbe { k } => r matches Pending::TabNewProbe { k: k2 } && k2 == k,
            Pending::WriteOne { then_quit, arg } => r matches Pending::WriteOne {
                then_quit: t2,
                arg: a2,
            } && t2 == then_quit && a2@ == arg@,
            Pending::WriteAll { i, then_quit_all } => r matches Pending::WriteAll {
                i: i2,
                then_quit_all: f2,
            } && i2 == i && f2 == then_quit_all,
        },
{
    match p {
        Pending::Idle => Pending::Idle,
        Pending::EditLoad { path } => Pending::EditLoad { path: copy_row(path) },
        Pending::TabNewLoad { path } => Pending::TabNewLoad { path: copy_row(path) },
        Pending::TabNewProbe { k } => Pending::TabNewProbe { k: *k },
        Pending::WriteOne { then_quit, arg } => Pending::WriteOne {
            then_quit: *then_quit,
            arg: copy_row(arg),
        },
        Pending::WriteAll { i, then_quit_all } => Pending::WriteAll {
            i: *i,
            then_quit_all: *then_quit_all,
        },
    }
}

/// Takes the answer to the outstanding filesystem query and finishes the
/// command that asked for it; may hand out the next query (the next file
/// of a `write_all`, the next candidate of a name probe).
pub fn resume_fs(kass: &mut Kass, reply: FsReply, close: &mut bool) -> (r: Option<FsQuery>)
    requires
        old(kass).wf(),
        reply_matches(old(kass).pending, reply),
    ensures
        final(kass).wf(),
        resume_step(*old(kass), *final(kass), reply, *old(close), *final(close), r),
{
    let p = clone_pending(&kass.pending);
    kass.pending = Pending::Idle;
    match p {
        Pending::Idle => None,
        Pending::EditLoad { path } => {
            match reply {
                FsReply::Directory => {
                    kass.set_error(msg_cannot_edit_dir_vec());
                    None
                },
                FsReply::Missing => {
                    let a = kass.app.active_index;
                    let mut tab = kass.app.tabs.remove(a);
                    tab.set_filepath(path, None);
                    let ghost tab_g = tab;
                    kass.app.tabs.insert(a, tab);
                    proof {
                        assert(kass.app.tabs@ =~= old(kass).app.tabs@.update(a as int, tab_g));
                    }
                    None
                },
                FsReply::Loaded { content } => {
                    let a = kass.app.active_index;
                    let mut tab = kass.app.tabs.remove(a);
                    tab.set_filepath(path, Some(content));
                    let ghost tab_g = tab;
                    kass.app.tabs.insert(a, tab);
                    proof {
                        assert(kass.app.tabs@ =~= old(kass).app.tabs@.update(a as int, tab_g));
                    }
                    None
                },
                _ => None,
            }
        },
        Pending::TabNewLoad { path } => {
            match reply {
                FsReply::Directory => {
                    kass.set_error(msg_provide_filepath_vec());
                    None
                },
                FsReply::Missing => {
                    push_fresh_tab(kass, path, None);
                    None
                },
                FsReply::Loaded { content } => {
                    push_fresh_tab(kass, path, Some(content));
                    None
                },
                _ => None,
            }
        },
        Pending::TabNewProbe { k } => {
            match reply {
                FsReply::NameExists { exists } => {
                    let name = candidate_name_exec(k);
                    if !exists && !title_taken_exec(&kass.app.tabs, &name) {
                        push_fresh_tab(kass, name, None);
                        None
                    } else if k < usize::MAX {
                        kass.pending = Pending::TabNewProbe { k: k + 1 };
                        Some(FsQuery::ProbeName { name: candidate_name_exec(k + 1) })
                    } else {
                        kass.set_error(msg_provide_filepath_vec());
                        None
                    }
                },
                _ => None,
            }
        },
        Pending::WriteOne { then_quit, arg } => {
            match reply {
                FsReply::WriteOk => {
                    mark_tab_written(kass, kass.app.active_index);
                    if then_quit {
                        let ghost mid = *kass;
                        quit(&arg, close, kass);
                        proof {
                            assert(write_ok_applied(
                                *old(kass),
                                mid,
                                old(kass).app.active_index as int,
                            ));
                        }
                    }
                    None
                },
                FsReply::WriteErr { msg } => {
                    kass.set_error(msg);
                    if then_quit {
                        let ghost mid = *kass;
                        quit(&arg, close, kass);
                        proof {
                            assert(match reply {
                                FsReply::WriteErr { msg: m } => error_posted(
                                    *old(kass),
                                    mid,
                                    m@,
                                ),
                                _ => true,
                            });
                        }
                    }
                    None
                },
                _ => None,
            }
        },
        Pending::WriteAll { i, then_quit_all } => {
            match reply {
                FsReply::WriteOk => {
                    mark_tab_written(kass, i);
                    let n = kass.app.tabs.len();
                    if i + 1 < n {
                        kass.pending = Pending::WriteAll { i: i + 1, then_quit_all };
                        let path = copy_row(&kass.app.tabs[i + 1].filepath);
                        let content = kass.app.tabs[i + 1].save_content();
                        Some(FsQuery::WriteFile { path, content })
                    } else if then_quit_all {
                        let ghost mid = *kass;
                        let empty_arg: Vec<char> = Vec::new();
                        quit_all(&empty_arg, close, kass);
                        proof {
                            assert(write_ok_applied(*old(kass), mid, i as int));
                        }
                        None
                    } else {
                        None
                    }
                },
                FsReply::WriteErr { msg } => {
                    kass.set_error(msg);
                    if then_quit_all {
                        let ghost mid = *kass;
                        let empty_arg: Vec<char> = Vec::new();
                        quit_all(&empty_arg, close, kass);
                        proof {
                            assert(match reply {
                                FsReply::WriteErr { msg: m } => error_posted(
                                    *old(kass),
                                    mid,
                                    m@,
                                ),
                                _ => true,
                            });
                        }
                    }
                    None
                },
                _ => None,
            }
        },
    }
}

/// Appends a fresh tab over `path` (loaded from `content`) and makes it
/// active.
fn push_fresh_tab(kass: &mut Kass, path: Vec<char>, content: Option<Vec<char>>)
    requires
        old(kass).wf(),
        old(kass).pending is Idle,
    ensures
        final(kass).wf(),
        tab_appended(
            *old(kass),
            *final(kass),
            path@,
            match content {
                Some(c) => split_lines(c@),
                None => seq![Seq::<char>::empty()],
            },
        ),
{
    let t = Editor::new(path, content);
    kass.app.tabs.push(t);
    let n = kass.app.tabs.len();
    kass.app.active_index = n - 1;
    proof {
        assert(kass.app.tabs@.take(old(kass).app.tabs@.len() as int) =~= old(kass).app.tabs@);
        assert forall|j: int| 0 <= j < kass.app.tabs@.len() implies (#[trigger] kass.app.tabs@[
        j]).wf() by {
            if j < old(kass).app.tabs@.len() {
                assert(kass.app.tabs@[j] == old(kass).app.tabs@[j]);
            }
        }
    }
}

/// Syncs tab `i`'s snapshot and posts `<title> saved.`.
fn mark_tab_written(kass: &mut Kass, i: usize)
    requires
        old(kass).wf(),
        old(kass).pending is Idle,
        i < old(kass).app.tabs@.len(),
    ensures
        final(kass).wf(),
        write_ok_applied(*old(kass), *final(kass), i as int),
        final(kass).pending is Idle,
{
    let mut tab = kass.app.tabs.remove(i);
    let msg = join_rows(&tab.title, &msg_saved_suffix_vec());
    tab.mark_saved();
    let ghost tab_g = tab;
    kass.app.tabs.insert(i, tab);
    proof {
        assert(kass.app.tabs@ =~= old(kass).app.tabs@.update(i as int, tab_g));
    }
    kass.set_info(msg);
}

} // verus!
