//! One open document: its lines, cursor, scroll offsets and file identity.
//!
//! The invariant `wf` pins the cursor inside the document (`row <
//! line_count`, `column <= length(line[row])`) and keeps it inside the
//! visible window whenever the window has a positive size. Every movement
//! and edit operation states its exact effect and preserves `wf`.

use vstd::prelude::*;
use vstd::pervasive::VecAdditionalExecFns;

use crate::position::Position;
use crate::text::{
    split_lines, join_lines, copy_row, join_rows, copy_rows, rows_eq, rows_to_content,
    content_to_rows, lemma_update_deep_view, lemma_insert_deep_view, lemma_remove_deep_view,
    lemma_dv_index, lemma_split_lines_len,
};

verus! {

pub open spec fn min_i(a: int, b: int) -> int {
    if a <= b {
        a
    } else {
        b
    }
}

pub open spec fn max_i(a: int, b: int) -> int {
    if a >= b {
        a
    } else {
        b
    }
}

/// The scroll offset after revealing position `pos` in a window of `size`
/// cells that starts at `off`: scroll back to `pos` when it lies before the
/// window, forward to `pos - size + 1` when it lies at or past its end,
/// and stay put otherwise.
pub open spec fn scrolled_offset(off: int, pos: int, size: int) -> int {
    if pos < off {
        pos
    } else if size > 0 && pos >= off + size {
        pos - size + 1
    } else {
        off
    }
}

/// An inclusive-exclusive window `[x1, x2)` of buffer coordinates.
#[derive(Debug, Clone, Copy, PartialEq, Eq, Structural)]
pub struct Bound {
    pub x1: usize,
    pub x2: usize,
}

/// The title shown for a path with no final component.
pub open spec fn new_tab_title() -> Seq<char> {
    seq!['N', 'e', 'w', ' ', 'T', 'a', 'b']
}

/// Index just past the last `'/'` of `p`, or 0 when `p` has none.
pub open spec fn last_sep_end(p: Seq<char>) -> int
    decreases p.len(),
{
    if p.len() == 0 {
        0
    } else if p.last() == '/' {
        p.len() as int
    } else {
        last_sep_end(p.drop_last())
    }
}

/// The display title for a file path: its final `'/'`-separated component,
/// or `New Tab` when that component is empty.
pub open spec fn title_for_path(p: Seq<char>) -> Seq<char> {
    if p.len() - last_sep_end(p) == 0 {
        new_tab_title()
    } else {
        p.skip(last_sep_end(p))
    }
}

proof fn lemma_last_sep_end_bounds(p: Seq<char>)
    ensures
        0 <= last_sep_end(p) <= p.len(),
    decreases p.len(),
{
    if p.len() != 0 && p.last() != '/' {
        lemma_last_sep_end_bounds(p.drop_last());
    }
}

proof fn lemma_last_sep_end_at(p: Seq<char>, i: int)
    requires
        0 <= i < p.len(),
        p[i] == '/',
        forall|j: int| i < j < p.len() ==> p[j] != '/',
    ensures
        last_sep_end(p) == i + 1,
    decreases p.len(),
{
    if p.last() == '/' {
        assert(i == p.len() - 1);
    } else {
        lemma_last_sep_end_at(p.drop_last(), i);
    }
}

proof fn lemma_last_sep_end_none(p: Seq<char>)
    requires
        forall|j: int| 0 <= j < p.len() ==> p[j] != '/',
    ensures
        last_sep_end(p) == 0,
    decreases p.len(),
{
    if p.len() != 0 {
        lemma_last_sep_end_none(p.drop_last());
    }
}

/// The display title for `path`: its final path component, `New Tab` when
/// the path ends in a separator or is empty.
pub fn compute_title(path: &Vec<char>) -> (t: Vec<char>)
    ensures
        t@ == title_for_path(path@),
{
    let mut start: usize = 0;
    let mut found = false;
    let mut i: usize = path.len();
    while i > 0 && !found
        invariant
            i <= path@.len(),
            !found ==> start == 0 && (forall|j: int| i <= j < path@.len() ==> path@[j] != '/'),
            found ==> start == last_sep_end(path@),
        decreases i,
    {
        i = i - 1;
        if path[i] == '/' {
            start = i + 1;
            found = true;
            proof {
                lemma_last_sep_end_at(path@, i as int);
            }
        }
    }
    proof {
        if !found {
            lemma_last_sep_end_none(path@);
        }
        lemma_last_sep_end_bounds(path@);
    }
    if start == path.len() {
        let t: Vec<char> = vec!['N', 'e', 'w', ' ', 'T', 'a', 'b'];
        proof {
            assert(t@ =~= new_tab_title());
        }
        t
    } else {
        let mut t: Vec<char> = Vec::new();
        let mut k: usize = start;
        while k < path.len()
            invariant
                start <= k <= path@.len(),
                t@ == path@.subrange(start as int, k as int),
            decreases path@.len() - k,
        {
            t.push(path[k]);
            k = k + 1;
            proof {
                assert(path@.subrange(start as int, k as int) =~= path@.subrange(
                    start as int,
                    k - 1,
                ).push(path@[k - 1]));
            }
        }
        proof {
            assert(path@.subrange(start as int, path@.len() as int) =~= path@.skip(start as int));
        }
        t
    }
}

/// One open document (one tab): its lines, backing file path, cursor,
/// scroll offsets, viewport size and the last-synced snapshot of the lines
/// that decides the dirty state.
#[derive(Debug)]
pub struct Editor {
    pub rows: Vec<Vec<char>>,
    pub filepath: Vec<char>,
    pub cursor: Position,
    pub coloff: usize,
    pub rowoff: usize,
    pub bounds: (Bound, Bound),
    pub editor_size: Position,
    pub title: Vec<char>,
    pub synced: Vec<Vec<char>>,
}

/// The parts of an editor that no cursor or text operation touches.
pub open spec fn same_meta(pre: Editor, post: Editor) -> bool {
    &&& post.filepath == pre.filepath
    &&& post.title == pre.title
    &&& post.synced == pre.synced
    &&& post.editor_size == pre.editor_size
    &&& post.bounds == pre.bounds
}

/// `same_meta` and the text itself unchanged.
pub open spec fn same_text(pre: Editor, post: Editor) -> bool {
    &&& post.rows == pre.rows
    &&& same_meta(pre, post)
}

/// Both scroll offsets recomputed by the reveal rule for the new cursor.
pub open spec fn offsets_scrolled(pre: Editor, post: Editor) -> bool {
    &&& post.rowoff == scrolled_offset(
        pre.rowoff as int,
        post.cursor.y as int,
        pre.editor_size.y as int,
    )
    &&& post.coloff == scrolled_offset(
        pre.coloff as int,
        post.cursor.x as int,
        pre.editor_size.x as int,
    )
}

pub open spec fn move_right_rel(pre: Editor, post: Editor, steps: int) -> bool {
    &&& same_text(pre, post)
    &&& post.cursor.y == pre.cursor.y
    &&& post.cursor.x == min_i(pre.cursor.x + steps, pre.cur_line().len() as int)
    &&& offsets_scrolled(pre, post)
}

pub open spec fn move_left_rel(pre: Editor, post: Editor, steps: int) -> bool {
    &&& same_text(pre, post)
    &&& post.cursor.y == pre.cursor.y
    &&& post.cursor.x == max_i(pre.cursor.x - steps, 0)
    &&& offsets_scrolled(pre, post)
}

pub open spec fn move_down_rel(pre: Editor, post: Editor, steps: int) -> bool {
    &&& same_text(pre, post)
    &&& post.cursor.y == min_i(pre.cursor.y + steps, pre.lines().len() - 1)
    &&& post.cursor.x == min_i(pre.cursor.x as int, pre.lines()[post.cursor.y as int].len() as int)
    &&& offsets_scrolled(pre, post)
}

pub open spec fn move_up_rel(pre: Editor, post: Editor, steps: int) -> bool {
    &&& same_text(pre, post)
    &&& post.cursor.y == max_i(pre.cursor.y - steps, 0)
    &&& post.cursor.x == min_i(pre.cursor.x as int, pre.lines()[post.cursor.y as int].len() as int)
    &&& offsets_scrolled(pre, post)
}

pub open spec fn insert_char_rel(pre: Editor, post: Editor, c: char) -> bool {
    &&& same_meta(pre, post)
    &&& post.lines() == pre.lines().update(
        pre.cursor.y as int,
        pre.cur_line().insert(pre.cursor.x as int, c),
    )
    &&& post.cursor.y == pre.cursor.y
    &&& post.cursor.x == pre.cursor.x + 1
    &&& offsets_scrolled(pre, post)
}

/// Deleting the character before the cursor: a no-op at the very start of
/// the document, a one-character removal when the cursor is not at column
/// 0, and otherwise a join of the cursor's line onto the previous line
/// with the cursor placed at the join point.
pub open spec fn delete_rel(pre: Editor, post: Editor) -> bool {
    if pre.cursor.x == 0 && pre.cursor.y == 0 {
        post == pre
    } else if pre.cursor.x > 0 {
        &&& same_meta(pre, post)
        &&& post.lines() == pre.lines().update(
            pre.cursor.y as int,
            pre.cur_line().remove(pre.cursor.x - 1),
        )
        &&& post.cursor.y == pre.cursor.y
        &&& post.cursor.x == pre.cursor.x - 1
        &&& offsets_scrolled(pre, post)
    } else {
        &&& same_meta(pre, post)
        &&& post.lines() == pre.lines().update(
            pre.cursor.y - 1,
            pre.lines()[pre.cursor.y - 1] + pre.cur_line(),
        ).remove(pre.cursor.y as int)
        &&& post.cursor.y == pre.cursor.y - 1
        &&& post.cursor.x == pre.lines()[pre.cursor.y - 1].len()
        &&& offsets_scrolled(pre, post)
    }
}

/// Splitting the cursor's line at the cursor: the prefix stays in place,
/// the suffix becomes a new line below, and the cursor moves to the start
/// of that new line. At column 0 this inserts one empty line above the
/// split line's content.
pub open spec fn split_line_rel(pre: Editor, post: Editor) -> bool {
    &&& same_meta(pre, post)
    &&& post.lines() == pre.lines().update(
        pre.cursor.y as int,
        pre.cur_line().take(pre.cursor.x as int),
    ).insert(pre.cursor.y + 1, pre.cur_line().skip(pre.cursor.x as int))
    &&& post.cursor.y == pre.cursor.y + 1
    &&& post.cursor.x == 0
    &&& offsets_scrolled(pre, post)
}

impl Editor {
    /// The document as a sequence of lines.
    pub open spec fn lines(self) -> Seq<Seq<char>> {
        self.rows.deep_view()
    }

    /// The line the cursor is on.
    pub open spec fn cur_line(self) -> Seq<char> {
        self.lines()[self.cursor.y as int]
    }

    /// Well-formedness: at least one line exists, the cursor sits inside
    /// the document, and the cursor is visible whenever the viewport has a
    /// positive size.
    pub open spec fn wf(self) -> bool {
        &&& self.lines().len() >= 1
        &&& (self.cursor.y as int) < self.lines().len()
        &&& self.cursor.x as int <= self.cur_line().len()
        &&& self.rowoff <= self.cursor.y
        &&& (self.editor_size.y > 0 ==> (self.cursor.y as int) < self.rowoff + self.editor_size.y)
        &&& self.coloff <= self.cursor.x
        &&& (self.editor_size.x > 0 ==> (self.cursor.x as int) < self.coloff + self.editor_size.x)
    }

    /// A fresh editor over `filepath`. `content` is the backing file's
    /// text, or `None` when no such file exists yet; either way the
    /// document starts synced, with the cursor at the origin.
    pub fn new(filepath: Vec<char>, content: Option<Vec<char>>) -> (ed: Editor)
        ensures
            ed.filepath == filepath,
            fresh_tab_rel(
                ed,
                filepath@,
                match content {
                    Some(c) => split_lines(c@),
                    None => seq![Seq::<char>::empty()],
                },
            ),
    {
        let title = compute_title(&filepath);
        let rows = match content {
            Some(c) => content_to_rows(&c),
            None => {
                let mut rs: Vec<Vec<char>> = Vec::new();
                rs.push(Vec::new());
                proof {
                    assert(rs.deep_view() =~~= seq![Seq::<char>::empty()]);
                }
                rs
            },
        };
        let synced = copy_rows(&rows);
        proof {
            if content is Some {
                lemma_split_lines_len(content->0@);
            }
        }
        Editor {
            rows,
            filepath,
            cursor: Position::new(),
            coloff: 0,
            rowoff: 0,
            bounds: (Bound { x1: 0, x2: 0 }, Bound { x1: 0, x2: 0 }),
            editor_size: Position::new(),
            title,
            synced,
        }
    }

    /// Whether the document matches its last-synced snapshot.
    pub fn is_saved(&self) -> (r: bool)
        ensures
            r == (self.lines() == self.synced.deep_view()),
    {
        rows_eq(&self.rows, &self.synced)
    }

    /// The exact text that saving this document writes.
    pub fn save_content(&self) -> (content: Vec<char>)
        ensures
            content@ == join_lines(self.lines()),
    {
        rows_to_content(&self.rows)
    }

    /// The file content that a sequence of rows stands for.
    pub fn rows_to_file(rows: &Vec<Vec<char>>) -> (content: Vec<char>)
        ensures
            content@ == join_lines(rows.deep_view()),
    {
        rows_to_content(rows)
    }

    /// Records that the document now matches the disk: the snapshot
    /// becomes the current lines.
    pub fn mark_saved(&mut self)
        ensures
            mark_saved_rel(*old(self), *final(self)),
            old(self).wf() ==> final(self).wf(),
    {
        let synced = copy_rows(&self.rows);
        self.synced = synced;
    }

    /// Rebinds the editor to `filepath` and reloads its text from
    /// `content` (`None` when the file does not exist yet). The cursor and
    /// the scroll offsets reset; the viewport size stays.
    pub fn set_filepath(&mut self, filepath: Vec<char>, content: Option<Vec<char>>)
        ensures
            final(self).wf(),
            final(self).filepath == filepath,
            reloaded_rel(
                *old(self),
                *final(self),
                filepath@,
                match content {
                    Some(c) => split_lines(c@),
                    None => seq![Seq::<char>::empty()],
                },
            ),
    {
        let title = compute_title(&filepath);
        let rows = match content {
            Some(c) => content_to_rows(&c),
            None => {
                let mut rs: Vec<Vec<char>> = Vec::new();
                rs.push(Vec::new());
                proof {
                    assert(rs.deep_view() =~~= seq![Seq::<char>::empty()]);
                }
                rs
            },
        };
        let synced = copy_rows(&rows);
        proof {
            if content is Some {
                lemma_split_lines_len(content->0@);
            }
        }
        self.rows = rows;
        self.filepath = filepath;
        self.title = title;
        self.synced = synced;
        self.cursor.x = 0;
        self.cursor.y = 0;
        self.rowoff = 0;
        self.coloff = 0;
    }

    /// Adopts a new terminal size: the width and one row of chrome less
    /// than the height, then re-applies the reveal rules so the cursor
    /// stays visible.
    pub fn boundary(&mut self, terminal_width: usize, terminal_height: usize)
        requires
            old(self).wf(),
            terminal_height >= 1,
        ensures
            final(self).wf(),
            final(self).editor_size.x == terminal_width,
            final(self).editor_size.y == terminal_height - 1,
            final(self).rows == old(self).rows,
            final(self).filepath == old(self).filepath,
            final(self).title == old(self).title,
            final(self).synced == old(self).synced,
            final(self).bounds == old(self).bounds,
            final(self).cursor == old(self).cursor,
            final(self).rowoff == scrolled_offset(
                old(self).rowoff as int,
                final(self).cursor.y as int,
                terminal_height - 1,
            ),
            final(self).coloff == scrolled_offset(
                old(self).coloff as int,
                final(self).cursor.x as int,
                terminal_width as int,
            ),
    {
        self.editor_size.x = terminal_width;
        self.editor_size.y = terminal_height - 1;
        self.scroll();
    }

    /// Recomputes both scroll offsets by the reveal rule, so that the
    /// cursor falls inside the visible window.
    pub(crate) fn scroll(&mut self)
        ensures
            final(self).cursor == old(self).cursor,
            same_text(*old(self), *final(self)),
            offsets_scrolled(*old(self), *final(self)),
            final(self).rowoff <= final(self).cursor.y,
            final(self).editor_size.y > 0 ==> (final(self).cursor.y as int) < final(self).rowoff + final(self).editor_size.y,
            final(self).coloff <= final(self).cursor.x,
            final(self).editor_size.x > 0 ==> (final(self).cursor.x as int) < final(self).coloff + final(self).editor_size.x,
    {
        if self.cursor.y < self.rowoff {
            self.rowoff = self.cursor.y;
        } else if self.editor_size.y > 0 && self.cursor.y - self.rowoff >= self.editor_size.y {
            self.rowoff = self.cursor.y - self.editor_size.y + 1;
        }
        if self.cursor.x < self.coloff {
            self.coloff = self.cursor.x;
        } else if self.editor_size.x > 0 && self.cursor.x - self.coloff >= self.editor_size.x {
            self.coloff = self.cursor.x - self.editor_size.x + 1;
        }
    }

    /// `column = min(column + steps, length(line[row]))`; never crosses to
    /// the next line.
    pub fn move_right(&mut self, steps: usize)
        requires
            old(self).wf(),
        ensures
            final(self).wf(),
            move_right_rel(*old(self), *final(self), steps as int),
    {
        proof {
            lemma_dv_index(&self.rows, self.cursor.y as int);
        }
        let line_len = self.rows[self.cursor.y].len();
        let new_x = if steps >= line_len - self.cursor.x {
            line_len
        } else {
            self.cursor.x + steps
        };
        self.cursor.x = new_x;
        self.scroll();
    }

    /// `column = max(column - steps, 0)`; never crosses to the previous
    /// line.
    pub fn move_left(&mut self, steps: usize)
        requires
            old(self).wf(),
        ensures
            final(self).wf(),
            move_left_rel(*old(self), *final(self), steps as int),
    {
        let new_x = if steps >= self.cursor.x {
            0
        } else {
            self.cursor.x - steps
        };
        self.cursor.x = new_x;
        self.scroll();
    }

    /// `row = min(row + steps, line_count - 1)`, the column clamped to the
    /// new line, and the viewport scrolled to keep the cursor visible.
    pub fn move_down(&mut self, steps: usize)
        requires
            old(self).wf(),
        ensures
            final(self).wf(),
            move_down_rel(*old(self), *final(self), steps as int),
    {
        let last = self.rows.len() - 1;
        let new_y = if steps >= last - self.cursor.y {
            last
        } else {
            self.cursor.y + steps
        };
        proof {
            lemma_dv_index(&self.rows, new_y as int);
        }
        let line_len = self.rows[new_y].len();
        let new_x = if self.cursor.x > line_len {
            line_len
        } else {
            self.cursor.x
        };
        self.cursor.y = new_y;
        self.cursor.x = new_x;
        self.scroll();
    }

    /// `row = max(row - steps, 0)`, the column clamped to the new line,
    /// and the viewport scrolled to keep the cursor visible.
    pub fn move_up(&mut self, steps: usize)
        requires
            old(self).wf(),
        ensures
            final(self).wf(),
            move_up_rel(*old(self), *final(self), steps as int),
    {
        let new_y = if steps >= self.cursor.y {
            0
        } else {
            self.cursor.y - steps
        };
        proof {
            lemma_dv_index(&self.rows, new_y as int);
        }
        let line_len = self.rows[new_y].len();
        let new_x = if self.cursor.x > line_len {
            line_len
        } else {
            self.cursor.x
        };
        self.cursor.y = new_y;
        self.cursor.x = new_x;
        self.scroll();
    }

    /// Inserts `row_content` as a new line at `idx`, shifting later lines
    /// down; a no-op when `idx` lies past the end. Leaves the cursor and
    /// the offsets where they were.
    pub fn insert_row(&mut self, idx: usize, row_content: Vec<char>)
        ensures
            idx <= old(self).lines().len() ==> final(self).lines() == old(self).lines().insert(
                idx as int,
                row_content@,
            ),
            idx > old(self).lines().len() ==> *final(self) == *old(self),
            same_meta(*old(self), *final(self)),
            final(self).cursor == old(self).cursor,
            final(self).rowoff == old(self).rowoff,
            final(self).coloff == old(self).coloff,
            old(self).wf() && idx > old(self).cursor.y ==> final(self).wf(),
    {
        if idx > self.rows.len() {
            return;
        }
        let ghost pre = self.rows;
        self.rows.insert(idx, row_content);
        proof {
            lemma_insert_deep_view(pre, self.rows, idx as int, row_content);
        }
    }

    /// Inserts `c` at the cursor and steps the cursor past it.
    pub fn insert_char(&mut self, c: char)
        requires
            old(self).wf(),
        ensures
            final(self).wf(),
            insert_char_rel(*old(self), *final(self), c),
    {
        let y = self.cursor.y;
        proof {
            lemma_dv_index(&self.rows, y as int);
        }
        let mut row = copy_row(&self.rows[y]);
        row.insert(self.cursor.x, c);
        // reading the length pins cursor.x + 1 inside usize
        let _grown_len = row.len();
        let ghost pre_rows = self.rows;
        self.rows.set(y, row);
        proof {
            lemma_update_deep_view(pre_rows, self.rows, y as int, row);
        }
        self.cursor.x = self.cursor.x + 1;
        self.scroll();
        proof {
            lemma_dv_index(&self.rows, y as int);
        }
    }

    /// Splits the cursor's line at the cursor (the Enter key in Insert
    /// mode): prefix stays, suffix becomes the next line, cursor moves to
    /// the start of the suffix. Grows the document by exactly one line.
    pub fn goto_newline(&mut self)
        requires
            old(self).wf(),
        ensures
            final(self).wf(),
            split_line_rel(*old(self), *final(self)),
            final(self).lines().len() == old(self).lines().len() + 1,
    {
        let y = self.cursor.y;
        // reading the length pins cursor.y + 1 inside usize
        let _line_count = self.rows.len();
        proof {
            lemma_dv_index(&self.rows, y as int);
        }
        let mut row = copy_row(&self.rows[y]);
        let suffix = row.split_off(self.cursor.x);
        let ghost pre_rows = self.rows;
        self.rows.set(y, row);
        proof {
            lemma_update_deep_view(pre_rows, self.rows, y as int, row);
        }
        let ghost mid_rows = self.rows;
        self.rows.insert(y + 1, suffix);
        proof {
            lemma_insert_deep_view(mid_rows, self.rows, y + 1, suffix);
            assert(row@ =~= old(self).cur_line().take(old(self).cursor.x as int));
            assert(suffix@ =~= old(self).cur_line().skip(old(self).cursor.x as int));
        }
        self.cursor.y = y + 1;
        self.cursor.x = 0;
        self.scroll();
        proof {
            lemma_dv_index(&self.rows, y + 1);
        }
    }

    /// Removes the character at `idx` in the cursor's line; reports
    /// whether anything was removed. May leave the cursor column past the
    /// shortened line; `delete` re-clamps it.
    pub fn del_char(&mut self, idx: usize) -> (removed: bool)
        requires
            (old(self).cursor.y as int) < old(self).lines().len(),
        ensures
            removed == (idx < old(self).cur_line().len()),
            removed ==> final(self).lines() == old(self).lines().update(
                old(self).cursor.y as int,
                old(self).cur_line().remove(idx as int),
            ),
            !removed ==> *final(self) == *old(self),
            final(self).cursor == old(self).cursor,
            final(self).rowoff == old(self).rowoff,
            final(self).coloff == old(self).coloff,
            same_meta(*old(self), *final(self)),
    {
        let y = self.cursor.y;
        proof {
            lemma_dv_index(&self.rows, y as int);
        }
        if idx >= self.rows[y].len() {
            false
        } else {
            let mut row = copy_row(&self.rows[y]);
            row.remove(idx);
            let ghost pre_rows = self.rows;
            self.rows.set(y, row);
            proof {
                lemma_update_deep_view(pre_rows, self.rows, y as int, row);
            }
            true
        }
    }

    /// Deletes the character before the cursor (the Backspace key): see
    /// `delete_rel`. At the very start of the document nothing changes.
    pub fn delete(&mut self)
        requires
            old(self).wf(),
        ensures
            final(self).wf(),
            delete_rel(*old(self), *final(self)),
    {
        if self.cursor.x == 0 && self.cursor.y == 0 {
            return;
        }
        let y = self.cursor.y;
        if self.cursor.x > 0 {
            let _removed = self.del_char(self.cursor.x - 1);
            self.cursor.x = self.cursor.x - 1;
            self.scroll();
            proof {
                lemma_dv_index(&self.rows, y as int);
            }
        } else {
            proof {
                lemma_dv_index(&self.rows, y as int);
                lemma_dv_index(&self.rows, y - 1);
            }
            let cur_row = copy_row(&self.rows[y]);
            let prev_len = self.rows[y - 1].len();
            let joined = join_rows(&self.rows[y - 1], &cur_row);
            let ghost pre_rows = self.rows;
            self.rows.set(y - 1, joined);
            proof {
                lemma_update_deep_view(pre_rows, self.rows, y - 1, joined);
            }
            let ghost mid_rows = self.rows;
            self.rows.remove(y);
            proof {
                lemma_remove_deep_view(mid_rows, self.rows, y as int);
            }
            self.cursor.y = y - 1;
            self.cursor.x = prev_len;
            self.scroll();
            proof {
                lemma_dv_index(&self.rows, y - 1);
            }
        }
    }
}

/// The editor was rebound to `path` and reloaded with `lines`: synced,
/// cursor at the origin, offsets reset, viewport size kept.
pub open spec fn reloaded_rel(pre: Editor, post: Editor, path: Seq<char>, lines: Seq<Seq<char>>) -> bool {
    &&& post.filepath@ == path
    &&& post.lines() == lines
    &&& post.synced.deep_view() == lines
    &&& post.title@ == title_for_path(path)
    &&& post.cursor.x == 0 && post.cursor.y == 0
    &&& post.rowoff == 0 && post.coloff == 0
    &&& post.editor_size == pre.editor_size
    &&& post.bounds == pre.bounds
}

/// A newly created editor over `path` holding `lines`: synced, cursor at
/// the origin, no viewport size yet.
pub open spec fn fresh_tab_rel(t: Editor, path: Seq<char>, lines: Seq<Seq<char>>) -> bool {
    &&& t.wf()
    &&& t.filepath@ == path
    &&& t.lines() == lines
    &&& t.synced.deep_view() == lines
    &&& t.title@ == title_for_path(path)
    &&& t.cursor.x == 0 && t.cursor.y == 0
    &&& t.rowoff == 0 && t.coloff == 0
    &&& t.editor_size.x == 0 && t.editor_size.y == 0
}

/// The snapshot was brought up to date and nothing else moved.
pub open spec fn mark_saved_rel(pre: Editor, post: Editor) -> bool {
    &&& post.synced.deep_view() == post.lines()
    &&& post.rows == pre.rows
    &&& post.filepath == pre.filepath
    &&& post.title == pre.title
    &&& post.cursor == pre.cursor
    &&& post.rowoff == pre.rowoff
    &&& post.coloff == pre.coloff
    &&& post.editor_size == pre.editor_size
    &&& post.bounds == pre.bounds
}


/// Round-trip law: a document loaded from `content` and saved without
/// intervening edits writes back exactly `content`.
pub proof fn lemma_load_save_round_trip(ed: Editor, content: Seq<char>)
    requires
        ed.lines() == split_lines(content),
    ensures
        join_lines(ed.lines()) == content,
{
    crate::text::lemma_join_split_round_trip(content);
}

/// Splitting a line at column 0 grows the document by exactly one line:
/// an empty line appears at the cursor's row, the split line's whole
/// content moves one row down, and everything else stays in place.
pub proof fn lemma_split_at_zero(pre: Editor, post: Editor)
    requires
        pre.wf(),
        pre.cursor.x == 0,
        split_line_rel(pre, post),
    ensures
        post.lines().len() == pre.lines().len() + 1,
        post.lines()[pre.cursor.y as int] == Seq::<char>::empty(),
        post.lines()[pre.cursor.y + 1] == pre.cur_line(),
        forall|i: int| 0 <= i < pre.cursor.y ==> post.lines()[i] == pre.lines()[i],
        forall|i: int|
            pre.cursor.y + 1 < i < post.lines().len() ==> post.lines()[i] == pre.lines()[i - 1],
{
    let y = pre.cursor.y as int;
    assert(pre.cur_line().take(0) =~= Seq::<char>::empty());
    assert(pre.cur_line().skip(0) =~= pre.cur_line());
    assert(post.lines() == pre.lines().update(y, Seq::<char>::empty()).insert(
        y + 1,
        pre.cur_line(),
    ));
}

/// Movement law: a well-formed editor always has `0 <= row < line_count`

/// and `0 <= column <= length(line[row])`; since every movement operation
/// both requires and ensures `wf`, the bounds hold after any sequence of
/// moves.
pub proof fn lemma_cursor_in_bounds(e: Editor)
    requires
        e.wf(),
    ensures
        0 <= e.cursor.y < e.lines().len(),
        0 <= e.cursor.x <= e.lines()[e.cursor.y as int].len(),
{
}

} // verus!
