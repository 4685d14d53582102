//! What the renderer needs per frame, computed from an editor: the visible
//! slice of lines, the line-number labels beside it, the cursor's position
//! inside the viewport, and the window bounds.

use vstd::prelude::*;

use crate::editor::{Editor, Bound, min_i};
use crate::enums::LineNumber;
use crate::position::Position;
use crate::text::{copy_row, fmt_usize, dec_digits, lemma_dv_index, lemma_push_deep_view};

verus! {

/// The index just past the last visible line.
pub open spec fn visible_end(ed: Editor) -> int {
    min_i(ed.rowoff + ed.editor_size.y, ed.lines().len() as int)
}

/// The slice of lines inside the viewport:
/// `lines[rowoff .. min(rowoff + height, line_count)]`.
pub fn visible_rows(ed: &Editor) -> (r: Vec<Vec<char>>)
    requires
        ed.wf(),
    ensures
        r.deep_view() == ed.lines().subrange(ed.rowoff as int, visible_end(*ed)),
{
    let mut r: Vec<Vec<char>> = Vec::new();
    let end = if ed.editor_size.y >= ed.rows.len() - ed.rowoff {
        ed.rows.len()
    } else {
        ed.rowoff + ed.editor_size.y
    };
    let mut i: usize = ed.rowoff;
    while i < end
        invariant
            ed.rowoff <= i <= end,
            end == visible_end(*ed),
            end <= ed.lines().len(),
            ed.lines().len() == ed.rows@.len(),
            r.deep_view() == ed.lines().subrange(ed.rowoff as int, i as int),
        decreases end - i,
    {
        proof {
            lemma_dv_index(&ed.rows, i as int);
        }
        let row = copy_row(&ed.rows[i]);
        let ghost pre = r;
        r.push(row);
        i = i + 1;
        proof {
            lemma_push_deep_view(pre, r, row);
            assert(ed.lines().subrange(ed.rowoff as int, i as int) =~= ed.lines().subrange(
                ed.rowoff as int,
                i - 1,
            ).push(ed.lines()[i - 1]));
        }
    }
    proof {
        assert(ed.lines().subrange(ed.rowoff as int, ed.rowoff as int) =~= Seq::<Seq<char>>::empty());
    }
    r
}

/// The label shown beside buffer row `row`: the 1-based row number in
/// absolute mode; otherwise the distance to the cursor's row, with the
/// cursor's own row showing its 1-based number.
pub open spec fn label_for(mode: LineNumber, cursor_row: int, row: int) -> Seq<char> {
    match mode {
        LineNumber::Absolute => dec_digits(row + 1),
        _ => if cursor_row == row {
            dec_digits(row + 1)
        } else if cursor_row > row {
            dec_digits(cursor_row - row)
        } else {
            dec_digits(row - cursor_row)
        },
    }
}

/// One label per visible line, by `label_for`.
pub fn line_labels(ed: &Editor, mode: LineNumber) -> (r: Vec<Vec<char>>)
    requires
        ed.wf(),
    ensures
        r.deep_view().len() == visible_end(*ed) - ed.rowoff,
        forall|i: int|
            0 <= i < r.deep_view().len() ==> r.deep_view()[i] == label_for(
                mode,
                ed.cursor.y as int,
                ed.rowoff + i,
            ),
{
    let mut r: Vec<Vec<char>> = Vec::new();
    let end = if ed.editor_size.y >= ed.rows.len() - ed.rowoff {
        ed.rows.len()
    } else {
        ed.rowoff + ed.editor_size.y
    };
    let mut i: usize = ed.rowoff;
    while i < end
        invariant
            ed.rowoff <= i <= end,
            end == visible_end(*ed),
            end <= ed.lines().len(),
            ed.lines().len() == ed.rows@.len(),
            ed.wf(),
            r.deep_view().len() == i - ed.rowoff,
            forall|j: int|
                0 <= j < r.deep_view().len() ==> r.deep_view()[j] == label_for(
                    mode,
                    ed.cursor.y as int,
                    ed.rowoff + j,
                ),
        decreases end - i,
    {
        let label = match mode {
            LineNumber::Absolute => fmt_usize(i + 1),
            _ => {
                if ed.cursor.y == i {
                    fmt_usize(i + 1)
                } else if ed.cursor.y > i {
                    fmt_usize(ed.cursor.y - i)
                } else {
                    fmt_usize(i - ed.cursor.y)
                }
            },
        };
        let ghost pre = r;
        r.push(label);
        i = i + 1;
        proof {
            lemma_push_deep_view(pre, r, label);
        }
    }
    r
}

/// The cursor's position inside the viewport.
pub fn screen_cursor(ed: &Editor) -> (p: Position)
    requires
        ed.wf(),
    ensures
        p.x == ed.cursor.x - ed.coloff,
        p.y == ed.cursor.y - ed.rowoff,
{
    Position { x: ed.cursor.x - ed.coloff, y: ed.cursor.y - ed.rowoff }
}

/// Records the window of buffer coordinates the viewport covers:
/// `[coloff, coloff + width)` by `[rowoff, rowoff + height)`.
pub fn update_bounds(ed: &mut Editor)
    requires
        old(ed).wf(),
        old(ed).coloff + old(ed).editor_size.x <= usize::MAX,
        old(ed).rowoff + old(ed).editor_size.y <= usize::MAX,
    ensures
        final(ed).wf(),
        final(ed).bounds.0 == (Bound {
            x1: old(ed).coloff,
            x2: (old(ed).coloff + old(ed).editor_size.x) as usize,
        }),
        final(ed).bounds.1 == (Bound {
            x1: old(ed).rowoff,
            x2: (old(ed).rowoff + old(ed).editor_size.y) as usize,
        }),
        final(ed).rows == old(ed).rows,
        final(ed).filepath == old(ed).filepath,
        final(ed).title == old(ed).title,
        final(ed).synced == old(ed).synced,
        final(ed).cursor == old(ed).cursor,
        final(ed).rowoff == old(ed).rowoff,
        final(ed).coloff == old(ed).coloff,
        final(ed).editor_size == old(ed).editor_size,
{
    ed.bounds = (
        Bound { x1: ed.coloff, x2: ed.coloff + ed.editor_size.x },
        Bound { x1: ed.rowoff, x2: ed.rowoff + ed.editor_size.y },
    );
}

} // verus!
