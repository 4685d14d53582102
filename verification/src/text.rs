//! Flat line-oriented text: splitting file content into lines on `'\n'`,
//! joining lines back, and small helpers over rows of characters.
//!
//! A document is a sequence of rows; a row is a sequence of characters that
//! carries no terminator. Splitting and joining are exact inverses, so a
//! document loaded from disk and written straight back is byte-identical.

use vstd::prelude::*;

verus! {

/// The file content that a sequence of rows stands for: the rows joined
/// with a single `'\n'` between neighbours, no terminator at the end.
pub open spec fn join_lines(rows: Seq<Seq<char>>) -> Seq<char>
    decreases rows.len(),
{
    if rows.len() == 0 {
        Seq::empty()
    } else if rows.len() == 1 {
        rows[0]
    } else {
        rows[0] + seq!['\n'] + join_lines(rows.skip(1))
    }
}

/// The rows that a file content stands for: content split on every `'\n'`.
/// Empty content is one empty row; a trailing `'\n'` yields a final empty
/// row, so that `join_lines` restores the content exactly.
pub open spec fn split_lines(c: Seq<char>) -> Seq<Seq<char>>
    decreases c.len(),
{
    if c.len() == 0 {
        seq![Seq::<char>::empty()]
    } else if c.last() == '\n' {
        split_lines(c.drop_last()).push(Seq::<char>::empty())
    } else {
        let rest = split_lines(c.drop_last());
        rest.update(rest.len() - 1, rest.last().push(c.last()))
    }
}

pub proof fn lemma_split_lines_len(c: Seq<char>)
    ensures
        split_lines(c).len() >= 1,
    decreases c.len(),
{
    if c.len() != 0 {
        lemma_split_lines_len(c.drop_last());
    }
}

proof fn lemma_join_push(rows: Seq<Seq<char>>, r: Seq<char>)
    requires
        rows.len() >= 1,
    ensures
        join_lines(rows.push(r)) == join_lines(rows) + seq!['\n'] + r,
    decreases rows.len(),
{
    if rows.len() == 1 {
        assert(rows.push(r).skip(1) =~= seq![r]);
        assert(join_lines(seq![r]) == r);
    } else {
        assert(rows.push(r).skip(1) =~= rows.skip(1).push(r));
        lemma_join_push(rows.skip(1), r);
        assert(rows[0] + seq!['\n'] + (join_lines(rows.skip(1)) + seq!['\n'] + r) =~= (rows[0]
            + seq!['\n'] + join_lines(rows.skip(1))) + seq!['\n'] + r);
    }
}

proof fn lemma_join_update_last(rows: Seq<Seq<char>>, x: char)
    requires
        rows.len() >= 1,
    ensures
        join_lines(rows.update(rows.len() - 1, rows.last().push(x))) == join_lines(rows).push(x),
    decreases rows.len(),
{
    if rows.len() == 1 {
        assert(rows.update(0, rows.last().push(x)) =~= seq![rows[0].push(x)]);
    } else {
        let rows2 = rows.update(rows.len() - 1, rows.last().push(x));
        assert(rows2.skip(1) =~= rows.skip(1).update(rows.skip(1).len() - 1, rows.skip(
            1,
        ).last().push(x)));
        lemma_join_update_last(rows.skip(1), x);
        assert(rows[0] + seq!['\n'] + join_lines(rows.skip(1)).push(x) =~= (rows[0] + seq!['\n']
            + join_lines(rows.skip(1))).push(x));
    }
}

/// Round-trip law: loading content as rows and saving the rows untouched
/// reproduces the content, character for character.
pub proof fn lemma_join_split_round_trip(c: Seq<char>)
    ensures
        join_lines(split_lines(c)) == c,
    decreases c.len(),
{
    if c.len() == 0 {
        assert(join_lines(split_lines(c)) =~= c);
    } else if c.last() == '\n' {
        lemma_join_split_round_trip(c.drop_last());
        lemma_split_lines_len(c.drop_last());
        lemma_join_push(split_lines(c.drop_last()), Seq::empty());
        assert(c.drop_last() + seq!['\n'] + Seq::<char>::empty() =~= c);
    } else {
        lemma_join_split_round_trip(c.drop_last());
        lemma_split_lines_len(c.drop_last());
        lemma_join_update_last(split_lines(c.drop_last()), c.last());
        assert(c.drop_last().push(c.last()) =~= c);
    }
}

pub proof fn lemma_push_deep_view(pre: Vec<Vec<char>>, post: Vec<Vec<char>>, r: Vec<char>)
    requires
        post@ == pre@.push(r),
    ensures
        post.deep_view() == pre.deep_view().push(r@),
{
    assert(post.deep_view() =~~= pre.deep_view().push(r@));
}

pub proof fn lemma_update_deep_view(pre: Vec<Vec<char>>, post: Vec<Vec<char>>, i: int, r: Vec<char>)
    requires
        0 <= i < pre@.len(),
        post@ == pre@.update(i, r),
    ensures
        post.deep_view() == pre.deep_view().update(i, r@),
{
    assert(post.deep_view() =~~= pre.deep_view().update(i, r@));
}

pub proof fn lemma_insert_deep_view(pre: Vec<Vec<char>>, post: Vec<Vec<char>>, i: int, r: Vec<char>)
    requires
        0 <= i <= pre@.len(),
        post@ == pre@.insert(i, r),
    ensures
        post.deep_view() == pre.deep_view().insert(i, r@),
{
    assert(post.deep_view() =~~= pre.deep_view().insert(i, r@));
}

pub proof fn lemma_remove_deep_view(pre: Vec<Vec<char>>, post: Vec<Vec<char>>, i: int)
    requires
        0 <= i < pre@.len(),
        post@ == pre@.remove(i),
    ensures
        post.deep_view() == pre.deep_view().remove(i),
{
    assert(post.deep_view() =~~= pre.deep_view().remove(i));
}

pub proof fn lemma_dv_index(v: &Vec<Vec<char>>, i: int)
    requires
        0 <= i < v.deep_view().len(),
    ensures
        v.deep_view()[i] == v@[i]@,
        v.deep_view().len() == v@.len(),
{
    assert(v.deep_view().len() == v@.len());
    assert(v.deep_view()[i] =~= v@[i]@);
}

/// Splits file content into rows, one split at every `'\n'`.
pub fn content_to_rows(content: &Vec<char>) -> (rows: Vec<Vec<char>>)
    ensures
        rows.deep_view() == split_lines(content@),
        rows@.len() >= 1,
{
    let mut rows: Vec<Vec<char>> = Vec::new();
    let mut cur: Vec<char> = Vec::new();
    let mut i: usize = 0;
    while i < content.len()
        invariant
            i <= content@.len(),
            rows.deep_view().push(cur@) == split_lines(content@.take(i as int)),
        decreases content@.len() - i,
    {
        let ghost pre_rows = rows;
        let ghost pre_cur_vec = cur;
        let ghost pre_cur = cur@;
        let ch = content[i];
        if ch == '\n' {
            rows.push(cur);
            cur = Vec::new();
            proof {
                lemma_push_deep_view(pre_rows, rows, pre_cur_vec);
                assert(rows.deep_view() =~= pre_rows.deep_view().push(pre_cur));
            }
        } else {
            cur.push(ch);
        }
        i = i + 1;
        proof {
            assert(content@.take(i as int).drop_last() =~= content@.take(i - 1));
            assert(content@.take(i as int).last() == ch);
            let rest = split_lines(content@.take(i - 1));
            if ch == '\n' {
                assert(rows.deep_view().push(cur@) =~= rest.push(Seq::<char>::empty()));
            } else {
                lemma_split_lines_len(content@.take(i - 1));
                assert(rows.deep_view().push(cur@) =~= rest.update(
                    rest.len() - 1,
                    rest.last().push(ch),
                ));
            }
        }
    }
    let ghost pre_rows = rows;
    let ghost pre_cur_vec = cur;
    let ghost pre_cur = cur@;
    rows.push(cur);
    proof {
        assert(content@.take(content@.len() as int) =~= content@);
        lemma_push_deep_view(pre_rows, rows, pre_cur_vec);
    }
    rows
}

/// Joins rows into file content with a single `'\n'` between neighbours.
pub fn rows_to_content(rows: &Vec<Vec<char>>) -> (content: Vec<char>)
    ensures
        content@ == join_lines(rows.deep_view()),
{
    let mut content: Vec<char> = Vec::new();
    let mut i: usize = 0;
    while i < rows.len()
        invariant
            i <= rows@.len(),
            content@ == join_lines(rows.deep_view().take(i as int)),
        decreases rows@.len() - i,
    {
        if i > 0 {
            content.push('\n');
        }
        let ghost base = content@;
        let row_len = rows[i].len();
        let mut j: usize = 0;
        while j < row_len
            invariant
                j <= row_len,
                row_len == rows.deep_view()[i as int].len(),
                i < rows@.len(),
                content@ == base + rows.deep_view()[i as int].take(j as int),
            decreases row_len - j,
        {
            let ch = rows[i][j];
            content.push(ch);
            j = j + 1;
            proof {
                assert(rows.deep_view()[i as int].take(j as int) =~= rows.deep_view()[
                    i as int
                ].take(j - 1).push(ch));
                assert(content@ =~= base + rows.deep_view()[i as int].take(j as int));
            }
        }
        proof {
            assert(rows.deep_view()[i as int].take(row_len as int) =~= rows.deep_view()[i as int]);
            assert(rows.deep_view().take(i + 1) =~= rows.deep_view().take(i as int).push(
                rows.deep_view()[i as int],
            ));
            if i > 0 {
                lemma_join_push(rows.deep_view().take(i as int), rows.deep_view()[i as int]);
                assert(content@ =~= join_lines(rows.deep_view().take(i as int)) + seq!['\n']
                    + rows.deep_view()[i as int]);
            } else {
                assert(content@ =~= rows.deep_view()[0]);
            }
        }
        i = i + 1;
    }
    proof {
        assert(rows.deep_view().take(rows@.len() as int) =~= rows.deep_view());
    }
    content
}

/// A fresh row holding the same characters.
pub fn copy_row(a: &Vec<char>) -> (r: Vec<char>)
    ensures
        r@ == a@,
{
    let mut r: Vec<char> = Vec::new();
    let mut i: usize = 0;
    while i < a.len()
        invariant
            i <= a@.len(),
            r@ == a@.take(i as int),
        decreases a@.len() - i,
    {
        r.push(a[i]);
        i = i + 1;
        proof {
            assert(a@.take(i as int) =~= a@.take(i - 1).push(a@[i - 1]));
        }
    }
    proof {
        assert(a@.take(a@.len() as int) =~= a@);
    }
    r
}

/// The characters of `a` followed by the characters of `b`.
pub fn join_rows(a: &Vec<char>, b: &Vec<char>) -> (r: Vec<char>)
    ensures
        r@ == a@ + b@,
{
    let mut r = copy_row(a);
    let mut i: usize = 0;
    while i < b.len()
        invariant
            i <= b@.len(),
            r@ == a@ + b@.take(i as int),
        decreases b@.len() - i,
    {
        r.push(b[i]);
        i = i + 1;
        proof {
            assert(a@ + b@.take(i as int) =~= (a@ + b@.take(i - 1)).push(b@[i - 1]));
        }
    }
    proof {
        assert(a@ + b@.take(b@.len() as int) =~= a@ + b@);
    }
    r
}

/// Fresh rows holding the same lines.
pub fn copy_rows(a: &Vec<Vec<char>>) -> (r: Vec<Vec<char>>)
    ensures
        r.deep_view() == a.deep_view(),
{
    let mut r: Vec<Vec<char>> = Vec::new();
    let mut i: usize = 0;
    while i < a.len()
        invariant
            i <= a@.len(),
            r.deep_view() == a.deep_view().take(i as int),
        decreases a@.len() - i,
    {
        let ghost pre = r;
        let row = copy_row(&a[i]);
        r.push(row);
        i = i + 1;
        proof {
            lemma_push_deep_view(pre, r, row);
            assert(a.deep_view().take(i as int) =~= a.deep_view().take(i - 1).push(a.deep_view()[i
                - 1]));
        }
    }
    proof {
        assert(a.deep_view().take(a@.len() as int) =~= a.deep_view());
    }
    r
}

/// Whether two rows hold the same characters.
pub fn row_eq(a: &Vec<char>, b: &Vec<char>) -> (r: bool)
    ensures
        r == (a@ == b@),
{
    if a.len() != b.len() {
        return false;
    }
    let mut i: usize = 0;
    while i < a.len()
        invariant
            i <= a@.len(),
            a@.len() == b@.len(),
            forall|k: int| 0 <= k < i ==> a@[k] == b@[k],
        decreases a@.len() - i,
    {
        if a[i] != b[i] {
            return false;
        }
        i = i + 1;
    }
    proof {
        assert(a@ =~= b@);
    }
    true
}

/// Whether two documents hold the same lines.
pub fn rows_eq(a: &Vec<Vec<char>>, b: &Vec<Vec<char>>) -> (r: bool)
    ensures
        r == (a.deep_view() == b.deep_view()),
{
    if a.len() != b.len() {
        proof {
            assert(a.deep_view().len() != b.deep_view().len());
        }
        return false;
    }
    let mut i: usize = 0;
    while i < a.len()
        invariant
            i <= a@.len(),
            a@.len() == b@.len(),
            forall|k: int| 0 <= k < i ==> a.deep_view()[k] == b.deep_view()[k],
        decreases a@.len() - i,
    {
        if !row_eq(&a[i], &b[i]) {
            proof {
                assert(a.deep_view()[i as int] =~= a@[i as int]@);
                assert(b.deep_view()[i as int] =~= b@[i as int]@);
            }
            return false;
        }
        i = i + 1;
    }
    proof {
        assert(a.deep_view() =~= b.deep_view());
    }
    true
}


/// Whether `c` is a decimal digit.
pub open spec fn is_digit_c(c: char) -> bool {
    48 <= c as u32 <= 57
}

/// The value of the decimal digit `c`.
pub open spec fn digit_val(c: char) -> int {
    c as u32 - 48
}

/// The character for the decimal digit `d`.
pub open spec fn digit_to_char(d: int) -> char {
    ((48 + d) as u8) as char
}

/// `10 * v + d`, saturated at `usize::MAX`.
pub open spec fn sat_add_digit(v: int, d: int) -> int {
    if 10 * v + d > usize::MAX as int {
        usize::MAX as int
    } else {
        10 * v + d
    }
}

/// The value of a run of decimal digits, saturated at `usize::MAX`.
pub open spec fn digits_val_sat(s: Seq<char>) -> int
    decreases s.len(),
{
    if s.len() == 0 {
        0
    } else {
        sat_add_digit(digits_val_sat(s.drop_last()), digit_val(s.last()))
    }
}

/// The decimal digits of `n`, most significant first.
pub open spec fn dec_digits(n: int) -> Seq<char>
    decreases n,
{
    if n < 10 {
        seq![digit_to_char(if n >= 0 { n } else { 0 })]
    } else {
        dec_digits(n / 10).push(digit_to_char(n % 10))
    }
}

/// `10 * v + d` for a decimal digit `d`, saturated at `usize::MAX`.
pub fn push_digit_sat(v: usize, d: usize) -> (r: usize)
    requires
        d <= 9,
    ensures
        r == sat_add_digit(v as int, d as int),
{
    let limit = usize::MAX / 10;
    if v > limit || (v == limit && d > usize::MAX % 10) {
        usize::MAX
    } else {
        v * 10 + d
    }
}

/// The decimal rendering of `n`.
pub fn fmt_usize(n: usize) -> (r: Vec<char>)
    ensures
        r@ == dec_digits(n as int),
{
    let mut rev: Vec<char> = Vec::new();
    let d0 = (n % 10) as u8;
    rev.push((48 + d0) as char);
    let mut m = n / 10;
    proof {
        assert(rev@.reverse() =~= seq![digit_to_char(n as int % 10)]);
        if m == 0 {
            assert(dec_digits(n as int) == rev@.reverse());
        } else {
            assert(dec_digits(n as int) =~= dec_digits(m as int) + rev@.reverse());
        }
    }
    while m > 0
        invariant
            m > 0 ==> dec_digits(n as int) == dec_digits(m as int) + rev@.reverse(),
            m == 0 ==> dec_digits(n as int) == rev@.reverse(),
            rev@.len() >= 1,
        decreases m,
    {
        let ghost pre_rev = rev@;
        let ghost pre_m = m as int;
        let d = (m % 10) as u8;
        rev.push((48 + d) as char);
        m = m / 10;
        proof {
            assert(rev@.reverse() =~= seq![digit_to_char(pre_m % 10)] + pre_rev.reverse());
            if m > 0 {
                assert(dec_digits(pre_m) == dec_digits(m as int).push(digit_to_char(pre_m % 10)));
                assert(dec_digits(m as int) + rev@.reverse() =~= (dec_digits(m as int).push(
                    digit_to_char(pre_m % 10),
                )) + pre_rev.reverse());
            } else {
                assert(dec_digits(pre_m) =~= seq![digit_to_char(pre_m % 10)]);
                assert(rev@.reverse() =~= dec_digits(pre_m) + pre_rev.reverse());
            }
        }
    }
    let mut r: Vec<char> = Vec::new();
    let mut j: usize = rev.len();
    while j > 0
        invariant
            j <= rev@.len(),
            r@ == rev@.reverse().take(rev@.len() - j),
        decreases j,
    {
        j = j - 1;
        r.push(rev[j]);
        proof {
            assert(rev@.reverse().take(rev@.len() - j) =~= rev@.reverse().take(rev@.len() - j
                - 1).push(rev@[j as int]));
        }
    }
    proof {
        assert(rev@.reverse().take(rev@.len() as int) =~= rev@.reverse());
    }
    r
}

} // verus!

