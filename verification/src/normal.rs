//! Normal mode: printable keys accumulate into a key run that is parsed as
//! runs of digits (a repeat count) followed by one command letter. A
//! recognized letter acts at once with the parsed count (default 1) and
//! clears the run; an unrecognized letter just clears it. Tab and Shift+Tab
//! cycle the tabs regardless of the run; Esc discards the run.

use vstd::prelude::*;

use crate::editor::{move_left_rel, move_right_rel, move_down_rel, move_up_rel};
use crate::enums::{Mode, Key, Element};
use crate::kass::{Kass, tabs_same_but_active, same_status, active_tab};
use crate::text::{is_digit_c, digit_val, sat_add_digit, push_digit_sat};

verus! {

/// A `Char` element around `c`.
pub open spec fn elem_char(c: char) -> Element {
    Element::Char(c)
}

/// The elements of a Normal-mode key run: maximal runs of digits become
/// one `Num` (saturated at `usize::MAX`), every other character a `Char`.
pub open spec fn parse_elements(s: Seq<char>) -> Seq<Element>
    decreases s.len(),
{
    if s.len() == 0 {
        Seq::empty()
    } else {
        let rest = parse_elements(s.drop_last());
        let c = s.last();
        if is_digit_c(c) {
            if rest.len() > 0 {
                match rest.last() {
                    Element::Num(n) => rest.update(
                        rest.len() - 1,
                        Element::Num(sat_add_digit(n as int, digit_val(c)) as usize),
                    ),
                    Element::Char(_) => rest.push(Element::Num(digit_val(c) as usize)),
                }
            } else {
                rest.push(Element::Num(digit_val(c) as usize))
            }
        } else {
            rest.push(elem_char(c))
        }
    }
}

/// Parses a key run into its elements.
pub fn parse_buf(input: &Vec<char>) -> (r: Vec<Element>)
    ensures
        r@ == parse_elements(input@),
{
    let mut elems: Vec<Element> = Vec::new();
    let mut val: usize = 0;
    let mut has_num = false;
    let mut i: usize = 0;
    while i < input.len()
        invariant
            i <= input@.len(),
            has_num ==> parse_elements(input@.take(i as int)) == elems@.push(
                Element::Num(val),
            ) && i > 0 && is_digit_c(input@[i - 1]),
            !has_num ==> parse_elements(input@.take(i as int)) == elems@ && (i == 0 || !is_digit_c(
                input@[i - 1],
            )),
        decreases input@.len() - i,
    {
        let c = input[i];
        let ghost pre = parse_elements(input@.take(i as int));
        proof {
            assert(input@.take(i + 1).drop_last() =~= input@.take(i as int));
            assert(input@.take(i + 1).last() == c);
        }
        let cu = c as u32;
        if cu >= 48 && cu <= 57 {
            let d = (cu - 48) as usize;
            if has_num {
                val = push_digit_sat(val, d);
                proof {
                    assert(parse_elements(input@.take(i + 1)) =~= elems@.push(Element::Num(val)));
                }
            } else {
                val = d;
                has_num = true;
                proof {
                    assert(is_digit_c(c));
                    assert(parse_elements(input@.take(i as int)) == elems@);
                    if i > 0 {
                        assert(!is_digit_c(input@[i - 1]));
                        assert(input@.take(i as int).len() == i);
                        assert(input@.take(i as int).drop_last() =~= input@.take(i - 1));
                        assert(input@.take(i as int).last() == input@[i - 1]);
                        assert(parse_elements(input@.take(i as int)) =~= parse_elements(
                            input@.take(i - 1),
                        ).push(Element::Char(input@[i - 1])));
                    }
                    assert(parse_elements(input@.take(i + 1)) =~= elems@.push(Element::Num(val)));
                }
            }
        } else {
            if has_num {
                elems.push(Element::Num(val));
                val = 0;
                has_num = false;
            }
            elems.push(Element::Char(c));
            proof {
                assert(parse_elements(input@.take(i + 1)) =~= elems@);
            }
        }
        i = i + 1;
    }
    proof {
        assert(input@.take(input@.len() as int) =~= input@);
    }
    if has_num {
        elems.push(Element::Num(val));
    }
    elems
}

/// The repeat count of a parsed run: the number just before the trailing
/// letter, or 1 when none was typed.
pub open spec fn count_of(parsed: Seq<Element>) -> int {
    if parsed.len() >= 2 {
        match parsed[parsed.len() - 2] {
            Element::Num(n) => n as int,
            Element::Char(_) => 1,
        }
    } else {
        1
    }
}

/// The active tab moved and the key run cleared; nothing else of the
/// session changed.
pub open spec fn moved_and_cleared(pre: Kass, post: Kass) -> bool {
    &&& tabs_same_but_active(pre, post)
    &&& same_status(pre, post)
    &&& post.buf@ == Seq::<char>::empty()
    &&& post.editor_size == pre.editor_size
    &&& post.line_number == pre.line_number
    &&& post.bindings == pre.bindings
    &&& post.pending == pre.pending
}

/// The session with only the key run changed.
pub open spec fn only_buf_changed(pre: Kass, post: Kass, buf: Seq<char>) -> bool {
    &&& post.app == pre.app
    &&& post.buf@ == buf
    &&& post.editor_size == pre.editor_size
    &&& post.line_number == pre.line_number
    &&& post.bindings == pre.bindings
    &&& post.pending == pre.pending
}

/// The exact effect of one printable character in Normal mode: the
/// character joins the key run; if the run now ends in a letter, the
/// letter acts with the parsed count and the run clears.
pub open spec fn normal_char_rel(pre: Kass, post: Kass, c: char) -> bool {
    let buf2 = pre.buf@.push(c);
    let parsed = parse_elements(buf2);
    if parsed.len() == 0 || (parsed.last() matches Element::Num(_)) {
        only_buf_changed(pre, post, buf2)
    } else {
        let letter = parsed.last()->Char_0;
        let count = count_of(parsed);
        if letter == 'i' {
            &&& moved_and_cleared(pre, post)
            &&& move_left_rel(active_tab(pre), active_tab(post), 1)
            &&& post.app.mode == Mode::Insert
        } else if letter == 'a' {
            &&& post.app.tabs == pre.app.tabs
            &&& post.app.active_index == pre.app.active_index
            &&& post.app.mode == Mode::Insert
            &&& same_status(pre, post)
            &&& post.buf@ == Seq::<char>::empty()
            &&& post.editor_size == pre.editor_size
            &&& post.line_number == pre.line_number
            &&& post.bindings == pre.bindings
            &&& post.pending == pre.pending
        } else if letter == ':' {
            &&& post.app.tabs == pre.app.tabs
            &&& post.app.active_index == pre.app.active_index
            &&& post.app.mode == Mode::Command
            &&& post.app.command@ == pre.app.command@.push(':')
            &&& post.app.error == pre.app.error
            &&& post.app.info == pre.app.info
            &&& post.app.action == pre.app.action
            &&& post.app.clipboard == pre.app.clipboard
            &&& post.buf@ == Seq::<char>::empty()
            &&& post.editor_size == pre.editor_size
            &&& post.line_number == pre.line_number
            &&& post.bindings == pre.bindings
            &&& post.pending == pre.pending
        } else if letter == 'h' {
            &&& moved_and_cleared(pre, post)
            &&& post.app.mode == pre.app.mode
            &&& move_left_rel(active_tab(pre), active_tab(post), count)
        } else if letter == 'j' {
            &&& moved_and_cleared(pre, post)
            &&& post.app.mode == pre.app.mode
            &&& move_down_rel(active_tab(pre), active_tab(post), count)
        } else if letter == 'k' {
            &&& moved_and_cleared(pre, post)
            &&& post.app.mode == pre.app.mode
            &&& move_up_rel(active_tab(pre), active_tab(post), count)
        } else if letter == 'l' {
            &&& moved_and_cleared(pre, post)
            &&& post.app.mode == pre.app.mode
            &&& move_right_rel(active_tab(pre), active_tab(post), count)
        } else {
            &&& post.app == pre.app
            &&& post.buf@ == Seq::<char>::empty()
            &&& post.editor_size == pre.editor_size
            &&& post.line_number == pre.line_number
            &&& post.bindings == pre.bindings
            &&& post.pending == pre.pending
        }
    }
}

/// The exact effect of one key in Normal mode.
pub open spec fn normal_step_rel(pre: Kass, post: Kass, key: Key) -> bool {
    match key {
        Key::Char(c) => normal_char_rel(pre, post, c),
        Key::Tab => {
            &&& post.app.tabs == pre.app.tabs
            &&& post.app.active_index == (pre.app.active_index + 1) % (pre.app.tabs@.len() as int)
            &&& post.app.mode == pre.app.mode
            &&& same_status(pre, post)
            &&& post.buf@ == Seq::<char>::empty()
            &&& post.editor_size == pre.editor_size
            &&& post.line_number == pre.line_number
            &&& post.bindings == pre.bindings
            &&& post.pending == pre.pending
        },
        Key::BackTab => {
            &&& post.app.tabs == pre.app.tabs
            &&& post.app.active_index == if pre.app.active_index > 0 {
                pre.app.active_index - 1
            } else {
                pre.app.tabs@.len() - 1
            }
            &&& post.app.mode == pre.app.mode
            &&& same_status(pre, post)
            &&& post.buf@ == Seq::<char>::empty()
            &&& post.editor_size == pre.editor_size
            &&& post.line_number == pre.line_number
            &&& post.bindings == pre.bindings
            &&& post.pending == pre.pending
        },
        Key::Esc => only_buf_changed(pre, post, Seq::empty()),
        _ => post == pre,
    }
}

/// Handles one key in Normal mode.
pub fn handle_normal_mode(kass: &mut Kass, key: Key)
    requires
        old(kass).wf(),
        old(kass).app.tabs@.len() >= 1,
    ensures
        final(kass).wf(),
        normal_step_rel(*old(kass), *final(kass), key),
{
    match key {
        Key::Char(c) => {
            kass.buf.push(c);
            let parsed = parse_buf(&kass.buf);
            if parsed.len() == 0 {
                return;
            }
            let last = parsed[parsed.len() - 1];
            match last {
                Element::Num(_) => {},
                Element::Char(letter) => {
                    let count = if parsed.len() >= 2 {
                        match parsed[parsed.len() - 2] {
                            Element::Num(n) => n,
                            Element::Char(_) => 1,
                        }
                    } else {
                        1
                    };
                    if letter == 'i' {
                        let a = kass.app.active_index;
                        let mut tab = kass.app.tabs.remove(a);
                        tab.move_left(1);
                        let ghost tab_g = tab;
                        kass.app.tabs.insert(a, tab);
                        proof {
                            assert(kass.app.tabs@ =~= old(kass).app.tabs@.update(a as int, tab_g));
                        }
                        kass.app.mode = Mode::Insert;
                        kass.buf.clear();
                    } else if letter == 'a' {
                        kass.app.mode = Mode::Insert;
                        kass.buf.clear();
                    } else if letter == ':' {
                        kass.app.mode = Mode::Command;
                        kass.app.command.push(':');
                        kass.buf.clear();
                    } else if letter == 'h' {
                        let a = kass.app.active_index;
                        let mut tab = kass.app.tabs.remove(a);
                        tab.move_left(count);
                        let ghost tab_g = tab;
                        kass.app.tabs.insert(a, tab);
                        proof {
                            assert(kass.app.tabs@ =~= old(kass).app.tabs@.update(a as int, tab_g));
                        }
                        kass.buf.clear();
                    } else if letter == 'j' {
                        let a = kass.app.active_index;
                        let mut tab = kass.app.tabs.remove(a);
                        tab.move_down(count);
                        let ghost tab_g = tab;
                        kass.app.tabs.insert(a, tab);
                        proof {
                            assert(kass.app.tabs@ =~= old(kass).app.tabs@.update(a as int, tab_g));
                        }
                        kass.buf.clear();
                    } else if letter == 'k' {
                        let a = kass.app.active_index;
                        let mut tab = kass.app.tabs.remove(a);
                        tab.move_up(count);
                        let ghost tab_g = tab;
                        kass.app.tabs.insert(a, tab);
                        proof {
                            assert(kass.app.tabs@ =~= old(kass).app.tabs@.update(a as int, tab_g));
                        }
                        kass.buf.clear();
                    } else if letter == 'l' {
                        let a = kass.app.active_index;
                        let mut tab = kass.app.tabs.remove(a);
                        tab.move_right(count);
                        let ghost tab_g = tab;
                        kass.app.tabs.insert(a, tab);
                        proof {
                            assert(kass.app.tabs@ =~= old(kass).app.tabs@.update(a as int, tab_g));
                        }
                        kass.buf.clear();
                    } else {
                        kass.buf.clear();
                    }
                },
            }
        },
        Key::Tab => {
            kass.app.next();
            kass.buf.clear();
        },
        Key::BackTab => {
            kass.app.previous();
            kass.buf.clear();
        },
        Key::Esc => {
            kass.buf.clear();
        },
        _ => {},
    }
}

} // verus!
