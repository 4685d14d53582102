//! Insert mode: printable characters go into the active tab at the cursor,
//! Backspace deletes backwards, Enter splits the line, Esc returns to
//! Normal mode. Every other key is ignored.

use vstd::prelude::*;

use crate::editor::{insert_char_rel, delete_rel, split_line_rel};
use crate::enums::{Mode, Key};
use crate::kass::{Kass, tabs_same_but_active, same_status, same_session_cfg, active_tab};

verus! {

/// The exact effect of one key in Insert mode.
pub open spec fn insert_step_rel(pre: Kass, post: Kass, key: Key) -> bool {
    match key {
        Key::Char(c) => {
            &&& tabs_same_but_active(pre, post)
            &&& insert_char_rel(active_tab(pre), active_tab(post), c)
            &&& post.app.mode == pre.app.mode
            &&& same_status(pre, post)
            &&& same_session_cfg(pre, post)
        },
        Key::Backspace => {
            &&& tabs_same_but_active(pre, post)
            &&& delete_rel(active_tab(pre), active_tab(post))
            &&& post.app.mode == pre.app.mode
            &&& same_status(pre, post)
            &&& same_session_cfg(pre, post)
        },
        Key::Enter => {
            &&& tabs_same_but_active(pre, post)
            &&& split_line_rel(active_tab(pre), active_tab(post))
            &&& post.app.mode == pre.app.mode
            &&& same_status(pre, post)
            &&& same_session_cfg(pre, post)
        },
        Key::Esc => {
            &&& post.app.mode == Mode::Normal
            &&& post.app.tabs == pre.app.tabs
            &&& post.app.active_index == pre.app.active_index
            &&& same_status(pre, post)
            &&& same_session_cfg(pre, post)
        },
        _ => post == pre,
    }
}

/// Handles one key in Insert mode.
pub fn handle_insert_mode(kass: &mut Kass, key: Key)
    requires
        old(kass).wf(),
        old(kass).app.tabs@.len() >= 1,
    ensures
        final(kass).wf(),
        insert_step_rel(*old(kass), *final(kass), key),
{
    match key {
        Key::Char(c) => {
            let a = kass.app.active_index;
            let mut tab = kass.app.tabs.remove(a);
            tab.insert_char(c);
            let ghost tab_g = tab;
            kass.app.tabs.insert(a, tab);
            proof {
                assert(kass.app.tabs@ =~= old(kass).app.tabs@.update(a as int, tab_g));
            }
        },
        Key::Backspace => {
            let a = kass.app.active_index;
            let mut tab = kass.app.tabs.remove(a);
            tab.delete();
            let ghost tab_g = tab;
            kass.app.tabs.insert(a, tab);
            proof {
                assert(kass.app.tabs@ =~= old(kass).app.tabs@.update(a as int, tab_g));
            }
        },
        Key::Enter => {
            let a = kass.app.active_index;
            let mut tab = kass.app.tabs.remove(a);
            tab.goto_newline();
            let ghost tab_g = tab;
            kass.app.tabs.insert(a, tab);
            proof {
                assert(kass.app.tabs@ =~= old(kass).app.tabs@.update(a as int, tab_g));
            }
        },
        Key::Esc => {
            kass.app.mode = Mode::Normal;
        },
        _ => {},
    }
}

} // verus!
