//! Command mode: keys edit the `:`-prefixed command line; Enter strips the
//! `:`, splits the line into a verb and an argument at the first space,
//! resolves the verb against the keyword table by exact match, and runs
//! the bound command. An unknown verb reports an error and changes
//! nothing. Esc discards the line; either way the editor returns to
//! Normal mode.

use vstd::prelude::*;

use crate::enums::{Mode, Key, CommandAction, CommandKind};
use crate::kass::{Kass, Binding, FsQuery, same_session_cfg};
use crate::functions::{
    quit, force_quit, quit_all, force_quit_all, write_all, write_and_quit, write_and_quit_all,
    edit_file, new_tab, quit_step, quit_all_step, write_started, write_all_started, edit_started,
    new_tab_started,
};
use crate::literals::{msg_command_not_found, msg_command_not_found_vec};
use crate::text::row_eq;

verus! {

/// The index of the first space in `s`, or `s.len()` when it has none.
pub open spec fn first_space(s: Seq<char>) -> int
    decreases s.len(),
{
    if s.len() == 0 {
        0
    } else if s[0] == ' ' {
        0
    } else {
        1 + first_space(s.drop_first())
    }
}

proof fn lemma_first_space_bounds(s: Seq<char>)
    ensures
        0 <= first_space(s) <= s.len(),
    decreases s.len(),
{
    if s.len() != 0 && s[0] != ' ' {
        lemma_first_space_bounds(s.drop_first());
    }
}

proof fn lemma_first_space_at(s: Seq<char>, i: int)
    requires
        0 <= i < s.len(),
        s[i] == ' ',
        forall|j: int| 0 <= j < i ==> s[j] != ' ',
    ensures
        first_space(s) == i,
    decreases s.len(),
{
    if s[0] != ' ' {
        lemma_first_space_at(s.drop_first(), i - 1);
    }
}

proof fn lemma_first_space_none(s: Seq<char>)
    requires
        forall|j: int| 0 <= j < s.len() ==> s[j] != ' ',
    ensures
        first_space(s) == s.len(),
    decreases s.len(),
{
    if s.len() != 0 {
        lemma_first_space_none(s.drop_first());
    }
}

/// The typed command line without its leading `:`.
pub open spec fn stripped(command: Seq<char>) -> Seq<char> {
    if command.len() >= 1 {
        command.skip(1)
    } else {
        Seq::empty()
    }
}

/// The verb of a command line: everything before the first space.
pub open spec fn cmd_verb(cmd: Seq<char>) -> Seq<char> {
    cmd.take(first_space(cmd))
}

/// The argument of a command line: everything after the first space, or
/// empty when there is none.
pub open spec fn cmd_arg(cmd: Seq<char>) -> Seq<char> {
    if first_space(cmd) < cmd.len() {
        cmd.skip(first_space(cmd) + 1)
    } else {
        Seq::empty()
    }
}

/// The first keyword-table entry whose keyword is exactly `verb`.
pub open spec fn lookup_verb(bindings: Seq<Binding>, verb: Seq<char>) -> Option<CommandKind>
    decreases bindings.len(),
{
    if bindings.len() == 0 {
        None
    } else if bindings[0].verb@ == verb {
        Some(bindings[0].kind)
    } else {
        lookup_verb(bindings.drop_first(), verb)
    }
}

proof fn lemma_lookup_skip(bindings: Seq<Binding>, verb: Seq<char>, i: int)
    requires
        0 <= i <= bindings.len(),
        forall|j: int| 0 <= j < i ==> (#[trigger] bindings[j]).verb@ != verb,
    ensures
        lookup_verb(bindings, verb) == lookup_verb(bindings.skip(i), verb),
    decreases i,
{
    if i > 0 {
        assert(bindings.skip(1) =~= bindings.drop_first());
        lemma_lookup_skip(bindings.drop_first(), verb, i - 1);
        assert(bindings.drop_first().skip(i - 1) =~= bindings.skip(i));
    } else {
        assert(bindings.skip(0) =~= bindings);
    }
}

/// Resolves a verb against the keyword table, first match wins.
fn lookup_verb_exec(bindings: &Vec<Binding>, verb: &Vec<char>) -> (r: Option<CommandKind>)
    ensures
        r == lookup_verb(bindings@, verb@),
{
    let mut i: usize = 0;
    while i < bindings.len()
        invariant
            i <= bindings@.len(),
            forall|j: int| 0 <= j < i ==> (#[trigger] bindings@[j]).verb@ != verb@,
        decreases bindings@.len() - i,
    {
        if row_eq(&bindings[i].verb, verb) {
            proof {
                lemma_lookup_skip(bindings@, verb@, i as int);
                assert(bindings@.skip(i as int).drop_first() =~= bindings@.skip(i + 1));
            }
            return Some(bindings[i].kind);
        }
        i = i + 1;
    }
    proof {
        lemma_lookup_skip(bindings@, verb@, bindings@.len() as int);
    }
    None
}

/// The state after dispatch, with the mode back at Normal and the command
/// line cleared; everything else as the command left it.
pub open spec fn normalized(mid: Kass, post: Kass) -> bool {
    &&& post.app.mode == Mode::Normal
    &&& post.app.command@ == Seq::<char>::empty()
    &&& post.app.tabs == mid.app.tabs
    &&& post.app.active_index == mid.app.active_index
    &&& post.app.error == mid.app.error
    &&& post.app.info == mid.app.info
    &&& post.app.action == mid.app.action
    &&& post.app.clipboard == mid.app.clipboard
    &&& post.buf == mid.buf
    &&& post.editor_size == mid.editor_size
    &&& post.line_number == mid.line_number
    &&& post.bindings == mid.bindings
    &&& post.pending == mid.pending
}

/// The exact effect of the command bound to `kind`, before the mode and
/// command line are reset.
pub open spec fn kind_step(
    pre: Kass,
    mid: Kass,
    kind: CommandKind,
    arg: Seq<char>,
    close0: bool,
    close1: bool,
    r: Option<FsQuery>,
) -> bool {
    match kind {
        CommandKind::Quit => quit_step(pre, mid, arg, close0, close1, false) && r is None,
        CommandKind::ForceQuit => quit_step(pre, mid, arg, close0, close1, true) && r is None,
        CommandKind::QuitAll => quit_all_step(pre, mid, close0, close1, false) && r is None,
        CommandKind::ForceQuitAll => quit_all_step(pre, mid, close0, close1, true) && r is None,
        CommandKind::Write => write_started(pre, mid, arg, false, r) && close1 == close0,
        CommandKind::WriteAll => write_all_started(pre, mid, false, r) && close1 == close0,
        CommandKind::WriteAndQuit => write_started(pre, mid, arg, true, r) && close1 == close0,
        CommandKind::WriteAndQuitAll => write_all_started(pre, mid, true, r) && close1 == close0,
        CommandKind::EditFile => edit_started(pre, mid, arg, r) && close1 == close0,
        CommandKind::NewTab => new_tab_started(pre, mid, arg, r) && close1 == close0,
    }
}

/// The exact effect of one key in Command mode.
pub open spec fn command_step_rel(
    pre: Kass,
    post: Kass,
    key: Key,
    close0: bool,
    close1: bool,
    r: Option<FsQuery>,
) -> bool {
    match key {
        Key::Char(c) => {
            &&& post.app.command@ == pre.app.command@.push(c)
            &&& post.app.mode == pre.app.mode
            &&& post.app.tabs == pre.app.tabs
            &&& post.app.active_index == pre.app.active_index
            &&& post.app.error == pre.app.error
            &&& post.app.info == pre.app.info
            &&& post.app.action == pre.app.action
            &&& post.app.clipboard == pre.app.clipboard
            &&& same_session_cfg(pre, post)
            &&& close1 == close0
            &&& r is None
        },
        Key::Esc => {
            &&& post.app.mode == Mode::Normal
            &&& post.app.command@ == Seq::<char>::empty()
            &&& post.app.tabs == pre.app.tabs
            &&& post.app.active_index == pre.app.active_index
            &&& post.app.error == pre.app.error
            &&& post.app.info == pre.app.info
            &&& post.app.action == pre.app.action
            &&& post.app.clipboard == pre.app.clipboard
            &&& same_session_cfg(pre, post)
            &&& close1 == close0
            &&& r is None
        },
        Key::Backspace => {
            &&& post.app.command@ == if pre.app.command@.len() > 0 {
                pre.app.command@.drop_last()
            } else {
                pre.app.command@
            }
            &&& post.app.mode == pre.app.mode
            &&& post.app.tabs == pre.app.tabs
            &&& post.app.active_index == pre.app.active_index
            &&& post.app.error == pre.app.error
            &&& post.app.info == pre.app.info
            &&& post.app.action == pre.app.action
            &&& post.app.clipboard == pre.app.clipboard
            &&& same_session_cfg(pre, post)
            &&& close1 == close0
            &&& r is None
        },
        Key::Enter => {
            let cmd = stripped(pre.app.command@);
            match lookup_verb(pre.bindings@, cmd_verb(cmd)) {
                None => {
                    &&& post.app.mode == Mode::Normal
                    &&& post.app.command@ == Seq::<char>::empty()
                    &&& post.app.action == CommandAction::Error
                    &&& post.app.error@ == msg_command_not_found()
                    &&& post.app.info == pre.app.info
                    &&& post.app.tabs == pre.app.tabs
                    &&& post.app.active_index == pre.app.active_index
                    &&& post.app.clipboard == pre.app.clipboard
                    &&& same_session_cfg(pre, post)
                    &&& close1 == close0
                    &&& r is None
                },
                Some(kind) => exists|mid: Kass|
                    {
                        &&& #[trigger] kind_step(pre, mid, kind, cmd_arg(cmd), close0, close1, r)
                        &&& normalized(mid, post)
                    },
            }
        },
        _ => post == pre && close1 == close0 && r is None,
    }
}

/// Handles one key in Command mode.
pub fn handle_command_mode(kass: &mut Kass, key: Key, close: &mut bool) -> (r: Option<FsQuery>)
    requires
        old(kass).wf(),
        old(kass).app.tabs@.len() >= 1,
        old(kass).pending is Idle,
    ensures
        final(kass).wf(),
        command_step_rel(*old(kass), *final(kass), key, *old(close), *final(close), r),
{
    match key {
        Key::Char(c) => {
            kass.app.command.push(c);
            None
        },
        Key::Esc => {
            kass.app.mode = Mode::Normal;
            kass.app.command.clear();
            None
        },
        Key::Backspace => {
            if kass.app.command.len() != 0 {
                let _popped = kass.app.command.pop();
                proof {
                    assert(kass.app.command@ =~= old(kass).app.command@.drop_last());
                }
            }
            None
        },
        Key::Enter => {
            // strip the leading ':', split at the first space
            let cmd = strip_colon(&kass.app.command);
            let (verb, arg) = split_verb_arg(&cmd);
            let looked_up = lookup_verb_exec(&kass.bindings, &verb);
            let r = match looked_up {
                None => {
                    kass.set_error(msg_command_not_found_vec());
                    None
                },
                Some(kind) => {
                    let q = run_kind(kass, kind, &arg, close);
                    q
                },
            };
            let ghost mid = *kass;
            kass.app.mode = Mode::Normal;
            kass.app.command.clear();
            proof {
                if looked_up is Some {
                    assert(normalized(mid, *kass));
                }
            }
            r
        },
        _ => None,
    }
}

/// Runs the command bound to `kind` with `arg`.
fn run_kind(kass: &mut Kass, kind: CommandKind, arg: &Vec<char>, close: &mut bool) -> (r: Option<
    FsQuery,
>)
    requires
        old(kass).wf(),
        old(kass).app.tabs@.len() >= 1,
        old(kass).pending is Idle,
    ensures
        final(kass).wf(),
        kind_step(*old(kass), *final(kass), kind, arg@, *old(close), *final(close), r),
{
    match kind {
        CommandKind::Quit => {
            quit(arg, close, kass);
            None
        },
        CommandKind::ForceQuit => {
            force_quit(arg, close, kass);
            None
        },
        CommandKind::QuitAll => {
            quit_all(arg, close, kass);
            None
        },
        CommandKind::ForceQuitAll => {
            force_quit_all(arg, close, kass);
            None
        },
        CommandKind::Write => crate::functions::write(arg, close, kass),
        CommandKind::WriteAll => write_all(arg, close, kass),
        CommandKind::WriteAndQuit => write_and_quit(arg, close, kass),
        CommandKind::WriteAndQuitAll => write_and_quit_all(arg, close, kass),
        CommandKind::EditFile => edit_file(arg, close, kass),
        CommandKind::NewTab => new_tab(arg, close, kass),
    }
}

/// The command line without its leading `:`.
fn strip_colon(command: &Vec<char>) -> (r: Vec<char>)
    ensures
        r@ == stripped(command@),
{
    let mut r: Vec<char> = Vec::new();
    if command.len() == 0 {
        return r;
    }
    let mut i: usize = 1;
    while i < command.len()
        invariant
            1 <= i <= command@.len(),
            r@ == command@.skip(1).take(i - 1),
        decreases command@.len() - i,
    {
        r.push(command[i]);
        i = i + 1;
        proof {
            assert(command@.skip(1).take(i - 1) =~= command@.skip(1).take(i - 2).push(command@[i
                - 1]));
        }
    }
    proof {
        assert(command@.skip(1).take(command@.len() - 1) =~= command@.skip(1));
    }
    r
}

/// Splits a command line into its verb and its argument at the first
/// space.
fn split_verb_arg(cmd: &Vec<char>) -> (r: (Vec<char>, Vec<char>))
    ensures
        r.0@ == cmd_verb(cmd@),
        r.1@ == cmd_arg(cmd@),
{
    let mut sp: usize = cmd.len();
    let mut found = false;
    let mut i: usize = 0;
    while i < cmd.len() && !found
        invariant
            i <= cmd@.len(),
            !found ==> sp == cmd@.len() && (forall|j: int| 0 <= j < i ==> cmd@[j] != ' '),
            found ==> sp == first_space(cmd@) && sp < cmd@.len(),
        decreases cmd@.len() - i, (if found { 0int } else { 1int }),
    {
        if cmd[i] == ' ' {
            sp = i;
            found = true;
            proof {
                lemma_first_space_at(cmd@, i as int);
            }
        } else {
            i = i + 1;
        }
    }
    proof {
        if !found {
            lemma_first_space_none(cmd@);
        }
        lemma_first_space_bounds(cmd@);
    }
    let mut verb: Vec<char> = Vec::new();
    let mut k: usize = 0;
    while k < sp
        invariant
            k <= sp <= cmd@.len(),
            verb@ == cmd@.take(sp as int).take(k as int),
        decreases sp - k,
    {
        verb.push(cmd[k]);
        k = k + 1;
        proof {
            assert(cmd@.take(sp as int).take(k as int) =~= cmd@.take(sp as int).take(k - 1).push(
                cmd@[k - 1],
            ));
        }
    }
    proof {
        assert(cmd@.take(sp as int).take(sp as int) =~= cmd@.take(sp as int));
    }
    let mut arg: Vec<char> = Vec::new();
    if sp < cmd.len() {
        let mut m: usize = sp + 1;
        while m < cmd.len()
            invariant
                sp + 1 <= m <= cmd@.len(),
                sp < cmd@.len(),
                arg@ == cmd@.skip(sp + 1).take(m - sp - 1),
            decreases cmd@.len() - m,
        {
            arg.push(cmd[m]);
            m = m + 1;
            proof {
                assert(cmd@.skip(sp + 1).take(m - sp - 1) =~= cmd@.skip(sp + 1).take(m - sp
                    - 2).push(cmd@[m - 1]));
            }
        }
        proof {
            assert(cmd@.skip(sp + 1).take(cmd@.len() - sp - 1) =~= cmd@.skip(sp + 1));
        }
    }
    (verb, arg)
}

} // verus!
