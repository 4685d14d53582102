//! The editing session: the tab set with its active index, the input mode,
//! the command line, the one-slot status message, and the state of any
//! filesystem exchange in flight.
//!
//! The session never touches the filesystem itself. A command that needs
//! the disk returns an `FsQuery`; the surrounding binary answers it with an
//! `FsReply` and feeds that back in.

use vstd::prelude::*;

use crate::editor::Editor;
use crate::enums::Key;
use crate::enums::{Mode, CommandAction, LineNumber, CommandKind};
use crate::literals::{
    lit_line_number, lit_line_number_vec, lit_command_mode, lit_command_mode_vec, lit_none,
    lit_none_vec, lit_absolute, lit_absolute_vec, lit_relative, lit_relative_vec, lit_edit_file,
    lit_edit_file_vec, lit_quit, lit_quit_vec, lit_quit_all, lit_quit_all_vec, lit_new_tab,
    lit_new_tab_vec, lit_write, lit_write_vec, lit_force_quit, lit_force_quit_vec,
    lit_force_quit_all, lit_force_quit_all_vec, lit_write_all, lit_write_all_vec,
    lit_write_and_quit, lit_write_and_quit_vec, lit_write_and_quit_all, lit_write_and_quit_all_vec,
    msg_invalid_line_number, msg_invalid_line_number_vec, msg_missing_line_number,
    msg_missing_line_number_vec, msg_config_unknown_suffix, msg_config_unknown_suffix_vec,
};
use crate::text::{row_eq, join_rows};

verus! {

/// The tab set and everything the renderer reads per frame: mode, command
/// line, the one-slot status message and its kind, clipboard, active tab.
pub struct App {
    pub mode: Mode,
    pub tabs: Vec<Editor>,
    pub command: Vec<char>,
    pub error: Vec<char>,
    pub info: Vec<char>,
    pub action: CommandAction,
    pub clipboard: Vec<Vec<char>>,
    pub active_index: usize,
}

impl App {
    /// Every open tab is well-formed.
    pub open spec fn tabs_wf(self) -> bool {
        forall|i: int| 0 <= i < self.tabs@.len() ==> (#[trigger] self.tabs@[i]).wf()
    }

    /// Tab-set invariant: all tabs well-formed and, while any tab is open,
    /// the active index names one of them.
    pub open spec fn wf(self) -> bool {
        &&& self.tabs_wf()
        &&& self.tabs@.len() > 0 ==> self.active_index < self.tabs@.len()
    }

    /// A fresh app holding one tab, in Normal mode, with empty command
    /// line and status slots.
    pub fn new(first_tab: Editor) -> (app: App)
        requires
            first_tab.wf(),
        ensures
            app.wf(),
            app.mode == Mode::Normal,
            app.tabs@ == seq![first_tab],
            app.command@ == Seq::<char>::empty(),
            app.error@ == Seq::<char>::empty(),
            app.info@ == Seq::<char>::empty(),
            app.action == CommandAction::Command,
            app.clipboard@.len() == 0,
            app.active_index == 0,
    {
        let mut tabs: Vec<Editor> = Vec::new();
        tabs.push(first_tab);
        proof {
            assert(tabs@ =~= seq![first_tab]);
        }
        App {
            mode: Mode::Normal,
            tabs,
            command: Vec::new(),
            error: Vec::new(),
            info: Vec::new(),
            action: CommandAction::Command,
            clipboard: Vec::new(),
            active_index: 0,
        }
    }

    /// Cycles the active tab forward, wrapping past the last tab.
    pub fn next(&mut self)
        requires
            old(self).wf(),
            old(self).tabs@.len() >= 1,
        ensures
            final(self).wf(),
            final(self).active_index == (old(self).active_index + 1) % (
            old(self).tabs@.len() as int),
            final(self).tabs == old(self).tabs,
            final(self).mode == old(self).mode,
            final(self).command == old(self).command,
            final(self).error == old(self).error,
            final(self).info == old(self).info,
            final(self).action == old(self).action,
            final(self).clipboard == old(self).clipboard,
    {
        let n = self.tabs.len();
        self.active_index = (self.active_index + 1) % n;
    }

    /// Cycles the active tab backward, wrapping before the first tab.
    pub fn previous(&mut self)
        requires
            old(self).wf(),
            old(self).tabs@.len() >= 1,
        ensures
            final(self).wf(),
            final(self).active_index == if old(self).active_index > 0 {
                old(self).active_index - 1
            } else {
                old(self).tabs@.len() - 1
            },
            final(self).tabs == old(self).tabs,
            final(self).mode == old(self).mode,
            final(self).command == old(self).command,
            final(self).error == old(self).error,
            final(self).info == old(self).info,
            final(self).action == old(self).action,
            final(self).clipboard == old(self).clipboard,
    {
        if self.active_index > 0 {
            self.active_index = self.active_index - 1;
        } else {
            self.active_index = self.tabs.len() - 1;
        }
    }
}

/// One command-line keyword and the built-in verb it triggers.
pub struct Binding {
    pub verb: Vec<char>,
    pub kind: CommandKind,
}

/// A filesystem exchange the session is waiting on.
pub enum Pending {
    /// Nothing outstanding.
    Idle,
    /// An `edit` command waits for the load of `path`.
    EditLoad { path: Vec<char> },
    /// A `new_tab` command with an argument waits for the load of `path`.
    TabNewLoad { path: Vec<char> },
    /// A `new_tab` command without an argument waits to hear whether its
    /// `k`-th candidate name exists on disk.
    TabNewProbe { k: usize },
    /// A `write` waits for the active tab's file to be written;
    /// `then_quit` composes a close of the tab named by `arg` afterwards.
    WriteOne { then_quit: bool, arg: Vec<char> },
    /// A `write_all` waits for tab `i`'s file to be written; the flag
    /// composes a close of every tab afterwards.
    WriteAll { i: usize, then_quit_all: bool },
}

/// What the session asks the surrounding binary to do on the filesystem.
pub enum FsQuery {
    /// Look at `path`: answer `Directory`, `Missing`, or `Loaded`.
    LoadFile { path: Vec<char> },
    /// Write `content` to `path`, truncating: answer `WriteOk` or
    /// `WriteErr`.
    WriteFile { path: Vec<char>, content: Vec<char> },
    /// Report whether anything exists at `name`: answer `NameExists`.
    ProbeName { name: Vec<char> },
}

/// The answer to an `FsQuery`.
pub enum FsReply {
    /// The path names an existing directory.
    Directory,
    /// Nothing exists at the path.
    Missing,
    /// The file's text.
    Loaded { content: Vec<char> },
    /// The write went through.
    WriteOk,
    /// The write failed; `msg` is the rendered I/O error.
    WriteErr { msg: Vec<char> },
    /// Whether anything exists at the probed name.
    NameExists { exists: bool },
}

/// One editing session: the app plus the Normal-mode key run, the
/// line-number setting, the command keyword table, the viewport size last
/// reported by the terminal, and any filesystem exchange in flight.
pub struct Kass {
    pub app: App,
    pub editor_size: (usize, usize),
    pub buf: Vec<char>,
    pub line_number: LineNumber,
    pub bindings: Vec<Binding>,
    pub pending: Pending,
}

impl Kass {
    /// The session invariant: the app invariant, plus any pending write
    /// naming a real tab.
    pub open spec fn wf(self) -> bool {
        &&& self.app.wf()
        &&& match self.pending {
            Pending::Idle => true,
            Pending::WriteAll { i, .. } => i < self.app.tabs@.len(),
            _ => self.app.tabs@.len() >= 1,
        }
    }

    /// A fresh session around `app`: Normal-mode run empty, no line
    /// numbers, no bindings, nothing pending.
    pub fn new(app: App) -> (kass: Kass)
        requires
            app.wf(),
        ensures
            kass.wf(),
            kass.app == app,
            kass.editor_size == (0usize, 0usize),
            kass.buf@ == Seq::<char>::empty(),
            kass.line_number == LineNumber::Hidden,
            kass.bindings@ == Seq::<Binding>::empty(),
            kass.pending is Idle,
    {
        Kass {
            app,
            editor_size: (0, 0),
            buf: Vec::new(),
            line_number: LineNumber::Hidden,
            bindings: Vec::new(),
            pending: Pending::Idle,
        }
    }

    /// Puts `info` in the status slot, tagged as information.
    pub fn set_info(&mut self, info: Vec<char>)
        ensures
            info_set(*old(self), *final(self), info@),
    {
        self.app.action = CommandAction::Info;
        self.app.info = info;
    }

    /// Puts `error` in the status slot, tagged as an error.
    pub fn set_error(&mut self, error: Vec<char>)
        ensures
            error_set(*old(self), *final(self), error@),
    {
        self.app.action = CommandAction::Error;
        self.app.error = error;
    }

    /// Applies one top-level config entry. Only `line_number` is a
    /// settable key (with values `none`, `absolute`, `relative`);
    /// `command_mode` is handled by `add_binding`; anything else reports a
    /// non-fatal error and changes nothing.
    pub fn apply_setting(&mut self, key: &Vec<char>, value: Option<&Vec<char>>)
        requires
            old(self).wf(),
        ensures
            final(self).wf(),
            setting_applied(*old(self), *final(self), key@, spec_value(value)),
    {
        if row_eq(key, &lit_line_number_vec()) {
            match value {
                Some(v) => {
                    if row_eq(v, &lit_none_vec()) {
                        self.line_number = LineNumber::Hidden;
                    } else if row_eq(v, &lit_absolute_vec()) {
                        self.line_number = LineNumber::Absolute;
                    } else if row_eq(v, &lit_relative_vec()) {
                        self.line_number = LineNumber::Relative;
                    } else {
                        self.set_error(msg_invalid_line_number_vec());
                    }
                },
                None => {
                    self.set_error(msg_missing_line_number_vec());
                },
            }
        } else if row_eq(key, &lit_command_mode_vec()) {
            // the binding table inside this key is applied entry by entry
        } else {
            let msg = join_rows(key, &msg_config_unknown_suffix_vec());
            self.set_error(msg);
        }
    }

    /// Adds one command keyword binding from the config: `name` is the
    /// logical command name, `value` the keyword that shall trigger it.
    /// An unknown logical name reports a non-fatal error; an absent value
    /// binds nothing.
    pub fn add_binding(&mut self, name: &Vec<char>, value: Option<&Vec<char>>)
        requires
            old(self).wf(),
        ensures
            final(self).wf(),
            binding_added(*old(self), *final(self), name@, spec_value(value)),
    {
        let kind_opt = parse_command_name(name);
        match kind_opt {
            Some(kind) => {
                match value {
                    Some(v) => {
                        let verb = crate::text::copy_row(v);
                        self.bindings.push(Binding { verb, kind });
                        proof {
                            assert(self.bindings@.take(old(self).bindings@.len() as int)
                                =~= old(self).bindings@);
                        }
                    },
                    None => {},
                }
            },
            None => {
                let msg = join_rows(name, &msg_config_unknown_suffix_vec());
                self.set_error(msg);
            },
        }
    }
}

/// The view of an optional borrowed row.
pub open spec fn spec_value(value: Option<&Vec<char>>) -> Option<Seq<char>> {
    match value {
        Some(v) => Some(v@),
        None => None,
    }
}

/// The command kind a logical config name stands for, if any.
pub open spec fn command_name_kind(name: Seq<char>) -> Option<CommandKind> {
    if name == lit_edit_file() {
        Some(CommandKind::EditFile)
    } else if name == lit_quit() {
        Some(CommandKind::Quit)
    } else if name == lit_quit_all() {
        Some(CommandKind::QuitAll)
    } else if name == lit_new_tab() {
        Some(CommandKind::NewTab)
    } else if name == lit_write() {
        Some(CommandKind::Write)
    } else if name == lit_force_quit() {
        Some(CommandKind::ForceQuit)
    } else if name == lit_force_quit_all() {
        Some(CommandKind::ForceQuitAll)
    } else if name == lit_write_all() {
        Some(CommandKind::WriteAll)
    } else if name == lit_write_and_quit() {
        Some(CommandKind::WriteAndQuit)
    } else if name == lit_write_and_quit_all() {
        Some(CommandKind::WriteAndQuitAll)
    } else {
        None
    }
}

/// Maps a logical config name to its command kind.
pub fn parse_command_name(name: &Vec<char>) -> (r: Option<CommandKind>)
    ensures
        r == command_name_kind(name@),
{
    if row_eq(name, &lit_edit_file_vec()) {
        Some(CommandKind::EditFile)
    } else if row_eq(name, &lit_quit_vec()) {
        Some(CommandKind::Quit)
    } else if row_eq(name, &lit_quit_all_vec()) {
        Some(CommandKind::QuitAll)
    } else if row_eq(name, &lit_new_tab_vec()) {
        Some(CommandKind::NewTab)
    } else if row_eq(name, &lit_write_vec()) {
        Some(CommandKind::Write)
    } else if row_eq(name, &lit_force_quit_vec()) {
        Some(CommandKind::ForceQuit)
    } else if row_eq(name, &lit_force_quit_all_vec()) {
        Some(CommandKind::ForceQuitAll)
    } else if row_eq(name, &lit_write_all_vec()) {
        Some(CommandKind::WriteAll)
    } else if row_eq(name, &lit_write_and_quit_vec()) {
        Some(CommandKind::WriteAndQuit)
    } else if row_eq(name, &lit_write_and_quit_all_vec()) {
        Some(CommandKind::WriteAndQuitAll)
    } else {
        None
    }
}

/// Everything of the session outside the app left as it was.
pub open spec fn same_session_cfg(pre: Kass, post: Kass) -> bool {
    &&& post.editor_size == pre.editor_size
    &&& post.buf == pre.buf
    &&& post.line_number == pre.line_number
    &&& post.bindings == pre.bindings
    &&& post.pending == pre.pending
}

/// Everything of the app except the status slot left as it was.
pub open spec fn same_app_but_status(pre: Kass, post: Kass) -> bool {
    &&& post.app.mode == pre.app.mode
    &&& post.app.tabs == pre.app.tabs
    &&& post.app.command == pre.app.command
    &&& post.app.clipboard == pre.app.clipboard
    &&& post.app.active_index == pre.app.active_index
}

/// Exactly an error message was posted: the status slot holds `msg`
/// tagged `Error`, and nothing else moved.
pub open spec fn error_set(pre: Kass, post: Kass, msg: Seq<char>) -> bool {
    &&& post.app.action == CommandAction::Error
    &&& post.app.error@ == msg
    &&& post.app.info == pre.app.info
    &&& same_app_but_status(pre, post)
    &&& same_session_cfg(pre, post)
}

/// Exactly an info message was posted: the status slot holds `msg`
/// tagged `Info`, and nothing else moved.
pub open spec fn info_set(pre: Kass, post: Kass, msg: Seq<char>) -> bool {
    &&& post.app.action == CommandAction::Info
    &&& post.app.info@ == msg
    &&& post.app.error == pre.app.error
    &&& same_app_but_status(pre, post)
    &&& same_session_cfg(pre, post)
}

/// Nothing moved at all.
pub open spec fn unchanged(pre: Kass, post: Kass) -> bool {
    post == pre
}

/// The effect of one top-level config entry.
pub open spec fn setting_applied(
    pre: Kass,
    post: Kass,
    key: Seq<char>,
    value: Option<Seq<char>>,
) -> bool {
    if key == lit_line_number() {
        match value {
            Some(v) => {
                if v == lit_none() {
                    &&& post == Kass { line_number: LineNumber::Hidden, ..pre }
                } else if v == lit_absolute() {
                    &&& post == Kass { line_number: LineNumber::Absolute, ..pre }
                } else if v == lit_relative() {
                    &&& post == Kass { line_number: LineNumber::Relative, ..pre }
                } else {
                    error_set(pre, post, msg_invalid_line_number())
                }
            },
            None => error_set(pre, post, msg_missing_line_number()),
        }
    } else if key == lit_command_mode() {
        post == pre
    } else {
        error_set(pre, post, key + msg_config_unknown_suffix())
    }
}

/// The effect of one command-keyword binding entry.
pub open spec fn binding_added(
    pre: Kass,
    post: Kass,
    name: Seq<char>,
    value: Option<Seq<char>>,
) -> bool {
    match command_name_kind(name) {
        Some(kind) => match value {
            Some(v) => {
                &&& post.bindings@.len() == pre.bindings@.len() + 1
                &&& post.bindings@.take(pre.bindings@.len() as int) == pre.bindings@
                &&& post.bindings@.last().verb@ == v
                &&& post.bindings@.last().kind == kind
                &&& post.app == pre.app
                &&& post.editor_size == pre.editor_size
                &&& post.buf == pre.buf
                &&& post.line_number == pre.line_number
                &&& post.pending == pre.pending
            },
            None => post == pre,
        },
        None => error_set(pre, post, name + msg_config_unknown_suffix()),
    }
}


/// The tab set changed at most at the active tab; count and active index
/// kept.
pub open spec fn tabs_same_but_active(pre: Kass, post: Kass) -> bool {
    &&& post.app.tabs@.len() == pre.app.tabs@.len()
    &&& post.app.active_index == pre.app.active_index
    &&& forall|i: int|
        0 <= i < pre.app.tabs@.len() && i != pre.app.active_index
            ==> post.app.tabs@[i] == pre.app.tabs@[i]
}

/// The command line, status slot and clipboard left as they were.
pub open spec fn same_status(pre: Kass, post: Kass) -> bool {
    &&& post.app.command == pre.app.command
    &&& post.app.error == pre.app.error
    &&& post.app.info == pre.app.info
    &&& post.app.action == pre.app.action
    &&& post.app.clipboard == pre.app.clipboard
}

/// The tab pointed at by the active index.
pub open spec fn active_tab(k: Kass) -> Editor {
    k.app.tabs@[k.app.active_index as int]
}


/// Routes one key press to the handler of the current mode. Only Command
/// mode can raise the close flag or hand out a filesystem query.
pub fn handle_key(kass: &mut Kass, key: Key, close: &mut bool) -> (r: Option<FsQuery>)
    requires
        old(kass).wf(),
        old(kass).app.tabs@.len() >= 1,
        old(kass).pending is Idle,
    ensures
        final(kass).wf(),
        match old(kass).app.mode {
            Mode::Normal => crate::normal::normal_step_rel(*old(kass), *final(kass), key)
                && *final(close) == *old(close) && r is None,
            Mode::Insert => crate::insert::insert_step_rel(*old(kass), *final(kass), key)
                && *final(close) == *old(close) && r is None,
            Mode::Command => crate::command::command_step_rel(
                *old(kass),
                *final(kass),
                key,
                *old(close),
                *final(close),
                r,
            ),
        },
{
    match kass.app.mode {
        Mode::Normal => {
            crate::normal::handle_normal_mode(kass, key);
            None
        },
        Mode::Insert => {
            crate::insert::handle_insert_mode(kass, key);
            None
        },
        Mode::Command => crate::command::handle_command_mode(kass, key, close),
    }
}

} // verus!


