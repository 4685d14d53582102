use vstd::prelude::*;

verus! {

/// Input mode: the three states of the modal input machine.
#[derive(Debug, Clone, Copy, PartialEq, Eq, Structural)]
pub enum Mode {
    Normal,
    Insert,
    Command,
}

/// What the status area currently shows: the command line being typed,
/// the last error message, or the last info message.
#[derive(Debug, Clone, Copy, PartialEq, Eq, Structural)]
pub enum CommandAction {
    Command,
    Error,
    Info,
}

/// How line numbers are displayed beside the buffer.
#[derive(Debug, Clone, Copy, PartialEq, Eq, Structural)]
pub enum LineNumber {
    Hidden,
    Relative,
    Absolute,
}

/// One element of a parsed Normal-mode key run: a repeat count or a
/// command letter.
#[derive(Debug, Clone, Copy, PartialEq, Eq, Structural)]
pub enum Element {
    Num(usize),
    Char(char),
}

/// A pending Normal-mode action kind.
#[derive(Debug, Clone, Copy, PartialEq, Eq, Structural)]
pub enum Action {
    Delete,
    Default,
}

/// A key press, reduced to the codes the core reacts to; every other code
/// maps to `Other` and is ignored.
#[derive(Debug, Clone, Copy, PartialEq, Eq, Structural)]
pub enum Key {
    Char(char),
    Backspace,
    Enter,
    Esc,
    Tab,
    BackTab,
    Other,
}

/// The built-in verbs a command-line keyword can be bound to.
#[derive(Debug, Clone, Copy, PartialEq, Eq, Structural)]
pub enum CommandKind {
    EditFile,
    Quit,
    QuitAll,
    NewTab,
    Write,
    ForceQuit,
    ForceQuitAll,
    WriteAll,
    WriteAndQuit,
    WriteAndQuitAll,
}

} // verus!
