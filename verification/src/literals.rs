//! The fixed pieces of text the core compares against or emits: config
//! keys and values, logical command names, and status messages. Each piece
//! exists as a spec sequence for contracts and as a builder for runtime use.

use vstd::prelude::*;

verus! {

/// The config key that selects the line-number display mode. (`line_number`)
pub open spec fn lit_line_number() -> Seq<char> {
    seq!['l', 'i', 'n', 'e', '_', 'n', 'u', 'm', 'b', 'e', 'r']
}

/// Builds `line_number` as characters.
pub fn lit_line_number_vec() -> (r: Vec<char>)
    ensures
        r@ == lit_line_number(),
{
    let r: Vec<char> = vec!['l', 'i', 'n', 'e', '_', 'n', 'u', 'm', 'b', 'e', 'r'];
    proof {
        assert(r@ =~= lit_line_number());
    }
    r
}

/// The config key that holds the command keyword bindings. (`command_mode`)
pub open spec fn lit_command_mode() -> Seq<char> {
    seq!['c', 'o', 'm', 'm', 'a', 'n', 'd', '_', 'm', 'o', 'd', 'e']
}

/// Builds `command_mode` as characters.
pub fn lit_command_mode_vec() -> (r: Vec<char>)
    ensures
        r@ == lit_command_mode(),
{
    let r: Vec<char> = vec!['c', 'o', 'm', 'm', 'a', 'n', 'd', '_', 'm', 'o', 'd', 'e'];
    proof {
        assert(r@ =~= lit_command_mode());
    }
    r
}

/// Config value: no line numbers. (`none`)
pub open spec fn lit_none() -> Seq<char> {
    seq!['n', 'o', 'n', 'e']
}

/// Builds `none` as characters.
pub fn lit_none_vec() -> (r: Vec<char>)
    ensures
        r@ == lit_none(),
{
    let r: Vec<char> = vec!['n', 'o', 'n', 'e'];
    proof {
        assert(r@ =~= lit_none());
    }
    r
}

/// Config value: absolute line numbers. (`absolute`)
pub open spec fn lit_absolute() -> Seq<char> {
    seq!['a', 'b', 's', 'o', 'l', 'u', 't', 'e']
}

/// Builds `absolute` as characters.
pub fn lit_absolute_vec() -> (r: Vec<char>)
    ensures
        r@ == lit_absolute(),
{
    let r: Vec<char> = vec!['a', 'b', 's', 'o', 'l', 'u', 't', 'e'];
    proof {
        assert(r@ =~= lit_absolute());
    }
    r
}

/// Config value: relative line numbers. (`relative`)
pub open spec fn lit_relative() -> Seq<char> {
    seq!['r', 'e', 'l', 'a', 't', 'i', 'v', 'e']
}

/// Builds `relative` as characters.
pub fn lit_relative_vec() -> (r: Vec<char>)
    ensures
        r@ == lit_relative(),
{
    let r: Vec<char> = vec!['r', 'e', 'l', 'a', 't', 'i', 'v', 'e'];
    proof {
        assert(r@ =~= lit_relative());
    }
    r
}

/// Logical command name for rebinding a tab to a file. (`edit_file`)
pub open spec fn lit_edit_file() -> Seq<char> {
    seq!['e', 'd', 'i', 't', '_', 'f', 'i', 'l', 'e']
}

/// Builds `edit_file` as characters.
pub fn lit_edit_file_vec() -> (r: Vec<char>)
    ensures
        r@ == lit_edit_file(),
{
    let r: Vec<char> = vec!['e', 'd', 'i', 't', '_', 'f', 'i', 'l', 'e'];
    proof {
        assert(r@ =~= lit_edit_file());
    }
    r
}

/// Logical command name for closing a tab. (`quit`)
pub open spec fn lit_quit() -> Seq<char> {
    seq!['q', 'u', 'i', 't']
}

/// Builds `quit` as characters.
pub fn lit_quit_vec() -> (r: Vec<char>)
    ensures
        r@ == lit_quit(),
{
    let r: Vec<char> = vec!['q', 'u', 'i', 't'];
    proof {
        assert(r@ =~= lit_quit());
    }
    r
}

/// Logical command name for closing every tab. (`quit_all`)
pub open spec fn lit_quit_all() -> Seq<char> {
    seq!['q', 'u', 'i', 't', '_', 'a', 'l', 'l']
}

/// Builds `quit_all` as characters.
pub fn lit_quit_all_vec() -> (r: Vec<char>)
    ensures
        r@ == lit_quit_all(),
{
    let r: Vec<char> = vec!['q', 'u', 'i', 't', '_', 'a', 'l', 'l'];
    proof {
        assert(r@ =~= lit_quit_all());
    }
    r
}

/// Logical command name for opening a tab. (`new_tab`)
pub open spec fn lit_new_tab() -> Seq<char> {
    seq!['n', 'e', 'w', '_', 't', 'a', 'b']
}

/// Builds `new_tab` as characters.
pub fn lit_new_tab_vec() -> (r: Vec<char>)
    ensures
        r@ == lit_new_tab(),
{
    let r: Vec<char> = vec!['n', 'e', 'w', '_', 't', 'a', 'b'];
    proof {
        assert(r@ =~= lit_new_tab());
    }
    r
}

/// Logical command name for saving the active tab. (`write`)
pub open spec fn lit_write() -> Seq<char> {
    seq!['w', 'r', 'i', 't', 'e']
}

/// Builds `write` as characters.
pub fn lit_write_vec() -> (r: Vec<char>)
    ensures
        r@ == lit_write(),
{
    let r: Vec<char> = vec!['w', 'r', 'i', 't', 'e'];
    proof {
        assert(r@ =~= lit_write());
    }
    r
}

/// Logical command name for closing a tab unconditionally. (`force_quit`)
pub open spec fn lit_force_quit() -> Seq<char> {
    seq!['f', 'o', 'r', 'c', 'e', '_', 'q', 'u', 'i', 't']
}

/// Builds `force_quit` as characters.
pub fn lit_force_quit_vec() -> (r: Vec<char>)
    ensures
        r@ == lit_force_quit(),
{
    let r: Vec<char> = vec!['f', 'o', 'r', 'c', 'e', '_', 'q', 'u', 'i', 't'];
    proof {
        assert(r@ =~= lit_force_quit());
    }
    r
}

/// Logical command name for closing every tab unconditionally. (`force_quit_all`)
pub open spec fn lit_force_quit_all() -> Seq<char> {
    seq!['f', 'o', 'r', 'c', 'e', '_', 'q', 'u', 'i', 't', '_', 'a', 'l', 'l']
}

/// Builds `force_quit_all` as characters.
pub fn lit_force_quit_all_vec() -> (r: Vec<char>)
    ensures
        r@ == lit_force_quit_all(),
{
    let r: Vec<char> = vec!['f', 'o', 'r', 'c', 'e', '_', 'q', 'u', 'i', 't', '_', 'a', 'l', 'l'];
    proof {
        assert(r@ =~= lit_force_quit_all());
    }
    r
}

/// Logical command name for saving every tab. (`write_all`)
pub open spec fn lit_write_all() -> Seq<char> {
    seq!['w', 'r', 'i', 't', 'e', '_', 'a', 'l', 'l']
}

/// Builds `write_all` as characters.
pub fn lit_write_all_vec() -> (r: Vec<char>)
    ensures
        r@ == lit_write_all(),
{
    let r: Vec<char> = vec!['w', 'r', 'i', 't', 'e', '_', 'a', 'l', 'l'];
    proof {
        assert(r@ =~= lit_write_all());
    }
    r
}

/// Logical command name for saving, then closing, the active tab. (`write_and_quit`)
pub open spec fn lit_write_and_quit() -> Seq<char> {
    seq!['w', 'r', 'i', 't', 'e', '_', 'a', 'n', 'd', '_', 'q', 'u', 'i', 't']
}

/// Builds `write_and_quit` as characters.
pub fn lit_write_and_quit_vec() -> (r: Vec<char>)
    ensures
        r@ == lit_write_and_quit(),
{
    let r: Vec<char> = vec!['w', 'r', 'i', 't', 'e', '_', 'a', 'n', 'd', '_', 'q', 'u', 'i', 't'];
    proof {
        assert(r@ =~= lit_write_and_quit());
    }
    r
}

/// Logical command name for saving, then closing, every tab. (`write_and_quit_all`)
pub open spec fn lit_write_and_quit_all() -> Seq<char> {
    seq!['w', 'r', 'i', 't', 'e', '_', 'a', 'n', 'd', '_', 'q', 'u', 'i', 't', '_', 'a', 'l', 'l']
}

/// Builds `write_and_quit_all` as characters.
pub fn lit_write_and_quit_all_vec() -> (r: Vec<char>)
    ensures
        r@ == lit_write_and_quit_all(),
{
    let r: Vec<char> = vec!['w', 'r', 'i', 't', 'e', '_', 'a', 'n', 'd', '_', 'q', 'u', 'i', 't', '_', 'a', 'l', 'l'];
    proof {
        assert(r@ =~= lit_write_and_quit_all());
    }
    r
}

/// Error shown when a close is blocked by unsaved changes. (`File not saved`)
pub open spec fn msg_file_not_saved() -> Seq<char> {
    seq!['F', 'i', 'l', 'e', ' ', 'n', 'o', 't', ' ', 's', 'a', 'v', 'e', 'd']
}

/// Builds `File not saved` as characters.
pub fn msg_file_not_saved_vec() -> (r: Vec<char>)
    ensures
        r@ == msg_file_not_saved(),
{
    let r: Vec<char> = vec!['F', 'i', 'l', 'e', ' ', 'n', 'o', 't', ' ', 's', 'a', 'v', 'e', 'd'];
    proof {
        assert(r@ =~= msg_file_not_saved());
    }
    r
}

/// Suffix after a tab title when that tab blocks closing all. (` is not saved!`)
pub open spec fn msg_not_saved_suffix() -> Seq<char> {
    seq![' ', 'i', 's', ' ', 'n', 'o', 't', ' ', 's', 'a', 'v', 'e', 'd', '!']
}

/// Builds ` is not saved!` as characters.
pub fn msg_not_saved_suffix_vec() -> (r: Vec<char>)
    ensures
        r@ == msg_not_saved_suffix(),
{
    let r: Vec<char> = vec![' ', 'i', 's', ' ', 'n', 'o', 't', ' ', 's', 'a', 'v', 'e', 'd', '!'];
    proof {
        assert(r@ =~= msg_not_saved_suffix());
    }
    r
}

/// Suffix after a tab title when its file was written. (` saved.`)
pub open spec fn msg_saved_suffix() -> Seq<char> {
    seq![' ', 's', 'a', 'v', 'e', 'd', '.']
}

/// Builds ` saved.` as characters.
pub fn msg_saved_suffix_vec() -> (r: Vec<char>)
    ensures
        r@ == msg_saved_suffix(),
{
    let r: Vec<char> = vec![' ', 's', 'a', 'v', 'e', 'd', '.'];
    proof {
        assert(r@ =~= msg_saved_suffix());
    }
    r
}

/// Error shown for an unknown command verb. (`Command not found.`)
pub open spec fn msg_command_not_found() -> Seq<char> {
    seq!['C', 'o', 'm', 'm', 'a', 'n', 'd', ' ', 'n', 'o', 't', ' ', 'f', 'o', 'u', 'n', 'd', '.']
}

/// Builds `Command not found.` as characters.
pub fn msg_command_not_found_vec() -> (r: Vec<char>)
    ensures
        r@ == msg_command_not_found(),
{
    let r: Vec<char> = vec!['C', 'o', 'm', 'm', 'a', 'n', 'd', ' ', 'n', 'o', 't', ' ', 'f', 'o', 'u', 'n', 'd', '.'];
    proof {
        assert(r@ =~= msg_command_not_found());
    }
    r
}

/// Error shown when the edit target is a directory. (`Cannot edit a directory. Provide a file path`)
pub open spec fn msg_cannot_edit_dir() -> Seq<char> {
    seq!['C', 'a', 'n', 'n', 'o', 't', ' ', 'e', 'd', 'i', 't', ' ', 'a', ' ', 'd', 'i', 'r', 'e', 'c', 't', 'o', 'r', 'y', '.', ' ', 'P', 'r', 'o', 'v', 'i', 'd', 'e', ' ', 'a', ' ', 'f', 'i', 'l', 'e', ' ', 'p', 'a', 't', 'h']
}

/// Builds `Cannot edit a directory. Provide a file path` as characters.
pub fn msg_cannot_edit_dir_vec() -> (r: Vec<char>)
    ensures
        r@ == msg_cannot_edit_dir(),
{
    let r: Vec<char> = vec!['C', 'a', 'n', 'n', 'o', 't', ' ', 'e', 'd', 'i', 't', ' ', 'a', ' ', 'd', 'i', 'r', 'e', 'c', 't', 'o', 'r', 'y', '.', ' ', 'P', 'r', 'o', 'v', 'i', 'd', 'e', ' ', 'a', ' ', 'f', 'i', 'l', 'e', ' ', 'p', 'a', 't', 'h'];
    proof {
        assert(r@ =~= msg_cannot_edit_dir());
    }
    r
}

/// Error shown when the new-tab target is unusable. (`Provide a filepath`)
pub open spec fn msg_provide_filepath() -> Seq<char> {
    seq!['P', 'r', 'o', 'v', 'i', 'd', 'e', ' ', 'a', ' ', 'f', 'i', 'l', 'e', 'p', 'a', 't', 'h']
}

/// Builds `Provide a filepath` as characters.
pub fn msg_provide_filepath_vec() -> (r: Vec<char>)
    ensures
        r@ == msg_provide_filepath(),
{
    let r: Vec<char> = vec!['P', 'r', 'o', 'v', 'i', 'd', 'e', ' ', 'a', ' ', 'f', 'i', 'l', 'e', 'p', 'a', 't', 'h'];
    proof {
        assert(r@ =~= msg_provide_filepath());
    }
    r
}

/// Error shown for a close with an index past the tab set. (`Tab index out of range`)
pub open spec fn msg_index_out_of_range() -> Seq<char> {
    seq!['T', 'a', 'b', ' ', 'i', 'n', 'd', 'e', 'x', ' ', 'o', 'u', 't', ' ', 'o', 'f', ' ', 'r', 'a', 'n', 'g', 'e']
}

/// Builds `Tab index out of range` as characters.
pub fn msg_index_out_of_range_vec() -> (r: Vec<char>)
    ensures
        r@ == msg_index_out_of_range(),
{
    let r: Vec<char> = vec!['T', 'a', 'b', ' ', 'i', 'n', 'd', 'e', 'x', ' ', 'o', 'u', 't', ' ', 'o', 'f', ' ', 'r', 'a', 'n', 'g', 'e'];
    proof {
        assert(r@ =~= msg_index_out_of_range());
    }
    r
}

/// Error shown for an unrecognized line-number mode. (`Provide a valid value for line number`)
pub open spec fn msg_invalid_line_number() -> Seq<char> {
    seq!['P', 'r', 'o', 'v', 'i', 'd', 'e', ' ', 'a', ' ', 'v', 'a', 'l', 'i', 'd', ' ', 'v', 'a', 'l', 'u', 'e', ' ', 'f', 'o', 'r', ' ', 'l', 'i', 'n', 'e', ' ', 'n', 'u', 'm', 'b', 'e', 'r']
}

/// Builds `Provide a valid value for line number` as characters.
pub fn msg_invalid_line_number_vec() -> (r: Vec<char>)
    ensures
        r@ == msg_invalid_line_number(),
{
    let r: Vec<char> = vec!['P', 'r', 'o', 'v', 'i', 'd', 'e', ' ', 'a', ' ', 'v', 'a', 'l', 'i', 'd', ' ', 'v', 'a', 'l', 'u', 'e', ' ', 'f', 'o', 'r', ' ', 'l', 'i', 'n', 'e', ' ', 'n', 'u', 'm', 'b', 'e', 'r'];
    proof {
        assert(r@ =~= msg_invalid_line_number());
    }
    r
}

/// Error shown when the line-number setting has no string value. (`Provide a value for line number`)
pub open spec fn msg_missing_line_number() -> Seq<char> {
    seq!['P', 'r', 'o', 'v', 'i', 'd', 'e', ' ', 'a', ' ', 'v', 'a', 'l', 'u', 'e', ' ', 'f', 'o', 'r', ' ', 'l', 'i', 'n', 'e', ' ', 'n', 'u', 'm', 'b', 'e', 'r']
}

/// Builds `Provide a value for line number` as characters.
pub fn msg_missing_line_number_vec() -> (r: Vec<char>)
    ensures
        r@ == msg_missing_line_number(),
{
    let r: Vec<char> = vec!['P', 'r', 'o', 'v', 'i', 'd', 'e', ' ', 'a', ' ', 'v', 'a', 'l', 'u', 'e', ' ', 'f', 'o', 'r', ' ', 'l', 'i', 'n', 'e', ' ', 'n', 'u', 'm', 'b', 'e', 'r'];
    proof {
        assert(r@ =~= msg_missing_line_number());
    }
    r
}

/// Suffix after an unrecognized config key. (` in the config doesn't exist`)
pub open spec fn msg_config_unknown_suffix() -> Seq<char> {
    seq![' ', 'i', 'n', ' ', 't', 'h', 'e', ' ', 'c', 'o', 'n', 'f', 'i', 'g', ' ', 'd', 'o', 'e', 's', 'n', '\'', 't', ' ', 'e', 'x', 'i', 's', 't']
}

/// Builds ` in the config doesn't exist` as characters.
pub fn msg_config_unknown_suffix_vec() -> (r: Vec<char>)
    ensures
        r@ == msg_config_unknown_suffix(),
{
    let r: Vec<char> = vec![' ', 'i', 'n', ' ', 't', 'h', 'e', ' ', 'c', 'o', 'n', 'f', 'i', 'g', ' ', 'd', 'o', 'e', 's', 'n', '\'', 't', ' ', 'e', 'x', 'i', 's', 't'];
    proof {
        assert(r@ =~= msg_config_unknown_suffix());
    }
    r
}

/// The base of synthesized tab names. (`unnamed`)
pub open spec fn lit_unnamed() -> Seq<char> {
    seq!['u', 'n', 'n', 'a', 'm', 'e', 'd']
}

/// Builds `unnamed` as characters.
pub fn lit_unnamed_vec() -> (r: Vec<char>)
    ensures
        r@ == lit_unnamed(),
{
    let r: Vec<char> = vec!['u', 'n', 'n', 'a', 'm', 'e', 'd'];
    proof {
        assert(r@ =~= lit_unnamed());
    }
    r
}

} // verus!
