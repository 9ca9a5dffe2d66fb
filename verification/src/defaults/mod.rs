//! The commands and modes that a shell starts with.

use vstd::prelude::*;
use crate::sh::cmd::Action;
use crate::sh::{Shell, ShellView};

pub mod commands;
pub mod modes;

verus! {

/// Registers the default builtin commands, with the actions given for them,
/// and the default modes behind what the shell already holds, and selects the
/// first mode.
pub fn populate<A: Action>(shell: &mut Shell<A>, debug: A, help: A, mode: A)
    ensures
        final(shell)@ == (ShellView {
            builtin: old(shell)@.builtin + commands::all_view(debug, help, mode),
            modes: old(shell)@.modes + modes::all_view(),
            current_mode: Some(0),
            ..old(shell)@
        }),
{
    shell.add_commands(commands::all(debug, help, mode));
    shell.add_modes(modes::all());
    shell.set_mode(Some(0));
}

} // verus!
