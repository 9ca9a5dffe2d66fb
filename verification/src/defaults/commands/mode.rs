//! What the mode command does: it prints the active mode and the others, or
//! switches to the mode that is named.

use vstd::prelude::*;
use crate::sh::mode::ModeView;
use crate::sh::{Shell, ShellView};

verus! {

/// The name under which the active mode is shown: its own, or `none` where no
/// mode is active.
pub open spec fn current_name<A>(shell: ShellView<A>) -> Seq<char> {
    match shell.mode() {
        Some(mode) => mode.name,
        None => "none"@,
    }
}

/// One line for each of `modes` whose name is not `current`, in their order.
pub open spec fn others<A>(modes: Seq<ModeView<A>>, current: Seq<char>) -> Seq<Seq<char>>
    decreases modes.len(),
{
    if modes.len() == 0 {
        Seq::empty()
    } else if modes.last().name != current {
        others(modes.drop_last(), current).push("  - "@ + modes.last().name)
    } else {
        others(modes.drop_last(), current)
    }
}

/// The lines that present the active mode and the modes to switch to. The
/// other modes are listed where there is more than one mode, or where there
/// are modes and none is active.
pub open spec fn mode_overview<A>(shell: ShellView<A>) -> Seq<Seq<char>> {
    let current = current_name(shell);
    if shell.modes.len() > 1 || (shell.mode() is None && shell.modes.len() > 0) {
        seq!["mode: "@ + current, "available:"@] + others(shell.modes, current)
    } else {
        seq!["mode: "@ + current, "no other modes"@]
    }
}

/// What the mode command does: without an argument it prints the overview
/// and leaves the shell as it is; with one it switches to the mode that the
/// first argument names and prints nothing.
pub open spec fn mode_lines<A>(shell: ShellView<A>, args: Seq<Seq<char>>) -> Result<
    (ShellView<A>, Seq<Seq<char>>),
    Seq<char>,
> {
    if args.len() == 0 {
        Ok((shell, mode_overview(shell)))
    } else {
        match shell.switched(args[0]) {
            Ok(after) => Ok((after, Seq::empty())),
            Err(reason) => Err(reason),
        }
    }
}

/// Does what the mode command does to the shell and computes what it prints.
pub fn mode_text<A>(shell: &mut Shell<A>, args: &Vec<String>) -> (text: Result<Vec<String>, String>)
    ensures
        match mode_lines(old(shell)@, args.deep_view()) {
            Ok((after, lines)) => final(shell)@ == after && (text matches Ok(printed)
                && printed.deep_view() == lines),
            Err(reason) => final(shell)@ == old(shell)@ && (text matches Err(message) && message@
                == reason),
        },
{
    let mut lines: Vec<String> = Vec::new();
    if args.len() > 0 {
        return match shell.switch_mode(args[0].as_str()) {
            Ok(_) => {
                Ok(lines)
            },
            Err(message) => Err(message),
        };
    }
    let active = shell.mode();
    let current = match active {
        Some(mode) => mode.name.clone(),
        None => "none".to_owned(),
    };
    let mut first = "mode: ".to_owned();
    first.append(current.as_str());
    lines.push(first);
    let modes = shell.modes();
    if modes.len() > 1 || (active.is_none() && modes.len() > 0) {
        lines.push("available:".to_owned());
        let ghost head = lines.deep_view();
        let mut i: usize = 0;
        while i < modes.len()
            invariant
                i <= modes.len(),
                lines.deep_view() == head + others(modes.deep_view().take(i as int), current@),
            decreases modes.len() - i,
        {
            let ghost before = lines.deep_view();
            assert(modes.deep_view().take(i + 1).drop_last() =~= modes.deep_view().take(i as int));
            if !(modes[i].name == current) {
                let mut line = "  - ".to_owned();
                line.append(modes[i].name.as_str());
                lines.push(line);
                assert(lines.deep_view() =~= before.push("  - "@ + modes[i as int]@.name));
            }
            i += 1;
        }
        assert(modes.deep_view().take(i as int) =~= modes.deep_view());
    } else {
        lines.push("no other modes".to_owned());
    }
    Ok(lines)
}

} // verus!
