//! How the program is meant to run.

use vstd::prelude::*;

use crate::paths::WorkspacePath;
use crate::text::eq_ignore_ascii_case;
use crate::text::equal_ignoring_ascii_case;

verus! {

/// Whether the program runs as the command line tool: it was called by the tool's name, in
/// whatever case and with whatever extension, and the graphical interface was not forced.
///
/// `program` is the path by which it was called, if that is known.
pub fn is_cli_invocation(gui_forced: bool, program: Option<&WorkspacePath>) -> (cli: bool)
    ensures
        cli == (!gui_forced && match program {
            Some(program) => match program@.file_stem() {
                Some(name) => equal_ignoring_ascii_case(name, "writer"@),
                None => false,
            },
            None => false,
        }),
{
    if gui_forced {
        return false;
    }
    match program {
        Some(program) => match program.file_stem() {
            Some(name) => eq_ignore_ascii_case(name.as_str(), "writer"),
            None => false,
        },
        None => false,
    }
}

} // verus!
