//! Whether the Cursor IDE is running, and the guard that refuses to touch
//! Cursor auth while it is.

use vstd::prelude::*;

use crate::command::CommandOutcome;
use crate::text::{contains, owned, str_contains};

verus! {

/// True when `killall -s Cursor` succeeded and listed a process to signal
/// (a line with `kill `): the Cursor IDE main process is running.
pub fn cursor_running(killall: &CommandOutcome) -> (r: bool)
    ensures
        r == (killall.success && contains(killall.stdout@, "kill "@)),
{
    killall.success && str_contains(killall.stdout.as_str(), "kill ")
}

/// Refuse mutating Cursor auth while the IDE is open (it can rewrite Keychain /
/// state.vscdb and undo or scramble the switch).
pub fn require_cursor_idle(running: bool) -> (r: Result<(), String>)
    ensures
        running ==> (r matches Err(e) && e@
            == "Cursor IDE is running. Quit Cursor completely, then try again."@),
        !running ==> r is Ok,
{
    if running {
        return Err(owned("Cursor IDE is running. Quit Cursor completely, then try again."));
    }
    Ok(())
}

} // verus!
