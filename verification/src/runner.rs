//! The one exit-classification policy every external command shares.
//!
//! Every call site hands the outcome of a command to `classify_exit`
//! instead of re-deriving a policy of its own: a command that could not
//! be spawned is always fatal; a non-zero exit is fatal unless the
//! command belongs to the tolerated stop-and-kill family; a zero exit
//! proceeds.

use vstd::prelude::*;

use crate::model::Cmd;
use crate::model::failure_tolerated;
use crate::model::spec_failure_tolerated;

verus! {

/// What to do after an external command finished (or failed to start).
#[derive(Clone, Copy, PartialEq, Eq, Structural, Debug)]
pub enum CmdVerdict {
    /// The command succeeded; go on.
    Proceed,
    /// The command failed, but its failure is tolerated; go on.
    Tolerated,
    /// The command failed and the current path must abort.
    Fatal,
}

/// Classify a command's outcome: `spawned` says whether the process
/// could be started at all, `exit_ok` whether it exited successfully.
pub fn classify_exit(c: Cmd, spawned: bool, exit_ok: bool) -> (r: CmdVerdict)
    ensures
        !spawned ==> r == CmdVerdict::Fatal,
        spawned && exit_ok ==> r == CmdVerdict::Proceed,
        spawned && !exit_ok && spec_failure_tolerated(c) ==> r == CmdVerdict::Tolerated,
        spawned && !exit_ok && !spec_failure_tolerated(c) ==> r == CmdVerdict::Fatal,
{
    if !spawned {
        CmdVerdict::Fatal
    } else if exit_ok {
        CmdVerdict::Proceed
    } else if failure_tolerated(c) {
        CmdVerdict::Tolerated
    } else {
        CmdVerdict::Fatal
    }
}

/// The outcome of one removal attempt on the real filesystem.
#[derive(Clone, Copy, PartialEq, Eq, Structural, Debug)]
pub enum RemoveOutcome {
    /// The path existed and was removed.
    Removed,
    /// The path was already absent.
    AlreadyAbsent,
    /// The removal failed for another reason (permissions, a busy
    /// resource).
    Failed,
}

/// The remover's error policy: absence is success, never an error; any
/// other failure is fatal to the current phase and must not be
/// swallowed.
pub fn removal_fatal(o: RemoveOutcome) -> (r: bool)
    ensures
        r <==> o == RemoveOutcome::Failed,
{
    match o {
        RemoveOutcome::Failed => true,
        _ => false,
    }
}

} // verus!
