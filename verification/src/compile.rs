//! The build coordinator's decisions.
//!
//! The build tool runs as the one background task of a run. Decided
//! here: the full clean of a previous build output, which build
//! lifecycle is requested (first-time install versus subsequent
//! package), the bounded diagnostic excerpt taken from the build log on
//! failure, and the join gate that alone can release the deployment
//! phase.

use vstd::prelude::*;

use crate::model::Action;
use crate::model::BuildMode;
use crate::model::Marker;

verus! {

/// How many of the build log's last lines are kept as the failure
/// diagnostic; the full log is never carried around.
pub const LOG_TAIL_LINES: usize = 50;

/// The outcome of the background build task, produced once and consumed
/// exactly once at the join point.
pub enum BuildResult {
    /// The build tool exited successfully.
    Success,
    /// The build tool failed; the excerpt holds the tail of its log,
    /// newest line first.
    Failure(Vec<String>),
}

/// The clean that precedes a build: a previous output directory is
/// removed whole; nothing is touched when none existed.
pub open spec fn build_clean_actions(target_present: bool) -> Seq<Action> {
    if target_present {
        seq![Action::Remove(Marker::TargetDir)]
    } else {
        seq![]
    }
}

/// Which build lifecycle is requested: the first build on a machine
/// installs; later builds, which found output to clean, package.
pub open spec fn build_mode_for(target_present: bool) -> BuildMode {
    if target_present {
        BuildMode::Package
    } else {
        BuildMode::Install
    }
}

/// What the build task does before launching the build tool, and with
/// which mode it launches it.
pub struct BuildPrep {
    /// Performed inside the build task, before the build tool runs.
    pub clean: Vec<Action>,
    /// The build lifecycle the build tool is asked to run.
    pub mode: BuildMode,
}

/// Decide the pre-build clean and the build mode from whether a previous
/// build output directory exists.
pub fn prepare_build(target_present: bool) -> (r: BuildPrep)
    ensures
        r.clean@ == build_clean_actions(target_present),
        r.mode == build_mode_for(target_present),
{
    let mut clean: Vec<Action> = Vec::new();
    if target_present {
        clean.push(Action::Remove(Marker::TargetDir));
    }
    proof {
        assert(clean@ =~= build_clean_actions(target_present));
    }
    BuildPrep { mode: if target_present { BuildMode::Package } else { BuildMode::Install }, clean }
}

/// Take the bounded failure diagnostic from the build log: its last
/// lines, newest first, at most `LOG_TAIL_LINES` of them.
pub fn build_failure_excerpt(lines: Vec<String>) -> (r: Vec<String>)
    ensures
        r@.len() == if lines@.len() < LOG_TAIL_LINES { lines@.len() } else {
            LOG_TAIL_LINES as nat
        },
        forall|i: int| 0 <= i < r@.len() ==> r@[i] == lines@[lines@.len() - 1 - i],
{
    let ghost full = lines@;
    let mut rest = lines;
    let mut r: Vec<String> = Vec::new();
    while r.len() < LOG_TAIL_LINES && rest.len() > 0
        invariant
            r@.len() <= LOG_TAIL_LINES,
            rest@ == full.subrange(0, full.len() - r@.len()),
            r@.len() <= full.len(),
            r@.len() < LOG_TAIL_LINES || rest@.len() == 0 || r@.len() == LOG_TAIL_LINES,
            forall|i: int| 0 <= i < r@.len() ==> r@[i] == full[full.len() - 1 - i],
        decreases rest@.len(),
    {
        let ghost before = rest@;
        if let Some(line) = rest.pop() {
            r.push(line);
        }
        proof {
            assert(rest@ =~= full.subrange(0, full.len() - r@.len()));
        }
    }
    r
}

/// The join gate: a successful build releases the deployment actions
/// unchanged; a failed build yields its diagnostic excerpt instead, and
/// no deployment action at all.
pub fn after_join(result: BuildResult, post: Vec<Action>) -> (r: Result<Vec<Action>, Vec<String>>)
    ensures
        result is Success ==> (r matches Ok(v) && v@ == post@),
        result matches BuildResult::Failure(excerpt) ==> (r matches Err(e) && e == excerpt),
{
    match result {
        BuildResult::Success => Ok(post),
        BuildResult::Failure(excerpt) => Err(excerpt),
    }
}

} // verus!
