//! The teardown controller.
//!
//! The inverse reconciliation: stop the application server and the
//! container stack, and only where a local data directory exists stop
//! the database (tolerating "not running"), kill it if the graceful stop
//! left it behind, wait out the drain delay, and remove every generated
//! file. Dropping goes further and removes the schema itself.

use vstd::prelude::*;

use crate::model::Action;
use crate::model::Cmd;
use crate::model::EnvKind;
use crate::model::Marker;
use crate::model::SysState;
use crate::model::is_db_action;

verus! {

/// The drain delay, in seconds, waited for the database to fully exit.
pub const DRAIN_SECS: u64 = 5;

/// The settle delay, in seconds, after dropping the remote schema.
pub const DROP_SETTLE_SECS: u64 = 1;

/// The first teardown phase: stop the application server (its failure is
/// tolerated), bring the container stack down, and where a local data
/// directory exists, gracefully stop the database. The stop is gated on
/// the data directory alone — the lock file is only a proxy and can be
/// missing while a process still runs — and "not running" is a tolerated
/// failure of the stop command, so stopping is always safe.
pub open spec fn clean_up_begin_actions(st: SysState) -> Seq<Action> {
    seq![Action::Run(Cmd::StopTomcat, EnvKind::Plain), Action::Run(
        Cmd::DockerComposeDown,
        EnvKind::Plain,
    )] + if st.data_dir_present {
        seq![Action::Run(Cmd::StopMysql, EnvKind::Plain)]
    } else {
        seq![]
    }
}

/// Whether, after the first phase, the process table must be probed
/// again: whenever the database steps ran at all, the graceful stop may
/// have left a process behind.
pub open spec fn spec_needs_kill_probe(st: SysState) -> bool {
    st.data_dir_present
}

/// Everything generated locally that teardown removes once the database
/// is down.
pub open spec fn clean_up_removals() -> Seq<Action> {
    seq![
        Action::Remove(Marker::HomeCred),
        Action::Remove(Marker::MysqlCred),
        Action::Remove(Marker::TargetWar),
        Action::Remove(Marker::TargetAppDir),
        Action::Remove(Marker::DeployedWar),
        Action::Remove(Marker::DeployedDir),
        Action::Remove(Marker::ServerBinSrc),
        Action::Remove(Marker::ServerLogs),
        Action::Remove(Marker::BuildLog),
        Action::Remove(Marker::ProjectLogs),
    ]
}

/// The second teardown phase, decided after the process table was probed
/// again: without a data directory nothing at all happens; with one, a
/// process that is still there — however the graceful stop went — is
/// killed, the drain delay is waited out, and the generated files are
/// removed.
pub open spec fn clean_up_finish_actions(st: SysState, still_running: bool) -> Seq<Action> {
    if !st.data_dir_present {
        seq![]
    } else {
        (if still_running {
            seq![Action::Run(Cmd::PkillMysqld, EnvKind::Plain)]
        } else {
            seq![]
        }) + seq![Action::Sleep(DRAIN_SECS as u64)] + clean_up_removals()
    }
}

/// A whole teardown, as observed from outside: the first phase, then the
/// second with whatever the repeated process probe said.
pub open spec fn clean_up_actions(st: SysState, still_running: bool) -> Seq<Action> {
    clean_up_begin_actions(st) + clean_up_finish_actions(st, still_running)
}

/// Begin teardown: stop the services. The result's second part says
/// whether the process table must be probed again before
/// `clean_up_finish`.
pub fn clean_up_begin(st: &SysState) -> (r: (Vec<Action>, bool))
    ensures
        r.0@ == clean_up_begin_actions(*st),
        r.1 == spec_needs_kill_probe(*st),
{
    let mut v: Vec<Action> = Vec::new();
    v.push(Action::Run(Cmd::StopTomcat, EnvKind::Plain));
    v.push(Action::Run(Cmd::DockerComposeDown, EnvKind::Plain));
    let probe = st.data_dir_present;
    if probe {
        v.push(Action::Run(Cmd::StopMysql, EnvKind::Plain));
    }
    proof {
        assert(v@ =~= clean_up_begin_actions(*st));
    }
    (v, probe)
}

/// Finish teardown, given whether the database process survived the
/// graceful stop.
pub fn clean_up_finish(st: &SysState, still_running: bool) -> (r: Vec<Action>)
    ensures
        r@ == clean_up_finish_actions(*st, still_running),
{
    let mut v: Vec<Action> = Vec::new();
    if st.data_dir_present {
        if still_running {
            v.push(Action::Run(Cmd::PkillMysqld, EnvKind::Plain));
        }
        v.push(Action::Sleep(DRAIN_SECS));
        v.push(Action::Remove(Marker::HomeCred));
        v.push(Action::Remove(Marker::MysqlCred));
        v.push(Action::Remove(Marker::TargetWar));
        v.push(Action::Remove(Marker::TargetAppDir));
        v.push(Action::Remove(Marker::DeployedWar));
        v.push(Action::Remove(Marker::DeployedDir));
        v.push(Action::Remove(Marker::ServerBinSrc));
        v.push(Action::Remove(Marker::ServerLogs));
        v.push(Action::Remove(Marker::BuildLog));
        v.push(Action::Remove(Marker::ProjectLogs));
    }
    proof {
        assert(v@ =~= clean_up_finish_actions(*st, still_running));
    }
    v
}

/// Dropping the schema, after a teardown: where the external-schema
/// marker file exists the drop command runs, a brief settle delay is
/// waited, and the marker file goes; then the data directory, the home
/// credentials and every server-side generated directory are removed
/// unconditionally.
pub open spec fn drop_database_actions(st: SysState) -> Seq<Action> {
    (if st.schema_marker_present {
        seq![
            Action::Run(Cmd::MysqlDrop, EnvKind::Plain),
            Action::Sleep(DROP_SETTLE_SECS as u64),
            Action::Remove(Marker::SchemaMarker),
        ]
    } else {
        seq![]
    }) + seq![
        Action::Remove(Marker::DataDir),
        Action::Remove(Marker::HomeCred),
        Action::Remove(Marker::ServerBinSrc),
        Action::Remove(Marker::ServerLogs),
        Action::Remove(Marker::DeployedWar),
        Action::Remove(Marker::DeployedDir),
        Action::Remove(Marker::ProjectLogs),
    ]
}

/// Drop the schema and remove what teardown alone keeps.
pub fn drop_database(st: &SysState) -> (r: Vec<Action>)
    ensures
        r@ == drop_database_actions(*st),
{
    let mut v: Vec<Action> = Vec::new();
    if st.schema_marker_present {
        v.push(Action::Run(Cmd::MysqlDrop, EnvKind::Plain));
        v.push(Action::Sleep(DROP_SETTLE_SECS));
        v.push(Action::Remove(Marker::SchemaMarker));
    }
    v.push(Action::Remove(Marker::DataDir));
    v.push(Action::Remove(Marker::HomeCred));
    v.push(Action::Remove(Marker::ServerBinSrc));
    v.push(Action::Remove(Marker::ServerLogs));
    v.push(Action::Remove(Marker::DeployedWar));
    v.push(Action::Remove(Marker::DeployedDir));
    v.push(Action::Remove(Marker::ProjectLogs));
    proof {
        assert(v@ =~= drop_database_actions(*st));
    }
    v
}

/// Teardown with a local data directory: the database is always
/// gracefully stopped, whatever the lock file says, the process table
/// is owed a second probe, and the kill is issued exactly when that
/// probe still found a process.
pub proof fn teardown_stops_present_database(st: SysState, still_running: bool)
    requires
        st.data_dir_present,
    ensures
        clean_up_begin_actions(st).contains(Action::Run(Cmd::StopMysql, EnvKind::Plain)),
        spec_needs_kill_probe(st),
        clean_up_actions(st, still_running).contains(Action::Run(Cmd::PkillMysqld, EnvKind::Plain))
            <==> still_running,
{
    let begin = clean_up_begin_actions(st);
    let finish = clean_up_finish_actions(st, still_running);
    let t = clean_up_actions(st, still_running);
    assert(begin[2] == Action::Run(Cmd::StopMysql, EnvKind::Plain));
    if still_running {
        assert(finish[0] == Action::Run(Cmd::PkillMysqld, EnvKind::Plain));
        assert(t[begin.len() as int] == Action::Run(Cmd::PkillMysqld, EnvKind::Plain));
    } else {
        assert(forall|i: int|
            0 <= i < begin.len() ==> begin[i] != Action::Run(Cmd::PkillMysqld, EnvKind::Plain));
        assert(forall|i: int|
            0 <= i < finish.len() ==> finish[i] != Action::Run(Cmd::PkillMysqld, EnvKind::Plain));
        assert(forall|i: int|
            0 <= i < t.len() ==> t[i] != Action::Run(Cmd::PkillMysqld, EnvKind::Plain));
    }
}

/// Teardown without a local data directory: the application server and
/// the container stack are still stopped, and that is all. No database
/// stop, no kill, no removal of any kind is issued.
pub proof fn teardown_skips_absent_database(st: SysState, still_running: bool)
    requires
        !st.data_dir_present,
    ensures
        clean_up_actions(st, still_running) == seq![
            Action::Run(Cmd::StopTomcat, EnvKind::Plain),
            Action::Run(Cmd::DockerComposeDown, EnvKind::Plain),
        ],
        forall|i: int| 0 <= i < clean_up_actions(st, still_running).len()
            ==> !is_db_action(#[trigger] clean_up_actions(st, still_running)[i]),
        forall|i: int| 0 <= i < clean_up_actions(st, still_running).len()
            ==> !(#[trigger] clean_up_actions(st, still_running)[i] matches Action::Remove(_)),
{
    assert(clean_up_actions(st, still_running) =~= seq![
        Action::Run(Cmd::StopTomcat, EnvKind::Plain),
        Action::Run(Cmd::DockerComposeDown, EnvKind::Plain),
    ]);
}

} // verus!
