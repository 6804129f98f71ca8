//! The database lifecycle controller.
//!
//! Reconciles the pair of observations (lock file present, process
//! running) into the one corrective sequence for that state, then grants
//! the local-file-import permission, which does not persist across
//! restarts and is therefore re-applied on every run.

use vstd::prelude::*;

use crate::model::Action;
use crate::model::Cmd;
use crate::model::EngineError;
use crate::model::EnvKind;
use crate::model::Marker;
use crate::model::SysState;

verus! {

/// The settle delay, in seconds, after starting or killing the database.
pub const SETTLE_SECS: u64 = 3;

/// The corrective sequence for each of the four (lock, running) states:
///
/// - neither lock nor process: start the database and let it settle;
/// - lock and process: healthy, nothing to correct;
/// - process without lock: a crash orphan; kill it, wait, start cleanly;
/// - lock without process: a stale lock; clear it and start fresh rather
///   than treating the state as healthy or passing it over in silence.
pub open spec fn lifecycle_actions(st: SysState) -> Seq<Action> {
    if !st.lock_present && !st.mysql_running {
        seq![Action::Run(Cmd::StartMysql, EnvKind::Mysql), Action::Sleep(SETTLE_SECS as u64)]
    } else if st.lock_present && st.mysql_running {
        seq![]
    } else if !st.lock_present && st.mysql_running {
        seq![
            Action::Run(Cmd::PkillMysqld, EnvKind::Plain),
            Action::Sleep(SETTLE_SECS as u64),
            Action::Run(Cmd::StartMysql, EnvKind::Mysql),
            Action::Sleep(SETTLE_SECS as u64),
        ]
    } else {
        seq![
            Action::Remove(Marker::SocketLock),
            Action::Run(Cmd::StartMysql, EnvKind::Mysql),
            Action::Sleep(SETTLE_SECS as u64),
        ]
    }
}

/// Granting the import permission: a settle pause, the grant itself run
/// against the project socket, and a final settle pause.
pub open spec fn grant_import_actions() -> Seq<Action> {
    seq![
        Action::Sleep(SETTLE_SECS as u64),
        Action::Run(Cmd::MysqlInfile, EnvKind::Socket),
        Action::Sleep(SETTLE_SECS as u64),
    ]
}

/// Everything the database start step issues: the corrective sequence
/// for the observed state, then the import-permission grant.
pub open spec fn start_database_actions(st: SysState) -> Seq<Action> {
    lifecycle_actions(st) + grant_import_actions()
}

/// Reconcile the database into a running state and grant the
/// local-file-import permission.
pub fn start_database(st: &SysState) -> (r: Vec<Action>)
    ensures
        r@ == start_database_actions(*st),
{
    let mut v: Vec<Action> = Vec::new();
    if !st.lock_present && !st.mysql_running {
        v.push(Action::Run(Cmd::StartMysql, EnvKind::Mysql));
        v.push(Action::Sleep(SETTLE_SECS));
    } else if st.lock_present && st.mysql_running {
        // already healthy; only the grant below is issued
    } else if !st.lock_present && st.mysql_running {
        v.push(Action::Run(Cmd::PkillMysqld, EnvKind::Plain));
        v.push(Action::Sleep(SETTLE_SECS));
        v.push(Action::Run(Cmd::StartMysql, EnvKind::Mysql));
        v.push(Action::Sleep(SETTLE_SECS));
    } else {
        v.push(Action::Remove(Marker::SocketLock));
        v.push(Action::Run(Cmd::StartMysql, EnvKind::Mysql));
        v.push(Action::Sleep(SETTLE_SECS));
    }
    v.push(Action::Sleep(SETTLE_SECS));
    v.push(Action::Run(Cmd::MysqlInfile, EnvKind::Socket));
    v.push(Action::Sleep(SETTLE_SECS));
    proof {
        assert(v@ =~= start_database_actions(*st));
    }
    v
}

/// Refuse to provision while the application server's port is taken;
/// nothing may run after this check fails.
pub fn check_port(port_in_use: bool) -> (r: Result<(), EngineError>)
    ensures
        port_in_use ==> r == Result::<(), EngineError>::Err(EngineError::PortInUse),
        !port_in_use ==> r == Result::<(), EngineError>::Ok(()),
{
    if port_in_use {
        Err(EngineError::PortInUse)
    } else {
        Ok(())
    }
}

/// The lifecycle table, row by row: each of the four observed
/// combinations maps to exactly one corrective sequence.
pub proof fn lifecycle_table(st: SysState)
    ensures
        !st.lock_present && !st.mysql_running ==> lifecycle_actions(st) == seq![
            Action::Run(Cmd::StartMysql, EnvKind::Mysql),
            Action::Sleep(SETTLE_SECS as u64),
        ],
        st.lock_present && st.mysql_running ==> lifecycle_actions(st) == Seq::<Action>::empty(),
        !st.lock_present && st.mysql_running ==> lifecycle_actions(st) == seq![
            Action::Run(Cmd::PkillMysqld, EnvKind::Plain),
            Action::Sleep(SETTLE_SECS as u64),
            Action::Run(Cmd::StartMysql, EnvKind::Mysql),
            Action::Sleep(SETTLE_SECS as u64),
        ],
        st.lock_present && !st.mysql_running ==> lifecycle_actions(st) == seq![
            Action::Remove(Marker::SocketLock),
            Action::Run(Cmd::StartMysql, EnvKind::Mysql),
            Action::Sleep(SETTLE_SECS as u64),
        ],
{
    if st.lock_present && st.mysql_running {
        assert(lifecycle_actions(st) =~= Seq::<Action>::empty());
    }
}

} // verus!
