//! Credential and schema setup.
//!
//! Clears stale local credentials, then ensures a schema and credentials
//! exist: in local mode a data directory is initialized on first run; in
//! external mode a marker file remembers whether the remote schema was
//! already created, and decides between creating it and loading data
//! into it.

use vstd::prelude::*;

use crate::model::Action;
use crate::model::Cmd;
use crate::model::EnvKind;
use crate::model::Marker;
use crate::model::SysState;
use crate::model::apply_trace;

verus! {

/// Clearing stale credentials: the home and project credential files and
/// the old build log go; the server's log directory is created when it
/// is missing.
pub open spec fn clean_local_credentials_actions(st: SysState) -> Seq<Action> {
    seq![
        Action::Remove(Marker::HomeCred),
        Action::Remove(Marker::MysqlCred),
        Action::Remove(Marker::BuildLog),
    ] + if !st.server_logs_present {
        seq![Action::CreateDirAll(Marker::ServerLogs)]
    } else {
        seq![]
    }
}

/// Remove stale credential files and make sure the server's log
/// directory exists.
pub fn clean_local_credentials(st: &SysState) -> (r: Vec<Action>)
    ensures
        r@ == clean_local_credentials_actions(*st),
{
    let mut v: Vec<Action> = Vec::new();
    v.push(Action::Remove(Marker::HomeCred));
    v.push(Action::Remove(Marker::MysqlCred));
    v.push(Action::Remove(Marker::BuildLog));
    if !st.server_logs_present {
        v.push(Action::CreateDirAll(Marker::ServerLogs));
    }
    proof {
        assert(v@ =~= clean_local_credentials_actions(*st));
    }
    v
}

/// Local-mode setup: the project database directory is created when
/// missing, the data directory is initialized on first run, and the
/// credential provisioning always runs afterwards (it is idempotent by
/// the external tool's own contract).
pub open spec fn setup_local_database_actions(st: SysState) -> Seq<Action> {
    (if !st.mysql_dir_present {
        seq![Action::CreateDirAll(Marker::MysqlDir)]
    } else {
        seq![]
    }) + (if !st.data_dir_present {
        seq![Action::Run(Cmd::MysqlInit, EnvKind::Mysql)]
    } else {
        seq![]
    }) + seq![Action::Run(Cmd::MysqlCred, EnvKind::Mysql)]
}

/// Ensure a local schema and credentials exist.
pub fn setup_local_database(st: &SysState) -> (r: Vec<Action>)
    ensures
        r@ == setup_local_database_actions(*st),
{
    let mut v: Vec<Action> = Vec::new();
    if !st.mysql_dir_present {
        v.push(Action::CreateDirAll(Marker::MysqlDir));
    }
    if !st.data_dir_present {
        v.push(Action::Run(Cmd::MysqlInit, EnvKind::Mysql));
    }
    v.push(Action::Run(Cmd::MysqlCred, EnvKind::Mysql));
    proof {
        assert(v@ =~= setup_local_database_actions(*st));
    }
    v
}

/// External-mode setup: credentials are always re-provisioned; with no
/// local marker file the remote schema is created and the marker file is
/// written to remember that; with the marker present the create path is
/// skipped and local data is loaded instead.
pub open spec fn setup_external_database_actions(st: SysState) -> Seq<Action> {
    seq![Action::Run(Cmd::MysqlCred, EnvKind::Plain)] + if !st.schema_marker_present {
        seq![
            Action::Run(Cmd::MysqlInitRemote, EnvKind::Plain),
            Action::CreateEmptyFile(Marker::SchemaMarker),
        ]
    } else {
        seq![Action::Run(Cmd::MysqlInfile, EnvKind::Plain)]
    }
}

/// Ensure the externally hosted schema and credentials exist.
pub fn setup_external_database(st: &SysState) -> (r: Vec<Action>)
    ensures
        r@ == setup_external_database_actions(*st),
{
    let mut v: Vec<Action> = Vec::new();
    v.push(Action::Run(Cmd::MysqlCred, EnvKind::Plain));
    if !st.schema_marker_present {
        v.push(Action::Run(Cmd::MysqlInitRemote, EnvKind::Plain));
        v.push(Action::CreateEmptyFile(Marker::SchemaMarker));
    } else {
        v.push(Action::Run(Cmd::MysqlInfile, EnvKind::Plain));
    }
    proof {
        assert(v@ =~= setup_external_database_actions(*st));
    }
    v
}

/// External-mode schema setup, both ways around: with no marker file the
/// create command runs, the load command does not, and afterwards the
/// marker is present whatever was present before; with the marker file
/// the create command never runs and the load command does.
pub proof fn external_schema_setup(st: SysState, s: Set<Marker>)
    ensures
        !st.schema_marker_present ==> setup_external_database_actions(st).contains(
            Action::Run(Cmd::MysqlInitRemote, EnvKind::Plain),
        ),
        !st.schema_marker_present ==> !setup_external_database_actions(st).contains(
            Action::Run(Cmd::MysqlInfile, EnvKind::Plain),
        ),
        !st.schema_marker_present ==> apply_trace(
            s,
            setup_external_database_actions(st),
        ).contains(Marker::SchemaMarker),
        st.schema_marker_present ==> !setup_external_database_actions(st).contains(
            Action::Run(Cmd::MysqlInitRemote, EnvKind::Plain),
        ),
        st.schema_marker_present ==> setup_external_database_actions(st).contains(
            Action::Run(Cmd::MysqlInfile, EnvKind::Plain),
        ),
{
    let t = setup_external_database_actions(st);
    if !st.schema_marker_present {
        assert(t.len() == 3);
        assert(t[1] == Action::Run(Cmd::MysqlInitRemote, EnvKind::Plain));
        assert(forall|i: int|
            0 <= i < t.len() ==> t[i] != Action::Run(Cmd::MysqlInfile, EnvKind::Plain));
        assert(apply_trace(s, t) == apply_trace(s, t.drop_last()).insert(Marker::SchemaMarker));
    } else {
        assert(t.len() == 2);
        assert(t[1] == Action::Run(Cmd::MysqlInfile, EnvKind::Plain));
        assert(forall|i: int|
            0 <= i < t.len() ==> t[i] != Action::Run(Cmd::MysqlInitRemote, EnvKind::Plain));
    }
}

} // verus!
