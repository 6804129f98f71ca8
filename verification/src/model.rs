//! The vocabulary of the reconciliation engine.
//!
//! Every piece of durable state the tool cares about is a named marker: a
//! path whose existence is probed once, up front. Every side effect the
//! engine may order is an `Action`: an external command, a pause, or a
//! filesystem step. The engine itself is pure; it turns an observed
//! `SysState` into sequences of actions that a thin outer layer performs.

use vstd::prelude::*;

verus! {

/// One piece of durable state: a path with an existence predicate.
///
/// Markers that depend on the registration name, the home directory or
/// the server home stand for the fully substituted path.
#[derive(Clone, Copy, PartialEq, Eq, Structural, Debug)]
pub enum Marker {
    /// `~/.my.cnf`: home-directory database credentials.
    HomeCred,
    /// `mysql/`: the project-local database directory.
    MysqlDir,
    /// `mysql/.my.cnf`: project-local database credentials.
    MysqlCred,
    /// `mysql/data`: the local database data directory.
    DataDir,
    /// `mysql/socket.lock`: the database lock file.
    SocketLock,
    /// `mysql/<app>.sql`: the external-schema marker file.
    SchemaMarker,
    /// `target/`: the build output directory.
    TargetDir,
    /// `target/<app>.war`: the built artifact.
    TargetWar,
    /// `target/<app>/`: the unpacked build output.
    TargetAppDir,
    /// `<serverHome>/webapps/<app>.war`: the deployed artifact.
    DeployedWar,
    /// `<serverHome>/webapps/<app>/`: the exploded deployed artifact.
    DeployedDir,
    /// `<serverHome>/bin/src`: server-side copies of project resources.
    ServerBinSrc,
    /// `<serverHome>/bin/src/main/resources/db/application`: server-side
    /// copy of the database resource files.
    DbResourceDir,
    /// `src/main/resources/db/application`: the project's own database
    /// resource files (a copy source, never removed).
    SrcDbDir,
    /// `<serverHome>/logs`: the application server's log directory.
    ServerLogs,
    /// `logs/`: the project-local log directory.
    ProjectLogs,
    /// `tomcat/compile_log.txt`: the captured build log.
    BuildLog,
}

/// An external command, identified by what it does; the outer layer knows
/// how each is spelled on this machine.
#[derive(Clone, Copy, PartialEq, Eq, Structural, Debug)]
pub enum Cmd {
    /// Stop the application server.
    StopTomcat,
    /// Bring the container stack down.
    DockerComposeDown,
    /// Gracefully stop the database.
    StopMysql,
    /// Forcibly kill the database process.
    PkillMysqld,
    /// Start the database process.
    StartMysql,
    /// Initialize a fresh local database data directory.
    MysqlInit,
    /// Create the externally hosted schema.
    MysqlInitRemote,
    /// Provision database credentials.
    MysqlCred,
    /// Grant the local-file-import permission / load local data.
    MysqlInfile,
    /// Drop the externally hosted schema.
    MysqlDrop,
    /// Build the container image.
    DockerBuildImage,
    /// Start the application server.
    CatalinaStart,
}

/// Which environment a command is launched with.
#[derive(Clone, Copy, PartialEq, Eq, Structural, Debug)]
pub enum EnvKind {
    /// The ambient environment, unchanged.
    Plain,
    /// The full database environment: user, password, database name and
    /// socket path, all derived from the registration name.
    Mysql,
    /// Only the database socket path.
    Socket,
}

/// Which build lifecycle the build tool is asked to run.
#[derive(Clone, Copy, PartialEq, Eq, Structural, Debug)]
pub enum BuildMode {
    /// First build on this machine: no previous output existed.
    Install,
    /// Rebuild: previous output existed and was cleaned.
    Package,
}

/// One side effect the engine orders. The outer layer performs actions in
/// the order given and never reorders them.
#[derive(Clone, Copy, PartialEq, Eq, Structural, Debug)]
pub enum Action {
    /// Run an external command; a non-zero exit is fatal unless
    /// `failure_tolerated` holds of the command.
    Run(Cmd, EnvKind),
    /// Pause for the given number of seconds (a settle delay).
    Sleep(u64),
    /// Remove the marker's path if present; absence is not an error.
    Remove(Marker),
    /// Create the marker's path as a directory, with parents.
    CreateDirAll(Marker),
    /// Create the marker's path as an empty file.
    CreateEmptyFile(Marker),
    /// Copy a file from the first marker's path to the second's.
    CopyFile(Marker, Marker),
    /// Recursively copy a directory tree from the first marker's path to
    /// the second's.
    CopyTree(Marker, Marker),
    /// Launch the build task in the background.
    SpawnBuild(BuildMode),
    /// Block until the build task completes and take its result.
    JoinBuild,
}

/// The state of the machine as observed once, at the start of a run:
/// every marker probe and the process-table probe, as plain booleans.
#[derive(Clone, Copy, PartialEq, Eq, Structural, Debug)]
pub struct SysState {
    /// The application server's port is already taken.
    pub port_in_use: bool,
    /// The database lock file (`mysql/socket.lock`) is present.
    pub lock_present: bool,
    /// A database process shows up in the process table.
    pub mysql_running: bool,
    /// `mysql/` exists.
    pub mysql_dir_present: bool,
    /// `mysql/data` exists.
    pub data_dir_present: bool,
    /// The external-schema marker file exists.
    pub schema_marker_present: bool,
    /// `target/` exists.
    pub target_present: bool,
    /// A deployed artifact archive exists under the server home.
    pub deployed_war_present: bool,
    /// An exploded deployed artifact exists under the server home.
    pub deployed_dir_present: bool,
    /// The server's log directory exists.
    pub server_logs_present: bool,
    /// The server-side database resource directory exists.
    pub db_resource_dir_present: bool,
}

/// A failure the engine itself decides on, before any action runs.
#[derive(Clone, Copy, PartialEq, Eq, Structural, Debug)]
pub enum EngineError {
    /// The application server's port is already taken, so a provisioning
    /// run that would start the server must not begin.
    PortInUse,
}

/// Whether a non-zero exit from the command is tolerated. Only the
/// stop-and-kill family may fail harmlessly ("not running", or nothing
/// to bring down, is fine); every provisioning command is fatal on
/// failure.
pub open spec fn spec_failure_tolerated(c: Cmd) -> bool {
    match c {
        Cmd::StopTomcat => true,
        Cmd::DockerComposeDown => true,
        Cmd::StopMysql => true,
        Cmd::PkillMysqld => true,
        _ => false,
    }
}

/// Executable twin of `spec_failure_tolerated`.
pub fn failure_tolerated(c: Cmd) -> (r: bool)
    ensures
        r == spec_failure_tolerated(c),
{
    match c {
        Cmd::StopTomcat => true,
        Cmd::DockerComposeDown => true,
        Cmd::StopMysql => true,
        Cmd::PkillMysqld => true,
        _ => false,
    }
}

/// Whether an action belongs to the deployment step: copying an artifact
/// into place, restarting the application server, or building the
/// container image. These may only ever follow a successful build.
pub open spec fn is_deploy_action(a: Action) -> bool {
    match a {
        Action::CopyFile(_, _) => true,
        Action::CopyTree(_, _) => true,
        Action::Run(c, _) => c == Cmd::CatalinaStart || c == Cmd::DockerBuildImage,
        _ => false,
    }
}

/// No action of the sequence belongs to the deployment step.
pub open spec fn none_deploy(s: Seq<Action>) -> bool {
    forall|i: int| 0 <= i < s.len() ==> !is_deploy_action(#[trigger] s[i])
}

/// Concatenation keeps sequences free of deployment actions.
pub proof fn lemma_none_deploy_concat(a: Seq<Action>, b: Seq<Action>)
    requires
        none_deploy(a),
        none_deploy(b),
    ensures
        none_deploy(a + b),
{
    assert forall|i: int| 0 <= i < (a + b).len() implies !is_deploy_action(#[trigger] (a + b)[i]) by {
        if i < a.len() {
            assert((a + b)[i] == a[i]);
        } else {
            assert((a + b)[i] == b[i - a.len()]);
        }
    }
}

/// Whether an action touches the database: its lifecycle commands, or a
/// filesystem step on one of its markers.
pub open spec fn is_db_action(a: Action) -> bool {
    match a {
        Action::Run(c, _) => match c {
            Cmd::StopMysql => true,
            Cmd::PkillMysqld => true,
            Cmd::StartMysql => true,
            Cmd::MysqlInit => true,
            Cmd::MysqlInitRemote => true,
            Cmd::MysqlCred => true,
            Cmd::MysqlInfile => true,
            Cmd::MysqlDrop => true,
            _ => false,
        },
        Action::Remove(m) => is_db_marker(m),
        Action::CreateDirAll(m) => is_db_marker(m),
        Action::CreateEmptyFile(m) => is_db_marker(m),
        _ => false,
    }
}

/// The markers that belong to the database.
pub open spec fn is_db_marker(m: Marker) -> bool {
    match m {
        Marker::HomeCred => true,
        Marker::MysqlDir => true,
        Marker::MysqlCred => true,
        Marker::DataDir => true,
        Marker::SocketLock => true,
        Marker::SchemaMarker => true,
        _ => false,
    }
}

/// What one action does to the set of present markers. Commands and
/// pauses have no modelled filesystem effect; the engine never relies on
/// a side effect of an external command on a marker.
pub open spec fn apply_action(s: Set<Marker>, a: Action) -> Set<Marker> {
    match a {
        Action::Remove(m) => s.remove(m),
        Action::CreateDirAll(m) => s.insert(m),
        Action::CreateEmptyFile(m) => s.insert(m),
        Action::CopyFile(_, to) => s.insert(to),
        Action::CopyTree(_, to) => s.insert(to),
        _ => s,
    }
}

/// What a whole trace of actions does to the set of present markers,
/// first action first.
pub open spec fn apply_trace(s: Set<Marker>, t: Seq<Action>) -> Set<Marker>
    decreases t.len(),
{
    if t.len() == 0 {
        s
    } else {
        apply_action(apply_trace(s, t.drop_last()), t.last())
    }
}

/// Unrolling `apply_trace` at the back: the effect of a trace with one
/// more action at its end is the effect of that action on the effect of
/// the front.
pub proof fn lemma_apply_trace_snoc(s: Set<Marker>, t: Seq<Action>, a: Action)
    ensures
        apply_trace(s, t.push(a)) == apply_action(apply_trace(s, t), a),
{
    assert(t.push(a).drop_last() =~= t);
    assert(t.push(a).last() == a);
}

} // verus!
