//! The model filesystem and the idempotent remover.

use runapp::fsmodel::FsModel;
use runapp::model::Action;
use runapp::model::Marker;

#[test]
fn remover_is_idempotent() {
    let mut fs = FsModel::empty();
    fs.create(Marker::DataDir);
    fs.create(Marker::HomeCred);
    fs.remove_if_exists(Marker::DataDir);
    assert!(!fs.has(Marker::DataDir));
    // the second removal of the same path must again succeed
    fs.remove_if_exists(Marker::DataDir);
    assert!(!fs.has(Marker::DataDir));
    assert!(fs.has(Marker::HomeCred));
}

#[test]
fn remover_on_absent_path_is_a_no_op() {
    let mut fs = FsModel::empty();
    fs.create(Marker::HomeCred);
    fs.create(Marker::TargetWar);
    fs.remove_if_exists(Marker::DataDir);
    assert!(fs.has(Marker::HomeCred));
    assert!(fs.has(Marker::TargetWar));
    assert!(!fs.has(Marker::DataDir));
}

#[test]
fn remover_leaves_siblings_untouched() {
    let mut fs = FsModel::empty();
    fs.create(Marker::DeployedWar);
    fs.create(Marker::DeployedDir);
    fs.create(Marker::ServerLogs);
    fs.remove_if_exists(Marker::DeployedWar);
    assert!(!fs.has(Marker::DeployedWar));
    assert!(fs.has(Marker::DeployedDir));
    assert!(fs.has(Marker::ServerLogs));
}

#[test]
fn empty_model_has_nothing() {
    let fs = FsModel::empty();
    assert!(!fs.has(Marker::DataDir));
    assert!(!fs.has(Marker::SocketLock));
}

#[test]
fn replaying_a_trace_applies_each_effect_in_order() {
    let mut fs = FsModel::empty();
    fs.create(Marker::SocketLock);
    let trace = vec![
        Action::Remove(Marker::SocketLock),
        Action::CreateDirAll(Marker::MysqlDir),
        Action::CreateEmptyFile(Marker::SchemaMarker),
        Action::Run(runapp::model::Cmd::MysqlCred, runapp::model::EnvKind::Plain),
        Action::CopyFile(Marker::TargetWar, Marker::DeployedWar),
        Action::Remove(Marker::SchemaMarker),
    ];
    fs.apply_all(&trace);
    assert!(!fs.has(Marker::SocketLock));
    assert!(fs.has(Marker::MysqlDir));
    assert!(!fs.has(Marker::SchemaMarker));
    assert!(fs.has(Marker::DeployedWar));
    // the copy's source is not created by copying
    assert!(!fs.has(Marker::TargetWar));
}
