//! The lifecycle controller's table, one test per observed state.

use runapp::lifecycle::check_port;
use runapp::lifecycle::start_database;
use runapp::model::Action;
use runapp::model::Cmd;
use runapp::model::EngineError;
use runapp::model::EnvKind;
use runapp::model::SysState;

fn observed(lock: bool, running: bool) -> SysState {
    SysState {
        port_in_use: false,
        lock_present: lock,
        mysql_running: running,
        mysql_dir_present: true,
        data_dir_present: true,
        schema_marker_present: false,
        target_present: false,
        deployed_war_present: false,
        deployed_dir_present: false,
        server_logs_present: true,
        db_resource_dir_present: true,
    }
}

fn grant() -> Vec<Action> {
    vec![
        Action::Sleep(3),
        Action::Run(Cmd::MysqlInfile, EnvKind::Socket),
        Action::Sleep(3),
    ]
}

#[test]
fn lifecycle_no_lock_not_running_starts() {
    let mut expected = vec![
        Action::Run(Cmd::StartMysql, EnvKind::Mysql),
        Action::Sleep(3),
    ];
    expected.extend(grant());
    assert_eq!(start_database(&observed(false, false)), expected);
}

#[test]
fn lifecycle_healthy_only_grants() {
    assert_eq!(start_database(&observed(true, true)), grant());
}

#[test]
fn lifecycle_orphan_process_killed_and_restarted() {
    let mut expected = vec![
        Action::Run(Cmd::PkillMysqld, EnvKind::Plain),
        Action::Sleep(3),
        Action::Run(Cmd::StartMysql, EnvKind::Mysql),
        Action::Sleep(3),
    ];
    expected.extend(grant());
    assert_eq!(start_database(&observed(false, true)), expected);
}

#[test]
fn lifecycle_stale_lock_cleared_and_started() {
    let mut expected = vec![
        Action::Remove(runapp::model::Marker::SocketLock),
        Action::Run(Cmd::StartMysql, EnvKind::Mysql),
        Action::Sleep(3),
    ];
    expected.extend(grant());
    assert_eq!(start_database(&observed(true, false)), expected);
}

#[test]
fn lifecycle_actions_differ_per_state() {
    let a = start_database(&observed(false, false));
    let b = start_database(&observed(true, true));
    let c = start_database(&observed(false, true));
    let d = start_database(&observed(true, false));
    assert_ne!(a, b);
    assert_ne!(a, c);
    assert_ne!(a, d);
    assert_ne!(b, c);
    assert_ne!(b, d);
    assert_ne!(c, d);
}

#[test]
fn port_in_use_is_refused() {
    assert_eq!(check_port(true), Err(EngineError::PortInUse));
    assert_eq!(check_port(false), Ok(()));
}
