//! An end-to-end local-mode scenario, and the small rendering helpers.

use runapp::model::Action;
use runapp::model::BuildMode;
use runapp::model::Cmd;
use runapp::model::EnvKind;
use runapp::model::Marker;
use runapp::model::SysState;
use runapp::orchestrate::plan_local;
use runapp::orchestrate::schedule;
use runapp::paths::marker_path;
use runapp::paths::maven_args;
use runapp::paths::maven_mode_arg;
use runapp::paths::mysql_socket_path;
use runapp::paths::set_mysql_envs;
use runapp::runner::CmdVerdict;
use runapp::runner::RemoveOutcome;
use runapp::runner::classify_exit;
use runapp::runner::removal_fatal;
use runapp::timing::duration_parts;

fn count(v: &[Action], a: Action) -> usize {
    v.iter().filter(|x| **x == a).count()
}

#[test]
fn fresh_local_run_for_webapp() {
    // registration name "webapp", no mysql/data yet, local mode
    let st = SysState {
        port_in_use: false,
        lock_present: false,
        mysql_running: false,
        mysql_dir_present: true,
        data_dir_present: false,
        schema_marker_present: false,
        target_present: false,
        deployed_war_present: false,
        deployed_dir_present: false,
        server_logs_present: true,
        db_resource_dir_present: true,
    };
    let p = plan_local(&st).unwrap();

    // no previous build output: the first-time lifecycle is requested
    // and there is nothing to clean
    assert_eq!(p.build_mode, BuildMode::Install);
    assert_eq!(maven_mode_arg(p.build_mode), "install");
    assert!(p.build_clean.is_empty());

    // each provisioning command is issued exactly once
    assert_eq!(count(&p.setup, Action::Run(Cmd::MysqlInit, EnvKind::Mysql)), 1);
    assert_eq!(count(&p.setup, Action::Run(Cmd::MysqlCred, EnvKind::Mysql)), 1);
    assert_eq!(count(&p.setup, Action::Run(Cmd::StartMysql, EnvKind::Mysql)), 1);
    assert_eq!(count(&p.setup, Action::Run(Cmd::MysqlInfile, EnvKind::Socket)), 1);

    // the build is spawned, everything above runs beside it, and the
    // join comes before any deployment action
    let sched = schedule(&p, true);
    let spawn = sched
        .iter()
        .position(|a| *a == Action::SpawnBuild(BuildMode::Install))
        .unwrap();
    let join = sched.iter().position(|a| *a == Action::JoinBuild).unwrap();
    let copy = sched
        .iter()
        .position(|a| *a == Action::CopyFile(Marker::TargetWar, Marker::DeployedWar))
        .unwrap();
    let restart = sched
        .iter()
        .position(|a| *a == Action::Run(Cmd::CatalinaStart, EnvKind::Plain))
        .unwrap();
    assert!(spawn < join);
    assert!(join < copy);
    assert!(copy < restart);

    // the deployed path is created from the built artifact
    assert_eq!(
        marker_path(Marker::TargetWar, "webapp", "/home/dev", "/srv/tomcat"),
        "target/webapp.war"
    );
    assert_eq!(
        marker_path(Marker::DeployedWar, "webapp", "/home/dev", "/srv/tomcat"),
        "/srv/tomcat/webapps/webapp.war"
    );
}

#[test]
fn marker_paths_substitute_name_home_and_server() {
    assert_eq!(
        marker_path(Marker::HomeCred, "webapp", "/home/dev", "/srv/tomcat"),
        "/home/dev/.my.cnf"
    );
    assert_eq!(marker_path(Marker::DataDir, "webapp", "/home/dev", "/srv/tomcat"), "mysql/data");
    assert_eq!(
        marker_path(Marker::SocketLock, "webapp", "/home/dev", "/srv/tomcat"),
        "mysql/socket.lock"
    );
    assert_eq!(
        marker_path(Marker::SchemaMarker, "webapp", "/home/dev", "/srv/tomcat"),
        "mysql/webapp.sql"
    );
    assert_eq!(
        marker_path(Marker::DeployedDir, "webapp", "/home/dev", "/srv/tomcat"),
        "/srv/tomcat/webapps/webapp"
    );
    assert_eq!(
        marker_path(Marker::ServerLogs, "webapp", "/home/dev", "/srv/tomcat"),
        "/srv/tomcat/logs"
    );
    assert_eq!(
        marker_path(Marker::BuildLog, "webapp", "/home/dev", "/srv/tomcat"),
        "tomcat/compile_log.txt"
    );
}

#[test]
fn database_environment_derives_from_the_name() {
    let envs = set_mysql_envs("webapp", "/work/project");
    assert_eq!(envs.len(), 4);
    assert_eq!(envs[0], ("MYSQL_USER".to_string(), "webapp".to_string()));
    assert_eq!(envs[1], ("MYSQL_PASSWORD".to_string(), "webapp".to_string()));
    assert_eq!(
        envs[2],
        ("MYSQL_UNIX_PORT".to_string(), "/work/project/mysql/socket".to_string())
    );
    assert_eq!(envs[3], ("MYSQL_DATABASE".to_string(), "webapp".to_string()));
    assert_eq!(mysql_socket_path("/work/project"), "/work/project/mysql/socket");
}

#[test]
fn build_tool_arguments() {
    let args = maven_args(BuildMode::Package);
    assert_eq!(args, vec!["clean".to_string(), "package".to_string(), "-DskipTests".to_string()]);
    assert_eq!(maven_args(BuildMode::Install)[1], "install");
}

#[test]
fn exit_classification_policy() {
    assert_eq!(classify_exit(Cmd::MysqlInit, false, false), CmdVerdict::Fatal);
    assert_eq!(classify_exit(Cmd::MysqlInit, true, true), CmdVerdict::Proceed);
    assert_eq!(classify_exit(Cmd::MysqlInit, true, false), CmdVerdict::Fatal);
    assert_eq!(classify_exit(Cmd::StopTomcat, true, false), CmdVerdict::Tolerated);
    assert_eq!(classify_exit(Cmd::DockerComposeDown, true, false), CmdVerdict::Tolerated);
    assert_eq!(classify_exit(Cmd::DockerComposeDown, false, false), CmdVerdict::Fatal);
    assert_eq!(classify_exit(Cmd::StopMysql, true, false), CmdVerdict::Tolerated);
    assert_eq!(classify_exit(Cmd::PkillMysqld, true, false), CmdVerdict::Tolerated);
    assert_eq!(classify_exit(Cmd::StartMysql, true, false), CmdVerdict::Fatal);
}

#[test]
fn removal_error_policy() {
    assert!(!removal_fatal(RemoveOutcome::Removed));
    assert!(!removal_fatal(RemoveOutcome::AlreadyAbsent));
    assert!(removal_fatal(RemoveOutcome::Failed));
}

#[test]
fn duration_split_exact() {
    let p = duration_parts(61, 500);
    assert_eq!((p.minutes, p.seconds, p.millis), (1, 1, 500));
    assert!(p.long_form);
    let q = duration_parts(59, 7);
    assert_eq!((q.minutes, q.seconds, q.millis), (0, 59, 7));
    assert!(!q.long_form);
    let r = duration_parts(3600, 0);
    assert_eq!((r.minutes, r.seconds), (60, 0));
}
