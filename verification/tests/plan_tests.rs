//! Whole-run plans: the join gate, the concurrency shape, the external
//! schema branch, and teardown.

use runapp::compile::BuildResult;
use runapp::compile::after_join;
use runapp::compile::build_failure_excerpt;
use runapp::compile::prepare_build;
use runapp::model::Action;
use runapp::model::BuildMode;
use runapp::model::Cmd;
use runapp::model::EnvKind;
use runapp::model::Marker;
use runapp::model::SysState;
use runapp::orchestrate::plan_code;
use runapp::orchestrate::plan_default;
use runapp::orchestrate::plan_docker;
use runapp::orchestrate::plan_local;
use runapp::orchestrate::schedule;
use runapp::setup::setup_external_database;
use runapp::teardown::clean_up_begin;
use runapp::teardown::clean_up_finish;
use runapp::teardown::drop_database;

fn base_state() -> SysState {
    SysState {
        port_in_use: false,
        lock_present: false,
        mysql_running: false,
        mysql_dir_present: true,
        data_dir_present: true,
        schema_marker_present: false,
        target_present: true,
        deployed_war_present: true,
        deployed_dir_present: true,
        server_logs_present: true,
        db_resource_dir_present: true,
    }
}

fn is_deploy(a: &Action) -> bool {
    match a {
        Action::CopyFile(_, _) => true,
        Action::CopyTree(_, _) => true,
        Action::Run(Cmd::CatalinaStart, _) => true,
        Action::Run(Cmd::DockerBuildImage, _) => true,
        _ => false,
    }
}

#[test]
fn build_failure_prevents_deployment() {
    let st = base_state();
    let p = plan_local(&st).unwrap();
    // the deployment phase is not empty on success ...
    assert!(p.post.iter().any(is_deploy));
    // ... but with a failed join the foreground holds zero copy or
    // restart actions
    let sched = schedule(&p, false);
    assert_eq!(sched.iter().filter(|a| is_deploy(a)).count(), 0);
    // and the join gate refuses to release the post phase
    let excerpt = vec![String::from("error: compilation failed")];
    let gated = after_join(BuildResult::Failure(excerpt.clone()), p.post);
    assert_eq!(gated, Err(excerpt));
}

#[test]
fn successful_build_releases_deployment() {
    let st = base_state();
    let p = plan_local(&st).unwrap();
    let post = p.post.clone();
    assert_eq!(after_join(BuildResult::Success, p.post), Ok(post));
}

#[test]
fn setup_runs_between_spawn_and_join() {
    let st = base_state();
    let p = plan_local(&st).unwrap();
    let setup = p.setup.clone();
    let sched = schedule(&p, true);
    let spawn = sched
        .iter()
        .position(|a| matches!(a, Action::SpawnBuild(_)))
        .unwrap();
    let join = sched
        .iter()
        .position(|a| matches!(a, Action::JoinBuild))
        .unwrap();
    assert!(spawn < join);
    // every database/credential setup action stands after the spawn and
    // before the join: setup is not serialized after the build
    for a in setup.iter() {
        let at = sched.iter().position(|b| b == a).unwrap();
        assert!(spawn < at && at < join, "setup action outside the concurrent window");
    }
    assert_eq!(sched[spawn + 1..join], setup[..]);
}

#[test]
fn external_setup_without_marker_creates_and_writes_marker() {
    let mut st = base_state();
    st.schema_marker_present = false;
    let v = setup_external_database(&st);
    assert_eq!(
        v,
        vec![
            Action::Run(Cmd::MysqlCred, EnvKind::Plain),
            Action::Run(Cmd::MysqlInitRemote, EnvKind::Plain),
            Action::CreateEmptyFile(Marker::SchemaMarker),
        ]
    );
    let mut fs = runapp::fsmodel::FsModel::empty();
    fs.apply_all(&v);
    assert!(fs.has(Marker::SchemaMarker));
}

#[test]
fn external_setup_with_marker_loads_instead() {
    let mut st = base_state();
    st.schema_marker_present = true;
    let v = setup_external_database(&st);
    assert_eq!(
        v,
        vec![
            Action::Run(Cmd::MysqlCred, EnvKind::Plain),
            Action::Run(Cmd::MysqlInfile, EnvKind::Plain),
        ]
    );
}

#[test]
fn teardown_without_data_dir_only_stops_services() {
    let mut st = base_state();
    st.data_dir_present = false;
    let (begin, probe) = clean_up_begin(&st);
    assert_eq!(
        begin,
        vec![
            Action::Run(Cmd::StopTomcat, EnvKind::Plain),
            Action::Run(Cmd::DockerComposeDown, EnvKind::Plain),
        ]
    );
    assert!(!probe);
    let finish = clean_up_finish(&st, false);
    assert!(finish.is_empty());
}

#[test]
fn teardown_with_data_dir_stops_waits_and_removes() {
    // the lock file is absent in the base state; the stop is gated on
    // the data directory alone, so it is issued all the same
    let st = base_state();
    let (begin, probe) = clean_up_begin(&st);
    assert_eq!(
        begin,
        vec![
            Action::Run(Cmd::StopTomcat, EnvKind::Plain),
            Action::Run(Cmd::DockerComposeDown, EnvKind::Plain),
            Action::Run(Cmd::StopMysql, EnvKind::Plain),
        ]
    );
    assert!(probe);
    let finish = clean_up_finish(&st, false);
    assert_eq!(finish[0], Action::Sleep(5));
    assert!(finish.contains(&Action::Remove(Marker::HomeCred)));
    assert!(finish.contains(&Action::Remove(Marker::TargetWar)));
    assert!(finish.contains(&Action::Remove(Marker::DeployedWar)));
    assert!(finish.contains(&Action::Remove(Marker::ProjectLogs)));
}

#[test]
fn teardown_kills_survivor_after_graceful_stop() {
    // whether the kill is issued depends on the repeated process probe
    // alone, not on the lock file (absent here)
    let st = base_state();
    let (begin, probe) = clean_up_begin(&st);
    assert_eq!(*begin.last().unwrap(), Action::Run(Cmd::StopMysql, EnvKind::Plain));
    assert!(probe);
    let survived = clean_up_finish(&st, true);
    assert_eq!(survived[0], Action::Run(Cmd::PkillMysqld, EnvKind::Plain));
    assert_eq!(survived[1], Action::Sleep(5));
    let exited = clean_up_finish(&st, false);
    assert_eq!(exited[0], Action::Sleep(5));
    assert!(!exited.contains(&Action::Run(Cmd::PkillMysqld, EnvKind::Plain)));
}

#[test]
fn drop_with_marker_drops_schema_first() {
    let mut st = base_state();
    st.schema_marker_present = true;
    let v = drop_database(&st);
    assert_eq!(v[0], Action::Run(Cmd::MysqlDrop, EnvKind::Plain));
    assert_eq!(v[1], Action::Sleep(1));
    assert_eq!(v[2], Action::Remove(Marker::SchemaMarker));
    assert!(v.contains(&Action::Remove(Marker::DataDir)));
}

#[test]
fn drop_without_marker_skips_schema_drop() {
    let mut st = base_state();
    st.schema_marker_present = false;
    let v = drop_database(&st);
    assert_eq!(v[0], Action::Remove(Marker::DataDir));
    assert!(!v.contains(&Action::Run(Cmd::MysqlDrop, EnvKind::Plain)));
}

#[test]
fn previous_output_means_clean_and_package() {
    let prep = prepare_build(true);
    assert_eq!(prep.clean, vec![Action::Remove(Marker::TargetDir)]);
    assert_eq!(prep.mode, BuildMode::Package);
}

#[test]
fn first_build_means_install_and_no_clean() {
    let prep = prepare_build(false);
    assert!(prep.clean.is_empty());
    assert_eq!(prep.mode, BuildMode::Install);
}

#[test]
fn failure_excerpt_is_bounded_and_newest_first() {
    let lines: Vec<String> = (0..60).map(|i| format!("line {}", i)).collect();
    let tail = build_failure_excerpt(lines);
    assert_eq!(tail.len(), 50);
    assert_eq!(tail[0], "line 59");
    assert_eq!(tail[49], "line 10");
}

#[test]
fn failure_excerpt_of_a_short_log_is_the_whole_log_reversed() {
    let lines = vec![String::from("a"), String::from("b"), String::from("c")];
    let tail = build_failure_excerpt(lines);
    assert_eq!(tail, vec![String::from("c"), String::from("b"), String::from("a")]);
}

#[test]
fn port_in_use_refuses_local_and_code_plans() {
    let mut st = base_state();
    st.port_in_use = true;
    assert!(plan_local(&st).is_err());
    assert!(plan_code(&st).is_err());
}

#[test]
fn docker_plan_builds_image_after_join() {
    let st = base_state();
    let p = plan_docker(&st);
    assert_eq!(p.preflight, vec![Action::Run(Cmd::DockerComposeDown, EnvKind::Plain)]);
    assert_eq!(p.post, vec![Action::Run(Cmd::DockerBuildImage, EnvKind::Plain)]);
}

#[test]
fn default_plan_ships_resources_after_join() {
    let st = base_state();
    let p = plan_default(&st);
    assert!(p.preflight.is_empty());
    assert_eq!(p.post, vec![Action::CopyTree(Marker::SrcDbDir, Marker::DbResourceDir)]);
}
