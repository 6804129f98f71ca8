//! Whole-run plans, one per target environment.
//!
//! A provisioning run has a fixed shape: a short preflight, the build
//! task spawned into the background, the credential and database setup
//! run in the foreground while the build goes on, a single join, and —
//! only after a successful join — the post phase that deploys. The plan
//! records the phases; the join gate (`crate::compile::after_join`)
//! releases the post phase.

use vstd::prelude::*;

use crate::compile::BuildPrep;
use crate::compile::build_clean_actions;
use crate::compile::build_mode_for;
use crate::compile::prepare_build;
use crate::deploy::copy_db_files;
use crate::deploy::copy_db_files_actions;
use crate::deploy::start_tomcat;
use crate::deploy::start_tomcat_actions;
use crate::lifecycle::start_database;
use crate::lifecycle::start_database_actions;
use crate::model::Action;
use crate::model::BuildMode;
use crate::model::Cmd;
use crate::model::EngineError;
use crate::model::EnvKind;
use crate::model::SysState;
use crate::model::lemma_none_deploy_concat;
use crate::model::none_deploy;
use crate::setup::clean_local_credentials;
use crate::setup::clean_local_credentials_actions;
use crate::setup::setup_external_database;
use crate::setup::setup_external_database_actions;
use crate::setup::setup_local_database;
use crate::setup::setup_local_database_actions;

verus! {

/// A whole provisioning run, phase by phase. The post phase must never
/// run unless the join reported a successful build.
pub struct ProvisionPlan {
    /// Performed first, in the foreground.
    pub preflight: Vec<Action>,
    /// Performed inside the build task, before the build tool runs.
    pub build_clean: Vec<Action>,
    /// The build lifecycle the build task requests.
    pub build_mode: BuildMode,
    /// Performed in the foreground while the build task runs.
    pub setup: Vec<Action>,
    /// Performed only after the join reported success.
    pub post: Vec<Action>,
}

/// The foreground of a run, in order: preflight, the spawn, the setup
/// that runs beside the build, the join, and — only on success — the
/// post phase.
pub open spec fn foreground_trace(p: ProvisionPlan, build_ok: bool) -> Seq<Action> {
    p.preflight@ + seq![Action::SpawnBuild(p.build_mode)] + p.setup@ + seq![Action::JoinBuild]
        + if build_ok {
        p.post@
    } else {
        Seq::<Action>::empty()
    }
}

/// Deployment actions appear in the post phase alone.
pub open spec fn plan_wf(p: ProvisionPlan) -> bool {
    none_deploy(p.preflight@) && none_deploy(p.build_clean@) && none_deploy(p.setup@)
}

/// What the local-environment plan holds, given the observed state.
pub open spec fn plan_local_ok(st: SysState, p: ProvisionPlan) -> bool {
    &&& p.preflight@ == seq![Action::Run(Cmd::StopTomcat, EnvKind::Plain)]
    &&& p.build_clean@ == build_clean_actions(st.target_present)
    &&& p.build_mode == build_mode_for(st.target_present)
    &&& p.setup@ == clean_local_credentials_actions(st) + setup_local_database_actions(st)
        + start_database_actions(st)
    &&& p.post@ == start_tomcat_actions(st)
}

/// What the IDE-integrated plan holds, given the observed state.
pub open spec fn plan_code_ok(st: SysState, p: ProvisionPlan) -> bool {
    &&& p.preflight@ == seq![Action::Run(Cmd::StopTomcat, EnvKind::Plain)]
    &&& p.build_clean@ == build_clean_actions(st.target_present)
    &&& p.build_mode == build_mode_for(st.target_present)
    &&& p.setup@ == clean_local_credentials_actions(st) + setup_external_database_actions(st)
    &&& p.post@ == start_tomcat_actions(st)
}

/// What the containerized plan holds, given the observed state.
pub open spec fn plan_docker_ok(st: SysState, p: ProvisionPlan) -> bool {
    &&& p.preflight@ == seq![Action::Run(Cmd::DockerComposeDown, EnvKind::Plain)]
    &&& p.build_clean@ == build_clean_actions(st.target_present)
    &&& p.build_mode == build_mode_for(st.target_present)
    &&& p.setup@ == clean_local_credentials_actions(st) + setup_local_database_actions(st)
        + start_database_actions(st)
    &&& p.post@ == seq![Action::Run(Cmd::DockerBuildImage, EnvKind::Plain)]
}

/// What the default plan (no subcommand) holds, given the observed
/// state.
pub open spec fn plan_default_ok(st: SysState, p: ProvisionPlan) -> bool {
    &&& p.preflight@ == Seq::<Action>::empty()
    &&& p.build_clean@ == build_clean_actions(st.target_present)
    &&& p.build_mode == build_mode_for(st.target_present)
    &&& p.setup@ == clean_local_credentials_actions(st) + setup_external_database_actions(st)
    &&& p.post@ == copy_db_files_actions(st)
}

/// Plan a local-environment run: refused outright while the server's
/// port is taken; otherwise stop the old server, build in the
/// background, set up the local database beside it, and deploy after
/// the join.
pub fn plan_local(st: &SysState) -> (r: Result<ProvisionPlan, EngineError>)
    ensures
        st.port_in_use ==> r == Result::<ProvisionPlan, EngineError>::Err(EngineError::PortInUse),
        !st.port_in_use ==> (r matches Ok(p) && plan_local_ok(*st, p) && plan_wf(p)),
{
    if st.port_in_use {
        return Err(EngineError::PortInUse);
    }
    let mut preflight: Vec<Action> = Vec::new();
    preflight.push(Action::Run(Cmd::StopTomcat, EnvKind::Plain));
    let prep: BuildPrep = prepare_build(st.target_present);
    let mut setup = clean_local_credentials(st);
    let mut a = setup_local_database(st);
    setup.append(&mut a);
    let mut b = start_database(st);
    setup.append(&mut b);
    let post = start_tomcat(st);
    let p = ProvisionPlan {
        preflight,
        build_clean: prep.clean,
        build_mode: prep.mode,
        setup,
        post,
    };
    proof {
        assert(p.preflight@ =~= seq![Action::Run(Cmd::StopTomcat, EnvKind::Plain)]);
        lemma_components_none_deploy(*st);
        lemma_none_deploy_concat(
            clean_local_credentials_actions(*st),
            setup_local_database_actions(*st),
        );
        lemma_none_deploy_concat(
            clean_local_credentials_actions(*st) + setup_local_database_actions(*st),
            start_database_actions(*st),
        );
    }
    Ok(p)
}

/// Plan an IDE-integrated run: as the local run, but against the
/// externally hosted schema.
pub fn plan_code(st: &SysState) -> (r: Result<ProvisionPlan, EngineError>)
    ensures
        st.port_in_use ==> r == Result::<ProvisionPlan, EngineError>::Err(EngineError::PortInUse),
        !st.port_in_use ==> (r matches Ok(p) && plan_code_ok(*st, p) && plan_wf(p)),
{
    if st.port_in_use {
        return Err(EngineError::PortInUse);
    }
    let mut preflight: Vec<Action> = Vec::new();
    preflight.push(Action::Run(Cmd::StopTomcat, EnvKind::Plain));
    let prep: BuildPrep = prepare_build(st.target_present);
    let mut setup = clean_local_credentials(st);
    let mut a = setup_external_database(st);
    setup.append(&mut a);
    let post = start_tomcat(st);
    let p = ProvisionPlan {
        preflight,
        build_clean: prep.clean,
        build_mode: prep.mode,
        setup,
        post,
    };
    proof {
        assert(p.preflight@ =~= seq![Action::Run(Cmd::StopTomcat, EnvKind::Plain)]);
        lemma_components_none_deploy(*st);
        lemma_none_deploy_concat(
            clean_local_credentials_actions(*st),
            setup_external_database_actions(*st),
        );
    }
    Ok(p)
}

/// Plan a containerized run: bring the stack down, build in the
/// background, set up the local database beside it, and build the image
/// after the join.
pub fn plan_docker(st: &SysState) -> (p: ProvisionPlan)
    ensures
        plan_docker_ok(*st, p),
        plan_wf(p),
{
    let mut preflight: Vec<Action> = Vec::new();
    preflight.push(Action::Run(Cmd::DockerComposeDown, EnvKind::Plain));
    let prep: BuildPrep = prepare_build(st.target_present);
    let mut setup = clean_local_credentials(st);
    let mut a = setup_local_database(st);
    setup.append(&mut a);
    let mut b = start_database(st);
    setup.append(&mut b);
    let mut post: Vec<Action> = Vec::new();
    post.push(Action::Run(Cmd::DockerBuildImage, EnvKind::Plain));
    let p = ProvisionPlan {
        preflight,
        build_clean: prep.clean,
        build_mode: prep.mode,
        setup,
        post,
    };
    proof {
        assert(p.preflight@ =~= seq![Action::Run(Cmd::DockerComposeDown, EnvKind::Plain)]);
        assert(p.post@ =~= seq![Action::Run(Cmd::DockerBuildImage, EnvKind::Plain)]);
        lemma_components_none_deploy(*st);
        lemma_none_deploy_concat(
            clean_local_credentials_actions(*st),
            setup_local_database_actions(*st),
        );
        lemma_none_deploy_concat(
            clean_local_credentials_actions(*st) + setup_local_database_actions(*st),
            start_database_actions(*st),
        );
    }
    p
}

/// Plan a default run: no preflight, build in the background, external
/// schema setup beside it, and ship the database resource files after
/// the join.
pub fn plan_default(st: &SysState) -> (p: ProvisionPlan)
    ensures
        plan_default_ok(*st, p),
        plan_wf(p),
{
    let preflight: Vec<Action> = Vec::new();
    let prep: BuildPrep = prepare_build(st.target_present);
    let mut setup = clean_local_credentials(st);
    let mut a = setup_external_database(st);
    setup.append(&mut a);
    let post = copy_db_files(st);
    let p = ProvisionPlan {
        preflight,
        build_clean: prep.clean,
        build_mode: prep.mode,
        setup,
        post,
    };
    proof {
        assert(p.preflight@ =~= Seq::<Action>::empty());
        lemma_components_none_deploy(*st);
        lemma_none_deploy_concat(
            clean_local_credentials_actions(*st),
            setup_external_database_actions(*st),
        );
    }
    p
}

/// Append a copy of every action of `src` to `dst`.
fn push_all(dst: &mut Vec<Action>, src: &Vec<Action>)
    ensures
        final(dst)@ == old(dst)@ + src@,
{
    let mut i: usize = 0;
    while i < src.len()
        invariant
            i <= src.len(),
            dst@ == old(dst)@ + src@.subrange(0, i as int),
        decreases src@.len() - i,
    {
        dst.push(src[i]);
        proof {
            assert(old(dst)@ + src@.subrange(0, i + 1 as int) =~= (old(dst)@ + src@.subrange(
                0,
                i as int,
            )).push(src@[i as int]));
        }
        i += 1;
    }
    proof {
        assert(src@.subrange(0, src@.len() as int) =~= src@);
    }
}

/// Flatten a plan into the foreground sequence it stands for, given
/// whether the join will report success.
pub fn schedule(p: &ProvisionPlan, build_ok: bool) -> (r: Vec<Action>)
    ensures
        r@ == foreground_trace(*p, build_ok),
{
    let mut v: Vec<Action> = Vec::new();
    push_all(&mut v, &p.preflight);
    v.push(Action::SpawnBuild(p.build_mode));
    push_all(&mut v, &p.setup);
    v.push(Action::JoinBuild);
    if build_ok {
        push_all(&mut v, &p.post);
    }
    proof {
        assert(v@ =~= foreground_trace(*p, build_ok));
    }
    v
}

/// None of the component sequences that feed a plan's preflight, clean
/// or setup phase holds a deployment action.
pub proof fn lemma_components_none_deploy(st: SysState)
    ensures
        none_deploy(clean_local_credentials_actions(st)),
        none_deploy(setup_local_database_actions(st)),
        none_deploy(setup_external_database_actions(st)),
        none_deploy(start_database_actions(st)),
        none_deploy(build_clean_actions(st.target_present)),
        none_deploy(seq![Action::Run(Cmd::StopTomcat, EnvKind::Plain)]),
        none_deploy(seq![Action::Run(Cmd::DockerComposeDown, EnvKind::Plain)]),
{
}

/// Build failure prevents deployment: with a failing build result the
/// whole foreground trace holds not one deployment action — no copy, no
/// server restart, no image build.
pub proof fn build_failure_blocks_deploy(p: ProvisionPlan)
    requires
        plan_wf(p),
    ensures
        none_deploy(foreground_trace(p, false)),
{
    let spawn = seq![Action::SpawnBuild(p.build_mode)];
    let join = seq![Action::JoinBuild];
    lemma_none_deploy_concat(p.preflight@, spawn);
    lemma_none_deploy_concat(p.preflight@ + spawn, p.setup@);
    lemma_none_deploy_concat(p.preflight@ + spawn + p.setup@, join);
    lemma_none_deploy_concat(p.preflight@ + spawn + p.setup@ + join, Seq::<Action>::empty());
}

/// The build runs concurrently with setup: in every foreground trace
/// the build is spawned before any setup action, and joined only after
/// all of them, so setup is never serialized after the build.
pub proof fn setup_runs_beside_build(p: ProvisionPlan, build_ok: bool)
    ensures
        foreground_trace(p, build_ok).len() >= p.preflight@.len() + p.setup@.len() + 2,
        foreground_trace(p, build_ok)[p.preflight@.len() as int] == Action::SpawnBuild(
            p.build_mode,
        ),
        foreground_trace(p, build_ok)[p.preflight@.len() + 1 + p.setup@.len() as int]
            == Action::JoinBuild,
        forall|k: int| 0 <= k < p.setup@.len()
            ==> foreground_trace(p, build_ok)[p.preflight@.len() + 1 + k] == p.setup@[k],
{
}

} // verus!
