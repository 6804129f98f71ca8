//! The deployment step.
//!
//! Runs only after the build join released it: any previously deployed
//! artifact is removed, the fresh artifact is copied into the server's
//! webapps directory, and the application server is restarted. The
//! resource-copy step used alongside it ships the project's database
//! resource files to the server.

use vstd::prelude::*;

use crate::model::Action;
use crate::model::Cmd;
use crate::model::EnvKind;
use crate::model::Marker;
use crate::model::SysState;

verus! {

/// Deploying the built artifact: clear whatever of the old deployment
/// exists, copy the new archive into place, restart the server.
pub open spec fn start_tomcat_actions(st: SysState) -> Seq<Action> {
    (if st.deployed_war_present {
        seq![Action::Remove(Marker::DeployedWar)]
    } else {
        seq![]
    }) + (if st.deployed_dir_present {
        seq![Action::Remove(Marker::DeployedDir)]
    } else {
        seq![]
    }) + seq![
        Action::CopyFile(Marker::TargetWar, Marker::DeployedWar),
        Action::Run(Cmd::CatalinaStart, EnvKind::Plain),
    ]
}

/// Replace the deployed artifact with the newly built one and restart
/// the application server.
pub fn start_tomcat(st: &SysState) -> (r: Vec<Action>)
    ensures
        r@ == start_tomcat_actions(*st),
{
    let mut v: Vec<Action> = Vec::new();
    if st.deployed_war_present {
        v.push(Action::Remove(Marker::DeployedWar));
    }
    if st.deployed_dir_present {
        v.push(Action::Remove(Marker::DeployedDir));
    }
    v.push(Action::CopyFile(Marker::TargetWar, Marker::DeployedWar));
    v.push(Action::Run(Cmd::CatalinaStart, EnvKind::Plain));
    proof {
        assert(v@ =~= start_tomcat_actions(*st));
    }
    v
}

/// Shipping the project's database resource files to the server: the
/// server-side directory is created when missing, then the tree is
/// copied over.
pub open spec fn copy_db_files_actions(st: SysState) -> Seq<Action> {
    (if !st.db_resource_dir_present {
        seq![Action::CreateDirAll(Marker::DbResourceDir)]
    } else {
        seq![]
    }) + seq![Action::CopyTree(Marker::SrcDbDir, Marker::DbResourceDir)]
}

/// Copy the project's database resource files to the server.
pub fn copy_db_files(st: &SysState) -> (r: Vec<Action>)
    ensures
        r@ == copy_db_files_actions(*st),
{
    let mut v: Vec<Action> = Vec::new();
    if !st.db_resource_dir_present {
        v.push(Action::CreateDirAll(Marker::DbResourceDir));
    }
    v.push(Action::CopyTree(Marker::SrcDbDir, Marker::DbResourceDir));
    proof {
        assert(v@ =~= copy_db_files_actions(*st));
    }
    v
}

} // verus!
