//! Where each marker lives, and which environment the database commands
//! receive.
//!
//! Paths are built from three inputs only: the registration name, the
//! home directory, and the application server's home. Project-local
//! markers are relative to the working directory, as the probes are.

use vstd::prelude::*;

use crate::model::BuildMode;
use crate::model::Marker;

verus! {

/// The path of a marker, as a sequence of characters, from the
/// registration name, the home directory and the server home.
pub open spec fn spec_marker_path(
    m: Marker,
    app: Seq<char>,
    home: Seq<char>,
    server: Seq<char>,
) -> Seq<char> {
    match m {
        Marker::HomeCred => home + "/.my.cnf"@,
        Marker::MysqlDir => "mysql"@,
        Marker::MysqlCred => "mysql/.my.cnf"@,
        Marker::DataDir => "mysql/data"@,
        Marker::SocketLock => "mysql/socket.lock"@,
        Marker::SchemaMarker => "mysql/"@ + app + ".sql"@,
        Marker::TargetDir => "target"@,
        Marker::TargetWar => "target/"@ + app + ".war"@,
        Marker::TargetAppDir => "target/"@ + app,
        Marker::DeployedWar => server + "/webapps/"@ + app + ".war"@,
        Marker::DeployedDir => server + "/webapps/"@ + app,
        Marker::ServerBinSrc => server + "/bin/src"@,
        Marker::DbResourceDir => server + "/bin/src/main/resources/db/application"@,
        Marker::SrcDbDir => "src/main/resources/db/application"@,
        Marker::ServerLogs => server + "/logs"@,
        Marker::ProjectLogs => "logs"@,
        Marker::BuildLog => "tomcat/compile_log.txt"@,
    }
}

/// Render a marker's path.
pub fn marker_path(m: Marker, app: &str, home: &str, server: &str) -> (r: String)
    ensures
        r@ == spec_marker_path(m, app@, home@, server@),
{
    match m {
        Marker::HomeCred => String::from_str(home).concat("/.my.cnf"),
        Marker::MysqlDir => String::from_str("mysql"),
        Marker::MysqlCred => String::from_str("mysql/.my.cnf"),
        Marker::DataDir => String::from_str("mysql/data"),
        Marker::SocketLock => String::from_str("mysql/socket.lock"),
        Marker::SchemaMarker => String::from_str("mysql/").concat(app).concat(".sql"),
        Marker::TargetDir => String::from_str("target"),
        Marker::TargetWar => String::from_str("target/").concat(app).concat(".war"),
        Marker::TargetAppDir => String::from_str("target/").concat(app),
        Marker::DeployedWar => String::from_str(server).concat("/webapps/").concat(app).concat(
            ".war",
        ),
        Marker::DeployedDir => String::from_str(server).concat("/webapps/").concat(app),
        Marker::ServerBinSrc => String::from_str(server).concat("/bin/src"),
        Marker::DbResourceDir => String::from_str(server).concat(
            "/bin/src/main/resources/db/application",
        ),
        Marker::SrcDbDir => String::from_str("src/main/resources/db/application"),
        Marker::ServerLogs => String::from_str(server).concat("/logs"),
        Marker::ProjectLogs => String::from_str("logs"),
        Marker::BuildLog => String::from_str("tomcat/compile_log.txt"),
    }
}

/// The project-local database socket path, under the working directory.
pub fn mysql_socket_path(cwd: &str) -> (r: String)
    ensures
        r@ == cwd@ + "/mysql/socket"@,
{
    String::from_str(cwd).concat("/mysql/socket")
}

/// The database environment derived from the registration name: user,
/// password and database name are all the name itself; the socket is the
/// project-local one.
pub fn set_mysql_envs(app: &str, cwd: &str) -> (r: Vec<(String, String)>)
    ensures
        r@.len() == 4,
        r@[0].0@ == "MYSQL_USER"@ && r@[0].1@ == app@,
        r@[1].0@ == "MYSQL_PASSWORD"@ && r@[1].1@ == app@,
        r@[2].0@ == "MYSQL_UNIX_PORT"@ && r@[2].1@ == cwd@ + "/mysql/socket"@,
        r@[3].0@ == "MYSQL_DATABASE"@ && r@[3].1@ == app@,
{
    let mut v: Vec<(String, String)> = Vec::new();
    v.push((String::from_str("MYSQL_USER"), String::from_str(app)));
    v.push((String::from_str("MYSQL_PASSWORD"), String::from_str(app)));
    v.push((String::from_str("MYSQL_UNIX_PORT"), mysql_socket_path(cwd)));
    v.push((String::from_str("MYSQL_DATABASE"), String::from_str(app)));
    v
}

/// The build tool's lifecycle argument for a build mode.
pub fn maven_mode_arg(m: BuildMode) -> (r: &'static str)
    ensures
        m == BuildMode::Install ==> r@ == "install"@,
        m == BuildMode::Package ==> r@ == "package"@,
{
    match m {
        BuildMode::Install => "install",
        BuildMode::Package => "package",
    }
}

/// The full argument list the build tool is launched with: a clean, the
/// mode's lifecycle, and the switch that skips the test phase.
pub fn maven_args(m: BuildMode) -> (r: Vec<String>)
    ensures
        r@.len() == 3,
        r@[0]@ == "clean"@,
        m == BuildMode::Install ==> r@[1]@ == "install"@,
        m == BuildMode::Package ==> r@[1]@ == "package"@,
        r@[2]@ == "-DskipTests"@,
{
    let mut v: Vec<String> = Vec::new();
    v.push(String::from_str("clean"));
    v.push(String::from_str(maven_mode_arg(m)));
    v.push(String::from_str("-DskipTests"));
    v
}

} // verus!
