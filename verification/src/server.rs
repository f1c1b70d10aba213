//! Where the broker executable is looked for, first match first.

use vstd::prelude::*;

verus! {

/// Environment variable that names the broker executable outright.
pub const SERVER_PATH_ENV: &'static str = "PSLOG_SERVER_PATH";

/// Where a system install puts the broker executable.
pub const SYSTEM_SERVER_PATH: &'static str = "/usr/local/lib/pslog/pslog_server";

/// File name of the broker executable, beside the client or on the search path.
pub const SERVER_BINARY: &'static str = "pslog_server";

/// Where the broker executable is taken from.
#[derive(Clone, Debug, PartialEq, Eq)]
pub enum ServerLocation {
    /// The path that the environment variable gives.
    FromEnv(String),
    /// `SYSTEM_SERVER_PATH`.
    SystemInstall,
    /// `SERVER_BINARY` in the directory of the running client.
    BesideExecutable,
    /// `SERVER_BINARY`, looked up on the search path when it is run.
    SearchPath,
}

/// Picks the broker's location: the environment override when set, else the
/// system install when it exists, else the copy beside the client when it
/// exists, else the bare name for the search path.
pub fn choose_server_location(
    env_override: Option<String>,
    system_exists: bool,
    beside_exists: bool,
) -> (r: ServerLocation)
    ensures
        r == match env_override {
            Some(p) => ServerLocation::FromEnv(p),
            None => if system_exists {
                ServerLocation::SystemInstall
            } else if beside_exists {
                ServerLocation::BesideExecutable
            } else {
                ServerLocation::SearchPath
            },
        },
{
    match env_override {
        Some(p) => ServerLocation::FromEnv(p),
        None => {
            if system_exists {
                ServerLocation::SystemInstall
            } else if beside_exists {
                ServerLocation::BesideExecutable
            } else {
                ServerLocation::SearchPath
            }
        },
    }
}

} // verus!
