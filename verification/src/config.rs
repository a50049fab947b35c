//! Startup configuration: where scripts live, and which address the server
//! binds.
//!
//! The bind address is chosen by precedence: an explicit startup argument
//! wins over an address declared by the configuration script, which wins
//! over the built-in default.

use vstd::prelude::*;
use vstd::string::StringExecFns;

verus! {

/// The address the server binds when neither the command line nor the
/// configuration script supplies one.
pub fn default_server_addr() -> (r: String)
    ensures
        r@ == "0.0.0.0:8000"@,
{
    "0.0.0.0:8000".to_owned()
}

/// The file the configuration script is read from.
pub fn config_file_name() -> (r: String)
    ensures
        r@ == "config.lua"@,
{
    "config.lua".to_owned()
}

/// Resolves a handler script name to its path under the scripts directory.
pub fn script_path(name: &str) -> (r: String)
    ensures
        r@ == "scripts/"@ + name@,
{
    let mut s = "scripts/".to_owned();
    s.append(name);
    s
}

/// Picks the bind address: the startup argument first, then the address the
/// configuration script declared, then the default.
pub fn choose_address(cli: Option<String>, configured: Option<String>) -> (r: String)
    ensures
        cli matches Some(a) ==> r@ == a@,
        cli is None ==> (configured matches Some(a) ==> r@ == a@),
        cli is None && configured is None ==> r@ == "0.0.0.0:8000"@,
{
    match cli {
        Some(a) => a,
        None => match configured {
            Some(a) => a,
            None => default_server_addr(),
        },
    }
}

} // verus!
