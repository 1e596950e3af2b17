//! Placement decisions made when a new environment is initialized.

use vstd::prelude::*;
use vstd::string::{StrSliceExecFns, StringExecFns};

verus! {

/// Arguments of the init subcommand.
pub struct Args {
    /// Name of the environment.
    pub name: String,
    /// Remote repository to pull the environment from, when given.
    pub repository: Option<String>,
}

/// Directory a named environment lives in, under the environments root.
pub open spec fn env_dir_of(envs_dir: Seq<char>, name: Seq<char>) -> Seq<char> {
    envs_dir + "/"@ + name
}

/// Compute the directory a new environment would occupy.
pub fn project_env_dir(envs_dir: &str, name: &str) -> (r: String)
    ensures
        r@ == env_dir_of(envs_dir@, name@),
{
    let mut out = String::from_str(envs_dir);
    out.append("/");
    out.append(name);
    out
}

/// Decide whether initialization may proceed: an environment directory
/// that already exists is refused, so that an existing environment is
/// never overwritten. The caller reports whether the directory exists.
pub fn init_precheck(name: &str, env_dir: &str, dir_exists: bool) -> (r: Result<(), String>)
    ensures
        r is Ok <==> !dir_exists,
        r is Err ==> r->Err_0@ == "Environment "@ + name@ + " already exists! "@ + env_dir@,
{
    if dir_exists {
        let mut msg = String::from_str("Environment ");
        msg.append(name);
        msg.append(" already exists! ");
        msg.append(env_dir);
        Err(msg)
    } else {
        Ok(())
    }
}

} // verus!
