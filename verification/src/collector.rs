//! The environment snapshot's working-directory resolution: a deterministic
//! fallback chain over what the host reports. The host hands in each source it
//! could read; this function decides which one wins.

use vstd::prelude::*;

verus! {

/// Picks the initial working directory: the process-reported current
/// directory, else a `PWD`-style environment variable, else the caller's home
/// directory, else the directory holding the running executable. First success
/// wins, so the chain never fails.
pub fn resolve_init_cwd(
    current_dir: Option<String>,
    pwd_var: Option<String>,
    home_dir: Option<String>,
    exe_dir: String,
) -> (r: String)
    ensures
        current_dir matches Some(c) ==> r == c,
        current_dir is None ==> (pwd_var matches Some(p) ==> r == p),
        current_dir is None && pwd_var is None ==> (home_dir matches Some(h) ==> r == h),
        current_dir is None && pwd_var is None && home_dir is None ==> r == exe_dir,
{
    match current_dir {
        Some(c) => c,
        None => match pwd_var {
            Some(p) => p,
            None => match home_dir {
                Some(h) => h,
                None => exe_dir,
            },
        },
    }
}

} // verus!
