//! Environment overrides that point git's credential prompts at a helper.
use vstd::prelude::*;

verus! {

/// The variables that git and ssh read to find their credential prompt
/// program: both name the helper when one was found, none is set otherwise.
pub fn credential_env_overrides(helper_path: Option<&str>) -> (r: Vec<(String, String)>)
    ensures
        helper_path is None ==> r@.len() == 0,
        helper_path matches Some(p) ==> r@.len() == 2 && r@[0].0@ == "GIT_ASKPASS"@ && r@[0].1@
            == p@ && r@[1].0@ == "SSH_ASKPASS"@ && r@[1].1@ == p@,
{
    let mut env: Vec<(String, String)> = Vec::new();
    if let Some(path) = helper_path {
        env.push((String::from_str("GIT_ASKPASS"), String::from_str(path)));
        env.push((String::from_str("SSH_ASKPASS"), String::from_str(path)));
    }
    env
}

} // verus!
