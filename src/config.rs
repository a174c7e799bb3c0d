//! Transcript path and shell selection.
use vstd::prelude::*;

verus! {

/// The transcript written when no path is given, in the current directory.
pub open spec fn default_output_spec() -> Seq<char> {
    "typescript"@
}

/// The shell started when the shell-selection variable is unset.
pub open spec fn fallback_shell_spec() -> Seq<char> {
    "/bin/sh"@
}

/// The transcript path: the one given, else the default name.
pub fn output_path(given: Option<String>) -> (r: String)
    ensures
        given is Some ==> r@ == given->Some_0@,
        given is None ==> r@ == default_output_spec(),
{
    match given {
        Some(p) => p,
        None => "typescript".to_owned(),
    }
}

/// The shell to start: the value of the shell-selection variable where it
/// is set, else the fallback shell.
pub fn shell_path(from_env: Option<String>) -> (r: String)
    ensures
        from_env is Some ==> r@ == from_env->Some_0@,
        from_env is None ==> r@ == fallback_shell_spec(),
{
    match from_env {
        Some(s) => s,
        None => "/bin/sh".to_owned(),
    }
}

} // verus!
