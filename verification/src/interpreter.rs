use vstd::prelude::*;

verus! {

/// Where the backend's interpreter was found, in priority order.
#[derive(Clone, Copy, PartialEq, Eq, Structural, Debug)]
pub enum InterpreterSource {
    /// A virtual environment one level above the backend directory.
    OneLevelUpVenv,
    /// A virtual environment inside the backend directory.
    InDirVenv,
    /// The path named by the designated environment variable.
    EnvOverride,
    /// The bare generic name, resolved on the search path at spawn time.
    SearchPath,
}

/// The candidate interpreter one level above the backend directory.
pub fn one_level_up_candidate(backend_dir: &str) -> (p: String)
    ensures
        p@ == backend_dir@ + "/../.venv/bin/python"@,
{
    String::from_str(backend_dir).concat("/../.venv/bin/python")
}

/// The candidate interpreter inside the backend directory.
pub fn in_dir_candidate(backend_dir: &str) -> (p: String)
    ensures
        p@ == backend_dir@ + "/.venv/bin/python"@,
{
    String::from_str(backend_dir).concat("/.venv/bin/python")
}

/// Which source wins, given which candidates are available.  The two
/// embedded virtual environments are preferred over everything, and the
/// one-level-up environment over the in-directory one; the environment
/// override comes next, and the bare search-path name is the last word.
pub open spec fn chosen_source(
    one_level_up_exists: bool,
    in_dir_exists: bool,
    has_override: bool,
) -> InterpreterSource {
    if one_level_up_exists {
        InterpreterSource::OneLevelUpVenv
    } else if in_dir_exists {
        InterpreterSource::InDirVenv
    } else if has_override {
        InterpreterSource::EnvOverride
    } else {
        InterpreterSource::SearchPath
    }
}

/// Pick the interpreter for a resolved backend directory.  The two
/// existence flags report whether the corresponding candidate path is
/// present on disk; `env_override` is the value of the designated
/// environment variable, if it is set.  Never fails: the last resort is
/// the bare name `python3`, left to the search path at spawn time.
pub fn locate(
    backend_dir: &str,
    one_level_up_exists: bool,
    in_dir_exists: bool,
    env_override: Option<String>,
) -> (r: (InterpreterSource, String))
    ensures
        r.0 == chosen_source(one_level_up_exists, in_dir_exists, env_override is Some),
        one_level_up_exists ==> r.1@ == backend_dir@ + "/../.venv/bin/python"@,
        !one_level_up_exists && in_dir_exists ==> r.1@ == backend_dir@ + "/.venv/bin/python"@,
        !one_level_up_exists && !in_dir_exists && env_override is Some ==> Some(r.1)
            == env_override,
        !one_level_up_exists && !in_dir_exists && env_override is None ==> r.1@ == "python3"@,
{
    if one_level_up_exists {
        (InterpreterSource::OneLevelUpVenv, one_level_up_candidate(backend_dir))
    } else if in_dir_exists {
        (InterpreterSource::InDirVenv, in_dir_candidate(backend_dir))
    } else {
        match env_override {
            Some(p) => (InterpreterSource::EnvOverride, p),
            None => (InterpreterSource::SearchPath, String::from_str("python3")),
        }
    }
}

/// The diagnostics line recorded for the interpreter decision: the two
/// embedded virtual environments are worth naming in the log; an
/// override or search-path fallback is not logged.
pub fn interpreter_log_line(source: InterpreterSource, path: &str) -> (m: Option<String>)
    ensures
        source == InterpreterSource::OneLevelUpVenv ==> (m matches Some(s) && s@
            == "Using repo root venv python at "@ + path@),
        source == InterpreterSource::InDirVenv ==> (m matches Some(s) && s@
            == "Using backend-local venv python at "@ + path@),
        source == InterpreterSource::EnvOverride || source == InterpreterSource::SearchPath
            ==> m is None,
{
    match source {
        InterpreterSource::OneLevelUpVenv => Some(
            String::from_str("Using repo root venv python at ").concat(path),
        ),
        InterpreterSource::InDirVenv => Some(
            String::from_str("Using backend-local venv python at ").concat(path),
        ),
        InterpreterSource::EnvOverride => None,
        InterpreterSource::SearchPath => None,
    }
}

/// With both embedded virtual environments present — whatever the
/// override variable says — the one-level-up interpreter is chosen.
pub proof fn lemma_one_level_up_preferred(has_override: bool)
    ensures
        chosen_source(true, true, has_override) == InterpreterSource::OneLevelUpVenv,
{
}

} // verus!
