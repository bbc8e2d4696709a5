use vstd::prelude::*;
use crate::package_json::PackageJson;
use crate::pairs::{find_pair, pair_value};

verus! {

/// Why a script could not be run to a successful end.
#[derive(Debug, PartialEq, Eq)]
pub enum RunError {
    /// The manifest has no `scripts` section.
    NoScriptsDeclared,
    /// No script has the requested name.
    ScriptNotFound(String),
    /// The shell could not be started; the system's message.
    SpawnError(String),
    /// The script ended with this non-zero exit code.
    ScriptExitNonZero(i32),
    /// The script was ended by this signal.
    SignalTermination(i32),
}

/// What `run` does with a manifest: run one command, or list every script.
#[derive(Debug, PartialEq, Eq)]
pub enum RunPlan {
    Execute(String),
    List(Vec<(String, String)>),
}

/// The shell and the flag that makes it run one command: `cmd.exe /c` on
/// Windows, `/bin/sh -c` elsewhere.
pub fn default_shell(windows: bool) -> (r: (&'static str, &'static str))
    ensures
        windows ==> r.0@ == "cmd.exe"@ && r.1@ == "/c"@,
        !windows ==> r.0@ == "/bin/sh"@ && r.1@ == "-c"@,
{
    if windows {
        ("cmd.exe", "/c")
    } else {
        ("/bin/sh", "-c")
    }
}

/// Decides what `run` does: without a name, list the scripts in manifest
/// order; with one, run its command. A manifest without `scripts` and a
/// name that is not there are told apart.
pub fn plan_run(m: &PackageJson, name: Option<&str>) -> (r: Result<RunPlan, RunError>)
    ensures
        match (m.scripts, name) {
            (None, _) => r == Err::<RunPlan, RunError>(RunError::NoScriptsDeclared),
            (Some(scripts), None) => r matches Ok(RunPlan::List(l)) && l@ == scripts@,
            (Some(scripts), Some(n)) => match pair_value(scripts@, n@) {
                Some(c) => r == Ok::<RunPlan, RunError>(RunPlan::Execute(c)),
                None => r matches Err(RunError::ScriptNotFound(s)) && s@ == n@,
            },
        },
{
    let scripts = match &m.scripts {
        None => {
            return Err(RunError::NoScriptsDeclared);
        },
        Some(s) => s,
    };
    match name {
        None => Ok(RunPlan::List(clone_pairs(scripts))),
        Some(n) => match find_pair(scripts, n) {
            Some(c) => Ok(RunPlan::Execute(c.clone())),
            None => Err(RunError::ScriptNotFound(String::from_str(n))),
        },
    }
}

fn clone_pairs(v: &Vec<(String, String)>) -> (r: Vec<(String, String)>)
    ensures
        r@ == v@,
{
    let mut r: Vec<(String, String)> = Vec::new();
    let mut i: usize = 0;
    while i < v.len()
        invariant
            i <= v@.len(),
            r@ =~= v@.subrange(0, i as int),
        decreases v@.len() - i,
    {
        r.push((v[i].0.clone(), v[i].1.clone()));
        i = i + 1;
        assert(r@ =~= v@.subrange(0, i as int));
    }
    assert(v@.subrange(0, v@.len() as int) =~= v@);
    r
}

/// The outcome of a finished script, from its exit code and, where the
/// platform reports one, the signal that ended it. A signal wins over any
/// code, and is never turned into one.
pub fn exit_outcome(code: Option<i32>, signal: Option<i32>) -> (r: Result<(), RunError>)
    requires
        code is Some || signal is Some,
    ensures
        match signal {
            Some(s) => r == Err::<(), RunError>(RunError::SignalTermination(s)),
            None => if code->Some_0 == 0 {
                r is Ok
            } else {
                r == Err::<(), RunError>(RunError::ScriptExitNonZero(code->Some_0))
            },
        },
{
    if let Some(s) = signal {
        return Err(RunError::SignalTermination(s));
    }
    match code {
        Some(0) => Ok(()),
        Some(c) => Err(RunError::ScriptExitNonZero(c)),
        None => Ok(()),
    }
}

} // verus!
