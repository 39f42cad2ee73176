//! Resolution of overridable locations and construction of workspace and
//! artifact paths.
//!
//! Every location the orchestrator touches can be overridden through an
//! environment variable; the caller hands the variable's value in as an
//! `Option` and the fixed fallback literal is applied here.

use vstd::prelude::*;

verus! {

/// The override value when it is set, the fixed default otherwise.
pub fn env_or(value: Option<String>, default: &str) -> (r: String)
    ensures
        value is Some ==> r@ == value.unwrap()@,
        value is None ==> r@ == default@,
{
    match value {
        Some(v) => v,
        None => default.to_owned(),
    }
}

/// Build-output directory, redirected away from the user's normal build
/// artifacts.
pub fn resolve_target_dir(value: Option<String>) -> (r: String)
    ensures
        value is Some ==> r@ == value.unwrap()@,
        value is None ==> r@ == "hfuzz_target"@,
{
    env_or(value, "hfuzz_target")
}

/// Base directory for per-target corpora and crashes.
pub fn resolve_workspace(value: Option<String>) -> (r: String)
    ensures
        value is Some ==> r@ == value.unwrap()@,
        value is None ==> r@ == "hfuzz_workspace"@,
{
    env_or(value, "hfuzz_workspace")
}

/// Seed-input directory: the override when set, else
/// `{workspace}/{target}/input`.
pub fn resolve_input_dir(value: Option<String>, workspace: &str, target: &str) -> (r: String)
    ensures
        value is Some ==> r@ == value.unwrap()@,
        value is None ==> r@ == workspace@ + "/"@ + target@ + "/input"@,
{
    match value {
        Some(v) => v,
        None => {
            let mut s = workspace.to_owned();
            s.append("/");
            s.append(target);
            s.append("/input");
            s
        },
    }
}

/// The debugger binary: the override when set, else the LLDB wrapper
/// shipped with the toolchain.
pub fn resolve_debugger(value: Option<String>) -> (r: String)
    ensures
        value is Some ==> r@ == value.unwrap()@,
        value is None ==> r@ == "rust-lldb"@,
{
    env_or(value, "rust-lldb")
}

/// The per-target workspace directory `{workspace}/{target}`.
pub fn workspace_dir(workspace: &str, target: &str) -> (r: String)
    ensures
        r@ == workspace@ + "/"@ + target@,
{
    let mut s = workspace.to_owned();
    s.append("/");
    s.append(target);
    s
}

/// The fuzzing-engine binary placed in the redirected build-output
/// directory.
pub fn fuzzer_bin_path(target_dir: &str) -> (r: String)
    ensures
        r@ == target_dir@ + "/honggfuzz"@,
{
    let mut s = target_dir.to_owned();
    s.append("/honggfuzz");
    s
}

/// The built artifact:
/// `{target_dir}/{triple}/{debug|release}/{target}`, the profile chosen by
/// whether the mode is the debug one.
pub fn artifact_path(target_dir: &str, triple: &str, debug: bool, target: &str) -> (r: String)
    ensures
        r@ == target_dir@ + "/"@ + triple@ + (if debug {
            "/debug/"@
        } else {
            "/release/"@
        }) + target@,
{
    let mut s = target_dir.to_owned();
    s.append("/");
    s.append(triple);
    if debug {
        s.append("/debug/");
    } else {
        s.append("/release/");
    }
    s.append(target);
    s
}

/// The version banner printed by the `version` verb.
pub fn version_line(version: &str) -> (r: String)
    ensures
        r@ == "cargo-hfuzz "@ + version@,
{
    let mut s = "cargo-hfuzz ".to_owned();
    s.append(version);
    s
}

} // verus!
