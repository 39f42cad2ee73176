//! Project-root location: the orchestrator walks upward from the current
//! directory until it finds the directory holding the build manifest.
//!
//! The filesystem is probed outside the library; the decisions are made
//! here.  `locate_step` decides one step of the walk, `locate_root`
//! characterizes the whole walk over the ancestor chain's probe results.

use vstd::prelude::*;

verus! {

/// What to do at one directory of the upward walk.
#[derive(Clone, Copy, PartialEq, Eq, Structural, Debug)]
pub enum LocateStep {
    /// The directory holds the manifest: make it the working directory.
    UseThis,
    /// No manifest here: step to the parent directory.
    Ascend,
    /// No manifest and no parent left: fail the invocation.
    NoManifest,
}

/// One step of the upward walk, from whether the current directory holds
/// the manifest and whether it has a parent.
pub fn locate_step(has_manifest: bool, has_parent: bool) -> (r: LocateStep)
    ensures
        has_manifest ==> r == LocateStep::UseThis,
        !has_manifest && has_parent ==> r == LocateStep::Ascend,
        !has_manifest && !has_parent ==> r == LocateStep::NoManifest,
{
    if has_manifest {
        LocateStep::UseThis
    } else if has_parent {
        LocateStep::Ascend
    } else {
        LocateStep::NoManifest
    }
}

/// Given, for the current directory and each of its ancestors in order,
/// whether it holds the manifest, returns how many parent steps the walk
/// takes before stopping — the nearest manifest — or `None` when no
/// directory up to the filesystem root holds one.
pub fn locate_root(has_manifest: &Vec<bool>) -> (r: Option<usize>)
    ensures
        r is Some ==> r.unwrap() < has_manifest.len() && has_manifest@[r.unwrap() as int]
            && (forall|j: int| 0 <= j < r.unwrap() ==> !has_manifest@[j]),
        r is None ==> forall|j: int| 0 <= j < has_manifest.len() ==> !has_manifest@[j],
{
    let mut i: usize = 0;
    while i < has_manifest.len()
        invariant
            i <= has_manifest.len(),
            forall|j: int| 0 <= j < i ==> !has_manifest@[j],
        decreases has_manifest.len() - i,
    {
        if has_manifest[i] {
            return Some(i);
        }
        i += 1;
    }
    None
}

/// The directory reached after `steps` parent steps from the directory
/// named by `path`'s components.
pub fn ancestor_components(path: &Vec<String>, steps: usize) -> (r: Vec<String>)
    requires
        steps <= path.len(),
    ensures
        r.len() == path.len() - steps,
        forall|j: int| 0 <= j < r.len() ==> r@[j]@ == path@[j]@,
{
    let keep = path.len() - steps;
    let mut r: Vec<String> = Vec::new();
    let mut i: usize = 0;
    while i < keep
        invariant
            i <= keep,
            keep <= path.len(),
            r.len() == i,
            forall|j: int| 0 <= j < i ==> r@[j]@ == path@[j]@,
        decreases keep - i,
    {
        r.push(path[i].clone());
        i += 1;
    }
    r
}

} // verus!
