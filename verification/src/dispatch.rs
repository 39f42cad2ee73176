//! CLI verb dispatch and child-exit propagation.
//!
//! The orchestrator is invoked as a two-token subcommand: the first token
//! must be `hfuzz`, the second selects the flow.  Child-process failures
//! are propagated transparently: the orchestrator exits with the child's
//! own code.

use vstd::prelude::*;
use crate::flags::BuildMode;
use crate::strutil::str_eq;

verus! {

/// The flow selected by the second CLI token.
#[derive(Clone, Copy, PartialEq, Eq, Structural, Debug)]
pub enum Verb {
    Build(BuildMode),
    Run(BuildMode),
    Clean,
    Version,
    /// Missing or unrecognized verb: usage message to the error stream,
    /// exit code 1.
    Usage,
}

/// The verb each token selects.
pub open spec fn verb_spec(token: Seq<char>) -> Verb {
    if token == "build"@ {
        Verb::Build(BuildMode::ReleaseInstrumented)
    } else if token == "build-no-inst"@ {
        Verb::Build(BuildMode::ReleaseNotInstrumented)
    } else if token == "build-debug"@ {
        Verb::Build(BuildMode::Debug)
    } else if token == "run"@ {
        Verb::Run(BuildMode::ReleaseInstrumented)
    } else if token == "run-no-inst"@ {
        Verb::Run(BuildMode::ReleaseNotInstrumented)
    } else if token == "run-debug"@ {
        Verb::Run(BuildMode::Debug)
    } else if token == "clean"@ {
        Verb::Clean
    } else if token == "version"@ {
        Verb::Version
    } else {
        Verb::Usage
    }
}

/// Maps the second CLI token to a flow; a missing token is a usage error.
pub fn dispatch(token: Option<&String>) -> (r: Verb)
    ensures
        token is Some ==> r == verb_spec(token.unwrap()@),
        token is None ==> r == Verb::Usage,
{
    match token {
        None => Verb::Usage,
        Some(t) => {
            let s = t.as_str();
            if str_eq(s, "build") {
                Verb::Build(BuildMode::ReleaseInstrumented)
            } else if str_eq(s, "build-no-inst") {
                Verb::Build(BuildMode::ReleaseNotInstrumented)
            } else if str_eq(s, "build-debug") {
                Verb::Build(BuildMode::Debug)
            } else if str_eq(s, "run") {
                Verb::Run(BuildMode::ReleaseInstrumented)
            } else if str_eq(s, "run-no-inst") {
                Verb::Run(BuildMode::ReleaseNotInstrumented)
            } else if str_eq(s, "run-debug") {
                Verb::Run(BuildMode::Debug)
            } else if str_eq(s, "clean") {
                Verb::Clean
            } else if str_eq(s, "version") {
                Verb::Version
            } else {
                Verb::Usage
            }
        },
    }
}

/// The launch is accepted only as the `hfuzz` cargo subcommand: the first
/// CLI token after the program name must be exactly `hfuzz`.
pub fn is_hfuzz_invocation(first: Option<&String>) -> (r: bool)
    ensures
        r == (first is Some && first.unwrap()@ == "hfuzz"@),
{
    match first {
        Some(t) => str_eq(t.as_str(), "hfuzz"),
        None => false,
    }
}

/// Transparent exit-code propagation: after a child process (build tool or
/// debugger) finishes, the orchestrator continues only on success and
/// otherwise exits with the child's own code, or 1 when the child was
/// killed before reporting one.
pub fn exit_code_after_child(success: bool, code: Option<i32>) -> (r: Option<i32>)
    ensures
        success ==> r is None,
        !success && code is Some ==> r == Some(code.unwrap()),
        !success && code is None ==> r == Some(1i32),
{
    if success {
        None
    } else {
        match code {
            Some(c) => Some(c),
            None => Some(1),
        }
    }
}

} // verus!
