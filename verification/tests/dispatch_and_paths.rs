use cargo_hfuzz::dispatch::{dispatch, is_hfuzz_invocation, Verb};
use cargo_hfuzz::flags::BuildMode;
use cargo_hfuzz::paths::{
    artifact_path, fuzzer_bin_path, resolve_input_dir, resolve_target_dir, resolve_workspace,
    version_line, workspace_dir,
};

fn owned(s: &str) -> String {
    s.to_string()
}

#[test]
fn every_verb_is_mapped() {
    assert_eq!(
        dispatch(Some(&owned("build"))),
        Verb::Build(BuildMode::ReleaseInstrumented)
    );
    assert_eq!(
        dispatch(Some(&owned("build-no-inst"))),
        Verb::Build(BuildMode::ReleaseNotInstrumented)
    );
    assert_eq!(
        dispatch(Some(&owned("build-debug"))),
        Verb::Build(BuildMode::Debug)
    );
    assert_eq!(
        dispatch(Some(&owned("run"))),
        Verb::Run(BuildMode::ReleaseInstrumented)
    );
    assert_eq!(
        dispatch(Some(&owned("run-no-inst"))),
        Verb::Run(BuildMode::ReleaseNotInstrumented)
    );
    assert_eq!(
        dispatch(Some(&owned("run-debug"))),
        Verb::Run(BuildMode::Debug)
    );
    assert_eq!(dispatch(Some(&owned("clean"))), Verb::Clean);
    assert_eq!(dispatch(Some(&owned("version"))), Verb::Version);
}

#[test]
fn unknown_or_missing_verb_is_usage() {
    assert_eq!(dispatch(Some(&owned("fuzz"))), Verb::Usage);
    assert_eq!(dispatch(Some(&owned(""))), Verb::Usage);
    assert_eq!(dispatch(Some(&owned("Build"))), Verb::Usage);
    assert_eq!(dispatch(None), Verb::Usage);
}

#[test]
fn first_token_must_be_hfuzz() {
    // A wrong first token is a usage error: exit 1, message to the error
    // stream, nothing launched and nothing touched on disk.
    assert!(is_hfuzz_invocation(Some(&owned("hfuzz"))));
    assert!(!is_hfuzz_invocation(Some(&owned("fuzz"))));
    assert!(!is_hfuzz_invocation(Some(&owned("hfuzz "))));
    assert!(!is_hfuzz_invocation(None));
}

#[test]
fn target_dir_default_and_override() {
    assert_eq!(resolve_target_dir(None), "hfuzz_target");
    assert_eq!(resolve_target_dir(Some(owned("custom"))), "custom");
}

#[test]
fn workspace_default_and_override() {
    assert_eq!(resolve_workspace(None), "hfuzz_workspace");
    assert_eq!(resolve_workspace(Some(owned("ws"))), "ws");
}

#[test]
fn input_dir_default_and_override() {
    assert_eq!(
        resolve_input_dir(None, "hfuzz_workspace", "foo"),
        "hfuzz_workspace/foo/input"
    );
    assert_eq!(
        resolve_input_dir(Some(owned("seeds")), "hfuzz_workspace", "foo"),
        "seeds"
    );
}

#[test]
fn workspace_and_engine_paths() {
    assert_eq!(workspace_dir("hfuzz_workspace", "foo"), "hfuzz_workspace/foo");
    assert_eq!(fuzzer_bin_path("hfuzz_target"), "hfuzz_target/honggfuzz");
}

#[test]
fn artifact_paths_by_profile() {
    assert_eq!(
        artifact_path("hfuzz_target", "x86_64-unknown-linux-gnu", false, "foo"),
        "hfuzz_target/x86_64-unknown-linux-gnu/release/foo"
    );
    assert_eq!(
        artifact_path("hfuzz_target", "x86_64-unknown-linux-gnu", true, "foo"),
        "hfuzz_target/x86_64-unknown-linux-gnu/debug/foo"
    );
}

#[test]
fn version_banner() {
    assert_eq!(version_line("0.5.57"), "cargo-hfuzz 0.5.57");
}
