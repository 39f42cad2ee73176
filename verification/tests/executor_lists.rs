use cargo_hfuzz::dispatch::exit_code_after_child;
use cargo_hfuzz::executor::{
    asan_options, build_env_overrides, cargo_build_argv, cargo_clean_argv, fuzzer_argv,
    tsan_options,
};
use cargo_hfuzz::flags::BuildMode;

fn strings(items: &[&str]) -> Vec<String> {
    items.iter().map(|s| s.to_string()).collect()
}

#[test]
fn build_argv_release_order() {
    let argv = cargo_build_argv(
        "x86_64-unknown-linux-gnu",
        &strings(&["--bin", "foo"]),
        &strings(&["--verbose"]),
        BuildMode::ReleaseInstrumented,
    );
    assert_eq!(
        argv,
        strings(&[
            "build",
            "--target",
            "x86_64-unknown-linux-gnu",
            "--bin",
            "foo",
            "--verbose",
            "--release",
        ])
    );
}

#[test]
fn build_argv_debug_has_no_release_flag() {
    let argv = cargo_build_argv(
        "aarch64-apple-darwin",
        &strings(&["--bin", "foo"]),
        &strings(&[]),
        BuildMode::Debug,
    );
    assert_eq!(
        argv,
        strings(&["build", "--target", "aarch64-apple-darwin", "--bin", "foo"])
    );
}

#[test]
fn user_build_args_after_passthrough() {
    let argv = cargo_build_argv(
        "t",
        &strings(&["--bin", "foo"]),
        &strings(&["--features", "x"]),
        BuildMode::ReleaseNotInstrumented,
    );
    let bin_at = argv.iter().position(|a| a == "--bin").unwrap();
    let features_at = argv.iter().position(|a| a == "--features").unwrap();
    assert!(bin_at < features_at);
}

#[test]
fn clean_argv() {
    assert_eq!(cargo_clean_argv(&strings(&[])), strings(&["clean"]));
    assert_eq!(
        cargo_clean_argv(&strings(&["--doc"])),
        strings(&["clean", "--doc"])
    );
}

#[test]
fn build_env_release_has_version_markers() {
    let env = build_env_overrides(
        "FLAGS".to_string(),
        "hfuzz_target",
        "0.5.57",
        BuildMode::ReleaseInstrumented,
    );
    assert_eq!(
        env,
        vec![
            ("RUSTFLAGS".to_string(), "FLAGS".to_string()),
            ("CARGO_TARGET_DIR".to_string(), "hfuzz_target".to_string()),
            (
                "CARGO_HONGGFUZZ_BUILD_VERSION".to_string(),
                "0.5.57".to_string()
            ),
            (
                "CARGO_HONGGFUZZ_TARGET_DIR".to_string(),
                "hfuzz_target".to_string()
            ),
        ]
    );
}

#[test]
fn build_env_debug_has_no_markers() {
    let env = build_env_overrides(
        "FLAGS".to_string(),
        "dir",
        "0.5.57",
        BuildMode::Debug,
    );
    assert_eq!(
        env,
        vec![
            ("RUSTFLAGS".to_string(), "FLAGS".to_string()),
            ("CARGO_TARGET_DIR".to_string(), "dir".to_string()),
        ]
    );
}

#[test]
fn fuzzer_argv_order() {
    let argv = fuzzer_argv(
        "hfuzz_workspace/foo",
        "hfuzz_workspace/foo/input",
        &strings(&["-n", "4"]),
        "hfuzz_target/t/release/foo",
        &strings(&["extra"]),
    );
    assert_eq!(
        argv,
        strings(&[
            "-W",
            "hfuzz_workspace/foo",
            "-f",
            "hfuzz_workspace/foo/input",
            "-P",
            "-n",
            "4",
            "--",
            "hfuzz_target/t/release/foo",
            "extra",
        ])
    );
}

#[test]
fn sanitizer_options_prepend() {
    assert_eq!(asan_options(""), "detect_odr_violation=0:");
    assert_eq!(
        asan_options("detect_odr_violation=1"),
        "detect_odr_violation=0:detect_odr_violation=1"
    );
    assert_eq!(tsan_options(""), "report_signal_unsafe=0:");
    assert_eq!(
        tsan_options("halt_on_error=1"),
        "report_signal_unsafe=0:halt_on_error=1"
    );
}

#[test]
fn child_exit_propagation() {
    assert_eq!(exit_code_after_child(true, Some(0)), None);
    assert_eq!(exit_code_after_child(false, Some(1)), Some(1));
    assert_eq!(exit_code_after_child(false, Some(101)), Some(101));
    assert_eq!(exit_code_after_child(false, None), Some(1));
}

#[test]
fn run_with_failing_build_exits_one_before_engine() {
    // The run flow builds first; the build tool exits 1, so the
    // orchestrator exits 1 and never assembles the engine invocation.
    let after_build = exit_code_after_child(false, Some(1));
    assert_eq!(after_build, Some(1));
}
