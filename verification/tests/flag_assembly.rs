use cargo_hfuzz::flags::{assemble_rustflags, flag_list, BuildMode};

const COMMON: &str = "--cfg fuzzing -C debug-assertions -C overflow_checks ";

#[test]
fn debug_flags_exact() {
    let s = assemble_rustflags(BuildMode::Debug, true, "");
    assert_eq!(
        s,
        "--cfg fuzzing -C debug-assertions -C overflow_checks \
         --cfg fuzzing_debug -C panic=unwind -C opt-level=0 -C debuginfo=2 "
    );
}

#[test]
fn release_not_instrumented_exact() {
    let s = assemble_rustflags(BuildMode::ReleaseNotInstrumented, true, "");
    assert_eq!(
        s,
        "--cfg fuzzing -C debug-assertions -C overflow_checks \
         -C panic=abort -C opt-level=3 -C debuginfo=0 "
    );
}

#[test]
fn release_instrumented_exact_with_comparison_tracing() {
    let s = assemble_rustflags(BuildMode::ReleaseInstrumented, true, "");
    assert_eq!(
        s,
        "--cfg fuzzing -C debug-assertions -C overflow_checks \
         -C panic=abort -C opt-level=3 -C debuginfo=0 \
         -C passes=sancov \
         -C llvm-args=-sanitizer-coverage-level=4 \
         -C llvm-args=-sanitizer-coverage-trace-pc-guard \
         -C llvm-args=-sanitizer-coverage-prune-blocks=0 \
         -C llvm-args=-sanitizer-coverage-trace-compares "
    );
}

#[test]
fn release_instrumented_exact_without_comparison_tracing() {
    let s = assemble_rustflags(BuildMode::ReleaseInstrumented, false, "");
    assert_eq!(
        s,
        "--cfg fuzzing -C debug-assertions -C overflow_checks \
         -C panic=abort -C opt-level=3 -C debuginfo=0 \
         -C passes=sancov \
         -C llvm-args=-sanitizer-coverage-level=4 \
         -C llvm-args=-sanitizer-coverage-trace-pc-guard \
         -C llvm-args=-sanitizer-coverage-prune-blocks=0 "
    );
}

#[test]
fn fail_fast_flags_in_every_mode() {
    for mode in [
        BuildMode::ReleaseInstrumented,
        BuildMode::ReleaseNotInstrumented,
        BuildMode::Debug,
    ] {
        for tracing in [true, false] {
            let s = assemble_rustflags(mode, tracing, "");
            assert!(s.contains("--cfg fuzzing"));
            assert!(s.contains("-C debug-assertions"));
            assert!(s.contains("-C overflow_checks"));
        }
    }
}

#[test]
fn instrumentation_only_when_instrumented() {
    let inst = assemble_rustflags(BuildMode::ReleaseInstrumented, true, "");
    assert!(inst.contains("-C passes=sancov"));
    assert!(inst.contains("-C llvm-args=-sanitizer-coverage-trace-compares"));

    let inst_no_tracing = assemble_rustflags(BuildMode::ReleaseInstrumented, false, "");
    assert!(inst_no_tracing.contains("-C passes=sancov"));
    assert!(!inst_no_tracing.contains("trace-compares"));

    let plain = assemble_rustflags(BuildMode::ReleaseNotInstrumented, true, "");
    assert!(!plain.contains("sancov"));
    assert!(!plain.contains("trace-compares"));

    let debug = assemble_rustflags(BuildMode::Debug, true, "");
    assert!(!debug.contains("sancov"));
    assert!(!debug.contains("trace-compares"));
}

#[test]
fn panic_and_optimization_by_mode() {
    let debug = assemble_rustflags(BuildMode::Debug, true, "");
    assert!(debug.contains("-C panic=unwind"));
    assert!(debug.contains("-C opt-level=0"));
    assert!(debug.contains("-C debuginfo=2"));
    assert!(debug.contains("--cfg fuzzing_debug"));
    assert!(!debug.contains("-C panic=abort"));
    assert!(!debug.contains("-C opt-level=3"));

    for mode in [BuildMode::ReleaseInstrumented, BuildMode::ReleaseNotInstrumented] {
        let s = assemble_rustflags(mode, true, "");
        assert!(s.contains("-C panic=abort"));
        assert!(s.contains("-C opt-level=3"));
        assert!(s.contains("-C debuginfo=0"));
        assert!(!s.contains("-C panic=unwind"));
        assert!(!s.contains("-C opt-level=0"));
    }
}

#[test]
fn user_flags_come_last() {
    let user = "-C opt-level=1 --cfg extra";
    let s = assemble_rustflags(BuildMode::ReleaseInstrumented, true, user);
    assert!(s.ends_with(user));
    let computed = assemble_rustflags(BuildMode::ReleaseInstrumented, true, "");
    assert_eq!(s, format!("{}{}", computed, user));
}

#[test]
fn assembly_is_idempotent() {
    for mode in [
        BuildMode::ReleaseInstrumented,
        BuildMode::ReleaseNotInstrumented,
        BuildMode::Debug,
    ] {
        let first = assemble_rustflags(mode, true, "-C custom");
        let second = assemble_rustflags(mode, true, "-C custom");
        assert_eq!(first, second);
    }
}

#[test]
fn flag_list_starts_with_common_groups() {
    for mode in [
        BuildMode::ReleaseInstrumented,
        BuildMode::ReleaseNotInstrumented,
        BuildMode::Debug,
    ] {
        let groups = flag_list(mode, true);
        assert_eq!(groups[0], "--cfg fuzzing");
        assert_eq!(groups[1], "-C debug-assertions");
        assert_eq!(groups[2], "-C overflow_checks");
    }
    assert_eq!(flag_list(BuildMode::Debug, true).len(), 7);
    assert_eq!(flag_list(BuildMode::ReleaseNotInstrumented, true).len(), 6);
    assert_eq!(flag_list(BuildMode::ReleaseInstrumented, false).len(), 10);
    assert_eq!(flag_list(BuildMode::ReleaseInstrumented, true).len(), 11);
}

#[test]
fn is_debug_only_for_debug_mode() {
    assert!(BuildMode::Debug.is_debug());
    assert!(!BuildMode::ReleaseInstrumented.is_debug());
    assert!(!BuildMode::ReleaseNotInstrumented.is_debug());
}

#[test]
fn rendered_common_prefix() {
    let s = assemble_rustflags(BuildMode::Debug, false, "");
    assert!(s.starts_with(COMMON));
}
