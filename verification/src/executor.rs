//! Argument vectors and environment overrides for the child processes the
//! orchestrator launches: the build tool, the fuzzing engine and the
//! debugger's target.
//!
//! Every list keeps the computed entries first and the user-supplied
//! entries after them, so the receiving tool's last-wins handling lets the
//! user override computed settings.

use vstd::prelude::*;
use crate::flags::BuildMode;

verus! {

/// Appends clones of all of `src` to `dst`.
fn push_all(dst: &mut Vec<String>, src: &Vec<String>)
    ensures
        final(dst).deep_view() == old(dst).deep_view() + src.deep_view(),
{
    let ghost base = old(dst)@.len();
    let mut i: usize = 0;
    while i < src.len()
        invariant
            i <= src.len(),
            dst@.len() == base + i,
            base == old(dst)@.len(),
            forall|j: int| 0 <= j < base ==> dst@[j] == old(dst)@[j],
            forall|k: int| 0 <= k < i ==> dst@[base + k]@ == src@[k]@,
        decreases src.len() - i,
    {
        dst.push(src[i].clone());
        i += 1;
    }
    proof {
        assert forall|j: int| 0 <= j < dst@.len() implies dst.deep_view()[j] == (old(
            dst,
        ).deep_view() + src.deep_view())[j] by {
            if j < base {
                assert(dst@[j] == old(dst)@[j]);
            } else {
                assert(dst@[j]@ == src@[j - base]@);
            }
        }
        assert(dst.deep_view() =~= old(dst).deep_view() + src.deep_view());
    }
}

/// The build tool's argument list: the `build` operation pinned to the
/// host triple, then the caller's pass-through arguments, then the
/// user-supplied build arguments, and last the release profile for the
/// non-debug modes.
pub fn cargo_build_argv(
    triple: &str,
    passthrough: &Vec<String>,
    user_build_args: &Vec<String>,
    mode: BuildMode,
) -> (r: Vec<String>)
    ensures
        r.deep_view() == seq!["build"@, "--target"@, triple@] + passthrough.deep_view()
            + user_build_args.deep_view() + (if mode != BuildMode::Debug {
            seq!["--release"@]
        } else {
            Seq::<Seq<char>>::empty()
        }),
{
    let mut v: Vec<String> = Vec::new();
    v.push("build".to_owned());
    v.push("--target".to_owned());
    v.push(triple.to_owned());
    proof {
        assert(v.deep_view() =~= seq!["build"@, "--target"@, triple@]);
    }
    push_all(&mut v, passthrough);
    push_all(&mut v, user_build_args);
    if !mode.is_debug() {
        v.push("--release".to_owned());
        proof {
            assert(v.deep_view() =~= seq!["build"@, "--target"@, triple@]
                + passthrough.deep_view() + user_build_args.deep_view() + seq!["--release"@]);
        }
    } else {
        proof {
            assert(v.deep_view() =~= seq!["build"@, "--target"@, triple@]
                + passthrough.deep_view() + user_build_args.deep_view()
                + Seq::<Seq<char>>::empty());
        }
    }
    v
}

/// The build tool's clean operation with the caller's pass-through
/// arguments.
pub fn cargo_clean_argv(passthrough: &Vec<String>) -> (r: Vec<String>)
    ensures
        r.deep_view() == seq!["clean"@] + passthrough.deep_view(),
{
    let mut v: Vec<String> = Vec::new();
    v.push("clean".to_owned());
    proof {
        assert(v.deep_view() =~= seq!["clean"@]);
    }
    push_all(&mut v, passthrough);
    v
}

/// Environment overrides for the build: the assembled compiler flags and
/// the redirected build-output directory; the non-debug modes additionally
/// carry the two marker variables the target crate's own build step reads
/// to check that the orchestrator's and the embedded library's versions
/// match and to place the engine at a known location.
pub fn build_env_overrides(rustflags: String, target_dir: &str, version: &str, mode: BuildMode)
    -> (r: Vec<(String, String)>)
    ensures
        r.deep_view() == seq![("RUSTFLAGS"@, rustflags@), ("CARGO_TARGET_DIR"@, target_dir@)]
            + (if mode != BuildMode::Debug {
            seq![
                ("CARGO_HONGGFUZZ_BUILD_VERSION"@, version@),
                ("CARGO_HONGGFUZZ_TARGET_DIR"@, target_dir@),
            ]
        } else {
            Seq::<(Seq<char>, Seq<char>)>::empty()
        }),
{
    let mut v: Vec<(String, String)> = Vec::new();
    v.push(("RUSTFLAGS".to_owned(), rustflags));
    v.push(("CARGO_TARGET_DIR".to_owned(), target_dir.to_owned()));
    if !mode.is_debug() {
        v.push(("CARGO_HONGGFUZZ_BUILD_VERSION".to_owned(), version.to_owned()));
        v.push(("CARGO_HONGGFUZZ_TARGET_DIR".to_owned(), target_dir.to_owned()));
        proof {
            assert(v.deep_view() =~= seq![
                ("RUSTFLAGS"@, rustflags@),
                ("CARGO_TARGET_DIR"@, target_dir@),
                ("CARGO_HONGGFUZZ_BUILD_VERSION"@, version@),
                ("CARGO_HONGGFUZZ_TARGET_DIR"@, target_dir@),
            ]);
        }
    } else {
        proof {
            assert(v.deep_view() =~= seq![
                ("RUSTFLAGS"@, rustflags@),
                ("CARGO_TARGET_DIR"@, target_dir@),
            ]);
        }
    }
    v
}

/// The fuzzing engine's argument list: workspace directory, input
/// directory and persistent mode first, then the user-supplied run
/// arguments, then the separator, the built artifact and the residual
/// pass-through arguments.
pub fn fuzzer_argv(
    workspace: &str,
    input_dir: &str,
    user_run_args: &Vec<String>,
    artifact: &str,
    residual: &Vec<String>,
) -> (r: Vec<String>)
    ensures
        r.deep_view() == seq!["-W"@, workspace@, "-f"@, input_dir@, "-P"@]
            + user_run_args.deep_view() + seq!["--"@, artifact@] + residual.deep_view(),
{
    let mut v: Vec<String> = Vec::new();
    v.push("-W".to_owned());
    v.push(workspace.to_owned());
    v.push("-f".to_owned());
    v.push(input_dir.to_owned());
    v.push("-P".to_owned());
    proof {
        assert(v.deep_view() =~= seq!["-W"@, workspace@, "-f"@, input_dir@, "-P"@]);
    }
    push_all(&mut v, user_run_args);
    let ghost mid = v.deep_view();
    v.push("--".to_owned());
    v.push(artifact.to_owned());
    proof {
        assert(v.deep_view() =~= mid + seq!["--"@, artifact@]);
    }
    push_all(&mut v, residual);
    v
}

/// Sanitizer option string with the orchestrator's fix prepended, so a
/// user-supplied value for the same key, standing later in the string,
/// still takes precedence.  Disables ODR-violation detection, which
/// produces false positives against this toolchain's runtime.
pub fn asan_options(user: &str) -> (r: String)
    ensures
        r@ == "detect_odr_violation=0:"@ + user@,
{
    let mut s = "detect_odr_violation=0:".to_owned();
    s.append(user);
    s
}

/// As `asan_options`, for the thread sanitizer: disables the
/// signal-unsafety report known to fire falsely on this runtime.
pub fn tsan_options(user: &str) -> (r: String)
    ensures
        r@ == "report_signal_unsafe=0:"@ + user@,
{
    let mut s = "report_signal_unsafe=0:".to_owned();
    s.append(user);
    s
}

} // verus!
