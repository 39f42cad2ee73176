//! Build-mode to compiler-flag assembly.
//!
//! A `BuildMode` is mapped to a list of flag groups (each group is one
//! `-C`/`--cfg` setting, possibly two words), which is rendered to the
//! compiler-flags string by joining every group with a trailing space and
//! appending the user-supplied flags last, so that the toolchain's
//! last-wins semantics let the user override computed settings.

use vstd::prelude::*;
use crate::strutil::{contains_seq, lemma_prefix_contains, lemma_contains_concat_left,
    lemma_contains_concat_right};

verus! {

/// The three build configurations the orchestrator knows.
#[derive(Clone, Copy, PartialEq, Eq, Structural, Debug)]
pub enum BuildMode {
    ReleaseInstrumented,
    ReleaseNotInstrumented,
    Debug,
}

impl BuildMode {
    /// The debug mode builds without optimization and runs under a
    /// debugger; the two release modes feed the fuzzing engine.
    pub fn is_debug(&self) -> (r: bool)
        ensures
            r == (*self == BuildMode::Debug),
    {
        match self {
            BuildMode::Debug => true,
            _ => false,
        }
    }
}

/// Flag groups present in every mode: fuzzing targets must fail fast and
/// loudly on logic errors regardless of optimization level.
pub open spec fn common_flags() -> Seq<Seq<char>> {
    seq!["--cfg fuzzing"@, "-C debug-assertions"@, "-C overflow_checks"@]
}

/// Flag groups shared by both release modes.
pub open spec fn release_flags() -> Seq<Seq<char>> {
    seq!["-C panic=abort"@, "-C opt-level=3"@, "-C debuginfo=0"@]
}

/// Flag groups of the debug mode.
pub open spec fn debug_flags() -> Seq<Seq<char>> {
    seq!["--cfg fuzzing_debug"@, "-C panic=unwind"@, "-C opt-level=0"@, "-C debuginfo=2"@]
}

/// Coverage-guard instrumentation, plus comparison tracing where the
/// platform's sanitizer runtime supports it.
pub open spec fn instrumentation_flags(comparison_tracing: bool) -> Seq<Seq<char>> {
    seq![
        "-C passes=sancov"@,
        "-C llvm-args=-sanitizer-coverage-level=4"@,
        "-C llvm-args=-sanitizer-coverage-trace-pc-guard"@,
        "-C llvm-args=-sanitizer-coverage-prune-blocks=0"@,
    ] + if comparison_tracing {
        seq!["-C llvm-args=-sanitizer-coverage-trace-compares"@]
    } else {
        Seq::<Seq<char>>::empty()
    }
}

/// The full ordered list of computed flag groups for a mode.
pub open spec fn flags_spec(mode: BuildMode, comparison_tracing: bool) -> Seq<Seq<char>> {
    common_flags() + match mode {
        BuildMode::Debug => debug_flags(),
        BuildMode::ReleaseNotInstrumented => release_flags(),
        BuildMode::ReleaseInstrumented => release_flags() + instrumentation_flags(
            comparison_tracing,
        ),
    }
}

/// Each group followed by a single space, concatenated in order.
pub open spec fn joined_with_spaces(chunks: Seq<Seq<char>>) -> Seq<char>
    decreases chunks.len(),
{
    if chunks.len() == 0 {
        Seq::<char>::empty()
    } else {
        chunks[0] + " "@ + joined_with_spaces(chunks.drop_first())
    }
}

/// The assembled compiler-flags string: computed groups first, then the
/// user-supplied flags verbatim.
pub open spec fn rustflags_spec(mode: BuildMode, comparison_tracing: bool, user: Seq<char>)
    -> Seq<char> {
    joined_with_spaces(flags_spec(mode, comparison_tracing)) + user
}

/// Builds the computed flag-group list for `mode`.
pub fn flag_list(mode: BuildMode, comparison_tracing: bool) -> (r: Vec<String>)
    ensures
        r.deep_view() == flags_spec(mode, comparison_tracing),
{
    let mut v: Vec<String> = Vec::new();
    v.push("--cfg fuzzing".to_owned());
    v.push("-C debug-assertions".to_owned());
    v.push("-C overflow_checks".to_owned());
    match mode {
        BuildMode::Debug => {
            v.push("--cfg fuzzing_debug".to_owned());
            v.push("-C panic=unwind".to_owned());
            v.push("-C opt-level=0".to_owned());
            v.push("-C debuginfo=2".to_owned());
        },
        _ => {
            v.push("-C panic=abort".to_owned());
            v.push("-C opt-level=3".to_owned());
            v.push("-C debuginfo=0".to_owned());
            if let BuildMode::ReleaseInstrumented = mode {
                v.push("-C passes=sancov".to_owned());
                v.push("-C llvm-args=-sanitizer-coverage-level=4".to_owned());
                v.push("-C llvm-args=-sanitizer-coverage-trace-pc-guard".to_owned());
                v.push("-C llvm-args=-sanitizer-coverage-prune-blocks=0".to_owned());
                if comparison_tracing {
                    v.push("-C llvm-args=-sanitizer-coverage-trace-compares".to_owned());
                }
            }
        },
    }
    proof {
        assert(v.deep_view() =~= flags_spec(mode, comparison_tracing));
    }
    v
}

/// Renders `chunks[from..]` as each group followed by one space.
fn render_from(chunks: &Vec<String>, from: usize) -> (r: String)
    requires
        from <= chunks.len(),
    ensures
        r@ == joined_with_spaces(chunks.deep_view().skip(from as int)),
    decreases chunks.len() - from,
{
    if from == chunks.len() {
        proof {
            assert(chunks.deep_view().skip(from as int) =~= Seq::<Seq<char>>::empty());
        }
        String::new()
    } else {
        let mut s = chunks[from].clone();
        s.append(" ");
        let rest = render_from(chunks, from + 1);
        s.append(rest.as_str());
        proof {
            let dv = chunks.deep_view();
            assert(dv.skip(from as int).drop_first() =~= dv.skip(from + 1));
            assert(dv.skip(from as int)[0] == dv[from as int]);
        }
        s
    }
}

/// Assembles the full compiler-flags string for a mode: computed flag
/// groups joined with spaces, then the user-supplied flags appended last.
/// This step is pure data construction and cannot fail.
pub fn assemble_rustflags(mode: BuildMode, comparison_tracing: bool, user_flags: &str)
    -> (r: String)
    ensures
        r@ == rustflags_spec(mode, comparison_tracing, user_flags@),
{
    let chunks = flag_list(mode, comparison_tracing);
    let mut s = render_from(&chunks, 0);
    proof {
        assert(chunks.deep_view().skip(0) =~= chunks.deep_view());
    }
    s.append(user_flags);
    s
}

/// Every flag group of the list occurs as a substring of the rendered
/// string.
pub proof fn lemma_joined_contains_all(chunks: Seq<Seq<char>>, i: int)
    requires
        0 <= i < chunks.len(),
    ensures
        contains_seq(joined_with_spaces(chunks), chunks[i]),
    decreases i,
{
    if i == 0 {
        let whole = joined_with_spaces(chunks);
        assert(whole.subrange(0, chunks[0].len() as int) =~= chunks[0]);
        lemma_prefix_contains(whole, chunks[0]);
    } else {
        let tail = chunks.drop_first();
        lemma_joined_contains_all(tail, i - 1);
        assert(tail[i - 1] == chunks[i]);
        lemma_contains_concat_right(chunks[0] + " "@, joined_with_spaces(tail), chunks[i]);
    }
}

/// The assembled string always contains the fuzzing-context flag, the
/// debug-assertions flag and the overflow-checks flag, in every mode and
/// whatever the user appended.
pub proof fn lemma_fail_fast_flags_always_present(
    mode: BuildMode,
    comparison_tracing: bool,
    user: Seq<char>,
)
    ensures
        contains_seq(rustflags_spec(mode, comparison_tracing, user), "--cfg fuzzing"@),
        contains_seq(rustflags_spec(mode, comparison_tracing, user), "-C debug-assertions"@),
        contains_seq(rustflags_spec(mode, comparison_tracing, user), "-C overflow_checks"@),
{
    let chunks = flags_spec(mode, comparison_tracing);
    let rendered = joined_with_spaces(chunks);
    assert(chunks[0] == "--cfg fuzzing"@);
    assert(chunks[1] == "-C debug-assertions"@);
    assert(chunks[2] == "-C overflow_checks"@);
    lemma_joined_contains_all(chunks, 0);
    lemma_joined_contains_all(chunks, 1);
    lemma_joined_contains_all(chunks, 2);
    lemma_contains_concat_left(rendered, user, "--cfg fuzzing"@);
    lemma_contains_concat_left(rendered, user, "-C debug-assertions"@);
    lemma_contains_concat_left(rendered, user, "-C overflow_checks"@);
}

/// Makes the character content of every flag-group literal available to
/// the prover, so that distinct groups can be told apart.
proof fn lemma_reveal_flag_literals()
    ensures
        "--cfg fuzzing"@.len() == 13,
        "-C debug-assertions"@.len() == 19,
        "-C overflow_checks"@.len() == 18,
        "--cfg fuzzing_debug"@.len() == 19,
        "-C panic=unwind"@.len() == 15,
        "-C opt-level=0"@.len() == 14,
        "-C debuginfo=2"@.len() == 14,
        "-C panic=abort"@.len() == 14,
        "-C opt-level=3"@.len() == 14,
        "-C debuginfo=0"@.len() == 14,
        "-C passes=sancov"@.len() == 16,
        "-C llvm-args=-sanitizer-coverage-level=4"@.len() == 40,
        "-C llvm-args=-sanitizer-coverage-trace-pc-guard"@.len() == 47,
        "-C llvm-args=-sanitizer-coverage-prune-blocks=0"@.len() == 47,
        "-C llvm-args=-sanitizer-coverage-trace-compares"@.len() == 47,
        "-C llvm-args=-sanitizer-coverage-trace-pc-guard"@
            != "-C llvm-args=-sanitizer-coverage-trace-compares"@,
        "-C llvm-args=-sanitizer-coverage-prune-blocks=0"@
            != "-C llvm-args=-sanitizer-coverage-trace-compares"@,
        "-C opt-level=0"@ != "-C panic=abort"@,
        "-C opt-level=0"@ != "-C opt-level=3"@,
        "-C opt-level=0"@ != "-C debuginfo=0"@,
        "-C panic=abort"@ != "-C debuginfo=2"@,
        "-C opt-level=3"@ != "-C debuginfo=2"@,
{
    reveal_strlit("--cfg fuzzing");
    reveal_strlit("-C debug-assertions");
    reveal_strlit("-C overflow_checks");
    reveal_strlit("--cfg fuzzing_debug");
    reveal_strlit("-C panic=unwind");
    reveal_strlit("-C opt-level=0");
    reveal_strlit("-C debuginfo=2");
    reveal_strlit("-C panic=abort");
    reveal_strlit("-C opt-level=3");
    reveal_strlit("-C debuginfo=0");
    reveal_strlit("-C passes=sancov");
    reveal_strlit("-C llvm-args=-sanitizer-coverage-level=4");
    reveal_strlit("-C llvm-args=-sanitizer-coverage-trace-pc-guard");
    reveal_strlit("-C llvm-args=-sanitizer-coverage-prune-blocks=0");
    reveal_strlit("-C llvm-args=-sanitizer-coverage-trace-compares");
    assert("-C llvm-args=-sanitizer-coverage-trace-pc-guard"@[39]
        != "-C llvm-args=-sanitizer-coverage-trace-compares"@[39]);
    assert("-C llvm-args=-sanitizer-coverage-prune-blocks=0"@[33]
        != "-C llvm-args=-sanitizer-coverage-trace-compares"@[33]);
    assert("-C opt-level=0"@[3] != "-C panic=abort"@[3]);
    assert("-C opt-level=0"@[13] != "-C opt-level=3"@[13]);
    assert("-C opt-level=0"@[3] != "-C debuginfo=0"@[3]);
    assert("-C panic=abort"@[3] != "-C debuginfo=2"@[3]);
    assert("-C opt-level=3"@[3] != "-C debuginfo=2"@[3]);
}

/// The coverage-guard flag is in the computed flag-group list exactly when
/// the mode is `ReleaseInstrumented`, and the comparison-tracing flag
/// exactly when the mode is `ReleaseInstrumented` on a platform whose
/// sanitizer runtime supports it.
pub proof fn lemma_instrumentation_iff(mode: BuildMode, comparison_tracing: bool, user: Seq<char>)
    ensures
        flags_spec(mode, comparison_tracing).contains("-C passes=sancov"@) <==> mode
            == BuildMode::ReleaseInstrumented,
        flags_spec(mode, comparison_tracing).contains(
            "-C llvm-args=-sanitizer-coverage-trace-compares"@,
        ) <==> (mode == BuildMode::ReleaseInstrumented && comparison_tracing),
        mode == BuildMode::ReleaseInstrumented ==> contains_seq(
            rustflags_spec(mode, comparison_tracing, user),
            "-C passes=sancov"@,
        ),
        mode == BuildMode::ReleaseInstrumented && comparison_tracing ==> contains_seq(
            rustflags_spec(mode, comparison_tracing, user),
            "-C llvm-args=-sanitizer-coverage-trace-compares"@,
        ),
{
    lemma_reveal_flag_literals();
    let f = flags_spec(mode, comparison_tracing);
    let rendered = joined_with_spaces(f);
    let sancov = "-C passes=sancov"@;
    let tc = "-C llvm-args=-sanitizer-coverage-trace-compares"@;
    match mode {
        BuildMode::ReleaseInstrumented => {
            assert(f[6] == sancov);
            assert(f.contains(sancov));
            lemma_joined_contains_all(f, 6);
            lemma_contains_concat_left(rendered, user, sancov);
            if comparison_tracing {
                assert(f[10] == tc);
                assert(f.contains(tc));
                lemma_joined_contains_all(f, 10);
                lemma_contains_concat_left(rendered, user, tc);
            } else {
                assert(f.len() == 10);
                assert(forall|i: int| 0 <= i < 10 ==> f[i] != tc);
                assert(!f.contains(tc));
            }
        },
        BuildMode::ReleaseNotInstrumented => {
            assert(f.len() == 6);
            assert(forall|i: int| 0 <= i < 6 ==> f[i] != sancov && f[i] != tc);
            assert(!f.contains(sancov));
            assert(!f.contains(tc));
        },
        BuildMode::Debug => {
            assert(f.len() == 7);
            assert(forall|i: int| 0 <= i < 7 ==> f[i] != sancov && f[i] != tc);
            assert(!f.contains(sancov));
            assert(!f.contains(tc));
        },
    }
}

/// The debug mode always selects the unwinding panic strategy and no
/// optimization; both release modes always select the aborting panic
/// strategy and maximum optimization — in the flag-group list and, for the
/// mode's own settings, as substrings of the assembled string.
pub proof fn lemma_mode_settings(mode: BuildMode, comparison_tracing: bool, user: Seq<char>)
    ensures
        flags_spec(mode, comparison_tracing).contains("-C panic=unwind"@) <==> mode
            == BuildMode::Debug,
        flags_spec(mode, comparison_tracing).contains("-C opt-level=0"@) <==> mode
            == BuildMode::Debug,
        flags_spec(mode, comparison_tracing).contains("-C panic=abort"@) <==> mode
            != BuildMode::Debug,
        flags_spec(mode, comparison_tracing).contains("-C opt-level=3"@) <==> mode
            != BuildMode::Debug,
        mode == BuildMode::Debug ==> contains_seq(
            rustflags_spec(mode, comparison_tracing, user),
            "-C panic=unwind"@,
        ) && contains_seq(rustflags_spec(mode, comparison_tracing, user), "-C opt-level=0"@),
        mode != BuildMode::Debug ==> contains_seq(
            rustflags_spec(mode, comparison_tracing, user),
            "-C panic=abort"@,
        ) && contains_seq(rustflags_spec(mode, comparison_tracing, user), "-C opt-level=3"@),
{
    lemma_reveal_flag_literals();
    let f = flags_spec(mode, comparison_tracing);
    let rendered = joined_with_spaces(f);
    let unwind = "-C panic=unwind"@;
    let opt0 = "-C opt-level=0"@;
    let abort = "-C panic=abort"@;
    let opt3 = "-C opt-level=3"@;
    match mode {
        BuildMode::Debug => {
            assert(f[4] == unwind);
            assert(f[5] == opt0);
            assert(f.contains(unwind));
            assert(f.contains(opt0));
            assert(f.len() == 7);
            assert(forall|i: int| 0 <= i < 7 ==> f[i] != abort && f[i] != opt3);
            assert(!f.contains(abort));
            assert(!f.contains(opt3));
            lemma_joined_contains_all(f, 4);
            lemma_joined_contains_all(f, 5);
            lemma_contains_concat_left(rendered, user, unwind);
            lemma_contains_concat_left(rendered, user, opt0);
        },
        _ => {
            assert(f[3] == abort);
            assert(f[4] == opt3);
            assert(f.contains(abort));
            assert(f.contains(opt3));
            assert(forall|i: int| 0 <= i < f.len() ==> f[i] != unwind && f[i] != opt0);
            assert(!f.contains(unwind));
            assert(!f.contains(opt0));
            lemma_joined_contains_all(f, 3);
            lemma_joined_contains_all(f, 4);
            lemma_contains_concat_left(rendered, user, abort);
            lemma_contains_concat_left(rendered, user, opt3);
        },
    }
}

/// User-supplied flags always stand after the computed flags: the
/// assembled string is exactly the rendered computed groups followed by
/// the user's flags, so the toolchain's last-wins semantics let the user
/// override any computed setting.
pub proof fn lemma_user_flags_last(mode: BuildMode, comparison_tracing: bool, user: Seq<char>)
    ensures
        rustflags_spec(mode, comparison_tracing, user).len() == joined_with_spaces(
            flags_spec(mode, comparison_tracing),
        ).len() + user.len(),
        rustflags_spec(mode, comparison_tracing, user).skip(
            joined_with_spaces(flags_spec(mode, comparison_tracing)).len() as int,
        ) == user,
        rustflags_spec(mode, comparison_tracing, user).take(
            joined_with_spaces(flags_spec(mode, comparison_tracing)).len() as int,
        ) == joined_with_spaces(flags_spec(mode, comparison_tracing)),
{
    let computed = joined_with_spaces(flags_spec(mode, comparison_tracing));
    assert((computed + user).skip(computed.len() as int) =~= user);
    assert((computed + user).take(computed.len() as int) =~= computed);
}

/// Flag assembly is a pure function of the mode, the platform's
/// comparison-tracing support and the user-supplied flags: two assemblies
/// from identical inputs are byte-identical.
pub proof fn lemma_assembly_idempotent(
    mode: BuildMode,
    comparison_tracing: bool,
    user: Seq<char>,
    first: Seq<char>,
    second: Seq<char>,
)
    requires
        first == rustflags_spec(mode, comparison_tracing, user),
        second == rustflags_spec(mode, comparison_tracing, user),
    ensures
        first == second,
{
}

} // verus!
