//! Debugger selection and invocation for reproducing a crash.
//!
//! An environment variable names the debugger binary; its file name — the
//! part after the last path separator, trailing separators ignored —
//! decides between the LLDB argument dialect and the generic GDB-style
//! one, since the two take scripted commands differently.  The debugger is
//! launched with three scripted commands: break on the runtime's panic
//! entry point, run, print a backtrace.  The crash file is handed to the
//! target program through a dedicated environment variable, not through
//! its argument list.

use vstd::prelude::*;
use crate::strutil::contains_seq;
use crate::strutil::contains_str;

verus! {

/// `s` with every trailing `/` removed.
pub open spec fn strip_trailing_slashes(s: Seq<char>) -> Seq<char>
    decreases s.len(),
{
    if s.len() > 0 && s[s.len() - 1] == '/' {
        strip_trailing_slashes(s.drop_last())
    } else {
        s
    }
}

/// The suffix of `s` after its last `/`, or all of `s` when it has none.
pub open spec fn after_last_slash(s: Seq<char>) -> Seq<char>
    decreases s.len(),
{
    if s.len() == 0 {
        s
    } else if s[s.len() - 1] == '/' {
        Seq::<char>::empty()
    } else {
        after_last_slash(s.drop_last()).push(s[s.len() - 1])
    }
}

/// The file name of the debugger path: the part after the last separator,
/// trailing separators ignored.
pub open spec fn file_name_spec(s: Seq<char>) -> Seq<char> {
    after_last_slash(strip_trailing_slashes(s))
}

/// The two argument dialects for scripted debugger commands.
#[derive(Clone, Copy, PartialEq, Eq, Structural, Debug)]
pub enum DebuggerDialect {
    Lldb,
    Gdb,
}

/// An LLDB-family debugger is recognized by its file name; everything else
/// gets the GDB-style dialect.
pub open spec fn dialect_spec(debugger: Seq<char>) -> DebuggerDialect {
    if contains_seq(file_name_spec(debugger), "lldb"@) {
        DebuggerDialect::Lldb
    } else {
        DebuggerDialect::Gdb
    }
}

/// Extracts the file-name part of `path`.
pub fn file_name_part(path: &str) -> (r: String)
    ensures
        r@ == file_name_spec(path@),
{
    let len = path.unicode_len();
    let mut end = len;
    proof {
        assert(path@.take(len as int) =~= path@);
    }
    while end > 0 && path.get_char(end - 1) == '/'
        invariant
            end <= len,
            len == path@.len(),
            strip_trailing_slashes(path@) == strip_trailing_slashes(path@.take(end as int)),
        decreases end,
    {
        proof {
            assert(path@.take(end as int).drop_last() =~= path@.take(end - 1));
        }
        end -= 1;
    }
    proof {
        assert(strip_trailing_slashes(path@.take(end as int)) == path@.take(end as int));
    }
    let mut start = end;
    while start > 0 && path.get_char(start - 1) != '/'
        invariant
            start <= end,
            end <= len,
            len == path@.len(),
            after_last_slash(path@.take(end as int)) =~= after_last_slash(
                path@.take(start as int),
            ) + path@.subrange(start as int, end as int),
        decreases start,
    {
        proof {
            assert(path@.take(start as int).drop_last() =~= path@.take(start - 1));
            assert(after_last_slash(path@.take(start as int)) =~= after_last_slash(
                path@.take(start - 1),
            ).push(path@[start - 1]));
            assert(after_last_slash(path@.take(start - 1)).push(path@[start - 1])
                + path@.subrange(start as int, end as int) =~= after_last_slash(
                path@.take(start - 1),
            ) + path@.subrange(start - 1, end as int));
        }
        start -= 1;
    }
    proof {
        assert(after_last_slash(path@.take(start as int)) =~= Seq::<char>::empty());
        assert(file_name_spec(path@) =~= path@.subrange(start as int, end as int));
    }
    path.substring_char(start, end).to_owned()
}

/// Chooses the argument dialect from the debugger binary's file name.
pub fn debugger_dialect(debugger: &str) -> (r: DebuggerDialect)
    ensures
        r == dialect_spec(debugger@),
{
    let name = file_name_part(debugger);
    if contains_str(name.as_str(), "lldb") {
        DebuggerDialect::Lldb
    } else {
        DebuggerDialect::Gdb
    }
}

/// The debugger's argument list, pre-seeded with a breakpoint on the
/// runtime's panic entry point, a run command and a backtrace command, and
/// naming the built artifact; the crash file is absent on purpose — it
/// travels in the environment.
pub fn debugger_argv(dialect: DebuggerDialect, artifact: &str) -> (r: Vec<String>)
    ensures
        dialect == DebuggerDialect::Lldb ==> r.deep_view() == seq![
            "-o"@,
            "b rust_panic"@,
            "-o"@,
            "r"@,
            "-o"@,
            "bt"@,
            "-f"@,
            artifact@,
            "--"@,
        ],
        dialect == DebuggerDialect::Gdb ==> r.deep_view() == seq![
            "-ex"@,
            "b rust_panic"@,
            "-ex"@,
            "r"@,
            "-ex"@,
            "bt"@,
            "--args"@,
            artifact@,
        ],
{
    let mut v: Vec<String> = Vec::new();
    match dialect {
        DebuggerDialect::Lldb => {
            v.push("-o".to_owned());
            v.push("b rust_panic".to_owned());
            v.push("-o".to_owned());
            v.push("r".to_owned());
            v.push("-o".to_owned());
            v.push("bt".to_owned());
            v.push("-f".to_owned());
            v.push(artifact.to_owned());
            v.push("--".to_owned());
            proof {
                assert(v.deep_view() =~= seq![
                    "-o"@,
                    "b rust_panic"@,
                    "-o"@,
                    "r"@,
                    "-o"@,
                    "bt"@,
                    "-f"@,
                    artifact@,
                    "--"@,
                ]);
            }
        },
        DebuggerDialect::Gdb => {
            v.push("-ex".to_owned());
            v.push("b rust_panic".to_owned());
            v.push("-ex".to_owned());
            v.push("r".to_owned());
            v.push("-ex".to_owned());
            v.push("bt".to_owned());
            v.push("--args".to_owned());
            v.push(artifact.to_owned());
            proof {
                assert(v.deep_view() =~= seq![
                    "-ex"@,
                    "b rust_panic"@,
                    "-ex"@,
                    "r"@,
                    "-ex"@,
                    "bt"@,
                    "--args"@,
                    artifact@,
                ]);
            }
        },
    }
    v
}

/// Environment overrides for the debugger's child: the crash file under
/// its dedicated variable, and backtraces forced on unless the user
/// already chose a verbosity.
pub fn debug_env_overrides(crash_filename: &str, backtrace: Option<String>) -> (r: Vec<
    (String, String),
>)
    ensures
        r.deep_view().len() == 2,
        r.deep_view()[0] == ("CARGO_HONGGFUZZ_CRASH_FILENAME"@, crash_filename@),
        r.deep_view()[1].0 == "RUST_BACKTRACE"@,
        backtrace is Some ==> r.deep_view()[1].1 == backtrace.unwrap()@,
        backtrace is None ==> r.deep_view()[1].1 == "1"@,
{
    let mut v: Vec<(String, String)> = Vec::new();
    v.push(("CARGO_HONGGFUZZ_CRASH_FILENAME".to_owned(), crash_filename.to_owned()));
    let bt = match backtrace {
        Some(b) => b,
        None => "1".to_owned(),
    };
    v.push(("RUST_BACKTRACE".to_owned(), bt));
    v
}

} // verus!
