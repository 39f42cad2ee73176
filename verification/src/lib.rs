//! Decision core of a build/run orchestrator for continuous fuzzing.
//!
//! The library contains the verified logic of the orchestrator: mapping a
//! build mode to compiler flags and environment overrides, resolving
//! workspace and artifact paths, locating the project root, parsing the
//! host target triple, selecting a debugger dialect, and dispatching CLI
//! verbs.  Process launching, filesystem probing and environment access
//! live outside the library and hand it plain values.

pub mod strutil;
pub mod flags;
pub mod paths;
pub mod locate;
pub mod dispatch;
pub mod executor;
pub mod debugger;
pub mod triple;
pub mod args;
