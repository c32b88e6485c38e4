//! Local judge engine for solving judge-style programming problems.
//!
//! The library models a problem workspace (per-language toolchain
//! descriptors, a solution entry file, stored samples), resolves which
//! toolchain a solution uses, drives the compile/run/cleanup pipeline as a
//! state machine, normalizes program output, and compares it against the
//! expected output to produce verdicts. All of it is verified; the
//! surrounding binary performs the actual file and subprocess work and feeds
//! plain values in and out.

pub mod config;
pub mod defaults;
pub mod errors;
pub mod judge;
pub mod level;
pub mod problem;
pub mod pipeline;
pub mod resolver;
pub mod text;
pub mod tokenize;
